//! Data model: entities, their mathematical views, the DTOs consumed by
//! create and update operations, and the per-resource filter and search
//! query types. Monetary amounts are held as exact integer cents so that
//! aggregation never loses precision.

use vstd::prelude::*;
use crate::error::AppError;
use crate::pagination::PaginationParams;

verus! {

// ---------------------------------------------------------------------------
// Customer
// ---------------------------------------------------------------------------
/// Mathematical view of a customer row.
pub struct CustomerView {
    pub customer_id: Seq<char>,
    pub customer_unique_id: Seq<char>,
    pub customer_zip_code_prefix: Seq<char>,
    pub customer_city: Seq<char>,
    pub customer_state: Seq<char>,
}

#[derive(Debug, PartialEq)]
pub struct Customer {
    pub customer_id: String,
    pub customer_unique_id: String,
    pub customer_zip_code_prefix: String,
    pub customer_city: String,
    pub customer_state: String,
}

impl View for Customer {
    type V = CustomerView;

    open spec fn view(&self) -> CustomerView {
        CustomerView {
            customer_id: self.customer_id@,
            customer_unique_id: self.customer_unique_id@,
            customer_zip_code_prefix: self.customer_zip_code_prefix@,
            customer_city: self.customer_city@,
            customer_state: self.customer_state@,
        }
    }
}

impl DeepView for Customer {
    type V = CustomerView;

    open spec fn deep_view(&self) -> CustomerView {
        self.view()
    }
}

impl Clone for Customer {
    fn clone(&self) -> (r: Self)
        ensures
            r@ == self@,
    {
        Customer {
            customer_id: self.customer_id.clone(),
            customer_unique_id: self.customer_unique_id.clone(),
            customer_zip_code_prefix: self.customer_zip_code_prefix.clone(),
            customer_city: self.customer_city.clone(),
            customer_state: self.customer_state.clone(),
        }
    }
}

/// Payload of a customer creation; its view is the view of the row it
/// creates.
#[derive(Debug)]
pub struct CreateCustomerDto {
    pub customer_id: String,
    pub customer_unique_id: String,
    pub customer_zip_code_prefix: String,
    pub customer_city: String,
    pub customer_state: String,
}

impl View for CreateCustomerDto {
    type V = CustomerView;

    open spec fn view(&self) -> CustomerView {
        CustomerView {
            customer_id: self.customer_id@,
            customer_unique_id: self.customer_unique_id@,
            customer_zip_code_prefix: self.customer_zip_code_prefix@,
            customer_city: self.customer_city@,
            customer_state: self.customer_state@,
        }
    }
}

impl CreateCustomerDto {
    /// Every field of a new customer is required.
    pub open spec fn valid(&self) -> bool {
        &&& self.customer_id@.len() > 0
        &&& self.customer_unique_id@.len() > 0
        &&& self.customer_zip_code_prefix@.len() > 0
        &&& self.customer_city@.len() > 0
        &&& self.customer_state@.len() > 0
    }

    /// Name of the first field that fails validation, in declaration order.
    pub open spec fn first_invalid(&self) -> Seq<char> {
        if self.customer_id@.len() == 0 {
            "customer_id"@
        } else if self.customer_unique_id@.len() == 0 {
            "customer_unique_id"@
        } else if self.customer_zip_code_prefix@.len() == 0 {
            "customer_zip_code_prefix"@
        } else if self.customer_city@.len() == 0 {
            "customer_city"@
        } else {
            "customer_state"@
        }
    }

    /// The validation collaborator for customer creation: succeeds exactly
    /// on valid payloads, otherwise reports the first offending field.
    pub fn validate(&self) -> (r: Result<(), AppError>)
        ensures
            self.valid() <==> r is Ok,
            !self.valid() ==> (r matches Err(AppError::ValidationError(f)) && f@
                == self.first_invalid()),
    {
        if self.customer_id.as_str().is_empty() {
            Err(AppError::ValidationError(String::from_str("customer_id")))
        } else if self.customer_unique_id.as_str().is_empty() {
            Err(AppError::ValidationError(String::from_str("customer_unique_id")))
        } else if self.customer_zip_code_prefix.as_str().is_empty() {
            Err(AppError::ValidationError(String::from_str("customer_zip_code_prefix")))
        } else if self.customer_city.as_str().is_empty() {
            Err(AppError::ValidationError(String::from_str("customer_city")))
        } else if self.customer_state.as_str().is_empty() {
            Err(AppError::ValidationError(String::from_str("customer_state")))
        } else {
            Ok(())
        }
    }
}

/// Partial customer update: absent fields leave the stored value untouched.
pub struct UpdateCustomerDtoView {
    pub customer_unique_id: Option<Seq<char>>,
    pub customer_zip_code_prefix: Option<Seq<char>>,
    pub customer_city: Option<Seq<char>>,
    pub customer_state: Option<Seq<char>>,
}

#[derive(Debug)]
pub struct UpdateCustomerDto {
    pub customer_unique_id: Option<String>,
    pub customer_zip_code_prefix: Option<String>,
    pub customer_city: Option<String>,
    pub customer_state: Option<String>,
}

impl View for UpdateCustomerDto {
    type V = UpdateCustomerDtoView;

    open spec fn view(&self) -> UpdateCustomerDtoView {
        UpdateCustomerDtoView {
            customer_unique_id: self.customer_unique_id.deep_view(),
            customer_zip_code_prefix: self.customer_zip_code_prefix.deep_view(),
            customer_city: self.customer_city.deep_view(),
            customer_state: self.customer_state.deep_view(),
        }
    }
}

/// Coalesce semantics of a partial update: each present field overwrites
/// the stored one, each absent field keeps it; the identifier never moves.
pub open spec fn apply_update(c: CustomerView, d: UpdateCustomerDtoView) -> CustomerView {
    CustomerView {
        customer_id: c.customer_id,
        customer_unique_id: match d.customer_unique_id {
            Some(v) => v,
            None => c.customer_unique_id,
        },
        customer_zip_code_prefix: match d.customer_zip_code_prefix {
            Some(v) => v,
            None => c.customer_zip_code_prefix,
        },
        customer_city: match d.customer_city {
            Some(v) => v,
            None => c.customer_city,
        },
        customer_state: match d.customer_state {
            Some(v) => v,
            None => c.customer_state,
        },
    }
}

impl UpdateCustomerDto {
    /// An update with no fields set is a no-op request.
    pub open spec fn is_empty_update(&self) -> bool {
        &&& self.customer_unique_id is None
        &&& self.customer_zip_code_prefix is None
        &&& self.customer_city is None
        &&& self.customer_state is None
    }

    /// Every field that is present must be non-empty.
    pub open spec fn valid(&self) -> bool {
        &&& (self.customer_unique_id matches Some(v) ==> v@.len() > 0)
        &&& (self.customer_zip_code_prefix matches Some(v) ==> v@.len() > 0)
        &&& (self.customer_city matches Some(v) ==> v@.len() > 0)
        &&& (self.customer_state matches Some(v) ==> v@.len() > 0)
    }

    /// Name of the first present-but-empty field, in declaration order.
    pub open spec fn first_invalid(&self) -> Seq<char> {
        if self.customer_unique_id matches Some(v) && v@.len() == 0 {
            "customer_unique_id"@
        } else if self.customer_zip_code_prefix matches Some(v) && v@.len() == 0 {
            "customer_zip_code_prefix"@
        } else if self.customer_city matches Some(v) && v@.len() == 0 {
            "customer_city"@
        } else {
            "customer_state"@
        }
    }

    /// The validation collaborator for customer updates.
    pub fn validate(&self) -> (r: Result<(), AppError>)
        ensures
            self.valid() <==> r is Ok,
            !self.valid() ==> (r matches Err(AppError::ValidationError(f)) && f@
                == self.first_invalid()),
    {
        if match &self.customer_unique_id {
            Some(v) => v.as_str().is_empty(),
            None => false,
        } {
            Err(AppError::ValidationError(String::from_str("customer_unique_id")))
        } else if match &self.customer_zip_code_prefix {
            Some(v) => v.as_str().is_empty(),
            None => false,
        } {
            Err(AppError::ValidationError(String::from_str("customer_zip_code_prefix")))
        } else if match &self.customer_city {
            Some(v) => v.as_str().is_empty(),
            None => false,
        } {
            Err(AppError::ValidationError(String::from_str("customer_city")))
        } else if match &self.customer_state {
            Some(v) => v.as_str().is_empty(),
            None => false,
        } {
            Err(AppError::ValidationError(String::from_str("customer_state")))
        } else {
            Ok(())
        }
    }

    /// Whether the DTO carries no field at all, decided executably.
    pub fn has_no_fields(&self) -> (r: bool)
        ensures
            r == self.is_empty_update(),
    {
        self.customer_unique_id.is_none() && self.customer_zip_code_prefix.is_none()
            && self.customer_city.is_none() && self.customer_state.is_none()
    }
}

// ---------------------------------------------------------------------------
// Seller
// ---------------------------------------------------------------------------
pub struct SellerView {
    pub seller_id: Seq<char>,
    pub seller_zip_code_prefix: Seq<char>,
    pub seller_city: Seq<char>,
    pub seller_state: Seq<char>,
}

#[derive(Debug, PartialEq)]
pub struct Seller {
    pub seller_id: String,
    pub seller_zip_code_prefix: String,
    pub seller_city: String,
    pub seller_state: String,
}

impl View for Seller {
    type V = SellerView;

    open spec fn view(&self) -> SellerView {
        SellerView {
            seller_id: self.seller_id@,
            seller_zip_code_prefix: self.seller_zip_code_prefix@,
            seller_city: self.seller_city@,
            seller_state: self.seller_state@,
        }
    }
}

impl DeepView for Seller {
    type V = SellerView;

    open spec fn deep_view(&self) -> SellerView {
        self.view()
    }
}

impl Clone for Seller {
    fn clone(&self) -> (r: Self)
        ensures
            r@ == self@,
    {
        Seller {
            seller_id: self.seller_id.clone(),
            seller_zip_code_prefix: self.seller_zip_code_prefix.clone(),
            seller_city: self.seller_city.clone(),
            seller_state: self.seller_state.clone(),
        }
    }
}

#[derive(Debug)]
pub struct CreateSellerDto {
    pub seller_id: String,
    pub seller_zip_code_prefix: String,
    pub seller_city: String,
    pub seller_state: String,
}

impl View for CreateSellerDto {
    type V = SellerView;

    open spec fn view(&self) -> SellerView {
        SellerView {
            seller_id: self.seller_id@,
            seller_zip_code_prefix: self.seller_zip_code_prefix@,
            seller_city: self.seller_city@,
            seller_state: self.seller_state@,
        }
    }
}

impl CreateSellerDto {
    pub open spec fn valid(&self) -> bool {
        &&& self.seller_id@.len() > 0
        &&& self.seller_zip_code_prefix@.len() > 0
        &&& self.seller_city@.len() > 0
        &&& self.seller_state@.len() > 0
    }

    pub open spec fn first_invalid(&self) -> Seq<char> {
        if self.seller_id@.len() == 0 {
            "seller_id"@
        } else if self.seller_zip_code_prefix@.len() == 0 {
            "seller_zip_code_prefix"@
        } else if self.seller_city@.len() == 0 {
            "seller_city"@
        } else {
            "seller_state"@
        }
    }

    /// The validation collaborator for seller creation.
    pub fn validate(&self) -> (r: Result<(), AppError>)
        ensures
            self.valid() <==> r is Ok,
            !self.valid() ==> (r matches Err(AppError::ValidationError(f)) && f@
                == self.first_invalid()),
    {
        if self.seller_id.as_str().is_empty() {
            Err(AppError::ValidationError(String::from_str("seller_id")))
        } else if self.seller_zip_code_prefix.as_str().is_empty() {
            Err(AppError::ValidationError(String::from_str("seller_zip_code_prefix")))
        } else if self.seller_city.as_str().is_empty() {
            Err(AppError::ValidationError(String::from_str("seller_city")))
        } else if self.seller_state.as_str().is_empty() {
            Err(AppError::ValidationError(String::from_str("seller_state")))
        } else {
            Ok(())
        }
    }
}

// ---------------------------------------------------------------------------
// Order and order items
// ---------------------------------------------------------------------------
pub struct OrderView {
    pub order_id: Seq<char>,
    pub customer_id: Seq<char>,
    pub order_status: Seq<char>,
    pub order_purchase_timestamp: Seq<char>,
    pub order_approved_at: Seq<char>,
    pub order_delivered_carrier_date: Seq<char>,
    pub order_delivered_customer_date: Seq<char>,
    pub order_estimated_delivery_date: Seq<char>,
}

#[derive(Debug, PartialEq)]
pub struct Order {
    pub order_id: String,
    pub customer_id: String,
    pub order_status: String,
    pub order_purchase_timestamp: String,
    pub order_approved_at: String,
    pub order_delivered_carrier_date: String,
    pub order_delivered_customer_date: String,
    pub order_estimated_delivery_date: String,
}

impl View for Order {
    type V = OrderView;

    open spec fn view(&self) -> OrderView {
        OrderView {
            order_id: self.order_id@,
            customer_id: self.customer_id@,
            order_status: self.order_status@,
            order_purchase_timestamp: self.order_purchase_timestamp@,
            order_approved_at: self.order_approved_at@,
            order_delivered_carrier_date: self.order_delivered_carrier_date@,
            order_delivered_customer_date: self.order_delivered_customer_date@,
            order_estimated_delivery_date: self.order_estimated_delivery_date@,
        }
    }
}

impl DeepView for Order {
    type V = OrderView;

    open spec fn deep_view(&self) -> OrderView {
        self.view()
    }
}

impl Clone for Order {
    fn clone(&self) -> (r: Self)
        ensures
            r@ == self@,
    {
        Order {
            order_id: self.order_id.clone(),
            customer_id: self.customer_id.clone(),
            order_status: self.order_status.clone(),
            order_purchase_timestamp: self.order_purchase_timestamp.clone(),
            order_approved_at: self.order_approved_at.clone(),
            order_delivered_carrier_date: self.order_delivered_carrier_date.clone(),
            order_delivered_customer_date: self.order_delivered_customer_date.clone(),
            order_estimated_delivery_date: self.order_estimated_delivery_date.clone(),
        }
    }
}

#[derive(Debug)]
pub struct CreateOrderDto {
    pub order_id: String,
    pub customer_id: String,
    pub order_status: String,
    pub order_purchase_timestamp: String,
    pub order_approved_at: String,
    pub order_delivered_carrier_date: String,
    pub order_delivered_customer_date: String,
    pub order_estimated_delivery_date: String,
}

impl View for CreateOrderDto {
    type V = OrderView;

    open spec fn view(&self) -> OrderView {
        OrderView {
            order_id: self.order_id@,
            customer_id: self.customer_id@,
            order_status: self.order_status@,
            order_purchase_timestamp: self.order_purchase_timestamp@,
            order_approved_at: self.order_approved_at@,
            order_delivered_carrier_date: self.order_delivered_carrier_date@,
            order_delivered_customer_date: self.order_delivered_customer_date@,
            order_estimated_delivery_date: self.order_estimated_delivery_date@,
        }
    }
}

impl CreateOrderDto {
    /// Identifier, owning customer and status are required; the delivery
    /// timeline fields may be empty while an order is in flight.
    pub open spec fn valid(&self) -> bool {
        &&& self.order_id@.len() > 0
        &&& self.customer_id@.len() > 0
        &&& self.order_status@.len() > 0
    }

    pub open spec fn first_invalid(&self) -> Seq<char> {
        if self.order_id@.len() == 0 {
            "order_id"@
        } else if self.customer_id@.len() == 0 {
            "customer_id"@
        } else {
            "order_status"@
        }
    }

    /// The validation collaborator for order creation.
    pub fn validate(&self) -> (r: Result<(), AppError>)
        ensures
            self.valid() <==> r is Ok,
            !self.valid() ==> (r matches Err(AppError::ValidationError(f)) && f@
                == self.first_invalid()),
    {
        if self.order_id.as_str().is_empty() {
            Err(AppError::ValidationError(String::from_str("order_id")))
        } else if self.customer_id.as_str().is_empty() {
            Err(AppError::ValidationError(String::from_str("customer_id")))
        } else if self.order_status.as_str().is_empty() {
            Err(AppError::ValidationError(String::from_str("order_status")))
        } else {
            Ok(())
        }
    }
}

pub struct OrderItemView {
    pub order_item_id: int,
    pub order_id: Seq<char>,
    pub product_id: Seq<char>,
    pub seller_id: Seq<char>,
    pub shipping_limit_date: Seq<char>,
    pub price: int,
    pub freight_value: int,
}

/// A line of an order; `price` and `freight_value` are exact cents.
#[derive(Debug, PartialEq)]
pub struct OrderItem {
    pub order_item_id: i32,
    pub order_id: String,
    pub product_id: String,
    pub seller_id: String,
    pub shipping_limit_date: String,
    pub price: u32,
    pub freight_value: u32,
}

impl View for OrderItem {
    type V = OrderItemView;

    open spec fn view(&self) -> OrderItemView {
        OrderItemView {
            order_item_id: self.order_item_id as int,
            order_id: self.order_id@,
            product_id: self.product_id@,
            seller_id: self.seller_id@,
            shipping_limit_date: self.shipping_limit_date@,
            price: self.price as int,
            freight_value: self.freight_value as int,
        }
    }
}

impl DeepView for OrderItem {
    type V = OrderItemView;

    open spec fn deep_view(&self) -> OrderItemView {
        self.view()
    }
}

impl Clone for OrderItem {
    fn clone(&self) -> (r: Self)
        ensures
            r@ == self@,
    {
        OrderItem {
            order_item_id: self.order_item_id,
            order_id: self.order_id.clone(),
            product_id: self.product_id.clone(),
            seller_id: self.seller_id.clone(),
            shipping_limit_date: self.shipping_limit_date.clone(),
            price: self.price,
            freight_value: self.freight_value,
        }
    }
}

pub struct AddItemToOrderDtoView {
    pub order_item_id: int,
    pub product_id: Seq<char>,
    pub seller_id: Seq<char>,
    pub shipping_limit_date: Seq<char>,
    pub price: int,
    pub freight_value: int,
}

#[derive(Debug)]
pub struct AddItemToOrderDto {
    pub order_item_id: i32,
    pub product_id: String,
    pub seller_id: String,
    pub shipping_limit_date: String,
    pub price: u32,
    pub freight_value: u32,
}

impl View for AddItemToOrderDto {
    type V = AddItemToOrderDtoView;

    open spec fn view(&self) -> AddItemToOrderDtoView {
        AddItemToOrderDtoView {
            order_item_id: self.order_item_id as int,
            product_id: self.product_id@,
            seller_id: self.seller_id@,
            shipping_limit_date: self.shipping_limit_date@,
            price: self.price as int,
            freight_value: self.freight_value as int,
        }
    }
}

/// The order item that adding `d` to order `order_id` creates.
pub open spec fn item_of(order_id: Seq<char>, d: AddItemToOrderDtoView) -> OrderItemView {
    OrderItemView {
        order_item_id: d.order_item_id,
        order_id: order_id,
        product_id: d.product_id,
        seller_id: d.seller_id,
        shipping_limit_date: d.shipping_limit_date,
        price: d.price,
        freight_value: d.freight_value,
    }
}

impl AddItemToOrderDto {
    pub open spec fn valid(&self) -> bool {
        &&& self.product_id@.len() > 0
        &&& self.seller_id@.len() > 0
    }

    pub open spec fn first_invalid(&self) -> Seq<char> {
        if self.product_id@.len() == 0 {
            "product_id"@
        } else {
            "seller_id"@
        }
    }

    /// The validation collaborator for adding an item to an order.
    pub fn validate(&self) -> (r: Result<(), AppError>)
        ensures
            self.valid() <==> r is Ok,
            !self.valid() ==> (r matches Err(AppError::ValidationError(f)) && f@
                == self.first_invalid()),
    {
        if self.product_id.as_str().is_empty() {
            Err(AppError::ValidationError(String::from_str("product_id")))
        } else if self.seller_id.as_str().is_empty() {
            Err(AppError::ValidationError(String::from_str("seller_id")))
        } else {
            Ok(())
        }
    }
}

// ---------------------------------------------------------------------------
// Product
// ---------------------------------------------------------------------------
pub struct ProductView {
    pub product_id: Seq<char>,
    pub product_category_name: Seq<char>,
    pub product_name_lenght: Option<i32>,
    pub product_description_lenght: Option<i32>,
    pub product_photos_qty: Option<i32>,
    pub product_weight_g: Option<i32>,
    pub product_length_cm: Option<i32>,
    pub product_height_cm: Option<i32>,
    pub product_width_cm: Option<i32>,
}

#[derive(Debug, PartialEq)]
pub struct Product {
    pub product_id: String,
    pub product_category_name: String,
    pub product_name_lenght: Option<i32>,
    pub product_description_lenght: Option<i32>,
    pub product_photos_qty: Option<i32>,
    pub product_weight_g: Option<i32>,
    pub product_length_cm: Option<i32>,
    pub product_height_cm: Option<i32>,
    pub product_width_cm: Option<i32>,
}

impl View for Product {
    type V = ProductView;

    open spec fn view(&self) -> ProductView {
        ProductView {
            product_id: self.product_id@,
            product_category_name: self.product_category_name@,
            product_name_lenght: self.product_name_lenght,
            product_description_lenght: self.product_description_lenght,
            product_photos_qty: self.product_photos_qty,
            product_weight_g: self.product_weight_g,
            product_length_cm: self.product_length_cm,
            product_height_cm: self.product_height_cm,
            product_width_cm: self.product_width_cm,
        }
    }
}

impl DeepView for Product {
    type V = ProductView;

    open spec fn deep_view(&self) -> ProductView {
        self.view()
    }
}

impl Clone for Product {
    fn clone(&self) -> (r: Self)
        ensures
            r@ == self@,
    {
        Product {
            product_id: self.product_id.clone(),
            product_category_name: self.product_category_name.clone(),
            product_name_lenght: self.product_name_lenght,
            product_description_lenght: self.product_description_lenght,
            product_photos_qty: self.product_photos_qty,
            product_weight_g: self.product_weight_g,
            product_length_cm: self.product_length_cm,
            product_height_cm: self.product_height_cm,
            product_width_cm: self.product_width_cm,
        }
    }
}

#[derive(Debug)]
pub struct CreateProductDto {
    pub product_id: String,
    pub product_category_name: String,
    pub product_name_lenght: Option<i32>,
    pub product_description_lenght: Option<i32>,
    pub product_photos_qty: Option<i32>,
    pub product_weight_g: Option<i32>,
    pub product_length_cm: Option<i32>,
    pub product_height_cm: Option<i32>,
    pub product_width_cm: Option<i32>,
}

impl View for CreateProductDto {
    type V = ProductView;

    open spec fn view(&self) -> ProductView {
        ProductView {
            product_id: self.product_id@,
            product_category_name: self.product_category_name@,
            product_name_lenght: self.product_name_lenght,
            product_description_lenght: self.product_description_lenght,
            product_photos_qty: self.product_photos_qty,
            product_weight_g: self.product_weight_g,
            product_length_cm: self.product_length_cm,
            product_height_cm: self.product_height_cm,
            product_width_cm: self.product_width_cm,
        }
    }
}

impl CreateProductDto {
    /// Only the identifier is required; measurements are optional and the
    /// category may be absent from the catalogue data.
    pub open spec fn valid(&self) -> bool {
        self.product_id@.len() > 0
    }

    pub open spec fn first_invalid(&self) -> Seq<char> {
        "product_id"@
    }

    /// The validation collaborator for product creation.
    pub fn validate(&self) -> (r: Result<(), AppError>)
        ensures
            self.valid() <==> r is Ok,
            !self.valid() ==> (r matches Err(AppError::ValidationError(f)) && f@
                == self.first_invalid()),
    {
        if self.product_id.as_str().is_empty() {
            Err(AppError::ValidationError(String::from_str("product_id")))
        } else {
            Ok(())
        }
    }
}

// ---------------------------------------------------------------------------
// Read-only joins: order products, payments, reviews
// ---------------------------------------------------------------------------
pub struct OrderProductView {
    pub product_id: Seq<char>,
    pub product_category_name: Seq<char>,
    pub product_name_lenght: Option<i32>,
    pub product_description_lenght: Option<i32>,
    pub product_photos_qty: Option<i32>,
    pub product_weight_g: Option<i32>,
    pub product_length_cm: Option<i32>,
    pub product_height_cm: Option<i32>,
    pub product_width_cm: Option<i32>,
    pub shipping_limit_date: Seq<char>,
    pub price: int,
    pub freight_value: int,
}

/// One row of the product/order-item join for an order; `price` and
/// `freight_value` are exact cents.
#[derive(Debug, PartialEq)]
pub struct OrderProduct {
    pub product_id: String,
    pub product_category_name: String,
    pub product_name_lenght: Option<i32>,
    pub product_description_lenght: Option<i32>,
    pub product_photos_qty: Option<i32>,
    pub product_weight_g: Option<i32>,
    pub product_length_cm: Option<i32>,
    pub product_height_cm: Option<i32>,
    pub product_width_cm: Option<i32>,
    pub shipping_limit_date: String,
    pub price: u32,
    pub freight_value: u32,
}

impl View for OrderProduct {
    type V = OrderProductView;

    open spec fn view(&self) -> OrderProductView {
        OrderProductView {
            product_id: self.product_id@,
            product_category_name: self.product_category_name@,
            product_name_lenght: self.product_name_lenght,
            product_description_lenght: self.product_description_lenght,
            product_photos_qty: self.product_photos_qty,
            product_weight_g: self.product_weight_g,
            product_length_cm: self.product_length_cm,
            product_height_cm: self.product_height_cm,
            product_width_cm: self.product_width_cm,
            shipping_limit_date: self.shipping_limit_date@,
            price: self.price as int,
            freight_value: self.freight_value as int,
        }
    }
}

impl DeepView for OrderProduct {
    type V = OrderProductView;

    open spec fn deep_view(&self) -> OrderProductView {
        self.view()
    }
}

impl Clone for OrderProduct {
    fn clone(&self) -> (r: Self)
        ensures
            r@ == self@,
    {
        OrderProduct {
            product_id: self.product_id.clone(),
            product_category_name: self.product_category_name.clone(),
            product_name_lenght: self.product_name_lenght,
            product_description_lenght: self.product_description_lenght,
            product_photos_qty: self.product_photos_qty,
            product_weight_g: self.product_weight_g,
            product_length_cm: self.product_length_cm,
            product_height_cm: self.product_height_cm,
            product_width_cm: self.product_width_cm,
            shipping_limit_date: self.shipping_limit_date.clone(),
            price: self.price,
            freight_value: self.freight_value,
        }
    }
}

/// The joined row for `product` appearing on an order through `item`.
pub open spec fn joined_row(p: ProductView, item: OrderItemView) -> OrderProductView {
    OrderProductView {
        product_id: p.product_id,
        product_category_name: p.product_category_name,
        product_name_lenght: p.product_name_lenght,
        product_description_lenght: p.product_description_lenght,
        product_photos_qty: p.product_photos_qty,
        product_weight_g: p.product_weight_g,
        product_length_cm: p.product_length_cm,
        product_height_cm: p.product_height_cm,
        product_width_cm: p.product_width_cm,
        shipping_limit_date: item.shipping_limit_date,
        price: item.price,
        freight_value: item.freight_value,
    }
}

pub struct PaymentView {
    pub order_id: Seq<char>,
    pub payment_sequential: int,
    pub payment_type: Seq<char>,
    pub payment_installments: int,
    pub payment_value: int,
}

/// A payment recorded against an order; `payment_value` is exact cents.
#[derive(Debug, PartialEq)]
pub struct Payment {
    pub order_id: String,
    pub payment_sequential: i32,
    pub payment_type: String,
    pub payment_installments: i32,
    pub payment_value: u32,
}

impl View for Payment {
    type V = PaymentView;

    open spec fn view(&self) -> PaymentView {
        PaymentView {
            order_id: self.order_id@,
            payment_sequential: self.payment_sequential as int,
            payment_type: self.payment_type@,
            payment_installments: self.payment_installments as int,
            payment_value: self.payment_value as int,
        }
    }
}

impl DeepView for Payment {
    type V = PaymentView;

    open spec fn deep_view(&self) -> PaymentView {
        self.view()
    }
}

impl Clone for Payment {
    fn clone(&self) -> (r: Self)
        ensures
            r@ == self@,
    {
        Payment {
            order_id: self.order_id.clone(),
            payment_sequential: self.payment_sequential,
            payment_type: self.payment_type.clone(),
            payment_installments: self.payment_installments,
            payment_value: self.payment_value,
        }
    }
}

pub struct ReviewView {
    pub review_id: Seq<char>,
    pub order_id: Seq<char>,
    pub review_score: int,
    pub review_comment_title: Seq<char>,
    pub review_comment_message: Seq<char>,
    pub review_creation_date: Seq<char>,
    pub review_answer_timestamp: Seq<char>,
}

#[derive(Debug, PartialEq)]
pub struct Review {
    pub review_id: String,
    pub order_id: String,
    pub review_score: i32,
    pub review_comment_title: String,
    pub review_comment_message: String,
    pub review_creation_date: String,
    pub review_answer_timestamp: String,
}

impl View for Review {
    type V = ReviewView;

    open spec fn view(&self) -> ReviewView {
        ReviewView {
            review_id: self.review_id@,
            order_id: self.order_id@,
            review_score: self.review_score as int,
            review_comment_title: self.review_comment_title@,
            review_comment_message: self.review_comment_message@,
            review_creation_date: self.review_creation_date@,
            review_answer_timestamp: self.review_answer_timestamp@,
        }
    }
}

impl DeepView for Review {
    type V = ReviewView;

    open spec fn deep_view(&self) -> ReviewView {
        self.view()
    }
}

impl Clone for Review {
    fn clone(&self) -> (r: Self)
        ensures
            r@ == self@,
    {
        Review {
            review_id: self.review_id.clone(),
            order_id: self.order_id.clone(),
            review_score: self.review_score,
            review_comment_title: self.review_comment_title.clone(),
            review_comment_message: self.review_comment_message.clone(),
            review_creation_date: self.review_creation_date.clone(),
            review_answer_timestamp: self.review_answer_timestamp.clone(),
        }
    }
}

/// An order's product list together with the exact aggregate monetary
/// value (`price + freight_value` summed across every joined row, in
/// cents).
#[derive(Debug, PartialEq)]
pub struct OrderProductResponse {
    pub products: Vec<OrderProduct>,
    pub total_value: u128,
}

// ---------------------------------------------------------------------------
// Filters and search queries
// ---------------------------------------------------------------------------
/// Optional equality predicate bag on location fields. Absence of a field
/// means "no constraint", never "match empty".
pub struct LocationFilterView {
    pub city: Option<Seq<char>>,
    pub state: Option<Seq<char>>,
}

#[derive(Debug)]
pub struct LocationFilter {
    pub city: Option<String>,
    pub state: Option<String>,
}

/// Customers and sellers are both filtered by location.
pub type CustomerFilter = LocationFilter;

pub type SellerFilter = LocationFilter;

impl View for LocationFilter {
    type V = LocationFilterView;

    open spec fn view(&self) -> LocationFilterView {
        LocationFilterView { city: self.city.deep_view(), state: self.state.deep_view() }
    }
}

/// Whether a customer satisfies every present filter field, by equality.
pub open spec fn customer_matches(c: CustomerView, f: LocationFilterView) -> bool {
    &&& (f.city matches Some(v) ==> c.customer_city == v)
    &&& (f.state matches Some(v) ==> c.customer_state == v)
}

/// Whether a seller satisfies every present filter field, by equality.
pub open spec fn seller_matches(s: SellerView, f: LocationFilterView) -> bool {
    &&& (f.city matches Some(v) ==> s.seller_city == v)
    &&& (f.state matches Some(v) ==> s.seller_state == v)
}

/// Optional equality filter on the order status.
pub struct OrderFilterView {
    pub status: Option<Seq<char>>,
}

#[derive(Debug)]
pub struct OrderFilter {
    pub status: Option<String>,
}

impl View for OrderFilter {
    type V = OrderFilterView;

    open spec fn view(&self) -> OrderFilterView {
        OrderFilterView { status: self.status.deep_view() }
    }
}

/// Whether an order satisfies the status filter.
pub open spec fn order_matches(o: OrderView, f: OrderFilterView) -> bool {
    f.status matches Some(v) ==> o.order_status == v
}

/// Optional equality filter on the product category.
pub struct ProductFilterView {
    pub category_name: Option<Seq<char>>,
}

#[derive(Debug)]
pub struct ProductFilter {
    pub category_name: Option<String>,
}

impl View for ProductFilter {
    type V = ProductFilterView;

    open spec fn view(&self) -> ProductFilterView {
        ProductFilterView { category_name: self.category_name.deep_view() }
    }
}

/// Whether a product satisfies the category filter.
pub open spec fn product_matches(p: ProductView, f: ProductFilterView) -> bool {
    f.category_name matches Some(v) ==> p.product_category_name == v
}

/// List-endpoint query for customers and sellers: location filter fields
/// plus pagination input, all optional.
#[derive(Debug)]
pub struct LocationSearchQuery {
    pub city: Option<String>,
    pub state: Option<String>,
    pub page: Option<i32>,
    pub page_size: Option<i32>,
}

impl LocationSearchQuery {
    /// Pagination projection of the query.
    pub fn pagination(&self) -> (r: PaginationParams)
        ensures
            r.page == self.page,
            r.page_size == self.page_size,
    {
        PaginationParams { page: self.page, page_size: self.page_size }
    }

    /// Filter projection of the query; never fails, absent fields are
    /// simply omitted from the predicate.
    pub fn filter(&self) -> (r: LocationFilter)
        ensures
            r@.city == self.city.deep_view(),
            r@.state == self.state.deep_view(),
    {
        LocationFilter { city: self.city.clone(), state: self.state.clone() }
    }
}

/// List-endpoint query for orders.
#[derive(Debug)]
pub struct OrderSearchQuery {
    pub status: Option<String>,
    pub page: Option<i32>,
    pub page_size: Option<i32>,
}

impl OrderSearchQuery {
    pub fn pagination(&self) -> (r: PaginationParams)
        ensures
            r.page == self.page,
            r.page_size == self.page_size,
    {
        PaginationParams { page: self.page, page_size: self.page_size }
    }

    pub fn filter(&self) -> (r: OrderFilter)
        ensures
            r@.status == self.status.deep_view(),
    {
        OrderFilter { status: self.status.clone() }
    }
}

/// List-endpoint query for products.
#[derive(Debug)]
pub struct ProductSearchQuery {
    pub category_name: Option<String>,
    pub page: Option<i32>,
    pub page_size: Option<i32>,
}

impl ProductSearchQuery {
    pub fn pagination(&self) -> (r: PaginationParams)
        ensures
            r.page == self.page,
            r.page_size == self.page_size,
    {
        PaginationParams { page: self.page, page_size: self.page_size }
    }

    pub fn filter(&self) -> (r: ProductFilter)
        ensures
            r@.category_name == self.category_name.deep_view(),
    {
        ProductFilter { category_name: self.category_name.clone() }
    }
}

} // verus!
