//! Sales of minute packages. A sale paid on the site is stored confirmed
//! and credits the buyer at once; one paid through Stripe or PayPal is
//! stored pending and credits the buyer when the payment service reports
//! back. An administrator who sets a sale's status credits the buyer only
//! when the new status is the confirmed one.

use vstd::prelude::*;
use crate::models::{NewPaypalPayment, NewProductList, NewStripePayment};
use crate::numbers::{parse_i32, parse_i32_spec};

verus! {

/// The status of a sale waiting for its payment.
pub open spec fn pending_status() -> i32 {
    0
}

/// The status of a confirmed sale.
pub open spec fn confirmed_status() -> i32 {
    1
}

/// How a sale is paid.
#[derive(Clone, Copy, Debug, PartialEq, Eq, Structural)]
pub enum PaymentChannel {
    /// Paid on the site's own form.
    Direct,
    Stripe,
    Paypal,
}

/// The status a new sale paid through `channel` is stored with.
pub open spec fn initial_status_of(channel: PaymentChannel) -> i32 {
    if channel == PaymentChannel::Direct {
        confirmed_status()
    } else {
        pending_status()
    }
}

/// Whether an administrator setting a sale to `status` credits its value to the buyer.
pub open spec fn credits_buyer(status: i32) -> bool {
    status == confirmed_status()
}

/// The status a new sale is stored with.
pub fn initial_sale_status(channel: PaymentChannel) -> (res: i32)
    ensures
        res == initial_status_of(channel),
{
    match channel {
        PaymentChannel::Direct => 1,
        PaymentChannel::Stripe => 0,
        PaymentChannel::Paypal => 0,
    }
}

/// Whether an administrator setting a sale to `status` credits its value to the buyer.
pub fn status_credits_buyer(status: i32) -> (res: bool)
    ensures
        res == credits_buyer(status),
{
    status == 1
}

/// A new sale holds one unit of one product, paid in money.
pub fn sale_line(product_id: i32, sale_id: i32) -> (res: NewProductList)
    ensures
        res.product_list_amount == 1,
        !res.product_list_use_points,
        res.product_id == product_id,
        res.sale_id == sale_id,
{
    NewProductList { product_list_amount: 1, product_list_use_points: false, product_id, sale_id }
}

/// The record that ties a Stripe payment source to its sale.
pub fn stripe_payment_record(source: &str, sale_id: i32) -> (res: NewStripePayment)
    ensures
        res.stripe_payment_source@ == source@,
        res.sale_id == sale_id,
{
    NewStripePayment { stripe_payment_source: String::from_str(source), sale_id }
}

/// The record that ties a PayPal reference code to its sale.
pub fn paypal_payment_record(reference: &str, sale_id: i32) -> (res: NewPaypalPayment)
    ensures
        res.paypal_payment_source_identifier@ == reference@,
        res.paypal_payment_sale_id == sale_id,
{
    NewPaypalPayment { paypal_payment_source_identifier: String::from_str(reference), paypal_payment_sale_id: sale_id }
}

/// What Stripe reports about a charge.
#[derive(Debug)]
pub struct SourceData {
    pub stripe_source: String,
    pub status: String,
    pub product_id: String,
}

/// What a Stripe report does to its sale: the status to store and the
/// product whose value and bonus are credited to the buyer (a report
/// credits the buyer whatever status it carries).
#[derive(Clone, Copy, Debug, PartialEq, Eq, Structural)]
pub struct StripeUpdate {
    pub status: i32,
    pub product_id: i32,
}

/// The update a Stripe report asks for: its status and product fields read
/// as numbers; `None` when either is not one (the server refuses the report).
pub fn stripe_sale_update(charge: &SourceData) -> (res: Option<StripeUpdate>)
    ensures
        res == match (parse_i32_spec(charge.status@), parse_i32_spec(charge.product_id@)) {
            (Some(status), Some(product_id)) => Some(StripeUpdate { status, product_id }),
            _ => None,
        },
{
    match (parse_i32(charge.status.as_str()), parse_i32(charge.product_id.as_str())) {
        (Some(status), Some(product_id)) => Some(StripeUpdate { status, product_id }),
        _ => None,
    }
}

/// A sale paid through Stripe or PayPal credits nobody when it is stored,
/// and a sale paid on the site credits its buyer as it is stored: a new
/// sale credits its buyer exactly when it was paid on the site.
pub proof fn lemma_only_direct_sales_credit_at_once(channel: PaymentChannel)
    ensures
        credits_buyer(initial_status_of(channel)) <==> channel == PaymentChannel::Direct,
{
}

} // verus!
