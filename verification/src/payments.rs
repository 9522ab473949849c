//! Types of the split-payment interface: an invoice whose amount is divided among sellers, the
//! platform keeping its commission, and the events of the provider's webhooks.

use vstd::prelude::*;

verus! {

/// Failure of a payment provider, or a webhook that does not verify.
#[derive(Debug, Clone)]
pub enum PaymentError {
    Provider(String),
    Webhook(String),
}

/// A seller receiving part of a payment, with its amount in minor units.
#[derive(Debug, Clone)]
pub struct SplitReceiver {
    pub merchant_id: String,
    pub amount_minor: i64,
}

/// An invoice to create: its total, its split among sellers (the platform's commission is
/// what remains) and where the buyer returns to.
#[derive(Debug, Clone)]
pub struct InvoiceRequest {
    pub order_id: String,
    pub amount_minor: i64,
    pub currency: String,
    pub splits: Vec<SplitReceiver>,
    pub redirect_url: String,
}

/// An invoice created by the provider.
#[derive(Debug, Clone)]
pub struct Invoice {
    pub invoice_id: String,
    pub pay_url: String,
}

#[derive(Debug, Clone, Copy, PartialEq, Eq, Structural)]
pub enum PaymentStatus {
    Pending,
    Paid,
    Failed,
    Refunded,
}

/// A refund to request.
#[derive(Debug, Clone)]
pub struct RefundRequest {
    pub invoice_id: String,
    pub amount_minor: i64,
}

#[derive(Debug, Clone, Copy, PartialEq, Eq, Structural)]
pub enum RefundStatus {
    Pending,
    Done,
    Failed,
}

/// An event of a provider's webhook, after its signature was checked.
#[derive(Debug, Clone)]
pub struct PaymentEvent {
    pub invoice_id: String,
    pub status: PaymentStatus,
}

impl PaymentError {
    /// The error's text: `provider error: <message>` or `invalid webhook: <message>`.
    pub fn message(&self) -> (r: String)
        ensures
            r@ == (match self {
                PaymentError::Provider(m) => "provider error: "@ + m@,
                PaymentError::Webhook(m) => "invalid webhook: "@ + m@,
            }),
    {
        match self {
            PaymentError::Provider(m) => {
                let mut r = "provider error: ".to_string();
                r.append(m.as_str());
                r
            },
            PaymentError::Webhook(m) => {
                let mut r = "invalid webhook: ".to_string();
                r.append(m.as_str());
                r
            },
        }
    }
}

} // verus!
