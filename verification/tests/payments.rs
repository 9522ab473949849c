use tiny_shop::payments::{
    Invoice, InvoiceRequest, PaymentError, PaymentEvent, PaymentStatus, RefundRequest, RefundStatus, SplitReceiver,
};

#[test]
fn payment_error_messages() {
    assert_eq!(PaymentError::Provider("timeout".to_string()).message(), "provider error: timeout");
    assert_eq!(PaymentError::Webhook("bad signature".to_string()).message(), "invalid webhook: bad signature");
}

#[test]
fn invoice_request_splits_among_sellers() {
    let req = InvoiceRequest {
        order_id: "o1".to_string(),
        amount_minor: 10_000,
        currency: "UAH".to_string(),
        splits: vec![
            SplitReceiver { merchant_id: "m1".to_string(), amount_minor: 6_000 },
            SplitReceiver { merchant_id: "m2".to_string(), amount_minor: 3_500 },
        ],
        redirect_url: "https://shop.example/checkout/done/o1".to_string(),
    };
    let commission = req.amount_minor - req.splits.iter().map(|s| s.amount_minor).sum::<i64>();
    assert_eq!(commission, 500);
    let invoice = Invoice { invoice_id: "inv".to_string(), pay_url: "https://pay".to_string() };
    let event = PaymentEvent { invoice_id: invoice.invoice_id.clone(), status: PaymentStatus::Paid };
    assert_eq!(event.status, PaymentStatus::Paid);
    let refund = RefundRequest { invoice_id: invoice.invoice_id, amount_minor: 100 };
    assert_eq!(refund.amount_minor, 100);
    assert_ne!(RefundStatus::Done, RefundStatus::Failed);
}
