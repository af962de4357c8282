use lnurl_pay::api::{
    invoice_request_url, invoice_result, pay_request_url, LnURLPayInvoice, Lud06OrLud16,
    PayResponse, TagRequest,
};
use lnurl_pay::{Error, LightningAddress, LnUrl};

fn pay(callback: &str) -> PayResponse {
    PayResponse {
        callback: callback.to_string(),
        max_sendable: 5_000_000,
        min_sendable: 1000,
        tag: TagRequest::Pay,
        metadata: String::from("[[\"text/plain\",\"hi\"]]"),
        allows_nostr: Some(true),
    }
}

#[test]
fn zero_amount_is_refused_before_any_request() {
    let lud = Lud06OrLud16::from(LnUrl::new(String::from("https://x.com/p")));
    assert!(matches!(
        pay_request_url(&lud, 0),
        Err(Error::AmountTooLow { msats: 0, min: 1 })
    ));
}

#[test]
fn first_request_goes_to_endpoint() {
    let address = LightningAddress::parse("ben@opreturnbot.com").unwrap();
    let lud = Lud06OrLud16::from(address);
    assert_eq!(
        pay_request_url(&lud, 1).unwrap(),
        "https://opreturnbot.com/.well-known/lnurlp/ben"
    );
    let lud = Lud06OrLud16::from(LnUrl::new(String::from("https://x.com/p?a=1")));
    assert_eq!(lud.endpoint(), "https://x.com/p?a=1");
}

#[test]
fn amount_below_minimum() {
    assert!(matches!(
        invoice_request_url(&pay("https://x.com/cb"), 999, None, None),
        Err(Error::AmountTooLow { msats: 999, min: 1000 })
    ));
}

#[test]
fn amount_above_maximum() {
    assert!(matches!(
        invoice_request_url(&pay("https://x.com/cb"), 5_000_001, None, None),
        Err(Error::AmountTooHigh { msats: 5_000_001, max: 5_000_000 })
    ));
}

#[test]
fn amounts_at_bounds_are_accepted() {
    let p = pay("https://x.com/cb");
    assert_eq!(
        invoice_request_url(&p, 1000, None, None).unwrap(),
        "https://x.com/cb?amount=1000"
    );
    assert_eq!(
        invoice_request_url(&p, 5_000_000, None, None).unwrap(),
        "https://x.com/cb?amount=5000000"
    );
}

#[test]
fn callback_with_query_uses_ampersand() {
    assert_eq!(
        invoice_request_url(&pay("https://x.com/cb?k=v"), 1000, None, None).unwrap(),
        "https://x.com/cb?k=v&amount=1000"
    );
}

#[test]
fn parameters_in_fixed_order() {
    let url = invoice_request_url(
        &pay("https://x.com/cb"),
        21000,
        Some(String::from("Your comment")),
        Some(String::from("{}")),
    )
    .unwrap();
    assert_eq!(url, "https://x.com/cb?amount=21000&nostr={}&comment=Your comment");
    let url = invoice_request_url(
        &pay("https://x.com/cb"),
        4096,
        Some(String::from("c")),
        None,
    )
    .unwrap();
    assert_eq!(url, "https://x.com/cb?amount=4096&comment=c");
}

#[test]
fn largest_amount_is_written_in_full() {
    let mut p = pay("https://x.com/cb");
    p.max_sendable = u64::MAX;
    assert_eq!(
        invoice_request_url(&p, u64::MAX, None, None).unwrap(),
        "https://x.com/cb?amount=18446744073709551615"
    );
}

#[test]
fn missing_invoice_carries_reason() {
    let inv = LnURLPayInvoice {
        pr: None,
        status: Some(String::from("ERROR")),
        reason: Some(String::from("bad amount")),
    };
    match invoice_result(inv) {
        Err(Error::CantGetInvoice(Some(reason))) => assert_eq!(reason, "bad amount"),
        _ => panic!("expected a refusal with its reason"),
    }
    let inv = LnURLPayInvoice { pr: None, status: None, reason: None };
    assert!(matches!(invoice_result(inv), Err(Error::CantGetInvoice(None))));
}

#[test]
fn present_invoice_is_returned() {
    let inv = LnURLPayInvoice {
        pr: Some(String::from("lnbc1...")),
        status: None,
        reason: None,
    };
    assert_eq!(invoice_result(inv).unwrap(), "lnbc1...");
}

#[test]
fn tags_are_recognised() {
    assert_eq!(TagRequest::parse("payRequest").unwrap(), TagRequest::Pay);
    assert_eq!(TagRequest::parse("withdrawRequest").unwrap(), TagRequest::Withdraw);
    assert_eq!(TagRequest::parse("channelRequest").unwrap(), TagRequest::Channel);
    assert!(matches!(TagRequest::parse("payrequest"), Err(Error::UnknownTag)));
    assert!(matches!(TagRequest::parse(""), Err(Error::UnknownTag)));
}
