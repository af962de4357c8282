use lnurl_pay::Error;

#[test]
fn messages() {
    assert_eq!(Error::InvalidLnUrl.message(), "Invalid LNURL");
    assert_eq!(Error::InvalidLightningAddress.message(), "Invalid Lightning Address");
    assert_eq!(Error::UnknownTag.message(), "Unknown tag");
    assert_eq!(
        Error::AmountTooLow { msats: 999, min: 1000 }.message(),
        "Amount too low: 999 msats (min. 1000 msats)"
    );
    assert_eq!(
        Error::AmountTooHigh { msats: 5000001, max: 5000000 }.message(),
        "Amount too high: 5000001 msats (max. 5000000 msats)"
    );
    assert_eq!(
        Error::CantGetInvoice(Some(String::from("bad amount"))).message(),
        "Can't get invoice: bad amount"
    );
    assert_eq!(Error::CantGetInvoice(None).message(), "Can't get invoice: unknown");
}

#[test]
fn zero_amounts_in_messages() {
    assert_eq!(
        Error::AmountTooLow { msats: 0, min: 1 }.message(),
        "Amount too low: 0 msats (min. 1 msats)"
    );
}

#[test]
fn encode_error_message_is_not_empty() {
    let err = lnurl_pay::LnUrl::new("a".repeat(1000)).encode().unwrap_err();
    assert!(!err.message().is_empty());
}
