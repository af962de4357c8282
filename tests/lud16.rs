use std::str::FromStr;

use lnurl_pay::{Error, LightningAddress, LnUrl};

#[test]
fn test_parsing() {
    let address = LightningAddress::parse("ben@opreturnbot.com").unwrap();
    assert_eq!(
        address.endpoint(),
        "https://opreturnbot.com/.well-known/lnurlp/ben"
    );
    assert_eq!(address.to_string(), String::from("ben@opreturnbot.com"))
}

#[test]
fn test_invalid_parsing() {
    assert!(LightningAddress::from_str("invalid").is_err());
    assert!(LightningAddress::from_str("####").is_err());
    assert!(LightningAddress::from_str("LNURL1DP68GURN8GHJ7UM9WFMXJCM99E3K7MF0V9CXJ0M385EKVCENXC6R2C35XVUKXEFCV5MKVV34X5EKZD3EV56NYD3HXQURZEPEXEJXXEPNXSCRVWFNV9NXZCN9XQ6XYEFHVGCXXCMYXYMNSERXFQ5FNS").is_err());
}

#[test]
fn test_lnurl() {
    let address = LightningAddress::from_str("ben@opreturnbot.com").unwrap();
    let lnurl = LnUrl::from_str("lnurl1dp68gurn8ghj7mmswfjhgatjde3x7apwvdhk6tewwajkcmpdddhx7amw9akxuatjd3cz7cn9dc94s6d4").unwrap();
    assert_eq!(address.lnurl(), lnurl);
}

#[test]
fn parse_empty_fails() {
    assert!(matches!(
        LightningAddress::parse(""),
        Err(Error::InvalidLightningAddress)
    ));
}

#[test]
fn parse_other_address() {
    let address = LightningAddress::parse("yuki@getalby.com").unwrap();
    assert_eq!(
        address.endpoint(),
        "https://getalby.com/.well-known/lnurlp/yuki"
    );
    assert_eq!(address.to_string(), "yuki@getalby.com");
}

#[test]
fn parse_keeps_first_two_segments() {
    let address = LightningAddress::parse("a@b@c").unwrap();
    assert_eq!(address.to_string(), "a@b");
    assert_eq!(address.endpoint(), "https://b/.well-known/lnurlp/a");
}

#[test]
fn parse_allows_empty_parts() {
    let address = LightningAddress::parse("@").unwrap();
    assert_eq!(address.endpoint(), "https:///.well-known/lnurlp/");
}

#[test]
fn parse_non_ascii_name() {
    let address = LightningAddress::parse("jürgen@bücher.de").unwrap();
    assert_eq!(
        address.endpoint(),
        "https://bücher.de/.well-known/lnurlp/jürgen"
    );
}

#[test]
fn address_identifier_encodes_to_known_text() {
    let address = LightningAddress::parse("ben@opreturnbot.com").unwrap();
    assert_eq!(
        address.lnurl().encode().unwrap(),
        "lnurl1dp68gurn8ghj7mmswfjhgatjde3x7apwvdhk6tewwajkcmpdddhx7amw9akxuatjd3cz7cn9dc94s6d4"
    );
}
