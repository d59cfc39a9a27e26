use httpie::HttpieError;
use httpie::KvPair;

#[test]
fn parse_splits_on_first_eq() {
    let p = KvPair::parse("a=1").unwrap();
    assert_eq!(p.k, "a");
    assert_eq!(p.v, "1");
}

#[test]
fn parse_keeps_later_eq_in_value() {
    let p = KvPair::parse("key=a=b").unwrap();
    assert_eq!(p.k, "key");
    assert_eq!(p.v, "a=b");
}

#[test]
fn parse_allows_empty_key() {
    let p = KvPair::parse("=v").unwrap();
    assert_eq!(p.k, "");
    assert_eq!(p.v, "v");
}

#[test]
fn parse_allows_empty_value() {
    let p = KvPair::parse("a=").unwrap();
    assert_eq!(p.k, "a");
    assert_eq!(p.v, "");
}

#[test]
fn parse_rejects_token_without_eq() {
    let r = KvPair::parse("novalue");
    assert!(matches!(r, Err(HttpieError::MalformedPair)));
}

#[test]
fn parse_rejects_empty_token() {
    let r = KvPair::parse("");
    assert!(matches!(r, Err(HttpieError::MalformedPair)));
}

#[test]
fn error_messages_name_the_cause() {
    assert_eq!(
        HttpieError::MalformedPair.message(),
        "body token is not a key=value pair"
    );
    assert_eq!(
        HttpieError::InvalidUrl.message(),
        "the URL is not a valid absolute URL"
    );
}
