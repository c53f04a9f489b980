use racegate::app::config::parse_u8;
use racegate::app::{address, address_from_env_var};
use racegate::svc::dashboard::ws_url_from_hostname;
use racegate::svc::race_node::NodeAddress;

#[test]
fn configured_address_is_read_from_decimal_text() {
    assert_eq!(address_from_env_var(Some("0")), Some(NodeAddress::coordinator()));
    assert_eq!(address_from_env_var(Some("1")), Some(NodeAddress::start()));
    assert_eq!(address_from_env_var(Some("32")), Some(NodeAddress::finish()));
    assert_eq!(address_from_env_var(Some("255")), Some(NodeAddress::from(255)));
    assert_eq!(address_from_env_var(Some("+32")), Some(NodeAddress::finish()));
    assert_eq!(address_from_env_var(Some("0032")), Some(NodeAddress::finish()));
}

#[test]
fn no_configured_address() {
    assert_eq!(address_from_env_var(None), None);
    for text in ["", "+", "-", "-1", "256", "1000", "99999999999999999999", "1 ", " 1", "0x20",
        "3_2", "one", "1.0", "++1", "1+", "\u{661}"]
    {
        assert_eq!(address_from_env_var(Some(text)), None, "{:?}", text);
    }
}

#[test]
fn parsing_agrees_with_the_standard_parser() {
    let mut texts: Vec<String> = Vec::new();
    for n in 0..1200u32 {
        texts.push(format!("{}", n));
        texts.push(format!("+{}", n));
        texts.push(format!("-{}", n));
        texts.push(format!("0{}", n));
        texts.push(format!("{}a", n));
        texts.push(format!(" {}", n));
    }
    for text in ["", "+", "-", "+-1", "000", "0000000000000000000255", "0000000000000000000256",
        "25 5", "2/5", "2:5", "/", ":"]
    {
        texts.push(text.to_string());
    }
    for text in &texts {
        assert_eq!(parse_u8(text.as_bytes()), text.parse::<u8>().ok(), "{:?}", text);
        assert_eq!(
            address_from_env_var(Some(text.as_str())),
            text.parse::<u8>().ok().map(NodeAddress::from),
            "{:?}",
            text
        );
    }
}

#[test]
fn configured_address_comes_before_the_switch() {
    assert_eq!(address(Some(NodeAddress::start()), NodeAddress::finish()), NodeAddress::start());
    assert_eq!(address(None, NodeAddress::finish()), NodeAddress::finish());
    assert_eq!(
        address(address_from_env_var(Some("0")), NodeAddress::finish()),
        NodeAddress::coordinator()
    );
    assert_eq!(
        address(address_from_env_var(Some("zero")), NodeAddress::finish()),
        NodeAddress::finish()
    );
}

#[test]
fn dashboard_url() {
    assert_eq!(ws_url_from_hostname(None), "ws://192.168.71.1/state");
    assert_eq!(ws_url_from_hostname(Some("racegate.local")), "ws://racegate.local/state");
    assert_eq!(ws_url_from_hostname(Some("")), "ws:///state");
}
