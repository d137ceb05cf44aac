use ib_tws_core::{DepthMktDataDescription, MarketDataType, MarketDataTypeMsg, NewsProvider, TagValue};

#[test]
fn depth_description_keeps_fields() {
    let d = DepthMktDataDescription::new("ISLAND", "STK", "NASDAQ", "Deep", 7);
    assert_eq!(d.exchange, "ISLAND");
    assert_eq!(d.sec_type, "STK");
    assert_eq!(d.listing_exch, "NASDAQ");
    assert_eq!(d.service_data_type, "Deep");
    assert_eq!(d.agg_group, 7);
}

#[test]
fn depth_description_empty_strings() {
    let d = DepthMktDataDescription::new("", "", "", "", -1);
    assert!(d.exchange.is_empty() && d.sec_type.is_empty());
    assert!(d.listing_exch.is_empty() && d.service_data_type.is_empty());
    assert_eq!(d.agg_group, -1);
}

#[test]
fn news_provider_keeps_fields() {
    let p = NewsProvider::new("BRFG", "Briefing.com General Market Columns");
    assert_eq!(p.code, "BRFG");
    assert_eq!(p.name, "Briefing.com General Market Columns");
}

#[test]
fn tag_value_keeps_fields() {
    let t = TagValue::new("XYZ", "1");
    assert_eq!(t.tag, "XYZ");
    assert_eq!(t.value, "1");
}

#[test]
fn tag_value_equality() {
    assert_eq!(TagValue::new("a", "b"), TagValue::new("a", "b"));
    assert_ne!(TagValue::new("a", "b"), TagValue::new("a", "c"));
    assert_ne!(TagValue::new("a", "b"), TagValue::new("x", "b"));
}

#[test]
fn market_data_type_msg_fields() {
    let m = MarketDataTypeMsg { req_id: 12, market_data_type: MarketDataType::DELAYED };
    assert_eq!(m.req_id, 12);
    assert_eq!(m.market_data_type.code(), 3);
}
