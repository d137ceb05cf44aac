use std::convert::TryFrom;

use ib_tws_core::market_data::{
    ASK_PAST_HIGH_BIT, BID_PAST_LOW_BIT, CAN_AUTO_EXECUTE_BIT, PAST_LIMIT_BIT, PRE_OPEN_BIT,
    UNREPORTED_BIT,
};
use ib_tws_core::tick_type::LAST_KNOWN_TICK_CODE;
use ib_tws_core::{GenericTick, MarketDataType, TickAttr, TickByTickType, TickType};

#[test]
fn tick_type_known_codes_round_trip() {
    for code in 0..=LAST_KNOWN_TICK_CODE {
        let t = TickType::from(code);
        assert_ne!(t, TickType::UNKNOWN, "code {}", code);
        assert_eq!(t.code(), code);
    }
}

#[test]
fn tick_type_selected_codes() {
    assert_eq!(TickType::from(0), TickType::BID_SIZE);
    assert_eq!(TickType::from(1), TickType::BID);
    assert_eq!(TickType::from(8), TickType::VOLUME);
    assert_eq!(TickType::from(49), TickType::HALTED);
    assert_eq!(TickType::from(102), TickType::FINAL_IPO_LAST);
    assert_eq!(TickType::ETF_NAV_LOW.code(), 99);
    assert_eq!(TickType::UNKNOWN.code(), i32::MAX);
}

#[test]
fn tick_type_unknown_codes() {
    for code in [-1, 103, 1000, i32::MIN, i32::MAX - 1, i32::MAX] {
        assert_eq!(TickType::from(code), TickType::UNKNOWN, "code {}", code);
    }
    let t: TickType = 250.into();
    assert_eq!(t, TickType::UNKNOWN);
}

#[test]
fn tick_type_default_is_unknown() {
    assert_eq!(TickType::default(), TickType::UNKNOWN);
}

#[test]
fn tick_type_names() {
    assert_eq!(TickType::BID.name(), "bidPrice");
    assert_eq!(TickType::VOLUME.name(), "volume");
    assert_eq!(TickType::BID_SIZE.to_string(), "bidSize");
    assert_eq!(TickType::LOW_13_WEEK.name(), "13WeekLow");
    assert_eq!(TickType::TRADE_RATE.name(), "trades/min");
    assert_eq!(TickType::UNKNOWN.name(), "unknown");
    assert_eq!(TickType::FINAL_IPO_LAST.name(), "finalIPOLast");
}

#[test]
fn display_names_are_deterministic() {
    for code in 0..=LAST_KNOWN_TICK_CODE {
        let t = TickType::from(code);
        assert_eq!(t.to_string(), TickType::from(code).to_string());
    }
    assert_eq!(MarketDataType::FROZEN.to_string(), MarketDataType::FROZEN.to_string());
    assert_eq!(TickByTickType::BidAsk.to_string(), TickByTickType::BidAsk.to_string());
}

#[test]
fn market_data_type_round_trip() {
    for code in 1..=4 {
        let m = MarketDataType::try_from(code).unwrap();
        assert_eq!(m.code(), code);
    }
    assert_eq!(MarketDataType::try_from(1), Ok(MarketDataType::REALTIME));
    assert_eq!(MarketDataType::try_from(4), Ok(MarketDataType::DELAYED_FROZEN));
}

#[test]
fn market_data_type_unknown_codes_fail() {
    for code in [0, 5, -1, 100, i32::MIN, i32::MAX] {
        assert_eq!(MarketDataType::try_from(code), Err(code), "code {}", code);
    }
}

#[test]
fn market_data_type_names() {
    assert_eq!(MarketDataType::REALTIME.to_string(), "Real-Time");
    assert_eq!(MarketDataType::FROZEN.name(), "Frozen");
    assert_eq!(MarketDataType::DELAYED.name(), "Delayed");
    assert_eq!(MarketDataType::DELAYED_FROZEN.name(), "Delayed-Frozen");
}

#[test]
fn tick_by_tick_type_round_trip() {
    for code in 1..=4 {
        let k = TickByTickType::try_from(code).unwrap();
        assert_eq!(k.code(), code);
    }
    assert_eq!(TickByTickType::try_from(2), Ok(TickByTickType::AllLast));
    assert_eq!(TickByTickType::try_from(3), Ok(TickByTickType::BidAsk));
}

#[test]
fn tick_by_tick_type_unknown_codes_fail() {
    for code in [0, 5, -4, i32::MAX] {
        assert_eq!(TickByTickType::try_from(code), Err(code), "code {}", code);
    }
}

#[test]
fn tick_by_tick_type_names() {
    assert_eq!(TickByTickType::Last.name(), "Last");
    assert_eq!(TickByTickType::AllLast.name(), "AllLast");
    assert_eq!(TickByTickType::BidAsk.to_string(), "BidAsk");
    assert_eq!(TickByTickType::MidPoint.name(), "MidPoint");
}

#[test]
fn generic_tick_codes() {
    assert_eq!(GenericTick::OptionVolume.code(), 100);
    assert_eq!(GenericTick::OptionOpenInterest.code(), 101);
    assert_eq!(GenericTick::HistoricalVolatility.code(), 104);
    assert_eq!(GenericTick::MiscellaneousStats.code(), 165);
    assert_eq!(GenericTick::RtVolume.code(), 233);
    assert_eq!(GenericTick::IbDividends.code(), 456);
}

#[test]
fn tick_attr_all_bits_set() {
    let all = TickAttr {
        can_auto_execute: true,
        past_limit: true,
        pre_open: true,
        unreported: true,
        bid_past_low: true,
        ask_past_high: true,
    };
    assert_eq!(TickAttr::decode(63), all);
    assert_eq!(TickAttr::decode(-1), all);
    assert_eq!(TickAttr::decode(63 | 1024), all);
    assert_eq!(TickAttr::decode(i32::MAX), all);
}

#[test]
fn tick_attr_zero_is_default() {
    assert_eq!(TickAttr::decode(0), TickAttr::default());
    let d = TickAttr::default();
    assert!(!d.can_auto_execute && !d.past_limit && !d.pre_open);
    assert!(!d.unreported && !d.bid_past_low && !d.ask_past_high);
}

#[test]
fn tick_attr_single_bits() {
    assert!(TickAttr::decode(CAN_AUTO_EXECUTE_BIT).can_auto_execute);
    assert!(TickAttr::decode(PAST_LIMIT_BIT).past_limit);
    assert!(TickAttr::decode(PRE_OPEN_BIT).pre_open);
    assert!(TickAttr::decode(UNREPORTED_BIT).unreported);
    assert!(TickAttr::decode(BID_PAST_LOW_BIT).bid_past_low);
    assert!(TickAttr::decode(ASK_PAST_HIGH_BIT).ask_past_high);
    let a = TickAttr::decode(PAST_LIMIT_BIT | BID_PAST_LOW_BIT | 64);
    assert!(a.past_limit && a.bid_past_low);
    assert!(!a.can_auto_execute && !a.pre_open && !a.unreported && !a.ask_past_high);
}
