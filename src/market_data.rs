use vstd::prelude::*;

verus! {

/// Quality and latency class of a market-data subscription.
#[derive(Debug, Clone, Copy, PartialEq, Eq, Structural)]
#[allow(non_camel_case_types)]
pub enum MarketDataType {
    REALTIME,
    FROZEN,
    DELAYED,
    DELAYED_FROZEN,
}

impl MarketDataType {
    /// Wire code of the mode.
    pub open spec fn spec_code(self) -> i32 {
        match self {
            MarketDataType::REALTIME => 1,
            MarketDataType::FROZEN => 2,
            MarketDataType::DELAYED => 3,
            MarketDataType::DELAYED_FROZEN => 4,
        }
    }

    /// The mode that a wire code names; a code outside 1..=4 is an error
    /// that carries that code.
    pub open spec fn spec_decode(code: i32) -> Result<MarketDataType, i32> {
        if code == 1 {
            Ok(MarketDataType::REALTIME)
        } else if code == 2 {
            Ok(MarketDataType::FROZEN)
        } else if code == 3 {
            Ok(MarketDataType::DELAYED)
        } else if code == 4 {
            Ok(MarketDataType::DELAYED_FROZEN)
        } else {
            Err(code)
        }
    }

    /// Display name of the mode.
    pub open spec fn spec_name(self) -> Seq<char> {
        match self {
            MarketDataType::REALTIME => "Real-Time"@,
            MarketDataType::FROZEN => "Frozen"@,
            MarketDataType::DELAYED => "Delayed"@,
            MarketDataType::DELAYED_FROZEN => "Delayed-Frozen"@,
        }
    }

    /// Wire code of the mode, as sent in outbound requests.
    pub fn code(&self) -> (r: i32)
        ensures
            r == self.spec_code(),
    {
        match self {
            MarketDataType::REALTIME => 1,
            MarketDataType::FROZEN => 2,
            MarketDataType::DELAYED => 3,
            MarketDataType::DELAYED_FROZEN => 4,
        }
    }

    /// Display name of the mode, for logs and user interfaces.
    pub fn name(&self) -> (r: &'static str)
        ensures
            r@ == self.spec_name(),
    {
        match self {
            MarketDataType::REALTIME => "Real-Time",
            MarketDataType::FROZEN => "Frozen",
            MarketDataType::DELAYED => "Delayed",
            MarketDataType::DELAYED_FROZEN => "Delayed-Frozen",
        }
    }

    /// Display name of the mode as an owned string.
    pub fn to_string(&self) -> (r: String)
        ensures
            r@ == self.spec_name(),
    {
        self.name().to_string()
    }
}

impl TryFrom<i32> for MarketDataType {
    type Error = i32;

    /// Decodes a wire code; an unknown code is an error that carries it.
    fn try_from(v: i32) -> (r: Result<Self, Self::Error>)
        ensures
            r == Self::spec_decode(v),
    {
        if v == 1 {
            Ok(MarketDataType::REALTIME)
        } else if v == 2 {
            Ok(MarketDataType::FROZEN)
        } else if v == 3 {
            Ok(MarketDataType::DELAYED)
        } else if v == 4 {
            Ok(MarketDataType::DELAYED_FROZEN)
        } else {
            Err(v)
        }
    }
}

impl vstd::std_specs::convert::TryFromSpecImpl<i32> for MarketDataType {
    open spec fn obeys_try_from_spec() -> bool {
        true
    }

    open spec fn try_from_spec(v: i32) -> Result<Self, Self::Error> {
        Self::spec_decode(v)
    }
}

/// The mode codes are exactly 1 to 4: each of them decodes, and the mode
/// decoded has that code; every other code fails to decode, with an error
/// that carries it.
pub proof fn lemma_market_data_type_round_trip(code: i32)
    ensures
        (1 <= code <= 4) ==> MarketDataType::spec_decode(code) is Ok
            && MarketDataType::spec_decode(code)->Ok_0.spec_code() == code,
        !(1 <= code <= 4) ==> MarketDataType::spec_decode(code) == Err::<MarketDataType, i32>(code),
{
}

/// Decoding the code of a mode gives that mode back.
pub proof fn lemma_market_data_type_code_round_trip(m: MarketDataType)
    ensures
        MarketDataType::spec_decode(m.spec_code()) == Ok::<MarketDataType, i32>(m),
{
}

/// The display name depends on the mode alone: two equal modes have the same
/// name.
pub proof fn lemma_market_data_type_name_deterministic(a: MarketDataType, b: MarketDataType)
    requires
        a == b,
    ensures
        a.spec_name() == b.spec_name(),
{
}

/// The market-data mode that the gateway reports for a request.
#[derive(Debug, Clone, Copy, PartialEq, Eq, Structural)]
pub struct MarketDataTypeMsg {
    pub req_id: i32,
    pub market_data_type: MarketDataType,
}

/// One exchange's part in aggregated market depth.
#[derive(Debug, Clone)]
pub struct DepthMktDataDescription {
    pub exchange: String,
    pub sec_type: String,
    pub listing_exch: String,
    pub service_data_type: String,
    /// Group under which depth rows of related venues are merged.
    pub agg_group: i32,
}

impl DepthMktDataDescription {
    /// Assembles a description from its fields, unchanged.
    pub fn new(
        exchange: &str,
        sec_type: &str,
        listing_exch: &str,
        service_data_type: &str,
        agg_group: i32,
    ) -> (r: Self)
        ensures
            r.exchange@ == exchange@,
            r.sec_type@ == sec_type@,
            r.listing_exch@ == listing_exch@,
            r.service_data_type@ == service_data_type@,
            r.agg_group == agg_group,
    {
        DepthMktDataDescription {
            exchange: exchange.to_string(),
            sec_type: sec_type.to_string(),
            listing_exch: listing_exch.to_string(),
            service_data_type: service_data_type.to_string(),
            agg_group,
        }
    }
}

/// Bit of the attribute mask that sets `can_auto_execute`.
pub const CAN_AUTO_EXECUTE_BIT: i32 = 1;

/// Bit of the attribute mask that sets `past_limit`.
pub const PAST_LIMIT_BIT: i32 = 2;

/// Bit of the attribute mask that sets `pre_open`.
pub const PRE_OPEN_BIT: i32 = 4;

/// Bit of the attribute mask that sets `unreported`.
pub const UNREPORTED_BIT: i32 = 8;

/// Bit of the attribute mask that sets `bid_past_low`.
pub const BID_PAST_LOW_BIT: i32 = 16;

/// Bit of the attribute mask that sets `ask_past_high`.
pub const ASK_PAST_HIGH_BIT: i32 = 32;

/// The six attribute flags of a streaming tick.
#[derive(Debug, Clone, Copy, PartialEq, Eq, Structural)]
pub struct TickAttr {
    pub can_auto_execute: bool,
    pub past_limit: bool,
    pub pre_open: bool,
    pub unreported: bool,
    pub bid_past_low: bool,
    pub ask_past_high: bool,
}

impl TickAttr {
    /// All six flags cleared.
    pub open spec fn spec_default() -> TickAttr {
        TickAttr {
            can_auto_execute: false,
            past_limit: false,
            pre_open: false,
            unreported: false,
            bid_past_low: false,
            ask_past_high: false,
        }
    }

    /// The flags that a mask sets: each flag is its own bit, and all other
    /// bits are ignored.
    pub open spec fn spec_decode(mask: i32) -> TickAttr {
        TickAttr {
            can_auto_execute: mask & CAN_AUTO_EXECUTE_BIT != 0,
            past_limit: mask & PAST_LIMIT_BIT != 0,
            pre_open: mask & PRE_OPEN_BIT != 0,
            unreported: mask & UNREPORTED_BIT != 0,
            bid_past_low: mask & BID_PAST_LOW_BIT != 0,
            ask_past_high: mask & ASK_PAST_HIGH_BIT != 0,
        }
    }

    /// Decodes the attribute mask of a tick; any mask is accepted.
    pub fn decode(mask: i32) -> (r: TickAttr)
        ensures
            r == TickAttr::spec_decode(mask),
    {
        TickAttr {
            can_auto_execute: mask & CAN_AUTO_EXECUTE_BIT != 0,
            past_limit: mask & PAST_LIMIT_BIT != 0,
            pre_open: mask & PRE_OPEN_BIT != 0,
            unreported: mask & UNREPORTED_BIT != 0,
            bid_past_low: mask & BID_PAST_LOW_BIT != 0,
            ask_past_high: mask & ASK_PAST_HIGH_BIT != 0,
        }
    }
}

impl Default for TickAttr {
    /// All six flags cleared.
    fn default() -> (r: Self)
        ensures
            r == TickAttr::spec_default(),
    {
        TickAttr {
            can_auto_execute: false,
            past_limit: false,
            pre_open: false,
            unreported: false,
            bid_past_low: false,
            ask_past_high: false,
        }
    }
}

/// A mask with the six flag bits set decodes to all six flags set, whatever
/// its other bits hold.
pub proof fn lemma_tick_attr_all_bits(mask: i32)
    requires
        mask & 63 == 63,
    ensures
        TickAttr::spec_decode(mask) == (TickAttr {
            can_auto_execute: true,
            past_limit: true,
            pre_open: true,
            unreported: true,
            bid_past_low: true,
            ask_past_high: true,
        }),
{
    assert(mask & 1 != 0 && mask & 2 != 0 && mask & 4 != 0 && mask & 8 != 0 && mask & 16 != 0
        && mask & 32 != 0) by (bit_vector)
        requires
            mask & 63 == 63,
    ;
}

/// The empty mask decodes to the default flags.
pub proof fn lemma_tick_attr_zero_is_default()
    ensures
        TickAttr::spec_decode(0) == TickAttr::spec_default(),
{
    assert(0i32 & 1 == 0 && 0i32 & 2 == 0 && 0i32 & 4 == 0 && 0i32 & 8 == 0 && 0i32 & 16 == 0
        && 0i32 & 32 == 0) by (bit_vector);
}

/// Kind of a tick-by-tick stream.
#[derive(Debug, Clone, Copy, PartialEq, Eq, Structural)]
pub enum TickByTickType {
    Last,
    AllLast,
    BidAsk,
    MidPoint,
}

impl TickByTickType {
    /// Wire code of the stream kind.
    pub open spec fn spec_code(self) -> i32 {
        match self {
            TickByTickType::Last => 1,
            TickByTickType::AllLast => 2,
            TickByTickType::BidAsk => 3,
            TickByTickType::MidPoint => 4,
        }
    }

    /// The stream kind that a wire code names; a code outside 1..=4 is an error
    /// that carries that code.
    pub open spec fn spec_decode(code: i32) -> Result<TickByTickType, i32> {
        if code == 1 {
            Ok(TickByTickType::Last)
        } else if code == 2 {
            Ok(TickByTickType::AllLast)
        } else if code == 3 {
            Ok(TickByTickType::BidAsk)
        } else if code == 4 {
            Ok(TickByTickType::MidPoint)
        } else {
            Err(code)
        }
    }

    /// Display name of the stream kind.
    pub open spec fn spec_name(self) -> Seq<char> {
        match self {
            TickByTickType::Last => "Last"@,
            TickByTickType::AllLast => "AllLast"@,
            TickByTickType::BidAsk => "BidAsk"@,
            TickByTickType::MidPoint => "MidPoint"@,
        }
    }

    /// Wire code of the stream kind, as sent in outbound requests.
    pub fn code(&self) -> (r: i32)
        ensures
            r == self.spec_code(),
    {
        match self {
            TickByTickType::Last => 1,
            TickByTickType::AllLast => 2,
            TickByTickType::BidAsk => 3,
            TickByTickType::MidPoint => 4,
        }
    }

    /// Display name of the stream kind, for logs and user interfaces.
    pub fn name(&self) -> (r: &'static str)
        ensures
            r@ == self.spec_name(),
    {
        match self {
            TickByTickType::Last => "Last",
            TickByTickType::AllLast => "AllLast",
            TickByTickType::BidAsk => "BidAsk",
            TickByTickType::MidPoint => "MidPoint",
        }
    }

    /// Display name of the stream kind as an owned string.
    pub fn to_string(&self) -> (r: String)
        ensures
            r@ == self.spec_name(),
    {
        self.name().to_string()
    }
}

impl TryFrom<i32> for TickByTickType {
    type Error = i32;

    /// Decodes a wire code; an unknown code is an error that carries it.
    fn try_from(code: i32) -> (r: Result<Self, Self::Error>)
        ensures
            r == Self::spec_decode(code),
    {
        match code {
            1 => Ok(TickByTickType::Last),
            2 => Ok(TickByTickType::AllLast),
            3 => Ok(TickByTickType::BidAsk),
            4 => Ok(TickByTickType::MidPoint),
            _ => Err(code),
        }
    }
}

impl vstd::std_specs::convert::TryFromSpecImpl<i32> for TickByTickType {
    open spec fn obeys_try_from_spec() -> bool {
        true
    }

    open spec fn try_from_spec(v: i32) -> Result<Self, Self::Error> {
        Self::spec_decode(v)
    }
}

/// The stream-kind codes are exactly 1 to 4: each of them decodes, and the
/// kind decoded has that code; every other code fails to decode, with an
/// error that carries it.
pub proof fn lemma_tick_by_tick_type_round_trip(code: i32)
    ensures
        (1 <= code <= 4) ==> TickByTickType::spec_decode(code) is Ok
            && TickByTickType::spec_decode(code)->Ok_0.spec_code() == code,
        !(1 <= code <= 4) ==> TickByTickType::spec_decode(code) == Err::<TickByTickType, i32>(code),
{
}

/// Decoding the code of a stream kind gives that kind back.
pub proof fn lemma_tick_by_tick_type_code_round_trip(k: TickByTickType)
    ensures
        TickByTickType::spec_decode(k.spec_code()) == Ok::<TickByTickType, i32>(k),
{
}

/// The display name depends on the stream kind alone: two equal kinds have
/// the same name.
pub proof fn lemma_tick_by_tick_type_name_deterministic(a: TickByTickType, b: TickByTickType)
    requires
        a == b,
    ensures
        a.spec_name() == b.spec_name(),
{
}

/// An optional data category that a market-data subscription can ask for.
#[derive(Debug, Copy, Clone, PartialEq, Eq, Hash, Structural)]
pub enum GenericTick {
    /// Currently for stocks.
    OptionVolume,
    /// Currently for stocks.
    OptionOpenInterest,
    /// Currently for stocks.
    HistoricalVolatility,
    /// Currently for stocks.
    AverageOptionVolume,
    /// Currently for stocks.
    OptionImpliedVolatility,
    IndexFuturePremium,
    MiscellaneousStats,
    /// Used in TWS P&L computations
    MarkPrice,
    /// Volumes, price, and imbalance
    AuctionValues,
    /// Contains the last trade price, last trade size, last trade time, total volume, VWAP, and
    /// single trade flag.
    RtVolume,
    Shortable,
    Inventory,
    FundamentalRatios,
    RealtimeHistoricalVolatility,
    IbDividends,
}

impl GenericTick {
    /// Request code of the category.
    pub open spec fn spec_code(self) -> i32 {
        match self {
            GenericTick::OptionVolume => 100,
            GenericTick::OptionOpenInterest => 101,
            GenericTick::HistoricalVolatility => 104,
            GenericTick::AverageOptionVolume => 105,
            GenericTick::OptionImpliedVolatility => 106,
            GenericTick::IndexFuturePremium => 162,
            GenericTick::MiscellaneousStats => 165,
            GenericTick::MarkPrice => 221,
            GenericTick::AuctionValues => 225,
            GenericTick::RtVolume => 233,
            GenericTick::Shortable => 236,
            GenericTick::Inventory => 256,
            GenericTick::FundamentalRatios => 258,
            GenericTick::RealtimeHistoricalVolatility => 411,
            GenericTick::IbDividends => 456,
        }
    }

    /// Request code of the category, as sent in outbound subscriptions.
    pub fn code(&self) -> (r: i32)
        ensures
            r == self.spec_code(),
    {
        match self {
            GenericTick::OptionVolume => 100,
            GenericTick::OptionOpenInterest => 101,
            GenericTick::HistoricalVolatility => 104,
            GenericTick::AverageOptionVolume => 105,
            GenericTick::OptionImpliedVolatility => 106,
            GenericTick::IndexFuturePremium => 162,
            GenericTick::MiscellaneousStats => 165,
            GenericTick::MarkPrice => 221,
            GenericTick::AuctionValues => 225,
            GenericTick::RtVolume => 233,
            GenericTick::Shortable => 236,
            GenericTick::Inventory => 256,
            GenericTick::FundamentalRatios => 258,
            GenericTick::RealtimeHistoricalVolatility => 411,
            GenericTick::IbDividends => 456,
        }
    }
}

/// Distinct categories have distinct request codes.
pub proof fn lemma_generic_tick_codes_distinct(a: GenericTick, b: GenericTick)
    requires
        a != b,
    ensures
        a.spec_code() != b.spec_code(),
{
}

} // verus!
