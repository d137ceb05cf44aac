use vstd::prelude::*;

verus! {

/// A market-data field that a streaming tick carries, named by its wire code.
///
/// Codes that this library does not know decode to `UNKNOWN`, so a newer
/// gateway that sends new fields never makes decoding fail.
#[derive(Debug, Clone, Copy, PartialEq, Eq, Structural)]
#[allow(non_camel_case_types)]
pub enum TickType {
    BID_SIZE,
    BID,
    ASK,
    ASK_SIZE,
    LAST,
    LAST_SIZE,
    HIGH,
    LOW,
    VOLUME,
    CLOSE,
    BID_OPTION,
    ASK_OPTION,
    LAST_OPTION,
    MODEL_OPTION,
    OPEN,
    LOW_13_WEEK,
    HIGH_13_WEEK,
    LOW_26_WEEK,
    HIGH_26_WEEK,
    LOW_52_WEEK,
    HIGH_52_WEEK,
    AVG_VOLUME,
    OPEN_INTEREST,
    OPTION_HISTORICAL_VOL,
    OPTION_IMPLIED_VOL,
    OPTION_BID_EXCH,
    OPTION_ASK_EXCH,
    OPTION_CALL_OPEN_INTEREST,
    OPTION_PUT_OPEN_INTEREST,
    OPTION_CALL_VOLUME,
    OPTION_PUT_VOLUME,
    INDEX_FUTURE_PREMIUM,
    BID_EXCH,
    ASK_EXCH,
    AUCTION_VOLUME,
    AUCTION_PRICE,
    AUCTION_IMBALANCE,
    MARK_PRICE,
    BID_EFP_COMPUTATION,
    ASK_EFP_COMPUTATION,
    LAST_EFP_COMPUTATION,
    OPEN_EFP_COMPUTATION,
    HIGH_EFP_COMPUTATION,
    LOW_EFP_COMPUTATION,
    CLOSE_EFP_COMPUTATION,
    LAST_TIMESTAMP,
    SHORTABLE,
    FUNDAMENTAL_RATIOS,
    RT_VOLUME,
    HALTED,
    BID_YIELD,
    ASK_YIELD,
    LAST_YIELD,
    CUST_OPTION_COMPUTATION,
    TRADE_COUNT,
    TRADE_RATE,
    VOLUME_RATE,
    LAST_RTH_TRADE,
    RT_HISTORICAL_VOL,
    IB_DIVIDENDS,
    BOND_FACTOR_MULTIPLIER,
    REGULATORY_IMBALANCE,
    NEWS_TICK,
    SHORT_TERM_VOLUME_3_MIN,
    SHORT_TERM_VOLUME_5_MIN,
    SHORT_TERM_VOLUME_10_MIN,
    DELAYED_BID,
    DELAYED_ASK,
    DELAYED_LAST,
    DELAYED_BID_SIZE,
    DELAYED_ASK_SIZE,
    DELAYED_LAST_SIZE,
    DELAYED_HIGH,
    DELAYED_LOW,
    DELAYED_VOLUME,
    DELAYED_CLOSE,
    DELAYED_OPEN,
    RT_TRD_VOLUME,
    CREDITMAN_MARK_PRICE,
    CREDITMAN_SLOW_MARK_PRICE,
    DELAYED_BID_OPTION,
    DELAYED_ASK_OPTION,
    DELAYED_LAST_OPTION,
    DELAYED_MODEL_OPTION,
    LAST_EXCH,
    LAST_REG_TIME,
    FUTURES_OPEN_INTEREST,
    AVG_OPT_VOLUME,
    DELAYED_LAST_TIMESTAMP,
    SHORTABLE_SHARES,
    DELAYED_HALTED,
    REUTERS_2_MUTUAL_FUNDS,
    ETF_NAV_CLOSE,
    ETF_NAV_PRIOR_CLOSE,
    ETF_NAV_BID,
    ETF_NAV_ASK,
    ETF_NAV_LAST,
    ETF_FROZEN_NAV_LAST,
    ETF_NAV_HIGH,
    ETF_NAV_LOW,
    SOCIAL_MARKET_ANALYTICS,
    ESTIMATED_IPO_MIDPOINT,
    FINAL_IPO_LAST,
    UNKNOWN,
}

/// Largest wire code of a known tick field; the known codes are `0..=LAST_KNOWN_TICK_CODE`.
pub const LAST_KNOWN_TICK_CODE: i32 = 102;

/// Whether a wire code names a known tick field.
pub open spec fn is_known_tick_code(code: i32) -> bool {
    0 <= code <= LAST_KNOWN_TICK_CODE
}

impl TickType {
    /// Wire code of the field; `UNKNOWN` has `i32::MAX`.
    pub open spec fn spec_code(self) -> i32 {
        match self {
            TickType::BID_SIZE => 0,
            TickType::BID => 1,
            TickType::ASK => 2,
            TickType::ASK_SIZE => 3,
            TickType::LAST => 4,
            TickType::LAST_SIZE => 5,
            TickType::HIGH => 6,
            TickType::LOW => 7,
            TickType::VOLUME => 8,
            TickType::CLOSE => 9,
            TickType::BID_OPTION => 10,
            TickType::ASK_OPTION => 11,
            TickType::LAST_OPTION => 12,
            TickType::MODEL_OPTION => 13,
            TickType::OPEN => 14,
            TickType::LOW_13_WEEK => 15,
            TickType::HIGH_13_WEEK => 16,
            TickType::LOW_26_WEEK => 17,
            TickType::HIGH_26_WEEK => 18,
            TickType::LOW_52_WEEK => 19,
            TickType::HIGH_52_WEEK => 20,
            TickType::AVG_VOLUME => 21,
            TickType::OPEN_INTEREST => 22,
            TickType::OPTION_HISTORICAL_VOL => 23,
            TickType::OPTION_IMPLIED_VOL => 24,
            TickType::OPTION_BID_EXCH => 25,
            TickType::OPTION_ASK_EXCH => 26,
            TickType::OPTION_CALL_OPEN_INTEREST => 27,
            TickType::OPTION_PUT_OPEN_INTEREST => 28,
            TickType::OPTION_CALL_VOLUME => 29,
            TickType::OPTION_PUT_VOLUME => 30,
            TickType::INDEX_FUTURE_PREMIUM => 31,
            TickType::BID_EXCH => 32,
            TickType::ASK_EXCH => 33,
            TickType::AUCTION_VOLUME => 34,
            TickType::AUCTION_PRICE => 35,
            TickType::AUCTION_IMBALANCE => 36,
            TickType::MARK_PRICE => 37,
            TickType::BID_EFP_COMPUTATION => 38,
            TickType::ASK_EFP_COMPUTATION => 39,
            TickType::LAST_EFP_COMPUTATION => 40,
            TickType::OPEN_EFP_COMPUTATION => 41,
            TickType::HIGH_EFP_COMPUTATION => 42,
            TickType::LOW_EFP_COMPUTATION => 43,
            TickType::CLOSE_EFP_COMPUTATION => 44,
            TickType::LAST_TIMESTAMP => 45,
            TickType::SHORTABLE => 46,
            TickType::FUNDAMENTAL_RATIOS => 47,
            TickType::RT_VOLUME => 48,
            TickType::HALTED => 49,
            TickType::BID_YIELD => 50,
            TickType::ASK_YIELD => 51,
            TickType::LAST_YIELD => 52,
            TickType::CUST_OPTION_COMPUTATION => 53,
            TickType::TRADE_COUNT => 54,
            TickType::TRADE_RATE => 55,
            TickType::VOLUME_RATE => 56,
            TickType::LAST_RTH_TRADE => 57,
            TickType::RT_HISTORICAL_VOL => 58,
            TickType::IB_DIVIDENDS => 59,
            TickType::BOND_FACTOR_MULTIPLIER => 60,
            TickType::REGULATORY_IMBALANCE => 61,
            TickType::NEWS_TICK => 62,
            TickType::SHORT_TERM_VOLUME_3_MIN => 63,
            TickType::SHORT_TERM_VOLUME_5_MIN => 64,
            TickType::SHORT_TERM_VOLUME_10_MIN => 65,
            TickType::DELAYED_BID => 66,
            TickType::DELAYED_ASK => 67,
            TickType::DELAYED_LAST => 68,
            TickType::DELAYED_BID_SIZE => 69,
            TickType::DELAYED_ASK_SIZE => 70,
            TickType::DELAYED_LAST_SIZE => 71,
            TickType::DELAYED_HIGH => 72,
            TickType::DELAYED_LOW => 73,
            TickType::DELAYED_VOLUME => 74,
            TickType::DELAYED_CLOSE => 75,
            TickType::DELAYED_OPEN => 76,
            TickType::RT_TRD_VOLUME => 77,
            TickType::CREDITMAN_MARK_PRICE => 78,
            TickType::CREDITMAN_SLOW_MARK_PRICE => 79,
            TickType::DELAYED_BID_OPTION => 80,
            TickType::DELAYED_ASK_OPTION => 81,
            TickType::DELAYED_LAST_OPTION => 82,
            TickType::DELAYED_MODEL_OPTION => 83,
            TickType::LAST_EXCH => 84,
            TickType::LAST_REG_TIME => 85,
            TickType::FUTURES_OPEN_INTEREST => 86,
            TickType::AVG_OPT_VOLUME => 87,
            TickType::DELAYED_LAST_TIMESTAMP => 88,
            TickType::SHORTABLE_SHARES => 89,
            TickType::DELAYED_HALTED => 90,
            TickType::REUTERS_2_MUTUAL_FUNDS => 91,
            TickType::ETF_NAV_CLOSE => 92,
            TickType::ETF_NAV_PRIOR_CLOSE => 93,
            TickType::ETF_NAV_BID => 94,
            TickType::ETF_NAV_ASK => 95,
            TickType::ETF_NAV_LAST => 96,
            TickType::ETF_FROZEN_NAV_LAST => 97,
            TickType::ETF_NAV_HIGH => 98,
            TickType::ETF_NAV_LOW => 99,
            TickType::SOCIAL_MARKET_ANALYTICS => 100,
            TickType::ESTIMATED_IPO_MIDPOINT => 101,
            TickType::FINAL_IPO_LAST => 102,
            TickType::UNKNOWN => i32::MAX,
        }
    }

    /// Display name of the field.
    pub open spec fn spec_name(self) -> Seq<char> {
        match self {
            TickType::BID_SIZE => "bidSize"@,
            TickType::BID => "bidPrice"@,
            TickType::ASK => "askPrice"@,
            TickType::ASK_SIZE => "askSize"@,
            TickType::LAST => "lastPrice"@,
            TickType::LAST_SIZE => "lastSize"@,
            TickType::HIGH => "high"@,
            TickType::LOW => "low"@,
            TickType::VOLUME => "volume"@,
            TickType::CLOSE => "close"@,
            TickType::BID_OPTION => "bidOptComp"@,
            TickType::ASK_OPTION => "askOptComp"@,
            TickType::LAST_OPTION => "lastOptComp"@,
            TickType::MODEL_OPTION => "modelOptComp"@,
            TickType::OPEN => "open"@,
            TickType::LOW_13_WEEK => "13WeekLow"@,
            TickType::HIGH_13_WEEK => "13WeekHigh"@,
            TickType::LOW_26_WEEK => "26WeekLow"@,
            TickType::HIGH_26_WEEK => "26WeekHigh"@,
            TickType::LOW_52_WEEK => "52WeekLow"@,
            TickType::HIGH_52_WEEK => "52WeekHigh"@,
            TickType::AVG_VOLUME => "AvgVolume"@,
            TickType::OPEN_INTEREST => "OpenInterest"@,
            TickType::OPTION_HISTORICAL_VOL => "OptionHistoricalVolatility"@,
            TickType::OPTION_IMPLIED_VOL => "OptionImpliedVolatility"@,
            TickType::OPTION_BID_EXCH => "OptionBidExchStr"@,
            TickType::OPTION_ASK_EXCH => "OptionAskExchStr"@,
            TickType::OPTION_CALL_OPEN_INTEREST => "OptionCallOpenInterest"@,
            TickType::OPTION_PUT_OPEN_INTEREST => "OptionPutOpenInterest"@,
            TickType::OPTION_CALL_VOLUME => "OptionCallVolume"@,
            TickType::OPTION_PUT_VOLUME => "OptionPutVolume"@,
            TickType::INDEX_FUTURE_PREMIUM => "IndexFuturePremium"@,
            TickType::BID_EXCH => "bidExch"@,
            TickType::ASK_EXCH => "askExch"@,
            TickType::AUCTION_VOLUME => "auctionVolume"@,
            TickType::AUCTION_PRICE => "auctionPrice"@,
            TickType::AUCTION_IMBALANCE => "auctionImbalance"@,
            TickType::MARK_PRICE => "markPrice"@,
            TickType::BID_EFP_COMPUTATION => "bidEFP"@,
            TickType::ASK_EFP_COMPUTATION => "askEFP"@,
            TickType::LAST_EFP_COMPUTATION => "lastEFP"@,
            TickType::OPEN_EFP_COMPUTATION => "openEFP"@,
            TickType::HIGH_EFP_COMPUTATION => "highEFP"@,
            TickType::LOW_EFP_COMPUTATION => "lowEFP"@,
            TickType::CLOSE_EFP_COMPUTATION => "closeEFP"@,
            TickType::LAST_TIMESTAMP => "lastTimestamp"@,
            TickType::SHORTABLE => "shortable"@,
            TickType::FUNDAMENTAL_RATIOS => "fundamentals"@,
            TickType::RT_VOLUME => "RTVolume"@,
            TickType::HALTED => "halted"@,
            TickType::BID_YIELD => "bidYield"@,
            TickType::ASK_YIELD => "askYield"@,
            TickType::LAST_YIELD => "lastYield"@,
            TickType::CUST_OPTION_COMPUTATION => "custOptComp"@,
            TickType::TRADE_COUNT => "trades"@,
            TickType::TRADE_RATE => "trades/min"@,
            TickType::VOLUME_RATE => "volume/min"@,
            TickType::LAST_RTH_TRADE => "lastRTHTrade"@,
            TickType::RT_HISTORICAL_VOL => "RTHistoricalVol"@,
            TickType::IB_DIVIDENDS => "IBDividends"@,
            TickType::BOND_FACTOR_MULTIPLIER => "bondFactorMultiplier"@,
            TickType::REGULATORY_IMBALANCE => "regulatoryImbalance"@,
            TickType::NEWS_TICK => "newsTick"@,
            TickType::SHORT_TERM_VOLUME_3_MIN => "shortTermVolume3Min"@,
            TickType::SHORT_TERM_VOLUME_5_MIN => "shortTermVolume5Min"@,
            TickType::SHORT_TERM_VOLUME_10_MIN => "shortTermVolume10Min"@,
            TickType::DELAYED_BID => "delayedBid"@,
            TickType::DELAYED_ASK => "delayedAsk"@,
            TickType::DELAYED_LAST => "delayedLast"@,
            TickType::DELAYED_BID_SIZE => "delayedBidSize"@,
            TickType::DELAYED_ASK_SIZE => "delayedAskSize"@,
            TickType::DELAYED_LAST_SIZE => "delayedLastSize"@,
            TickType::DELAYED_HIGH => "delayedHigh"@,
            TickType::DELAYED_LOW => "delayedLow"@,
            TickType::DELAYED_VOLUME => "delayedVolume"@,
            TickType::DELAYED_CLOSE => "delayedClose"@,
            TickType::DELAYED_OPEN => "delayedOpen"@,
            TickType::RT_TRD_VOLUME => "rtTrdVolume"@,
            TickType::CREDITMAN_MARK_PRICE => "creditmanMarkPrice"@,
            TickType::CREDITMAN_SLOW_MARK_PRICE => "creditmanSlowMarkPrice"@,
            TickType::DELAYED_BID_OPTION => "delayedBidOptComp"@,
            TickType::DELAYED_ASK_OPTION => "delayedAskOptComp"@,
            TickType::DELAYED_LAST_OPTION => "delayedLastOptComp"@,
            TickType::DELAYED_MODEL_OPTION => "delayedModelOptComp"@,
            TickType::LAST_EXCH => "lastExchange"@,
            TickType::LAST_REG_TIME => "lastRegTime"@,
            TickType::FUTURES_OPEN_INTEREST => "futuresOpenInterest"@,
            TickType::AVG_OPT_VOLUME => "avgOptVolume"@,
            TickType::DELAYED_LAST_TIMESTAMP => "delayedLastTimestamp"@,
            TickType::SHORTABLE_SHARES => "shortableShares"@,
            TickType::DELAYED_HALTED => "delayedHalted"@,
            TickType::REUTERS_2_MUTUAL_FUNDS => "reuters2MutualFunds"@,
            TickType::ETF_NAV_CLOSE => "etfNavClose"@,
            TickType::ETF_NAV_PRIOR_CLOSE => "etfNavPriorClose"@,
            TickType::ETF_NAV_BID => "etfNavBid"@,
            TickType::ETF_NAV_ASK => "etfNavAsk"@,
            TickType::ETF_NAV_LAST => "etfNavLast"@,
            TickType::ETF_FROZEN_NAV_LAST => "etfFrozenNavLast"@,
            TickType::ETF_NAV_HIGH => "etfNavHigh"@,
            TickType::ETF_NAV_LOW => "etfNavLow"@,
            TickType::SOCIAL_MARKET_ANALYTICS => "socialMarketAnalytics"@,
            TickType::ESTIMATED_IPO_MIDPOINT => "estimatedIPOMidpoint"@,
            TickType::FINAL_IPO_LAST => "finalIPOLast"@,
            TickType::UNKNOWN => "unknown"@,
        }
    }

    /// The field that a wire code names: `UNKNOWN` for every code that is not known.
    pub open spec fn spec_decode(code: i32) -> TickType {
        match code {
            0 => TickType::BID_SIZE,
            1 => TickType::BID,
            2 => TickType::ASK,
            3 => TickType::ASK_SIZE,
            4 => TickType::LAST,
            5 => TickType::LAST_SIZE,
            6 => TickType::HIGH,
            7 => TickType::LOW,
            8 => TickType::VOLUME,
            9 => TickType::CLOSE,
            10 => TickType::BID_OPTION,
            11 => TickType::ASK_OPTION,
            12 => TickType::LAST_OPTION,
            13 => TickType::MODEL_OPTION,
            14 => TickType::OPEN,
            15 => TickType::LOW_13_WEEK,
            16 => TickType::HIGH_13_WEEK,
            17 => TickType::LOW_26_WEEK,
            18 => TickType::HIGH_26_WEEK,
            19 => TickType::LOW_52_WEEK,
            20 => TickType::HIGH_52_WEEK,
            21 => TickType::AVG_VOLUME,
            22 => TickType::OPEN_INTEREST,
            23 => TickType::OPTION_HISTORICAL_VOL,
            24 => TickType::OPTION_IMPLIED_VOL,
            25 => TickType::OPTION_BID_EXCH,
            26 => TickType::OPTION_ASK_EXCH,
            27 => TickType::OPTION_CALL_OPEN_INTEREST,
            28 => TickType::OPTION_PUT_OPEN_INTEREST,
            29 => TickType::OPTION_CALL_VOLUME,
            30 => TickType::OPTION_PUT_VOLUME,
            31 => TickType::INDEX_FUTURE_PREMIUM,
            32 => TickType::BID_EXCH,
            33 => TickType::ASK_EXCH,
            34 => TickType::AUCTION_VOLUME,
            35 => TickType::AUCTION_PRICE,
            36 => TickType::AUCTION_IMBALANCE,
            37 => TickType::MARK_PRICE,
            38 => TickType::BID_EFP_COMPUTATION,
            39 => TickType::ASK_EFP_COMPUTATION,
            40 => TickType::LAST_EFP_COMPUTATION,
            41 => TickType::OPEN_EFP_COMPUTATION,
            42 => TickType::HIGH_EFP_COMPUTATION,
            43 => TickType::LOW_EFP_COMPUTATION,
            44 => TickType::CLOSE_EFP_COMPUTATION,
            45 => TickType::LAST_TIMESTAMP,
            46 => TickType::SHORTABLE,
            47 => TickType::FUNDAMENTAL_RATIOS,
            48 => TickType::RT_VOLUME,
            49 => TickType::HALTED,
            50 => TickType::BID_YIELD,
            51 => TickType::ASK_YIELD,
            52 => TickType::LAST_YIELD,
            53 => TickType::CUST_OPTION_COMPUTATION,
            54 => TickType::TRADE_COUNT,
            55 => TickType::TRADE_RATE,
            56 => TickType::VOLUME_RATE,
            57 => TickType::LAST_RTH_TRADE,
            58 => TickType::RT_HISTORICAL_VOL,
            59 => TickType::IB_DIVIDENDS,
            60 => TickType::BOND_FACTOR_MULTIPLIER,
            61 => TickType::REGULATORY_IMBALANCE,
            62 => TickType::NEWS_TICK,
            63 => TickType::SHORT_TERM_VOLUME_3_MIN,
            64 => TickType::SHORT_TERM_VOLUME_5_MIN,
            65 => TickType::SHORT_TERM_VOLUME_10_MIN,
            66 => TickType::DELAYED_BID,
            67 => TickType::DELAYED_ASK,
            68 => TickType::DELAYED_LAST,
            69 => TickType::DELAYED_BID_SIZE,
            70 => TickType::DELAYED_ASK_SIZE,
            71 => TickType::DELAYED_LAST_SIZE,
            72 => TickType::DELAYED_HIGH,
            73 => TickType::DELAYED_LOW,
            74 => TickType::DELAYED_VOLUME,
            75 => TickType::DELAYED_CLOSE,
            76 => TickType::DELAYED_OPEN,
            77 => TickType::RT_TRD_VOLUME,
            78 => TickType::CREDITMAN_MARK_PRICE,
            79 => TickType::CREDITMAN_SLOW_MARK_PRICE,
            80 => TickType::DELAYED_BID_OPTION,
            81 => TickType::DELAYED_ASK_OPTION,
            82 => TickType::DELAYED_LAST_OPTION,
            83 => TickType::DELAYED_MODEL_OPTION,
            84 => TickType::LAST_EXCH,
            85 => TickType::LAST_REG_TIME,
            86 => TickType::FUTURES_OPEN_INTEREST,
            87 => TickType::AVG_OPT_VOLUME,
            88 => TickType::DELAYED_LAST_TIMESTAMP,
            89 => TickType::SHORTABLE_SHARES,
            90 => TickType::DELAYED_HALTED,
            91 => TickType::REUTERS_2_MUTUAL_FUNDS,
            92 => TickType::ETF_NAV_CLOSE,
            93 => TickType::ETF_NAV_PRIOR_CLOSE,
            94 => TickType::ETF_NAV_BID,
            95 => TickType::ETF_NAV_ASK,
            96 => TickType::ETF_NAV_LAST,
            97 => TickType::ETF_FROZEN_NAV_LAST,
            98 => TickType::ETF_NAV_HIGH,
            99 => TickType::ETF_NAV_LOW,
            100 => TickType::SOCIAL_MARKET_ANALYTICS,
            101 => TickType::ESTIMATED_IPO_MIDPOINT,
            102 => TickType::FINAL_IPO_LAST,
            _ => TickType::UNKNOWN,
        }
    }

    /// Wire code of the field.
    pub fn code(&self) -> (r: i32)
        ensures
            r == self.spec_code(),
    {
        match self {
            TickType::BID_SIZE => 0,
            TickType::BID => 1,
            TickType::ASK => 2,
            TickType::ASK_SIZE => 3,
            TickType::LAST => 4,
            TickType::LAST_SIZE => 5,
            TickType::HIGH => 6,
            TickType::LOW => 7,
            TickType::VOLUME => 8,
            TickType::CLOSE => 9,
            TickType::BID_OPTION => 10,
            TickType::ASK_OPTION => 11,
            TickType::LAST_OPTION => 12,
            TickType::MODEL_OPTION => 13,
            TickType::OPEN => 14,
            TickType::LOW_13_WEEK => 15,
            TickType::HIGH_13_WEEK => 16,
            TickType::LOW_26_WEEK => 17,
            TickType::HIGH_26_WEEK => 18,
            TickType::LOW_52_WEEK => 19,
            TickType::HIGH_52_WEEK => 20,
            TickType::AVG_VOLUME => 21,
            TickType::OPEN_INTEREST => 22,
            TickType::OPTION_HISTORICAL_VOL => 23,
            TickType::OPTION_IMPLIED_VOL => 24,
            TickType::OPTION_BID_EXCH => 25,
            TickType::OPTION_ASK_EXCH => 26,
            TickType::OPTION_CALL_OPEN_INTEREST => 27,
            TickType::OPTION_PUT_OPEN_INTEREST => 28,
            TickType::OPTION_CALL_VOLUME => 29,
            TickType::OPTION_PUT_VOLUME => 30,
            TickType::INDEX_FUTURE_PREMIUM => 31,
            TickType::BID_EXCH => 32,
            TickType::ASK_EXCH => 33,
            TickType::AUCTION_VOLUME => 34,
            TickType::AUCTION_PRICE => 35,
            TickType::AUCTION_IMBALANCE => 36,
            TickType::MARK_PRICE => 37,
            TickType::BID_EFP_COMPUTATION => 38,
            TickType::ASK_EFP_COMPUTATION => 39,
            TickType::LAST_EFP_COMPUTATION => 40,
            TickType::OPEN_EFP_COMPUTATION => 41,
            TickType::HIGH_EFP_COMPUTATION => 42,
            TickType::LOW_EFP_COMPUTATION => 43,
            TickType::CLOSE_EFP_COMPUTATION => 44,
            TickType::LAST_TIMESTAMP => 45,
            TickType::SHORTABLE => 46,
            TickType::FUNDAMENTAL_RATIOS => 47,
            TickType::RT_VOLUME => 48,
            TickType::HALTED => 49,
            TickType::BID_YIELD => 50,
            TickType::ASK_YIELD => 51,
            TickType::LAST_YIELD => 52,
            TickType::CUST_OPTION_COMPUTATION => 53,
            TickType::TRADE_COUNT => 54,
            TickType::TRADE_RATE => 55,
            TickType::VOLUME_RATE => 56,
            TickType::LAST_RTH_TRADE => 57,
            TickType::RT_HISTORICAL_VOL => 58,
            TickType::IB_DIVIDENDS => 59,
            TickType::BOND_FACTOR_MULTIPLIER => 60,
            TickType::REGULATORY_IMBALANCE => 61,
            TickType::NEWS_TICK => 62,
            TickType::SHORT_TERM_VOLUME_3_MIN => 63,
            TickType::SHORT_TERM_VOLUME_5_MIN => 64,
            TickType::SHORT_TERM_VOLUME_10_MIN => 65,
            TickType::DELAYED_BID => 66,
            TickType::DELAYED_ASK => 67,
            TickType::DELAYED_LAST => 68,
            TickType::DELAYED_BID_SIZE => 69,
            TickType::DELAYED_ASK_SIZE => 70,
            TickType::DELAYED_LAST_SIZE => 71,
            TickType::DELAYED_HIGH => 72,
            TickType::DELAYED_LOW => 73,
            TickType::DELAYED_VOLUME => 74,
            TickType::DELAYED_CLOSE => 75,
            TickType::DELAYED_OPEN => 76,
            TickType::RT_TRD_VOLUME => 77,
            TickType::CREDITMAN_MARK_PRICE => 78,
            TickType::CREDITMAN_SLOW_MARK_PRICE => 79,
            TickType::DELAYED_BID_OPTION => 80,
            TickType::DELAYED_ASK_OPTION => 81,
            TickType::DELAYED_LAST_OPTION => 82,
            TickType::DELAYED_MODEL_OPTION => 83,
            TickType::LAST_EXCH => 84,
            TickType::LAST_REG_TIME => 85,
            TickType::FUTURES_OPEN_INTEREST => 86,
            TickType::AVG_OPT_VOLUME => 87,
            TickType::DELAYED_LAST_TIMESTAMP => 88,
            TickType::SHORTABLE_SHARES => 89,
            TickType::DELAYED_HALTED => 90,
            TickType::REUTERS_2_MUTUAL_FUNDS => 91,
            TickType::ETF_NAV_CLOSE => 92,
            TickType::ETF_NAV_PRIOR_CLOSE => 93,
            TickType::ETF_NAV_BID => 94,
            TickType::ETF_NAV_ASK => 95,
            TickType::ETF_NAV_LAST => 96,
            TickType::ETF_FROZEN_NAV_LAST => 97,
            TickType::ETF_NAV_HIGH => 98,
            TickType::ETF_NAV_LOW => 99,
            TickType::SOCIAL_MARKET_ANALYTICS => 100,
            TickType::ESTIMATED_IPO_MIDPOINT => 101,
            TickType::FINAL_IPO_LAST => 102,
            TickType::UNKNOWN => i32::MAX,
        }
    }

    /// Display name of the field, for logs and user interfaces.
    pub fn name(&self) -> (r: &'static str)
        ensures
            r@ == self.spec_name(),
    {
        match self {
            TickType::BID_SIZE => "bidSize",
            TickType::BID => "bidPrice",
            TickType::ASK => "askPrice",
            TickType::ASK_SIZE => "askSize",
            TickType::LAST => "lastPrice",
            TickType::LAST_SIZE => "lastSize",
            TickType::HIGH => "high",
            TickType::LOW => "low",
            TickType::VOLUME => "volume",
            TickType::CLOSE => "close",
            TickType::BID_OPTION => "bidOptComp",
            TickType::ASK_OPTION => "askOptComp",
            TickType::LAST_OPTION => "lastOptComp",
            TickType::MODEL_OPTION => "modelOptComp",
            TickType::OPEN => "open",
            TickType::LOW_13_WEEK => "13WeekLow",
            TickType::HIGH_13_WEEK => "13WeekHigh",
            TickType::LOW_26_WEEK => "26WeekLow",
            TickType::HIGH_26_WEEK => "26WeekHigh",
            TickType::LOW_52_WEEK => "52WeekLow",
            TickType::HIGH_52_WEEK => "52WeekHigh",
            TickType::AVG_VOLUME => "AvgVolume",
            TickType::OPEN_INTEREST => "OpenInterest",
            TickType::OPTION_HISTORICAL_VOL => "OptionHistoricalVolatility",
            TickType::OPTION_IMPLIED_VOL => "OptionImpliedVolatility",
            TickType::OPTION_BID_EXCH => "OptionBidExchStr",
            TickType::OPTION_ASK_EXCH => "OptionAskExchStr",
            TickType::OPTION_CALL_OPEN_INTEREST => "OptionCallOpenInterest",
            TickType::OPTION_PUT_OPEN_INTEREST => "OptionPutOpenInterest",
            TickType::OPTION_CALL_VOLUME => "OptionCallVolume",
            TickType::OPTION_PUT_VOLUME => "OptionPutVolume",
            TickType::INDEX_FUTURE_PREMIUM => "IndexFuturePremium",
            TickType::BID_EXCH => "bidExch",
            TickType::ASK_EXCH => "askExch",
            TickType::AUCTION_VOLUME => "auctionVolume",
            TickType::AUCTION_PRICE => "auctionPrice",
            TickType::AUCTION_IMBALANCE => "auctionImbalance",
            TickType::MARK_PRICE => "markPrice",
            TickType::BID_EFP_COMPUTATION => "bidEFP",
            TickType::ASK_EFP_COMPUTATION => "askEFP",
            TickType::LAST_EFP_COMPUTATION => "lastEFP",
            TickType::OPEN_EFP_COMPUTATION => "openEFP",
            TickType::HIGH_EFP_COMPUTATION => "highEFP",
            TickType::LOW_EFP_COMPUTATION => "lowEFP",
            TickType::CLOSE_EFP_COMPUTATION => "closeEFP",
            TickType::LAST_TIMESTAMP => "lastTimestamp",
            TickType::SHORTABLE => "shortable",
            TickType::FUNDAMENTAL_RATIOS => "fundamentals",
            TickType::RT_VOLUME => "RTVolume",
            TickType::HALTED => "halted",
            TickType::BID_YIELD => "bidYield",
            TickType::ASK_YIELD => "askYield",
            TickType::LAST_YIELD => "lastYield",
            TickType::CUST_OPTION_COMPUTATION => "custOptComp",
            TickType::TRADE_COUNT => "trades",
            TickType::TRADE_RATE => "trades/min",
            TickType::VOLUME_RATE => "volume/min",
            TickType::LAST_RTH_TRADE => "lastRTHTrade",
            TickType::RT_HISTORICAL_VOL => "RTHistoricalVol",
            TickType::IB_DIVIDENDS => "IBDividends",
            TickType::BOND_FACTOR_MULTIPLIER => "bondFactorMultiplier",
            TickType::REGULATORY_IMBALANCE => "regulatoryImbalance",
            TickType::NEWS_TICK => "newsTick",
            TickType::SHORT_TERM_VOLUME_3_MIN => "shortTermVolume3Min",
            TickType::SHORT_TERM_VOLUME_5_MIN => "shortTermVolume5Min",
            TickType::SHORT_TERM_VOLUME_10_MIN => "shortTermVolume10Min",
            TickType::DELAYED_BID => "delayedBid",
            TickType::DELAYED_ASK => "delayedAsk",
            TickType::DELAYED_LAST => "delayedLast",
            TickType::DELAYED_BID_SIZE => "delayedBidSize",
            TickType::DELAYED_ASK_SIZE => "delayedAskSize",
            TickType::DELAYED_LAST_SIZE => "delayedLastSize",
            TickType::DELAYED_HIGH => "delayedHigh",
            TickType::DELAYED_LOW => "delayedLow",
            TickType::DELAYED_VOLUME => "delayedVolume",
            TickType::DELAYED_CLOSE => "delayedClose",
            TickType::DELAYED_OPEN => "delayedOpen",
            TickType::RT_TRD_VOLUME => "rtTrdVolume",
            TickType::CREDITMAN_MARK_PRICE => "creditmanMarkPrice",
            TickType::CREDITMAN_SLOW_MARK_PRICE => "creditmanSlowMarkPrice",
            TickType::DELAYED_BID_OPTION => "delayedBidOptComp",
            TickType::DELAYED_ASK_OPTION => "delayedAskOptComp",
            TickType::DELAYED_LAST_OPTION => "delayedLastOptComp",
            TickType::DELAYED_MODEL_OPTION => "delayedModelOptComp",
            TickType::LAST_EXCH => "lastExchange",
            TickType::LAST_REG_TIME => "lastRegTime",
            TickType::FUTURES_OPEN_INTEREST => "futuresOpenInterest",
            TickType::AVG_OPT_VOLUME => "avgOptVolume",
            TickType::DELAYED_LAST_TIMESTAMP => "delayedLastTimestamp",
            TickType::SHORTABLE_SHARES => "shortableShares",
            TickType::DELAYED_HALTED => "delayedHalted",
            TickType::REUTERS_2_MUTUAL_FUNDS => "reuters2MutualFunds",
            TickType::ETF_NAV_CLOSE => "etfNavClose",
            TickType::ETF_NAV_PRIOR_CLOSE => "etfNavPriorClose",
            TickType::ETF_NAV_BID => "etfNavBid",
            TickType::ETF_NAV_ASK => "etfNavAsk",
            TickType::ETF_NAV_LAST => "etfNavLast",
            TickType::ETF_FROZEN_NAV_LAST => "etfFrozenNavLast",
            TickType::ETF_NAV_HIGH => "etfNavHigh",
            TickType::ETF_NAV_LOW => "etfNavLow",
            TickType::SOCIAL_MARKET_ANALYTICS => "socialMarketAnalytics",
            TickType::ESTIMATED_IPO_MIDPOINT => "estimatedIPOMidpoint",
            TickType::FINAL_IPO_LAST => "finalIPOLast",
            TickType::UNKNOWN => "unknown",
        }
    }

    /// Display name of the field as an owned string.
    pub fn to_string(&self) -> (r: String)
        ensures
            r@ == self.spec_name(),
    {
        self.name().to_string()
    }
}

impl From<i32> for TickType {
    /// Decodes a wire code; an unknown code gives `UNKNOWN`.
    fn from(code: i32) -> (r: TickType)
        ensures
            r == TickType::spec_decode(code),
    {
        match code {
            0 => TickType::BID_SIZE,
            1 => TickType::BID,
            2 => TickType::ASK,
            3 => TickType::ASK_SIZE,
            4 => TickType::LAST,
            5 => TickType::LAST_SIZE,
            6 => TickType::HIGH,
            7 => TickType::LOW,
            8 => TickType::VOLUME,
            9 => TickType::CLOSE,
            10 => TickType::BID_OPTION,
            11 => TickType::ASK_OPTION,
            12 => TickType::LAST_OPTION,
            13 => TickType::MODEL_OPTION,
            14 => TickType::OPEN,
            15 => TickType::LOW_13_WEEK,
            16 => TickType::HIGH_13_WEEK,
            17 => TickType::LOW_26_WEEK,
            18 => TickType::HIGH_26_WEEK,
            19 => TickType::LOW_52_WEEK,
            20 => TickType::HIGH_52_WEEK,
            21 => TickType::AVG_VOLUME,
            22 => TickType::OPEN_INTEREST,
            23 => TickType::OPTION_HISTORICAL_VOL,
            24 => TickType::OPTION_IMPLIED_VOL,
            25 => TickType::OPTION_BID_EXCH,
            26 => TickType::OPTION_ASK_EXCH,
            27 => TickType::OPTION_CALL_OPEN_INTEREST,
            28 => TickType::OPTION_PUT_OPEN_INTEREST,
            29 => TickType::OPTION_CALL_VOLUME,
            30 => TickType::OPTION_PUT_VOLUME,
            31 => TickType::INDEX_FUTURE_PREMIUM,
            32 => TickType::BID_EXCH,
            33 => TickType::ASK_EXCH,
            34 => TickType::AUCTION_VOLUME,
            35 => TickType::AUCTION_PRICE,
            36 => TickType::AUCTION_IMBALANCE,
            37 => TickType::MARK_PRICE,
            38 => TickType::BID_EFP_COMPUTATION,
            39 => TickType::ASK_EFP_COMPUTATION,
            40 => TickType::LAST_EFP_COMPUTATION,
            41 => TickType::OPEN_EFP_COMPUTATION,
            42 => TickType::HIGH_EFP_COMPUTATION,
            43 => TickType::LOW_EFP_COMPUTATION,
            44 => TickType::CLOSE_EFP_COMPUTATION,
            45 => TickType::LAST_TIMESTAMP,
            46 => TickType::SHORTABLE,
            47 => TickType::FUNDAMENTAL_RATIOS,
            48 => TickType::RT_VOLUME,
            49 => TickType::HALTED,
            50 => TickType::BID_YIELD,
            51 => TickType::ASK_YIELD,
            52 => TickType::LAST_YIELD,
            53 => TickType::CUST_OPTION_COMPUTATION,
            54 => TickType::TRADE_COUNT,
            55 => TickType::TRADE_RATE,
            56 => TickType::VOLUME_RATE,
            57 => TickType::LAST_RTH_TRADE,
            58 => TickType::RT_HISTORICAL_VOL,
            59 => TickType::IB_DIVIDENDS,
            60 => TickType::BOND_FACTOR_MULTIPLIER,
            61 => TickType::REGULATORY_IMBALANCE,
            62 => TickType::NEWS_TICK,
            63 => TickType::SHORT_TERM_VOLUME_3_MIN,
            64 => TickType::SHORT_TERM_VOLUME_5_MIN,
            65 => TickType::SHORT_TERM_VOLUME_10_MIN,
            66 => TickType::DELAYED_BID,
            67 => TickType::DELAYED_ASK,
            68 => TickType::DELAYED_LAST,
            69 => TickType::DELAYED_BID_SIZE,
            70 => TickType::DELAYED_ASK_SIZE,
            71 => TickType::DELAYED_LAST_SIZE,
            72 => TickType::DELAYED_HIGH,
            73 => TickType::DELAYED_LOW,
            74 => TickType::DELAYED_VOLUME,
            75 => TickType::DELAYED_CLOSE,
            76 => TickType::DELAYED_OPEN,
            77 => TickType::RT_TRD_VOLUME,
            78 => TickType::CREDITMAN_MARK_PRICE,
            79 => TickType::CREDITMAN_SLOW_MARK_PRICE,
            80 => TickType::DELAYED_BID_OPTION,
            81 => TickType::DELAYED_ASK_OPTION,
            82 => TickType::DELAYED_LAST_OPTION,
            83 => TickType::DELAYED_MODEL_OPTION,
            84 => TickType::LAST_EXCH,
            85 => TickType::LAST_REG_TIME,
            86 => TickType::FUTURES_OPEN_INTEREST,
            87 => TickType::AVG_OPT_VOLUME,
            88 => TickType::DELAYED_LAST_TIMESTAMP,
            89 => TickType::SHORTABLE_SHARES,
            90 => TickType::DELAYED_HALTED,
            91 => TickType::REUTERS_2_MUTUAL_FUNDS,
            92 => TickType::ETF_NAV_CLOSE,
            93 => TickType::ETF_NAV_PRIOR_CLOSE,
            94 => TickType::ETF_NAV_BID,
            95 => TickType::ETF_NAV_ASK,
            96 => TickType::ETF_NAV_LAST,
            97 => TickType::ETF_FROZEN_NAV_LAST,
            98 => TickType::ETF_NAV_HIGH,
            99 => TickType::ETF_NAV_LOW,
            100 => TickType::SOCIAL_MARKET_ANALYTICS,
            101 => TickType::ESTIMATED_IPO_MIDPOINT,
            102 => TickType::FINAL_IPO_LAST,
            _ => TickType::UNKNOWN,
        }
    }
}

impl vstd::std_specs::convert::FromSpecImpl<i32> for TickType {
    open spec fn obeys_from_spec() -> bool {
        true
    }

    open spec fn from_spec(v: i32) -> Self {
        TickType::spec_decode(v)
    }
}

impl Default for TickType {
    /// The default field is `UNKNOWN`.
    fn default() -> (r: Self)
        ensures
            r == TickType::UNKNOWN,
    {
        TickType::UNKNOWN
    }
}

/// Every known wire code decodes to a field other than `UNKNOWN`, and the
/// code of that field is the code that was decoded.
pub proof fn lemma_known_tick_code_round_trip(code: i32)
    requires
        is_known_tick_code(code),
    ensures
        TickType::spec_decode(code) != TickType::UNKNOWN,
        TickType::spec_decode(code).spec_code() == code,
{
}

/// Every wire code that is not known decodes to `UNKNOWN`.
pub proof fn lemma_unknown_tick_code(code: i32)
    requires
        !is_known_tick_code(code),
    ensures
        TickType::spec_decode(code) == TickType::UNKNOWN,
{
}

/// Decoding the wire code of a known field gives that field back.
pub proof fn lemma_tick_type_code_round_trip(t: TickType)
    requires
        t != TickType::UNKNOWN,
    ensures
        is_known_tick_code(t.spec_code()),
        TickType::spec_decode(t.spec_code()) == t,
{
}

/// The display name depends on the field alone: two equal fields have the
/// same name.
pub proof fn lemma_tick_type_name_deterministic(a: TickType, b: TickType)
    requires
        a == b,
    ensures
        a.spec_name() == b.spec_name(),
{
}

} // verus!
