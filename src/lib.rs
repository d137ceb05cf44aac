//! Market-data vocabulary of a brokerage trading-API client: the wire codes
//! of tick fields, market-data modes, tick-by-tick streams and generic tick
//! requests, the attribute flags of streaming ticks, and the plain records
//! that carry decoded market data.
pub mod market_data;
pub mod news;
pub mod tag_value;
pub mod tick_type;

pub use market_data::{
    DepthMktDataDescription, GenericTick, MarketDataType, MarketDataTypeMsg, TickAttr, TickByTickType,
};
pub use news::NewsProvider;
pub use tag_value::TagValue;
pub use tick_type::TickType;
