//! Market-data feed ingestion, without the transport.
//!
//! The crate holds the decisions of a single-connection streaming client and
//! the bounded history that the client fills. It performs no I/O: a driver
//! opens the connection, sends and receives, and reports each outcome to a
//! [`FeedHandler`], which answers with the next action.

pub mod record;
pub mod store;
pub mod protocol;
pub mod lifecycle;
pub mod handler;

pub use crate::handler::FeedHandler;
pub use crate::protocol::{Action, Event, FeedError, Inbound, Phase, Subscription};
pub use crate::record::MarketData;
pub use crate::store::{HistoryStore, CAPACITY};
