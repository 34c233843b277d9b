//! The core of a live trading bot: the local mirror of orders, positions and
//! recent trades of each instrument, the rules by which connector events change
//! it, and the decisions of the loop that waits for them.
//!
//! The bot decides and the caller acts: an operation that has something to send
//! returns the request, and a wait is taken turn by turn, each turn on what the
//! transport delivered.
pub mod bot;
pub mod clock;
pub mod depth;
pub mod elapse;
pub mod error;
pub mod hooks;
pub mod instrument;
pub mod laws;
pub mod plan;
pub mod rotation;
pub mod types;

pub use bot::{LiveBot, LiveBotBuilder, Outbound};
pub use depth::MarketDepth;
pub use elapse::Elapse;
pub use error::{BotError, BuildError};
pub use instrument::Instrument;
