//! The errors of the bot and of its builder.
use vstd::prelude::*;
use vstd::string::StringExecFns;

verus! {

/// Why an operation of the bot failed.
#[derive(Clone, Debug, PartialEq, Eq)]
pub enum BotError {
    /// An order with this id is already in the mirror.
    OrderIdExist,
    /// No instrument has this number.
    InstrumentNotFound,
    /// No order with this id is in the mirror.
    OrderNotFound,
    /// The order cannot be cancelled any more.
    InvalidOrderStatus,
    /// The transport's deadline passed.
    Timeout,
    /// The wait was interrupted from outside.
    Interrupted,
    /// An error of the transport or of a hook, in its own words.
    Custom(String),
}

impl BotError {
    /// The text of each error.
    pub open spec fn spec_message(&self) -> Seq<char> {
        match self {
            BotError::OrderIdExist => "OrderIdExist"@,
            BotError::InstrumentNotFound => "AssetNotFound"@,
            BotError::OrderNotFound => "OrderNotFound"@,
            BotError::InvalidOrderStatus => "InvalidOrderStatus"@,
            BotError::Timeout => "Timeout"@,
            BotError::Interrupted => "Interrupted"@,
            BotError::Custom(text) => "Custom: "@ + text@,
        }
    }

    /// The error as text.
    pub fn message(&self) -> (text: String)
        ensures
            text@ == self.spec_message(),
    {
        match self {
            BotError::OrderIdExist => String::from_str("OrderIdExist"),
            BotError::InstrumentNotFound => String::from_str("AssetNotFound"),
            BotError::OrderNotFound => String::from_str("OrderNotFound"),
            BotError::InvalidOrderStatus => String::from_str("InvalidOrderStatus"),
            BotError::Timeout => String::from_str("Timeout"),
            BotError::Interrupted => String::from_str("Interrupted"),
            BotError::Custom(text) => String::from_str("Custom: ").concat(text.as_str()),
        }
    }
}

/// Why a bot could not be built.
#[derive(Clone, Debug, PartialEq, Eq)]
pub enum BuildError {
    /// The instrument of this connector and symbol was added twice.
    Duplicate(String, String),
    /// The transport failed while the bot was being connected, in its own words.
    Error(String),
}

impl BuildError {
    /// This error reports the pair `(connector, symbol)` as added twice.
    pub open spec fn is_duplicate_of(self, connector: Seq<char>, symbol: Seq<char>) -> bool {
        self matches BuildError::Duplicate(c, s) && c@ == connector && s@ == symbol
    }
}

} // verus!
