//! Shared domain model: order sides, types, statuses, decimal quantities and
//! the error taxonomy of the runtime.

use vstd::prelude::*;

verus! {

/// Side of an order.
#[derive(Clone, Copy, Debug, PartialEq, Eq, Structural)]
pub enum Side {
    Buy,
    Sell,
}

/// Order type.
#[derive(Clone, Copy, Debug, PartialEq, Eq, Structural)]
pub enum OrdType {
    Limit,
    Market,
}

/// Time-in-force policy of an order.
#[derive(Clone, Copy, Debug, PartialEq, Eq, Structural)]
pub enum TimeInForce {
    GTC,
    IOC,
    FOK,
    GTX,
}

/// Externally visible lifecycle state of an order.
#[derive(Clone, Copy, Debug, PartialEq, Eq, Structural)]
pub enum Status {
    New,
    PartiallyFilled,
    Filled,
    Canceled,
    Expired,
}

impl Status {
    /// A terminal status accepts no further transition.
    pub open spec fn spec_is_terminal(self) -> bool {
        self == Status::Filled || self == Status::Canceled || self == Status::Expired
    }

    pub fn is_terminal(&self) -> (r: bool)
        ensures
            r == self.spec_is_terminal(),
    {
        match self {
            Status::Filled => true,
            Status::Canceled => true,
            Status::Expired => true,
            _ => false,
        }
    }
}

/// An exact decimal quantity: `mantissa / 10^scale`.
///
/// Prices, quantities and instrument increments are carried as decimals so
/// that the wire text a venue sends can be represented without rounding.
/// The representation is positional, not normalized: `0.10` keeps scale 2.
#[derive(Clone, Copy, Debug, PartialEq, Eq, Structural)]
pub struct Decimal {
    pub mantissa: i64,
    pub scale: usize,
}

impl Decimal {
    pub fn new(mantissa: i64, scale: usize) -> (r: Decimal)
        ensures
            r.mantissa == mantissa,
            r.scale == scale,
    {
        Decimal { mantissa, scale }
    }
}

/// One order's externally visible state, as reported by a venue.
///
/// Snapshots of this type are authoritative: event application replaces the
/// stored order wholesale, it never merges fields.
#[derive(Clone, Copy, Debug, PartialEq, Eq, Structural)]
pub struct Order {
    /// Exchange-assigned identifier.
    pub order_id: i64,
    pub side: Side,
    pub order_type: OrdType,
    pub time_in_force: TimeInForce,
    pub status: Status,
    pub price: Decimal,
    pub qty: Decimal,
    pub filled_qty: Decimal,
}

/// Failure of decoding a wire value into the domain model.
#[derive(Debug, PartialEq)]
pub enum DecodeError {
    /// A closed-vocabulary field held a token outside the accepted table.
    UnexpectedToken { token: String, expected: String },
    /// A numeric-as-text field held text that is not a decimal number the
    /// runtime can represent.
    InvalidNumeric { text: String },
}

/// Runtime-terminating error returned by integrator callbacks to request
/// shutdown of the whole bot.
#[derive(Debug, PartialEq)]
pub struct BotError {
    pub message: String,
}

/// An error surfaced while running: connector-level rejections and faults,
/// protocol decode failures, and event-application inconsistencies.
///
/// None of these is fatal by itself; each is routed to the registered
/// [`crate::bot::ErrorHandler`], which decides continue-versus-escalate.
#[derive(Debug, PartialEq)]
pub enum Error {
    /// The venue does not recognize the symbol handed to `Connector::add`.
    UnknownSymbol(String),
    /// The connector's bookkeeping capacity is exceeded.
    CapacityExceeded,
    /// Connection-level fault of one connector.
    Connection(String),
    /// A wire value could not be decoded.
    Decode(DecodeError),
    /// An event named an asset number outside the bot's asset table.
    InvalidAsset(usize),
    /// An event attempted a transition out of a terminal order status.
    InconsistentStatus(i64),
    /// The order-receive hook vetoed an event.
    HookVetoed(String),
}

/// Failure of `BotBuilder::build`; configuration errors are fatal to the
/// build and never retried.
#[derive(Debug, PartialEq)]
pub enum BuildError {
    /// The same `(connector name, symbol)` pair was bound twice.
    Duplicate(String, String),
    /// A binding names a connector that was never registered.
    ConnectorNotFound(String),
    /// A connector rejected one of its bindings.
    Connector(Error),
}

} // verus!
