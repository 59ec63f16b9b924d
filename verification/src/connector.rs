//! The uniform capability set every venue connector offers.

use vstd::prelude::*;

use crate::types::{Decimal, Error, Order};

verus! {

/// A venue-specific connector: it translates the venue's wire protocol into
/// the shared order and asset model.
///
/// Implementations vary per venue and are supplied by the integrator; the
/// runtime assumes nothing of their behaviour beyond these signatures, and
/// every rejection they return is contained by the bot's error routing.
pub trait Connector {
    /// Associates a previously unbound instrument with a dense asset index.
    ///
    /// Must fail with [`Error::UnknownSymbol`] when the venue does not
    /// recognize the symbol and with [`Error::CapacityExceeded`] when
    /// bookkeeping capacity is exhausted. It must not itself open network
    /// connections; that happens on [`Connector::start`].
    fn add(
        &mut self,
        asset_no: usize,
        symbol: String,
        tick_size: Decimal,
        lot_size: Decimal,
    ) -> Result<(), Error>;

    /// Starts the connector's network activity.
    fn start(&mut self) -> Result<(), Error>;

    /// Submits a new order for the given asset to the venue.
    fn submit(&mut self, asset_no: usize, order: Order) -> Result<(), Error>;

    /// Requests cancelation of an order of the given asset.
    fn cancel(&mut self, asset_no: usize, order_id: i64) -> Result<(), Error>;
}

} // verus!
