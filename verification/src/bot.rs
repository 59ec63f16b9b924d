//! The live bot runtime: it owns the per-asset order maps and asset
//! metadata, applies connector-reported order snapshots to them, invokes
//! the integrator's hooks, and contains connector-level errors.
//!
//! Event application is serialized: all connector events funnel through one
//! ordered path, so the maps are never observed in a torn state. A failure
//! in any stage of one event is routed to the registered [`ErrorHandler`]
//! and never prevents later events — for the same or another asset — from
//! being applied; only the handler's explicit escalation decision may end
//! the runtime.

use vstd::prelude::*;

use crate::builder::AssetInfo;
use crate::orders::{seq_contains_id, seq_index_of, upsert_seq, OrderMap};
use crate::types::{BotError, Error, Order};

verus! {

/// Integrator-supplied policy deciding continue-or-escalate on runtime
/// errors. Returning an error escalates to shutdown of the whole runtime.
///
/// The callback is synchronous and must not perform blocking I/O: it runs
/// on the serialized event-application path.
pub trait ErrorHandler {
    fn on_error(&mut self, error: Error) -> Result<(), BotError>;
}

/// Integrator-supplied hook invoked with the previous and the proposed new
/// order state before a mutation is committed. Returning an error vetoes
/// the application; the veto is routed like a connector fault.
///
/// For an order not seen before, the proposed state is passed in both
/// positions. The hook must not retain the references past the call.
pub trait OrderRecvHook {
    fn on_order_recv(&mut self, prev: &Order, new: &Order) -> Result<(), BotError>;
}

/// Whether an authoritative snapshot may replace what the entry sequence
/// holds for its id: only a stored order in a terminal status refuses.
pub open spec fn update_allowed(s: Seq<Order>, o: Order) -> bool {
    !(seq_contains_id(s, o.order_id) && s[seq_index_of(s, o.order_id)].status.spec_is_terminal())
}

/// The live runtime. Built by [`crate::builder::BotBuilder::build`]; the
/// connector registry, asset bindings and handler slots are immutable in
/// shape after build (only connector and handler internal state moves).
pub struct Bot<C, H, K> {
    /// Registry of connectors, keyed by the integrator-chosen name.
    pub conns: Vec<(String, C)>,
    /// Asset bindings in registration order; position equals `asset_no`.
    pub assets: Vec<(String, AssetInfo)>,
    /// One order map per asset, indexed by `asset_no`.
    pub maps: Vec<OrderMap>,
    /// Continue-or-escalate policy; absent means errors are counted and
    /// kept, never silently discarded and never fatal.
    pub error_handler: Option<H>,
    /// Pre-commit order hook; absent means every event is committed.
    pub order_hook: Option<K>,
    /// Count of errors that arrived while no handler was registered.
    pub dropped_errors: u64,
    /// The last error that arrived while no handler was registered.
    pub last_dropped: Option<Error>,
    /// Set by [`Bot::close`]; no order-map mutation starts afterwards.
    pub closed: bool,
}

impl<C, H: ErrorHandler, K: OrderRecvHook> Bot<C, H, K> {
    /// Shape invariant: one well-formed order map per asset and dense
    /// 0-based asset numbering in registration order.
    pub open spec fn wf(self) -> bool {
        &&& self.maps@.len() == self.assets@.len()
        &&& forall|i: int| 0 <= i < self.maps@.len() ==> (#[trigger] self.maps@[i]).wf()
        &&& forall|i: int|
            0 <= i < self.assets@.len() ==> (#[trigger] self.assets@[i]).1.asset_no == i
    }

    /// Whether an event for this asset number with this snapshot passes the
    /// resolution and status-transition stages.
    pub open spec fn target_ok(self, asset_no: usize, order: Order) -> bool {
        asset_no < self.maps@.len() && update_allowed(self.maps@[asset_no as int].orders@, order)
    }

    /// Assembles the runtime from what the builder accumulated, with one
    /// empty order map per asset.
    pub fn new(
        conns: Vec<(String, C)>,
        assets: Vec<(String, AssetInfo)>,
        error_handler: Option<H>,
        order_hook: Option<K>,
    ) -> (r: Bot<C, H, K>)
        requires
            forall|i: int| 0 <= i < assets@.len() ==> (#[trigger] assets@[i]).1.asset_no == i,
        ensures
            r.wf(),
            r.conns == conns,
            r.assets == assets,
            r.error_handler == error_handler,
            r.order_hook == order_hook,
            r.maps@.len() == assets@.len(),
            forall|i: int| 0 <= i < r.maps@.len() ==> (#[trigger] r.maps@[i]).orders@.len() == 0,
            r.dropped_errors == 0,
            r.last_dropped matches None,
            !r.closed,
    {
        let n = assets.len();
        let mut maps: Vec<OrderMap> = Vec::new();
        let mut i: usize = 0;
        while i < n
            invariant
                0 <= i <= n,
                maps@.len() == i,
                forall|j: int| 0 <= j < i ==> (#[trigger] maps@[j]).orders@.len() == 0,
                forall|j: int| 0 <= j < i ==> (#[trigger] maps@[j]).wf(),
            decreases n - i,
        {
            maps.push(OrderMap::new());
            i = i + 1;
        }
        Bot {
            conns,
            assets,
            maps,
            error_handler,
            order_hook,
            dropped_errors: 0,
            last_dropped: None,
            closed: false,
        }
    }

    /// Routes a runtime error to the registered handler and returns its
    /// continue-or-escalate decision.
    ///
    /// With no handler registered the error is counted and kept as the last
    /// dropped error — traced, never silently discarded — and the runtime
    /// continues. Order maps, asset bindings and connectors are untouched
    /// either way: containment of one connector's fault never disturbs the
    /// state other assets' events are applied to.
    pub fn route_error(&mut self, error: Error) -> (r: Result<(), BotError>)
        requires
            old(self).wf(),
        ensures
            final(self).wf(),
            final(self).maps == old(self).maps,
            final(self).assets == old(self).assets,
            final(self).conns == old(self).conns,
            final(self).order_hook == old(self).order_hook,
            final(self).closed == old(self).closed,
            old(self).error_handler matches None ==> {
                &&& r == Ok::<(), BotError>(())
                &&& final(self).error_handler matches None
                &&& final(self).dropped_errors == if old(self).dropped_errors < u64::MAX {
                    old(self).dropped_errors + 1
                } else {
                    old(self).dropped_errors as int
                }
                &&& final(self).last_dropped == Some(error)
            },
            old(self).error_handler matches Some(_) ==> {
                &&& final(self).error_handler matches Some(_)
                &&& final(self).dropped_errors == old(self).dropped_errors
                &&& final(self).last_dropped == old(self).last_dropped
            },
    {
        match self.error_handler.as_mut() {
            Some(h) => h.on_error(error),
            None => {
                if self.dropped_errors < u64::MAX {
                    self.dropped_errors = self.dropped_errors + 1;
                }
                self.last_dropped = Some(error);
                Ok(())
            },
        }
    }

    /// Applies one connector-reported order snapshot: resolves the asset,
    /// checks the status-transition discipline, consults the hook, and
    /// commits the snapshot wholesale.
    ///
    /// An unknown asset number or a transition out of a terminal status
    /// leaves every map unchanged and routes the inconsistency to the error
    /// handler; a hook veto does the same. No outcome for this event
    /// touches any other asset's map.
    pub fn apply_order_update(&mut self, asset_no: usize, order: Order) -> (r: Result<
        (),
        BotError,
    >)
        requires
            old(self).wf(),
        ensures
            final(self).wf(),
            final(self).assets == old(self).assets,
            final(self).conns == old(self).conns,
            final(self).closed == old(self).closed,
            final(self).maps@.len() == old(self).maps@.len(),
            forall|j: int|
                0 <= j < old(self).maps@.len() && j != asset_no ==> final(self).maps@[j].orders@
                    == old(self).maps@[j].orders@,
            old(self).closed ==> *final(self) == *old(self) && r == Ok::<(), BotError>(()),
            !old(self).closed && !old(self).target_ok(asset_no, order) ==> {
                &&& forall|j: int|
                    0 <= j < old(self).maps@.len() ==> final(self).maps@[j].orders@ == old(
                        self,
                    ).maps@[j].orders@
                &&& old(self).error_handler matches None ==> r == Ok::<(), BotError>(())
                    && final(self).last_dropped == Some(
                    if asset_no >= old(self).maps@.len() {
                        Error::InvalidAsset(asset_no)
                    } else {
                        Error::InconsistentStatus(order.order_id)
                    },
                )
            },
            !old(self).closed && old(self).target_ok(asset_no, order) && (old(
                self,
            ).order_hook matches None) ==> {
                &&& final(self).maps@[asset_no as int].orders@ == upsert_seq(
                    old(self).maps@[asset_no as int].orders@,
                    order,
                )
                &&& r == Ok::<(), BotError>(())
                &&& final(self).dropped_errors == old(self).dropped_errors
                &&& final(self).last_dropped == old(self).last_dropped
            },
            !old(self).closed && old(self).target_ok(asset_no, order) && (old(
                self,
            ).order_hook matches Some(_)) ==> {
                ||| {
                    // the hook approved: committed, nothing routed
                    &&& final(self).maps@[asset_no as int].orders@ == upsert_seq(
                        old(self).maps@[asset_no as int].orders@,
                        order,
                    )
                    &&& r == Ok::<(), BotError>(())
                    &&& final(self).dropped_errors == old(self).dropped_errors
                    &&& final(self).last_dropped == old(self).last_dropped
                }
                ||| {
                    // the hook vetoed: map untouched, the veto routed
                    &&& final(self).maps@[asset_no as int].orders@ == old(
                        self,
                    ).maps@[asset_no as int].orders@
                    &&& old(self).error_handler matches None ==> r == Ok::<(), BotError>(())
                        && (final(self).last_dropped matches Some(e)
                        && e matches Error::HookVetoed(_))
                }
            },
    {
        if self.closed {
            return Ok(());
        }
        if asset_no >= self.maps.len() {
            return self.route_error(Error::InvalidAsset(asset_no));
        }
        let prev: Option<Order> = match self.maps[asset_no].lookup(order.order_id) {
            Some(p) => Some(*p),
            None => None,
        };
        if let Some(p) = prev {
            if p.status.is_terminal() {
                return self.route_error(Error::InconsistentStatus(order.order_id));
            }
        }
        let hook_result: Result<(), BotError> = match self.order_hook.as_mut() {
            Some(h) => match &prev {
                Some(p) => h.on_order_recv(p, &order),
                None => h.on_order_recv(&order, &order),
            },
            None => Ok(()),
        };
        match hook_result {
            Ok(()) => {
                self.maps[asset_no].upsert(order);
                Ok(())
            },
            Err(veto) => self.route_error(Error::HookVetoed(veto.message)),
        }
    }

    /// Begins shutdown: no order-map mutation starts after this returns.
    /// Event application becomes a no-op; connectors are released by their
    /// owner once in-flight callbacks have finished.
    pub fn close(&mut self)
        requires
            old(self).wf(),
        ensures
            final(self).wf(),
            final(self).closed,
            final(self).maps == old(self).maps,
            final(self).assets == old(self).assets,
            final(self).conns == old(self).conns,
            final(self).error_handler == old(self).error_handler,
            final(self).order_hook == old(self).order_hook,
    {
        self.closed = true;
    }
}

/// Law: a connector fault is contained. Routing a fault leaves every order
/// map unchanged (the contract of [`Bot::route_error`]), and what an event
/// commits to an asset's map depends only on that map's prior entries — so
/// an event queued for another asset is applied to exactly the state it
/// would have seen had the fault never happened.
pub proof fn lemma_fault_containment<C, H: ErrorHandler, K: OrderRecvHook>(
    pre: Bot<C, H, K>,
    mid: Bot<C, H, K>,
    asset_no: usize,
    order: Order,
)
    requires
        mid.maps@.len() == pre.maps@.len(),
        forall|j: int| 0 <= j < pre.maps@.len() ==> mid.maps@[j].orders@ == pre.maps@[j].orders@,
    ensures
        mid.target_ok(asset_no, order) == pre.target_ok(asset_no, order),
        asset_no < pre.maps@.len() ==> upsert_seq(mid.maps@[asset_no as int].orders@, order)
            == upsert_seq(pre.maps@[asset_no as int].orders@, order),
{
}

} // verus!
