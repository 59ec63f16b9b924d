//! Assembly of a live bot.
//!
//! The builder accumulates, in any order, connector registrations and asset
//! bindings, plus at most one error handler and one order-receive hook
//! (last registration wins). `build` validates the configuration — per
//! binding, in order: duplicate pair, unknown connector name, connector
//! acceptance — and fails fast on the first violation, before any network
//! activity.

use vstd::prelude::*;

use crate::bot::{Bot, ErrorHandler, OrderRecvHook};
use crate::connector::Connector;
use crate::decode::str_eq;
use crate::types::{BuildError, Decimal};

verus! {

/// Immutable description of one tradable instrument: the dense index
/// assigned at build time, the venue symbol, and the minimum price and
/// quantity increments.
pub struct AssetInfo {
    pub asset_no: usize,
    pub symbol: String,
    pub tick_size: Decimal,
    pub lot_size: Decimal,
}

/// Whether some registered connector carries this name.
pub open spec fn conn_registered<C>(conns: Seq<(String, C)>, name: Seq<char>) -> bool {
    exists|i: int| 0 <= i < conns.len() && conns[i].0@ == name
}

/// Position of the connector with this name, when one is registered.
pub open spec fn conn_index_of<C>(conns: Seq<(String, C)>, name: Seq<char>) -> int {
    choose|i: int| 0 <= i < conns.len() && conns[i].0@ == name
}

/// The binding at `i` repeats the `(connector name, symbol)` pair of an
/// earlier binding.
pub open spec fn dup_at(assets: Seq<(String, AssetInfo)>, i: int) -> bool {
    exists|j: int|
        0 <= j < i && (#[trigger] assets[j]).0@ == assets[i].0@ && assets[j].1.symbol@
            == assets[i].1.symbol@
}

/// The binding at `i` breaks a configuration rule: repeated pair or
/// unregistered connector name.
pub open spec fn violation_at<C>(
    conns: Seq<(String, C)>,
    assets: Seq<(String, AssetInfo)>,
    i: int,
) -> bool {
    dup_at(assets, i) || !conn_registered(conns, assets[i].0@)
}

/// Every binding respects both configuration rules.
pub open spec fn config_ok<C>(conns: Seq<(String, C)>, assets: Seq<(String, AssetInfo)>) -> bool {
    forall|i: int| 0 <= i < assets.len() ==> !violation_at(conns, assets, i)
}

/// The binding at `i` is the first one that breaks a configuration rule.
pub open spec fn first_violation<C>(
    conns: Seq<(String, C)>,
    assets: Seq<(String, AssetInfo)>,
    i: int,
) -> bool {
    &&& 0 <= i < assets.len()
    &&& violation_at(conns, assets, i)
    &&& forall|j: int| 0 <= j < i ==> !violation_at(conns, assets, j)
}

/// `build` reaches the connector call for binding `i`: every binding up to
/// and including `i` passes both configuration checks.
pub open spec fn connector_consulted<C>(
    conns: Seq<(String, C)>,
    assets: Seq<(String, AssetInfo)>,
    i: int,
) -> bool {
    &&& 0 <= i < assets.len()
    &&& forall|j: int| 0 <= j <= i ==> !violation_at(conns, assets, j)
}

/// Law: a builder sequence with no repeated `(connector name, symbol)` pair
/// and every bound connector name registered is a valid configuration.
///
/// Together with the contract of [`BotBuilder::build`], such a sequence
/// never fails with `Duplicate` or `ConnectorNotFound`: it builds a bot
/// whose asset numbers equal the binding positions, unless a connector of
/// its own accord rejects a binding.
pub proof fn lemma_valid_sequence_builds<C>(
    conns: Seq<(String, C)>,
    assets: Seq<(String, AssetInfo)>,
)
    requires
        forall|i: int, j: int|
            0 <= i < j < assets.len() ==> !((#[trigger] assets[i]).0@ == (
            #[trigger] assets[j]).0@ && assets[i].1.symbol@ == assets[j].1.symbol@),
        forall|i: int| 0 <= i < assets.len() ==> conn_registered(conns, (#[trigger] assets[i]).0@),
    ensures
        config_ok(conns, assets),
{
    assert forall|i: int| 0 <= i < assets.len() implies !violation_at(conns, assets, i) by {
        if dup_at(assets, i) {
            let j = choose|j: int|
                0 <= j < i && (#[trigger] assets[j]).0@ == assets[i].0@ && assets[j].1.symbol@
                    == assets[i].1.symbol@;
            assert(!(assets[j].0@ == assets[i].0@ && assets[j].1.symbol@ == assets[i].1.symbol@));
        }
    }
}

/// Builder of a live [`Bot`].
pub struct BotBuilder<C, H, K> {
    /// Registered connectors, keyed by unique integrator-chosen names.
    pub conns: Vec<(String, C)>,
    /// Asset bindings in registration order.
    pub assets: Vec<(String, AssetInfo)>,
    /// Error-handling policy slot; a later registration replaces an
    /// earlier one.
    pub error_handler: Option<H>,
    /// Order-receive hook slot; a later registration replaces an earlier
    /// one.
    pub order_hook: Option<K>,
}

impl<C: Connector, H: ErrorHandler, K: OrderRecvHook> BotBuilder<C, H, K> {
    /// Registry keys are unique and asset numbering is dense, 0-based, in
    /// registration order. Established by `new` and kept by every method.
    pub open spec fn wf(self) -> bool {
        &&& forall|i: int, j: int|
            0 <= i < j < self.conns@.len() ==> (#[trigger] self.conns@[i]).0@ != (
            #[trigger] self.conns@[j]).0@
        &&& forall|i: int|
            0 <= i < self.assets@.len() ==> (#[trigger] self.assets@[i]).1.asset_no == i
    }

    pub fn new() -> (r: BotBuilder<C, H, K>)
        ensures
            r.wf(),
            r.conns@.len() == 0,
            r.assets@.len() == 0,
            r.error_handler matches None,
            r.order_hook matches None,
    {
        BotBuilder { conns: Vec::new(), assets: Vec::new(), error_handler: None, order_hook: None }
    }

    /// Registers a connector under a name; binding an asset to this
    /// connector names it in [`BotBuilder::add`]. Registering an already
    /// used name replaces that connector.
    #[verifier::loop_isolation(false)]
    pub fn register(self, name: &str, conn: C) -> (r: BotBuilder<C, H, K>)
        requires
            self.wf(),
        ensures
            r.wf(),
            r.assets == self.assets,
            r.error_handler == self.error_handler,
            r.order_hook == self.order_hook,
            conn_registered(r.conns@, name@),
            conn_registered(self.conns@, name@) ==> {
                let k = conn_index_of(self.conns@, name@);
                &&& r.conns@.len() == self.conns@.len()
                &&& forall|t: int|
                    0 <= t < r.conns@.len() && t != k ==> r.conns@[t] == self.conns@[t]
                &&& r.conns@[k].0@ == name@
                &&& r.conns@[k].1 == conn
            },
            !conn_registered(self.conns@, name@) ==> {
                &&& r.conns@.len() == self.conns@.len() + 1
                &&& forall|t: int| 0 <= t < self.conns@.len() ==> r.conns@[t] == self.conns@[t]
                &&& r.conns@.last().0@ == name@
                &&& r.conns@.last().1 == conn
            },
    {
        let ghost orig = self;
        let mut s = self;
        let n = s.conns.len();
        let mut i: usize = 0;
        while i < n
            invariant
                0 <= i <= n,
                s == orig,
                forall|t: int| 0 <= t < i ==> s.conns@[t].0@ != name@,
            decreases n - i,
        {
            if str_eq(s.conns[i].0.as_str(), name) {
                proof {
                    let k = conn_index_of(orig.conns@, name@);
                    assert(0 <= k < orig.conns@.len() && orig.conns@[k].0@ == name@);
                    assert(k == i as int);
                }
                s.conns.set(i, (name.to_owned(), conn));
                proof {
                    assert(s.conns@[i as int].0@ == name@);
                    assert(conn_registered(s.conns@, name@));
                }
                return s;
            }
            i = i + 1;
        }
        s.conns.push((name.to_owned(), conn));
        proof {
            assert(s.conns@[s.conns@.len() - 1].0@ == name@);
            assert(conn_registered(s.conns@, name@));
        }
        s
    }

    /// Binds an asset: it will trade through the named connector under the
    /// given symbol, with the given minimum increments. The binding's
    /// position is its future asset number.
    pub fn add(self, name: &str, symbol: &str, tick_size: Decimal, lot_size: Decimal) -> (r:
        BotBuilder<C, H, K>)
        requires
            self.wf(),
        ensures
            r.wf(),
            r.conns == self.conns,
            r.error_handler == self.error_handler,
            r.order_hook == self.order_hook,
            r.assets@.len() == self.assets@.len() + 1,
            forall|t: int| 0 <= t < self.assets@.len() ==> r.assets@[t] == self.assets@[t],
            r.assets@.last().0@ == name@,
            r.assets@.last().1.symbol@ == symbol@,
            r.assets@.last().1.asset_no == self.assets@.len(),
            r.assets@.last().1.tick_size == tick_size,
            r.assets@.last().1.lot_size == lot_size,
    {
        let mut s = self;
        let asset_no = s.assets.len();
        s.assets.push(
            (name.to_owned(), AssetInfo { asset_no, symbol: symbol.to_owned(), tick_size, lot_size }),
        );
        s
    }

    /// Registers the error handler that decides continue-or-escalate for
    /// errors surfaced at run time. A later registration wins.
    pub fn error_handler(self, handler: H) -> (r: BotBuilder<C, H, K>)
        requires
            self.wf(),
        ensures
            r.wf(),
            r.conns == self.conns,
            r.assets == self.assets,
            r.order_hook == self.order_hook,
            r.error_handler == Some(handler),
    {
        let mut s = self;
        s.error_handler = Some(handler);
        s
    }

    /// Registers the order-receive hook consulted before each order-state
    /// mutation is committed. A later registration wins.
    pub fn order_recv_hook(self, hook: K) -> (r: BotBuilder<C, H, K>)
        requires
            self.wf(),
        ensures
            r.wf(),
            r.conns == self.conns,
            r.assets == self.assets,
            r.error_handler == self.error_handler,
            r.order_hook == Some(hook),
    {
        let mut s = self;
        s.order_hook = Some(hook);
        s
    }

    /// Builds the live bot.
    ///
    /// Checks each binding in order — repeated `(connector name, symbol)`
    /// pair, then unknown connector name, then the connector's own
    /// acceptance of `add(asset_no, symbol, tick_size, lot_size)` — and
    /// fails on the first violation. On success, asset numbers equal
    /// binding positions and ownership of everything accumulated moves
    /// into the returned runtime; the builder is consumed.
    #[verifier::loop_isolation(false)]
    pub fn build(self) -> (r: Result<Bot<C, H, K>, BuildError>)
        requires
            self.wf(),
        ensures
            r matches Ok(bot) ==> {
                &&& config_ok(self.conns@, self.assets@)
                &&& bot.wf()
                &&& bot.assets@ == self.assets@
                &&& bot.conns@.len() == self.conns@.len()
                &&& forall|k: int|
                    0 <= k < self.conns@.len() ==> (#[trigger] bot.conns@[k]).0 == self.conns@[k].0
                &&& bot.error_handler == self.error_handler
                &&& bot.order_hook == self.order_hook
                &&& bot.maps@.len() == self.assets@.len()
                &&& forall|i: int|
                    0 <= i < bot.maps@.len() ==> (#[trigger] bot.maps@[i]).orders@.len() == 0
                &&& !bot.closed
                &&& bot.dropped_errors == 0
            },
            config_ok(self.conns@, self.assets@) ==> (r matches Ok(_) || (r matches Err(e)
                && e matches BuildError::Connector(_))),
            self.assets@.len() == 0 ==> r matches Ok(_),
            r matches Err(e) ==> (e matches BuildError::Connector(_) ==> exists|i: int|
                #[trigger] connector_consulted(self.conns@, self.assets@, i)),
            r matches Err(e) ==> (e matches BuildError::Duplicate(cn, sym) ==> exists|i: int|
                {
                    &&& #[trigger] first_violation(self.conns@, self.assets@, i)
                    &&& dup_at(self.assets@, i)
                    &&& cn@ == self.assets@[i].0@
                    &&& sym@ == self.assets@[i].1.symbol@
                }),
            r matches Err(e) ==> (e matches BuildError::ConnectorNotFound(cn) ==> exists|i: int|
                {
                    &&& #[trigger] first_violation(self.conns@, self.assets@, i)
                    &&& !dup_at(self.assets@, i)
                    &&& !conn_registered(self.conns@, self.assets@[i].0@)
                    &&& cn@ == self.assets@[i].0@
                }),
    {
        let ghost orig = self;
        let BotBuilder { mut conns, assets, error_handler, order_hook } = self;
        let n = assets.len();
        let cn = conns.len();
        let mut an: usize = 0;
        while an < n
            invariant
                0 <= an <= n,
                conns@.len() == cn,
                forall|k: int| 0 <= k < cn ==> (#[trigger] conns@[k]).0 == orig.conns@[k].0,
                forall|j: int| 0 <= j < an ==> !violation_at(orig.conns@, orig.assets@, j),
            decreases n - an,
        {
            let mut j: usize = 0;
            while j < an
                invariant
                    0 <= j <= an,
                    forall|t: int|
                        0 <= t < j ==> !((#[trigger] assets@[t]).0@ == assets@[an as int].0@
                            && assets@[t].1.symbol@ == assets@[an as int].1.symbol@),
                decreases an - j,
            {
                if str_eq(assets[j].0.as_str(), assets[an].0.as_str()) && str_eq(
                    assets[j].1.symbol.as_str(),
                    assets[an].1.symbol.as_str(),
                ) {
                    proof {
                        assert(orig.assets@[j as int].0@ == orig.assets@[an as int].0@
                            && orig.assets@[j as int].1.symbol@ == orig.assets@[an as int].1.symbol@);
                        assert(dup_at(orig.assets@, an as int));
                        assert(first_violation(orig.conns@, orig.assets@, an as int));
                    }
                    return Err(
                        BuildError::Duplicate(assets[an].0.clone(), assets[an].1.symbol.clone()),
                    );
                }
                j = j + 1;
            }
            let mut ci: usize = 0;
            let mut found_idx: usize = cn;
            while ci < cn
                invariant
                    0 <= ci <= cn,
                    found_idx <= cn,
                    found_idx == cn ==> forall|t: int|
                        0 <= t < ci ==> (#[trigger] conns@[t]).0@ != assets@[an as int].0@,
                    found_idx < cn ==> conns@[found_idx as int].0@ == assets@[an as int].0@,
                decreases cn - ci,
            {
                if found_idx == cn && str_eq(conns[ci].0.as_str(), assets[an].0.as_str()) {
                    found_idx = ci;
                }
                ci = ci + 1;
            }
            if found_idx == cn {
                proof {
                    assert forall|t: int|
                        0 <= t < orig.conns@.len() implies orig.conns@[t].0@ != orig.assets@[
                        an as int].0@ by {
                        assert(conns@[t].0 == orig.conns@[t].0);
                    }
                    assert(!conn_registered(orig.conns@, orig.assets@[an as int].0@));
                    assert(first_violation(orig.conns@, orig.assets@, an as int));
                }
                return Err(BuildError::ConnectorNotFound(assets[an].0.clone()));
            }
            proof {
                assert(!dup_at(orig.assets@, an as int)) by {
                    if dup_at(orig.assets@, an as int) {
                        let t = choose|t: int|
                            0 <= t < an && (#[trigger] orig.assets@[t]).0@ == orig.assets@[
                                an as int].0@ && orig.assets@[t].1.symbol@ == orig.assets@[
                                an as int].1.symbol@;
                        assert(!(orig.assets@[t].0@ == orig.assets@[an as int].0@
                            && orig.assets@[t].1.symbol@ == orig.assets@[an as int].1.symbol@));
                    }
                }
                assert(orig.conns@[found_idx as int].0@ == orig.assets@[an as int].0@);
                assert(conn_registered(orig.conns@, orig.assets@[an as int].0@));
                assert(connector_consulted(orig.conns@, orig.assets@, an as int));
            }
            let symbol = assets[an].1.symbol.clone();
            let tick_size = assets[an].1.tick_size;
            let lot_size = assets[an].1.lot_size;
            let pair = &mut conns[found_idx];
            let res = pair.1.add(an, symbol, tick_size, lot_size);
            match res {
                Ok(_) => {},
                Err(e) => {
                    return Err(BuildError::Connector(e));
                },
            }
            an = an + 1;
        }
        let bot = Bot::new(conns, assets, error_handler, order_hook);
        Ok(bot)
    }
}

} // verus!
