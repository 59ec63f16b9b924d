use hftbacktest::bot::{Bot, ErrorHandler, OrderRecvHook};
use hftbacktest::builder::BotBuilder;
use hftbacktest::connector::Connector;
use hftbacktest::types::{BotError, BuildError, Decimal, Error, Order};

struct StubConn {
    added: Vec<(usize, String)>,
    reject_all: bool,
}

impl StubConn {
    fn new() -> StubConn {
        StubConn { added: Vec::new(), reject_all: false }
    }

    fn rejecting() -> StubConn {
        StubConn { added: Vec::new(), reject_all: true }
    }
}

impl Connector for StubConn {
    fn add(
        &mut self,
        asset_no: usize,
        symbol: String,
        _tick_size: Decimal,
        _lot_size: Decimal,
    ) -> Result<(), Error> {
        if self.reject_all {
            return Err(Error::UnknownSymbol(symbol));
        }
        self.added.push((asset_no, symbol));
        Ok(())
    }

    fn start(&mut self) -> Result<(), Error> {
        Ok(())
    }

    fn submit(&mut self, _asset_no: usize, _order: Order) -> Result<(), Error> {
        Ok(())
    }

    fn cancel(&mut self, _asset_no: usize, _order_id: i64) -> Result<(), Error> {
        Ok(())
    }
}

struct NoopHandler;

impl ErrorHandler for NoopHandler {
    fn on_error(&mut self, _error: Error) -> Result<(), BotError> {
        Ok(())
    }
}

struct NoopHook;

impl OrderRecvHook for NoopHook {
    fn on_order_recv(&mut self, _prev: &Order, _new: &Order) -> Result<(), BotError> {
        Ok(())
    }
}

fn fresh() -> BotBuilder<StubConn, NoopHandler, NoopHook> {
    BotBuilder::new()
}

#[test]
fn valid_configuration_builds_with_dense_asset_numbers() {
    let bot: Bot<StubConn, NoopHandler, NoopHook> = fresh()
        .register("binance", StubConn::new())
        .register("bybit", StubConn::new())
        .add("binance", "BTCUSDT", Decimal::new(1, 1), Decimal::new(1, 3))
        .add("bybit", "BTCUSDT", Decimal::new(5, 1), Decimal::new(1, 3))
        .add("binance", "ETHUSDT", Decimal::new(1, 2), Decimal::new(1, 3))
        .build()
        .expect("valid configuration must build");
    assert_eq!(bot.assets.len(), 3);
    for (i, (_, info)) in bot.assets.iter().enumerate() {
        assert_eq!(info.asset_no, i);
    }
    assert_eq!(bot.maps.len(), 3);
    for map in bot.maps.iter() {
        assert_eq!(map.orders.len(), 0);
    }
    // each connector saw exactly its own bindings, under the dense index
    assert_eq!(bot.conns[0].1.added, vec![(0, "BTCUSDT".to_string()), (2, "ETHUSDT".to_string())]);
    assert_eq!(bot.conns[1].1.added, vec![(1, "BTCUSDT".to_string())]);
}

#[test]
fn empty_builder_builds_an_empty_bot() {
    let bot = fresh().build().expect("no bindings, nothing can fail");
    assert_eq!(bot.assets.len(), 0);
    assert_eq!(bot.maps.len(), 0);
    assert_eq!(bot.conns.len(), 0);
}

#[test]
fn duplicate_pair_fails_build_with_both_names() {
    let err = match fresh()
        .register("X", StubConn::new())
        .add("X", "BTCUSDT", Decimal::new(1, 1), Decimal::new(1, 3))
        .add("X", "BTCUSDT", Decimal::new(1, 1), Decimal::new(1, 3))
        .build()
    {
        Ok(_) => panic!("duplicate binding must fail"),
        Err(e) => e,
    };
    assert_eq!(err, BuildError::Duplicate("X".to_string(), "BTCUSDT".to_string()));
}

#[test]
fn same_symbol_on_distinct_connectors_is_no_duplicate() {
    let bot = fresh()
        .register("X", StubConn::new())
        .register("Y", StubConn::new())
        .add("X", "BTCUSDT", Decimal::new(1, 1), Decimal::new(1, 3))
        .add("Y", "BTCUSDT", Decimal::new(1, 1), Decimal::new(1, 3))
        .build()
        .expect("distinct pairs must build");
    assert_eq!(bot.assets.len(), 2);
}

#[test]
fn unregistered_connector_name_fails_build() {
    let err = match fresh()
        .add("Y", "ETHUSDT", Decimal::new(1, 2), Decimal::new(1, 3))
        .build()
    {
        Ok(_) => panic!("unknown connector must fail"),
        Err(e) => e,
    };
    assert_eq!(err, BuildError::ConnectorNotFound("Y".to_string()));
}

#[test]
fn duplicate_is_reported_before_unknown_connector_of_a_later_binding() {
    let err = match fresh()
        .register("X", StubConn::new())
        .add("X", "BTCUSDT", Decimal::new(1, 1), Decimal::new(1, 3))
        .add("X", "BTCUSDT", Decimal::new(1, 1), Decimal::new(1, 3))
        .add("Z", "ETHUSDT", Decimal::new(1, 2), Decimal::new(1, 3))
        .build()
    {
        Ok(_) => panic!("first violation wins"),
        Err(e) => e,
    };
    assert_eq!(err, BuildError::Duplicate("X".to_string(), "BTCUSDT".to_string()));
}

#[test]
fn connector_rejection_propagates_as_build_failure() {
    let err = match fresh()
        .register("X", StubConn::rejecting())
        .add("X", "NOPEUSDT", Decimal::new(1, 1), Decimal::new(1, 3))
        .build()
    {
        Ok(_) => panic!("connector rejection must fail the build"),
        Err(e) => e,
    };
    assert_eq!(err, BuildError::Connector(Error::UnknownSymbol("NOPEUSDT".to_string())));
}

#[test]
fn reregistering_a_name_replaces_the_connector() {
    let bot = fresh()
        .register("X", StubConn::rejecting())
        .register("X", StubConn::new())
        .add("X", "BTCUSDT", Decimal::new(1, 1), Decimal::new(1, 3))
        .build()
        .expect("the replacement connector accepts");
    assert_eq!(bot.conns.len(), 1);
    assert_eq!(bot.conns[0].1.added.len(), 1);
}
