use deribit_models::models::trading::{
    BuyRequest, CancelAllByCurrencyRequest, CancelAllByInstrumentRequest, CancelOrderType,
    CancelRequest, EditRequest, GetOrderStateRequest, SellRequest, TradeRequest,
};
use deribit_models::models::{Currency, Number, OrderType, TimeInForce};

fn number(value: f64) -> Number {
    Number::from_bits(value.to_bits())
}

fn value_of(n: Number) -> f64 {
    f64::from_bits(n.to_bits())
}

fn assert_plain(
    request: &TradeRequest,
    instrument_name: &str,
    amount: f64,
    order_type: OrderType,
    price: Option<f64>,
) {
    assert_eq!(request.instrument_name, instrument_name);
    assert_eq!(value_of(request.amount), amount);
    assert_eq!(request.type_, order_type);
    assert_eq!(request.label, None);
    assert_eq!(request.price.map(value_of), price);
    assert_eq!(request.time_in_force, TimeInForce::GoodTilCancelled);
    assert_eq!(request.max_show, None);
    assert!(!request.post_only);
    assert!(!request.reduce_only);
    assert_eq!(request.stop_price, None);
    assert_eq!(request.trigger, None);
    assert_eq!(request.advanced, None);
}

#[test]
fn market_orders_have_no_price() {
    let request = TradeRequest::market("BTC-PERPETUAL", number(10.0));
    assert_plain(&request, "BTC-PERPETUAL", 10.0, OrderType::Market, None);
}

#[test]
fn limit_orders_have_their_price() {
    let request = TradeRequest::limit("BTC-PERPETUAL", number(10.0), number(9850.5));
    assert_plain(&request, "BTC-PERPETUAL", 10.0, OrderType::Limit, Some(9850.5));
}

#[test]
fn buy_orders_wrap_the_trade_request() {
    let request = BuyRequest::market("ETH-PERPETUAL", number(3.0));
    assert_plain(&request.0, "ETH-PERPETUAL", 3.0, OrderType::Market, None);
    let request = BuyRequest::limit("ETH-PERPETUAL", number(210.25), number(3.0));
    assert_plain(&request.0, "ETH-PERPETUAL", 3.0, OrderType::Limit, Some(210.25));
}

#[test]
fn sell_orders_wrap_the_trade_request() {
    let request = SellRequest::market("BTC-27DEC19", number(40.0));
    assert_plain(&request.0, "BTC-27DEC19", 40.0, OrderType::Market, None);
    let request = SellRequest::limit("BTC-27DEC19", number(7000.0), number(40.0));
    assert_plain(&request.0, "BTC-27DEC19", 40.0, OrderType::Limit, Some(7000.0));
}

#[test]
fn buy_and_sell_limits_take_the_price_before_the_amount() {
    let buy = BuyRequest::limit("BTC-PERPETUAL", number(1.0), number(2.0));
    assert_eq!(buy.0.price.map(value_of), Some(1.0));
    assert_eq!(value_of(buy.0.amount), 2.0);
    let sell = SellRequest::limit("BTC-PERPETUAL", number(1.0), number(2.0));
    assert_eq!(sell.0.price.map(value_of), Some(1.0));
    assert_eq!(value_of(sell.0.amount), 2.0);
    let trade = TradeRequest::limit("BTC-PERPETUAL", number(1.0), number(2.0));
    assert_eq!(value_of(trade.amount), 1.0);
    assert_eq!(trade.price.map(value_of), Some(2.0));
}

#[test]
fn edits_leave_the_optional_fields_out() {
    let request = EditRequest::new("438994", number(9000.5), number(20.0));
    assert_eq!(request.order_id, "438994");
    assert_eq!(value_of(request.price), 9000.5);
    assert_eq!(value_of(request.amount), 20.0);
    assert_eq!(request.post_only, None);
    assert_eq!(request.advanced, None);
    assert_eq!(request.stop_price, None);
}

#[test]
fn cancel_requests_keep_the_order_id() {
    assert_eq!(CancelRequest::new("ETH-100234").order_id(), "ETH-100234");
    assert_eq!(CancelRequest::new("").order_id(), "");
}

#[test]
fn order_state_requests_keep_the_order_id() {
    assert_eq!(GetOrderStateRequest::new("ETH-331562").order_id(), "ETH-331562");
    assert_eq!(GetOrderStateRequest::new("").order_id(), "");
}

#[test]
fn cancel_order_type_defaults_to_all() {
    assert_eq!(CancelOrderType::default(), CancelOrderType::All);
}

#[test]
fn cancel_all_by_currency_defaults_to_every_order() {
    let request = CancelAllByCurrencyRequest::default();
    assert_eq!(request.currency, Currency::default());
    assert_eq!(request.currency, Currency::BTC);
    assert_eq!(request.kind, None);
    assert_eq!(request.type_, CancelOrderType::All);
}

#[test]
fn cancel_all_by_instrument_carries_its_fields() {
    let request = CancelAllByInstrumentRequest {
        instrument_name: "BTC-PERPETUAL".to_string(),
        type_: CancelOrderType::Limit,
    };
    assert_eq!(request.instrument_name, "BTC-PERPETUAL");
    assert_eq!(request.type_, CancelOrderType::Limit);
    assert_ne!(request.type_, CancelOrderType::Stop);
}
