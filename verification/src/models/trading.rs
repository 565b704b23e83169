//! Placing, changing, cancelling and looking up orders.

use crate::models::{
    AdvanceOption, AssetKind, Currency, Direction, Number, OrderState, OrderType, Role,
    TimeInForce, Trigger,
};
use crate::request::{Request, VoidRequest};
use crate::wire::{neither_text_nor_number, text_or_number, TypeMismatch, WireValue};
use vstd::prelude::*;

verus! {

/// An order to buy.
#[derive(Clone, Debug)]
pub struct BuyRequest(pub TradeRequest);

/// The answer to `BuyRequest`.
#[derive(Clone, Debug)]
pub struct BuyResponse(pub TradeResponse);

impl BuyRequest {
    /// A market order to buy `amount` of the instrument.
    pub fn market(instrument_name: &str, amount: Number) -> (r: BuyRequest)
        ensures
            r.0.is_plain(instrument_name@, amount, OrderType::Market, None),
    {
        BuyRequest(TradeRequest::market(instrument_name, amount))
    }

    /// A limit order to buy `amount` of the instrument at `price`.
    pub fn limit(instrument_name: &str, price: Number, amount: Number) -> (r: BuyRequest)
        ensures
            r.0.is_plain(instrument_name@, amount, OrderType::Limit, Some(price)),
    {
        BuyRequest(TradeRequest::limit(instrument_name, amount, price))
    }
}

impl Request for BuyRequest {
    const METHOD: &'static str = "private/buy";

    type Response = BuyResponse;
}

/// An order to sell.
#[derive(Clone, Debug)]
pub struct SellRequest(pub TradeRequest);

/// The answer to `SellRequest`.
#[derive(Clone, Debug)]
pub struct SellResponse(pub TradeResponse);

impl SellRequest {
    /// A market order to sell `amount` of the instrument.
    pub fn market(instrument_name: &str, amount: Number) -> (r: SellRequest)
        ensures
            r.0.is_plain(instrument_name@, amount, OrderType::Market, None),
    {
        SellRequest(TradeRequest::market(instrument_name, amount))
    }

    /// A limit order to sell `amount` of the instrument at `price`.
    pub fn limit(instrument_name: &str, price: Number, amount: Number) -> (r: SellRequest)
        ensures
            r.0.is_plain(instrument_name@, amount, OrderType::Limit, Some(price)),
    {
        SellRequest(TradeRequest::limit(instrument_name, amount, price))
    }
}

impl Request for SellRequest {
    const METHOD: &'static str = "private/sell";

    type Response = SellResponse;
}

/// A change of the price and amount of an open order.
#[derive(Clone, Debug)]
pub struct EditRequest {
    pub order_id: String,
    pub amount: Number,
    pub price: Number,
    pub post_only: Option<bool>,
    pub advanced: Option<AdvanceOption>,
    pub stop_price: Option<Number>,
}

impl EditRequest {
    /// The change of the order `order_id` to `price` and `amount`, with
    /// every optional field left out.
    pub fn new(order_id: &str, price: Number, amount: Number) -> (r: EditRequest)
        ensures
            r.order_id@ == order_id@,
            r.amount == amount,
            r.price == price,
            r.post_only is None,
            r.advanced is None,
            r.stop_price is None,
    {
        EditRequest {
            order_id: order_id.to_owned(),
            amount: amount,
            price: price,
            post_only: None,
            advanced: None,
            stop_price: None,
        }
    }
}

/// The answer to `EditRequest`.
#[derive(Clone, Debug)]
pub struct EditResponse(pub TradeResponse);

impl Request for EditRequest {
    const METHOD: &'static str = "private/edit";

    type Response = EditResponse;
}

/// The parameters of an order, whichever side it is on.
#[derive(Clone, Debug)]
pub struct TradeRequest {
    pub instrument_name: String,
    pub amount: Number,
    pub type_: OrderType,
    pub label: Option<String>,
    pub price: Option<Number>,
    pub time_in_force: TimeInForce,
    pub max_show: Option<Number>,
    pub post_only: bool,
    pub reduce_only: bool,
    pub stop_price: Option<Number>,
    pub trigger: Option<Trigger>,
    pub advanced: Option<AdvanceOption>,
}

impl TradeRequest {
    /// The order is for `amount` of the instrument, of the given type and
    /// at the given price, and everything else is as the exchange would
    /// have it by default: good till cancelled, neither post-only nor
    /// reduce-only, and no label, display limit, stop price, trigger or
    /// advanced quoting.
    pub open spec fn is_plain(
        self,
        instrument_name: Seq<char>,
        amount: Number,
        order_type: OrderType,
        price: Option<Number>,
    ) -> bool {
        &&& self.instrument_name@ == instrument_name
        &&& self.amount == amount
        &&& self.type_ == order_type
        &&& self.label is None
        &&& self.price == price
        &&& self.time_in_force == TimeInForce::GoodTilCancelled
        &&& self.max_show is None
        &&& !self.post_only
        &&& !self.reduce_only
        &&& self.stop_price is None
        &&& self.trigger is None
        &&& self.advanced is None
    }

    /// A market order for `amount` of the instrument.
    pub fn market(instrument_name: &str, amount: Number) -> (r: TradeRequest)
        ensures
            r.is_plain(instrument_name@, amount, OrderType::Market, None),
    {
        TradeRequest {
            instrument_name: instrument_name.to_owned(),
            amount: amount,
            type_: OrderType::Market,
            label: None,
            price: None,
            time_in_force: TimeInForce::GoodTilCancelled,
            max_show: None,
            post_only: false,
            reduce_only: false,
            stop_price: None,
            trigger: None,
            advanced: None,
        }
    }

    /// A limit order for `amount` of the instrument at `price`.
    pub fn limit(instrument_name: &str, amount: Number, price: Number) -> (r: TradeRequest)
        ensures
            r.is_plain(instrument_name@, amount, OrderType::Limit, Some(price)),
    {
        TradeRequest {
            instrument_name: instrument_name.to_owned(),
            amount: amount,
            type_: OrderType::Limit,
            label: None,
            price: Some(price),
            time_in_force: TimeInForce::GoodTilCancelled,
            max_show: None,
            post_only: false,
            reduce_only: false,
            stop_price: None,
            trigger: None,
            advanced: None,
        }
    }
}

/// What placing or changing an order led to: the order as it now stands, and
/// the trades it was filled by.
#[derive(Clone, Debug)]
pub struct TradeResponse {
    pub trades: Vec<Trade>,
    pub order: Order,
}

/// One trade of an order.
#[derive(Clone, Debug)]
pub struct Trade {
    pub trade_seq: i64,
    pub trade_id: String,
    pub timestamp: u128,
    pub tick_direction: i64,
    pub state: OrderState,
    pub self_trade: bool,
    pub price: Number,
    pub order_type: OrderType,
    pub order_id: String,
    pub matching_id: Option<String>,
    pub liquidity: Role,
    pub label: Option<String>,
    pub instrument_name: String,
    pub index_price: Number,
    pub fee_currency: Currency,
    pub fee: Number,
    pub direction: Direction,
    pub amount: Number,
}

/// An order as the exchange holds it.
#[derive(Clone, Debug)]
pub struct Order {
    pub time_in_force: TimeInForce,
    pub reduce_only: bool,
    pub profit_loss: Number,
    /// Absent where the exchange sends a text in place of a price, as it does
    /// for a stop-market order.
    pub price: Option<Number>,
    pub post_only: bool,
    pub order_type: OrderType,
    pub order_state: OrderState,
    pub order_id: String,
    pub max_show: Number,
    pub last_update_timestamp: u128,
    pub label: Option<String>,
    pub is_liquidation: bool,
    pub instrument_name: String,
    pub filled_amount: Number,
    pub direction: Direction,
    pub creation_timestamp: u128,
    pub commission: Number,
    pub average_price: Number,
    pub api: bool,
    pub amount: Number,
}

/// Decodes the price of an order, which arrives as a number or as a text
/// that says that no price applies. A number is the price. A text, whatever
/// it says, is no price, and what it said is not kept. A value that is
/// neither is rejected.
pub fn deserialize_price(value: WireValue) -> (r: Result<Option<Number>, TypeMismatch>)
    ensures
        r == match value {
            WireValue::Number(n) => Ok::<Option<Number>, TypeMismatch>(Some(n)),
            WireValue::Text(_) => Ok(None),
            _ => Err(neither_text_nor_number(value.kind())),
        },
{
    match text_or_number(value) {
        Ok(p) => Ok(p.right()),
        Err(e) => Err(e),
    }
}

/// Which orders a cancel-all request is about.
#[derive(Clone, Copy, Debug, PartialEq, Eq, Structural)]
pub enum CancelOrderType {
    All,
    Limit,
    Stop,
}

impl Default for CancelOrderType {
    fn default() -> (t: CancelOrderType)
        ensures
            t == CancelOrderType::All,
    {
        CancelOrderType::All
    }
}

/// Cancels one order.
#[derive(Clone, Debug)]
pub struct CancelRequest {
    order_id: String,
}

impl CancelRequest {
    /// The identifier of the order to cancel.
    pub closed spec fn spec_order_id(&self) -> Seq<char> {
        self.order_id@
    }

    /// The request to cancel the order `order_id`.
    pub fn new(order_id: &str) -> (r: CancelRequest)
        ensures
            r.spec_order_id() == order_id@,
    {
        CancelRequest { order_id: order_id.to_owned() }
    }

    /// The identifier of the order to cancel.
    pub fn order_id(&self) -> (id: &str)
        ensures
            id@ == self.spec_order_id(),
    {
        self.order_id.as_str()
    }
}

/// The cancelled order.
#[derive(Clone, Debug)]
pub struct CancelResponse {
    pub advanced: Option<AdvanceOption>,
    pub amount: Number,
    pub api: bool,
    pub average_price: Number,
    pub commission: Number,
    pub creation_timestamp: u64,
    pub direction: Direction,
    pub filled_amount: Number,
    pub implv: Option<Number>,
    pub instrument_name: String,
    pub is_liquidation: bool,
    pub label: String,
    pub last_update_timestamp: u64,
    pub max_show: Number,
    pub order_id: String,
    pub order_state: OrderState,
    pub order_type: OrderType,
    pub post_only: bool,
    pub price: Number,
    pub profit_loss: Number,
    pub reduce_only: bool,
    pub stop_price: Option<Number>,
    pub time_in_force: TimeInForce,
    pub trigger: Option<Trigger>,
    pub triggered: Option<bool>,
    pub usd: Option<Number>,
}

impl Request for CancelRequest {
    const METHOD: &'static str = "private/cancel";

    type Response = CancelResponse;
}

/// Cancels every order of the account. It has no parameters.
#[derive(Clone, Debug, PartialEq, Eq, Structural)]
pub struct CancelAllRequest;

impl Request for CancelAllRequest {
    const METHOD: &'static str = "private/cancel_all";

    type Response = CancelAllResponse;
}

impl VoidRequest for CancelAllRequest {
    #[inline]
    fn empty(&self) -> (b: bool)
        ensures
            b,
    {
        true
    }
}

/// Cancels the orders on one instrument.
#[derive(Clone, Debug)]
pub struct CancelAllByInstrumentRequest {
    pub instrument_name: String,
    pub type_: CancelOrderType,
}

impl Request for CancelAllByInstrumentRequest {
    const METHOD: &'static str = "private/cancel_all_by_instrument";

    type Response = CancelAllResponse;
}

/// Cancels the orders in one currency, of one kind of instrument or of all.
#[derive(Clone, Copy, Debug, PartialEq, Eq, Structural)]
pub struct CancelAllByCurrencyRequest {
    pub currency: Currency,
    pub kind: Option<AssetKind>,
    pub type_: CancelOrderType,
}

impl Default for CancelAllByCurrencyRequest {
    fn default() -> (r: CancelAllByCurrencyRequest)
        ensures
            r.currency == Currency::BTC,
            r.kind is None,
            r.type_ == CancelOrderType::All,
    {
        CancelAllByCurrencyRequest {
            currency: Currency::BTC,
            kind: None,
            type_: CancelOrderType::All,
        }
    }
}

impl Request for CancelAllByCurrencyRequest {
    const METHOD: &'static str = "private/cancel_all_by_currency";

    type Response = CancelAllResponse;
}

/// The answer to each of the cancel-all requests.
#[derive(Clone, Copy, Debug, PartialEq, Eq, Structural)]
pub enum CancelAllResponse {
    Okay,
}

/// Asks for the state of one order.
#[derive(Clone, Debug)]
pub struct GetOrderStateRequest {
    order_id: String,
}

impl GetOrderStateRequest {
    /// The identifier of the order asked about.
    pub closed spec fn spec_order_id(&self) -> Seq<char> {
        self.order_id@
    }

    /// The request for the state of the order `order_id`.
    pub fn new(order_id: &str) -> (r: GetOrderStateRequest)
        ensures
            r.spec_order_id() == order_id@,
    {
        GetOrderStateRequest { order_id: order_id.to_owned() }
    }

    /// The identifier of the order asked about.
    pub fn order_id(&self) -> (id: &str)
        ensures
            id@ == self.spec_order_id(),
    {
        self.order_id.as_str()
    }
}

/// The order asked about.
#[derive(Clone, Debug)]
pub struct GetOrderStateResponse {
    pub advanced: Option<AdvanceOption>,
    pub amount: Number,
    pub api: bool,
    pub average_price: Number,
    pub commission: Number,
    pub creation_timestamp: u64,
    pub direction: Direction,
    pub filled_amount: Number,
    pub implv: Option<Number>,
    pub instrument_name: String,
    pub is_liquidation: bool,
    pub label: String,
    pub last_update_timestamp: u64,
    pub max_show: Number,
    pub order_id: String,
    pub order_state: OrderState,
    pub order_type: OrderType,
    pub post_only: bool,
    pub price: Number,
    pub profit_loss: Number,
    pub reduce_only: bool,
    pub stop_price: Option<Number>,
    pub time_in_force: TimeInForce,
    pub trigger: Option<Trigger>,
    pub triggered: Option<bool>,
    pub usd: Option<Number>,
}

impl Request for GetOrderStateRequest {
    const METHOD: &'static str = "private/get_order_state";

    type Response = GetOrderStateResponse;
}

} // verus!
