//! The payloads of the API: one request and one response type per remote
//! method, and the vocabulary that their fields are written in.

pub mod session_management;
pub mod subscription;
pub mod trading;

pub use crate::request::{Request, VoidRequest};
pub use crate::wire::{Either, Number};

use session_management::DisableHeartbeatRequest;
use trading::CancelAllRequest;
use vstd::prelude::*;

verus! {

/// The requests of this API that may go out without parameters always do:
/// whatever the value, it is to be sent without them.
pub proof fn lemma_void_requests_always_empty()
    ensures
        forall|r: DisableHeartbeatRequest, b: bool|
            call_ensures(DisableHeartbeatRequest::empty, (&r,), b) ==> b,
        forall|r: CancelAllRequest, b: bool| call_ensures(CancelAllRequest::empty, (&r,), b) ==> b,
{
}

/// How the price of an option order is quoted when it is not in the base
/// currency.
#[derive(Clone, Copy, Debug, PartialEq, Eq, Structural)]
pub enum AdvanceOption {
    Usd,
    Implv,
}

/// The kind of an instrument.
#[derive(Clone, Copy, Debug, PartialEq, Eq, Structural)]
pub enum AssetKind {
    Future,
    Options,
}

/// Why an order was cancelled.
#[derive(Clone, Copy, Debug, PartialEq, Eq, Structural)]
pub enum CancelReason {
    UserRequest,
    Autoliquidation,
    CancelOnDisconnect,
    RiskMitigation,
    PmeRiskReduction,
    PmeAccountLocked,
    PositionLocked,
    MmpTrigger,
    MmpConfigCurtailment,
    EditPostOnlyReject,
    OcoOtherClosed,
    OtoPrimaryClosed,
    Settlement,
}

/// A currency that instruments are denominated in.
#[derive(Clone, Copy, Debug, PartialEq, Eq, Structural)]
pub enum Currency {
    BTC,
    ETH,
    USDC,
    USDT,
}

impl Default for Currency {
    fn default() -> (c: Currency)
        ensures
            c == Currency::BTC,
    {
        Currency::BTC
    }
}

/// The side of an order or a trade.
#[derive(Clone, Copy, Debug, PartialEq, Eq, Structural)]
pub enum Direction {
    Buy,
    Sell,
}

/// Which side of a trade was a liquidation.
#[derive(Clone, Copy, Debug, PartialEq, Eq, Structural)]
pub enum LiquidationType {
    Maker,
    Taker,
    Both,
}

/// Whether a trade added liquidity to the book or took it.
#[derive(Clone, Copy, Debug, PartialEq, Eq, Structural)]
pub enum LiquidityType {
    Maker,
    Taker,
}

/// The state of an order.
#[derive(Clone, Copy, Debug, PartialEq, Eq, Structural)]
pub enum OrderState {
    Open,
    Filled,
    Rejected,
    Cancelled,
    Untriggered,
    Triggered,
}

/// The type of an order.
#[derive(Clone, Copy, Debug, PartialEq, Eq, Structural)]
pub enum OrderType {
    Limit,
    Market,
    StopLimit,
    StopMarket,
}

/// The part that the account played in a trade.
#[derive(Clone, Copy, Debug, PartialEq, Eq, Structural)]
pub enum Role {
    Maker,
    Taker,
}

/// How long an order stays in the book.
#[derive(Clone, Copy, Debug, PartialEq, Eq, Structural)]
pub enum TimeInForce {
    GoodTilCancelled,
    FillOrKill,
    ImmediateOrCancel,
}

/// The price that triggers a stop order.
#[derive(Clone, Copy, Debug, PartialEq, Eq, Structural)]
pub enum Trigger {
    IndexPrice,
    MarkPrice,
    LastPrice,
}

} // verus!
