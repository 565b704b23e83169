//! The `user.trades` channels: their names and what they carry.

use crate::channel::{
    instrument_name_in, kind_name_in, parsed, wire_form, ChannelIdentifier,
    ChannelIdentifierView, InvalidChannelFormat, Namespace,
};
use crate::models::{
    Currency, Direction, LiquidationType, LiquidityType, Number, OrderState, OrderType,
};
use vstd::prelude::*;
use vstd::std_specs::cmp::PartialEqSpecImpl;

verus! {

/// One trade, as a `user.trades` channel reports it.
#[derive(Clone, Debug)]
pub struct UserTradesData {
    pub amount: Number,
    pub api: bool,
    pub combo_id: Option<String>,
    pub contracts: Option<Number>,
    pub direction: Direction,
    pub fee: Number,
    pub fee_currency: Currency,
    pub index_price: Number,
    pub instrument_name: String,
    pub iv: Option<Number>,
    pub label: Option<String>,
    pub liquidity: LiquidityType,
    pub liquidation: Option<LiquidationType>,
    pub mark_price: Option<Number>,
    pub matching_id: Option<String>,
    pub mmp: bool,
    pub order_id: String,
    pub order_type: OrderType,
    pub original_order_type: Option<String>,
    pub price: Number,
    pub profit_loss: Option<Number>,
    pub reduce_only: Option<bool>,
    pub risk_reducing: Option<bool>,
    pub self_trade: bool,
    pub state: OrderState,
    pub tick_direction: i64,
    pub timestamp: u64,
    pub trade_id: String,
    pub trade_seq: i64,
    pub post_only: bool,
}

/// The name of a `user.trades` channel.
#[derive(Debug, Eq)]
pub enum UserTradesChannel {
    /// `user.trades.{instrument_name}.{interval}`
    ByInstrument { instrument_name: String, interval: String },
    /// `user.trades.{kind}.{currency}.{interval}`
    ByKind { kind: String, currency: String, interval: String },
}

impl Clone for UserTradesChannel {
    fn clone(&self) -> (c: UserTradesChannel)
        ensures
            c == *self,
    {
        match self {
            UserTradesChannel::ByInstrument { instrument_name, interval } => {
                UserTradesChannel::ByInstrument {
                    instrument_name: instrument_name.clone(),
                    interval: interval.clone(),
                }
            },
            UserTradesChannel::ByKind { kind, currency, interval } => UserTradesChannel::ByKind {
                kind: kind.clone(),
                currency: currency.clone(),
                interval: interval.clone(),
            },
        }
    }
}

impl PartialEq for UserTradesChannel {
    fn eq(&self, other: &UserTradesChannel) -> (r: bool) {
        match (self, other) {
            (
                UserTradesChannel::ByInstrument { instrument_name, interval },
                UserTradesChannel::ByInstrument {
                    instrument_name: other_instrument_name,
                    interval: other_interval,
                },
            ) => *instrument_name == *other_instrument_name && *interval == *other_interval,
            (
                UserTradesChannel::ByKind { kind, currency, interval },
                UserTradesChannel::ByKind {
                    kind: other_kind,
                    currency: other_currency,
                    interval: other_interval,
                },
            ) => *kind == *other_kind && *currency == *other_currency && *interval
                == *other_interval,
            _ => false,
        }
    }
}

impl PartialEqSpecImpl for UserTradesChannel {
    open spec fn obeys_eq_spec() -> bool {
        true
    }

    open spec fn eq_spec(&self, other: &UserTradesChannel) -> bool {
        self@ == other@
    }
}

impl View for UserTradesChannel {
    type V = ChannelIdentifierView;

    open spec fn view(&self) -> ChannelIdentifierView {
        match self {
            UserTradesChannel::ByInstrument { instrument_name, interval } => {
                ChannelIdentifierView::ByInstrument {
                    instrument_name: instrument_name@,
                    interval: interval@,
                }
            },
            UserTradesChannel::ByKind { kind, currency, interval } => {
                ChannelIdentifierView::ByKind {
                    kind: kind@,
                    currency: currency@,
                    interval: interval@,
                }
            },
        }
    }
}

impl UserTradesChannel {
    /// Reads the name of a `user.trades` channel. A text of four
    /// dot-separated segments that starts with `user.trades` names a channel
    /// by instrument, one of five such segments a channel by kind; the
    /// segments after the namespace become the fields as they stand. Any
    /// other text is rejected, and handed back in the error.
    pub fn parse(s: &str) -> (r: Result<UserTradesChannel, InvalidChannelFormat>)
        ensures
            match parsed(Namespace::UserTrades, s@) {
                Some(id) => r matches Ok(channel) && channel@ == id,
                None => r matches Err(e) && e.input@ == s@ && e.namespace
                    == Namespace::UserTrades,
            },
            r matches Ok(channel) ==> channel@.representable(),
    {
        match ChannelIdentifier::parse(Namespace::UserTrades, s) {
            Ok(ChannelIdentifier::ByInstrument { instrument_name, interval }) => Ok(
                UserTradesChannel::ByInstrument { instrument_name, interval },
            ),
            Ok(ChannelIdentifier::ByKind { kind, currency, interval }) => Ok(
                UserTradesChannel::ByKind { kind, currency, interval },
            ),
            Err(e) => Err(e),
        }
    }

    /// Writes the name of the channel: `user.trades` and the fields, joined
    /// by dots.
    pub fn to_string(&self) -> (s: String)
        ensures
            s@ == wire_form(Namespace::UserTrades, self@),
    {
        match self {
            UserTradesChannel::ByInstrument { instrument_name, interval } => {
                instrument_name_in(
                    Namespace::UserTrades,
                    instrument_name.as_str(),
                    interval.as_str(),
                )
            },
            UserTradesChannel::ByKind { kind, currency, interval } => {
                kind_name_in(
                    Namespace::UserTrades,
                    kind.as_str(),
                    currency.as_str(),
                    interval.as_str(),
                )
            },
        }
    }
}

} // verus!
