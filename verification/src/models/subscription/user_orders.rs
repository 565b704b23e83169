//! The `user.orders` channels: their names and what they carry.

use crate::channel::{
    instrument_name_in, kind_name_in, parsed, wire_form, ChannelIdentifier,
    ChannelIdentifierView, InvalidChannelFormat, Namespace,
};
use crate::models::{
    AdvanceOption, CancelReason, Direction, Number, OrderState, OrderType, TimeInForce, Trigger,
};
use vstd::prelude::*;
use vstd::std_specs::cmp::PartialEqSpecImpl;

verus! {

/// The state of one order, as a `user.orders` channel reports it.
#[derive(Clone, Debug)]
pub struct UserOrdersData {
    pub advanced: Option<AdvanceOption>,
    pub amount: Number,
    pub api: bool,
    pub app_name: Option<String>,
    pub auto_replaced: Option<bool>,
    pub average_price: Number,
    pub block_trade: Option<bool>,
    pub cancel_reason: Option<CancelReason>,
    pub combo_order_id: Option<String>,
    pub commission: Option<Number>,
    pub contracts: Option<Number>,
    pub creation_timestamp: u64,
    pub direction: Direction,
    pub filled_amount: Number,
    pub implv: Option<Number>,
    pub instrument_name: String,
    pub is_liquidation: Option<bool>,
    pub is_rebalance: Option<bool>,
    pub label: String,
    pub last_update_timestamp: u64,
    pub max_show: Number,
    pub mmp: bool,
    pub mmp_cancelled: Option<bool>,
    pub mmp_group: Option<String>,
    pub mobile: Option<bool>,
    pub original_order_type: Option<OrderType>,
    pub order_id: String,
    pub order_state: OrderState,
    pub order_type: OrderType,
    pub post_only: bool,
    pub price: Number,
    pub quote: Option<bool>,
    pub quote_id: Option<String>,
    pub quote_set_id: Option<String>,
    pub reduce_only: Option<bool>,
    pub reject_post_only: Option<bool>,
    pub risk_reducing: bool,
    pub stop_price: Option<Number>,
    pub time_in_force: TimeInForce,
    pub trigger: Option<Trigger>,
    pub triggered: Option<bool>,
    pub trigger_price: Option<Number>,
    pub trigger_offset: Option<Number>,
    pub trigger_order_id: Option<String>,
    pub trigger_reference_price: Option<Number>,
    pub usd: Option<Number>,
    pub replaced: bool,
    pub web: Option<bool>,
}

/// The name of a `user.orders` channel.
#[derive(Debug, Eq)]
pub enum UserOrdersChannel {
    /// `user.orders.{instrument_name}.{interval}`
    ByInstrument { instrument_name: String, interval: String },
    /// `user.orders.{kind}.{currency}.{interval}`
    ByKind { kind: String, currency: String, interval: String },
}

impl Clone for UserOrdersChannel {
    fn clone(&self) -> (c: UserOrdersChannel)
        ensures
            c == *self,
    {
        match self {
            UserOrdersChannel::ByInstrument { instrument_name, interval } => {
                UserOrdersChannel::ByInstrument {
                    instrument_name: instrument_name.clone(),
                    interval: interval.clone(),
                }
            },
            UserOrdersChannel::ByKind { kind, currency, interval } => UserOrdersChannel::ByKind {
                kind: kind.clone(),
                currency: currency.clone(),
                interval: interval.clone(),
            },
        }
    }
}

impl PartialEq for UserOrdersChannel {
    fn eq(&self, other: &UserOrdersChannel) -> (r: bool) {
        match (self, other) {
            (
                UserOrdersChannel::ByInstrument { instrument_name, interval },
                UserOrdersChannel::ByInstrument {
                    instrument_name: other_instrument_name,
                    interval: other_interval,
                },
            ) => *instrument_name == *other_instrument_name && *interval == *other_interval,
            (
                UserOrdersChannel::ByKind { kind, currency, interval },
                UserOrdersChannel::ByKind {
                    kind: other_kind,
                    currency: other_currency,
                    interval: other_interval,
                },
            ) => *kind == *other_kind && *currency == *other_currency && *interval
                == *other_interval,
            _ => false,
        }
    }
}

impl PartialEqSpecImpl for UserOrdersChannel {
    open spec fn obeys_eq_spec() -> bool {
        true
    }

    open spec fn eq_spec(&self, other: &UserOrdersChannel) -> bool {
        self@ == other@
    }
}

impl View for UserOrdersChannel {
    type V = ChannelIdentifierView;

    open spec fn view(&self) -> ChannelIdentifierView {
        match self {
            UserOrdersChannel::ByInstrument { instrument_name, interval } => {
                ChannelIdentifierView::ByInstrument {
                    instrument_name: instrument_name@,
                    interval: interval@,
                }
            },
            UserOrdersChannel::ByKind { kind, currency, interval } => {
                ChannelIdentifierView::ByKind {
                    kind: kind@,
                    currency: currency@,
                    interval: interval@,
                }
            },
        }
    }
}

impl UserOrdersChannel {
    /// Reads the name of a `user.orders` channel. A text of four
    /// dot-separated segments that starts with `user.orders` names a channel
    /// by instrument, one of five such segments a channel by kind; the
    /// segments after the namespace become the fields as they stand. Any
    /// other text is rejected, and handed back in the error.
    pub fn parse(s: &str) -> (r: Result<UserOrdersChannel, InvalidChannelFormat>)
        ensures
            match parsed(Namespace::UserOrders, s@) {
                Some(id) => r matches Ok(channel) && channel@ == id,
                None => r matches Err(e) && e.input@ == s@ && e.namespace
                    == Namespace::UserOrders,
            },
            r matches Ok(channel) ==> channel@.representable(),
    {
        match ChannelIdentifier::parse(Namespace::UserOrders, s) {
            Ok(ChannelIdentifier::ByInstrument { instrument_name, interval }) => Ok(
                UserOrdersChannel::ByInstrument { instrument_name, interval },
            ),
            Ok(ChannelIdentifier::ByKind { kind, currency, interval }) => Ok(
                UserOrdersChannel::ByKind { kind, currency, interval },
            ),
            Err(e) => Err(e),
        }
    }

    /// Writes the name of the channel: `user.orders` and the fields, joined
    /// by dots.
    pub fn to_string(&self) -> (s: String)
        ensures
            s@ == wire_form(Namespace::UserOrders, self@),
    {
        match self {
            UserOrdersChannel::ByInstrument { instrument_name, interval } => {
                instrument_name_in(
                    Namespace::UserOrders,
                    instrument_name.as_str(),
                    interval.as_str(),
                )
            },
            UserOrdersChannel::ByKind { kind, currency, interval } => {
                kind_name_in(
                    Namespace::UserOrders,
                    kind.as_str(),
                    currency.as_str(),
                    interval.as_str(),
                )
            },
        }
    }
}

} // verus!
