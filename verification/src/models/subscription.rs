//! Subscribing to channels, and what the channels carry.

pub mod user_orders;
pub mod user_trades;

pub use user_orders::{UserOrdersChannel, UserOrdersData};
pub use user_trades::{UserTradesChannel, UserTradesData};

use crate::request::Request;
use vstd::prelude::*;

verus! {

/// Subscribes to public channels, each given by its name.
#[derive(Clone, Debug)]
pub struct PublicSubscribeRequest {
    pub channels: Vec<String>,
}

/// Subscribes to private channels, each given by its name.
#[derive(Clone, Debug)]
pub struct PrivateSubscribeRequest {
    pub channels: Vec<String>,
}

/// The names of the channels that a subscription took effect for.
#[derive(Clone, Debug)]
pub struct SubscribeResponse(pub Vec<String>);

impl Request for PublicSubscribeRequest {
    const METHOD: &'static str = "public/subscribe";

    type Response = SubscribeResponse;
}

impl Request for PrivateSubscribeRequest {
    const METHOD: &'static str = "private/subscribe";

    type Response = SubscribeResponse;
}

} // verus!
