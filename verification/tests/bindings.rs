use deribit_models::models::session_management::{
    DisableHeartbeatRequest, DisableHeartbeatResponse, HeartbeatParams, HeartbeatType,
    SetHeartbeatRequest, SetHeartbeatResponse,
};
use deribit_models::models::subscription::{
    PrivateSubscribeRequest, PublicSubscribeRequest, SubscribeResponse,
};
use deribit_models::models::trading::{
    BuyRequest, BuyResponse, CancelAllByCurrencyRequest, CancelAllByInstrumentRequest,
    CancelAllRequest, CancelAllResponse, CancelRequest, CancelResponse, EditRequest, EditResponse,
    GetOrderStateRequest, GetOrderStateResponse, SellRequest, SellResponse,
};
use deribit_models::request::{method_name, Request, VoidRequest};
use std::any::TypeId;

fn response_of<R: Request>() -> TypeId
where
    R::Response: 'static,
{
    TypeId::of::<R::Response>()
}

#[test]
fn every_request_is_bound_to_its_method() {
    assert_eq!(SetHeartbeatRequest::METHOD, "public/set_heartbeat");
    assert_eq!(DisableHeartbeatRequest::METHOD, "public/disable_heartbeat");
    assert_eq!(PublicSubscribeRequest::METHOD, "public/subscribe");
    assert_eq!(PrivateSubscribeRequest::METHOD, "private/subscribe");
    assert_eq!(BuyRequest::METHOD, "private/buy");
    assert_eq!(SellRequest::METHOD, "private/sell");
    assert_eq!(EditRequest::METHOD, "private/edit");
    assert_eq!(CancelRequest::METHOD, "private/cancel");
    assert_eq!(CancelAllRequest::METHOD, "private/cancel_all");
    assert_eq!(CancelAllByInstrumentRequest::METHOD, "private/cancel_all_by_instrument");
    assert_eq!(CancelAllByCurrencyRequest::METHOD, "private/cancel_all_by_currency");
    assert_eq!(GetOrderStateRequest::METHOD, "private/get_order_state");
}

#[test]
fn method_name_looks_the_binding_up() {
    assert_eq!(method_name::<SetHeartbeatRequest>(), "public/set_heartbeat");
    assert_eq!(method_name::<DisableHeartbeatRequest>(), "public/disable_heartbeat");
    assert_eq!(method_name::<PublicSubscribeRequest>(), "public/subscribe");
    assert_eq!(method_name::<PrivateSubscribeRequest>(), "private/subscribe");
    assert_eq!(method_name::<BuyRequest>(), "private/buy");
    assert_eq!(method_name::<SellRequest>(), "private/sell");
    assert_eq!(method_name::<EditRequest>(), "private/edit");
    assert_eq!(method_name::<CancelRequest>(), "private/cancel");
    assert_eq!(method_name::<CancelAllRequest>(), "private/cancel_all");
    assert_eq!(method_name::<CancelAllByInstrumentRequest>(), "private/cancel_all_by_instrument");
    assert_eq!(method_name::<CancelAllByCurrencyRequest>(), "private/cancel_all_by_currency");
    assert_eq!(method_name::<GetOrderStateRequest>(), "private/get_order_state");
}

#[test]
fn repeated_lookups_give_the_same_binding() {
    let first = method_name::<BuyRequest>();
    let second = method_name::<BuyRequest>();
    assert_eq!(first, second);
    assert_eq!(response_of::<BuyRequest>(), response_of::<BuyRequest>());
    let first = method_name::<CancelAllRequest>();
    let second = method_name::<CancelAllRequest>();
    assert_eq!(first, second);
    assert_eq!(response_of::<CancelAllRequest>(), response_of::<CancelAllRequest>());
}

#[test]
fn every_request_is_bound_to_its_response() {
    assert_eq!(response_of::<SetHeartbeatRequest>(), TypeId::of::<SetHeartbeatResponse>());
    assert_eq!(response_of::<DisableHeartbeatRequest>(), TypeId::of::<DisableHeartbeatResponse>());
    assert_eq!(response_of::<PublicSubscribeRequest>(), TypeId::of::<SubscribeResponse>());
    assert_eq!(response_of::<PrivateSubscribeRequest>(), TypeId::of::<SubscribeResponse>());
    assert_eq!(response_of::<BuyRequest>(), TypeId::of::<BuyResponse>());
    assert_eq!(response_of::<SellRequest>(), TypeId::of::<SellResponse>());
    assert_eq!(response_of::<EditRequest>(), TypeId::of::<EditResponse>());
    assert_eq!(response_of::<CancelRequest>(), TypeId::of::<CancelResponse>());
    assert_eq!(response_of::<CancelAllRequest>(), TypeId::of::<CancelAllResponse>());
    assert_eq!(response_of::<CancelAllByInstrumentRequest>(), TypeId::of::<CancelAllResponse>());
    assert_eq!(response_of::<CancelAllByCurrencyRequest>(), TypeId::of::<CancelAllResponse>());
    assert_eq!(response_of::<GetOrderStateRequest>(), TypeId::of::<GetOrderStateResponse>());
}

#[test]
fn void_requests_are_always_empty() {
    assert!(DisableHeartbeatRequest.empty());
    assert!(CancelAllRequest.empty());
    let cloned = DisableHeartbeatRequest.clone();
    assert!(cloned.empty());
    let cloned = CancelAllRequest.clone();
    assert!(cloned.empty());
}

#[test]
fn with_interval_keeps_the_interval() {
    assert_eq!(SetHeartbeatRequest::with_interval(30).interval, 30);
    assert_eq!(SetHeartbeatRequest::with_interval(0).interval, 0);
    assert_eq!(SetHeartbeatRequest::with_interval(u64::MAX).interval, u64::MAX);
    assert_eq!(SetHeartbeatRequest::with_interval(10), SetHeartbeatRequest { interval: 10 });
}

#[test]
fn heartbeat_params_carry_their_type() {
    let params = HeartbeatParams { type_: HeartbeatType::TestRequest };
    assert_eq!(params.type_, HeartbeatType::TestRequest);
    assert_ne!(params, HeartbeatParams { type_: HeartbeatType::Heartbeat });
}

#[test]
fn subscriptions_carry_their_channels() {
    let channels = vec!["user.orders.BTC-PERPETUAL.raw".to_string()];
    let public = PublicSubscribeRequest { channels: channels.clone() };
    let private = PrivateSubscribeRequest { channels: channels.clone() };
    let response = SubscribeResponse(channels.clone());
    assert_eq!(public.channels, channels);
    assert_eq!(private.channels, channels);
    assert_eq!(response.0, channels);
}
