//! The requests that the session itself issues or checks, as plain values.
//! Whoever drives the session turns them into their serialized form.

use vstd::prelude::*;

verus! {

/// A request of the session to the server.
#[derive(Debug, Clone, PartialEq, Eq)]
pub enum ApiRequest {
    /// Ask for the version of the server.
    Version,
    /// Authorize the application.
    ApplicationAuth { client_id: String, client_secret: String },
    /// Authorize the trading account.
    AccountAuth { account_id: i64, access_token: String },
    /// Log the trading account out.
    AccountLogout { account_id: i64 },
    /// Exchange the refresh token for new tokens.
    RefreshToken { refresh_token: String },
    /// Subscribe to spot events of symbols.
    SubscribeSpots { account_id: i64, symbol_ids: Vec<i64>, with_timestamp: bool },
    /// Unsubscribe from spot events of symbols.
    UnsubscribeSpots { account_id: i64, symbol_ids: Vec<i64> },
    /// Subscribe to live trend bars of a symbol.
    SubscribeLiveTrendbar { account_id: i64, period: i32, symbol_id: i64 },
    /// Unsubscribe from live trend bars of a symbol.
    UnsubscribeLiveTrendbar { account_id: i64, period: i32, symbol_id: i64 },
    /// Subscribe to the depth of market of symbols.
    SubscribeDepthQuotes { account_id: i64, symbol_ids: Vec<i64> },
    /// Unsubscribe from the depth of market of symbols.
    UnsubscribeDepthQuotes { account_id: i64, symbol_ids: Vec<i64> },
}

/// Mathematical value of an [`ApiRequest`].
pub enum ApiRequestView {
    Version,
    ApplicationAuth { client_id: Seq<char>, client_secret: Seq<char> },
    AccountAuth { account_id: i64, access_token: Seq<char> },
    AccountLogout { account_id: i64 },
    RefreshToken { refresh_token: Seq<char> },
    SubscribeSpots { account_id: i64, symbol_ids: Seq<i64>, with_timestamp: bool },
    UnsubscribeSpots { account_id: i64, symbol_ids: Seq<i64> },
    SubscribeLiveTrendbar { account_id: i64, period: i32, symbol_id: i64 },
    UnsubscribeLiveTrendbar { account_id: i64, period: i32, symbol_id: i64 },
    SubscribeDepthQuotes { account_id: i64, symbol_ids: Seq<i64> },
    UnsubscribeDepthQuotes { account_id: i64, symbol_ids: Seq<i64> },
}

impl View for ApiRequest {
    type V = ApiRequestView;

    open spec fn view(&self) -> ApiRequestView {
        match *self {
            ApiRequest::Version => ApiRequestView::Version,
            ApiRequest::ApplicationAuth { client_id, client_secret } => {
                ApiRequestView::ApplicationAuth {
                    client_id: client_id@,
                    client_secret: client_secret@,
                }
            },
            ApiRequest::AccountAuth { account_id, access_token } => ApiRequestView::AccountAuth {
                account_id,
                access_token: access_token@,
            },
            ApiRequest::AccountLogout { account_id } => ApiRequestView::AccountLogout {
                account_id,
            },
            ApiRequest::RefreshToken { refresh_token } => ApiRequestView::RefreshToken {
                refresh_token: refresh_token@,
            },
            ApiRequest::SubscribeSpots {
                account_id,
                symbol_ids,
                with_timestamp,
            } => ApiRequestView::SubscribeSpots {
                account_id,
                symbol_ids: symbol_ids@,
                with_timestamp,
            },
            ApiRequest::UnsubscribeSpots { account_id, symbol_ids } => {
                ApiRequestView::UnsubscribeSpots { account_id, symbol_ids: symbol_ids@ }
            },
            ApiRequest::SubscribeLiveTrendbar { account_id, period, symbol_id } => {
                ApiRequestView::SubscribeLiveTrendbar { account_id, period, symbol_id }
            },
            ApiRequest::UnsubscribeLiveTrendbar { account_id, period, symbol_id } => {
                ApiRequestView::UnsubscribeLiveTrendbar { account_id, period, symbol_id }
            },
            ApiRequest::SubscribeDepthQuotes { account_id, symbol_ids } => {
                ApiRequestView::SubscribeDepthQuotes { account_id, symbol_ids: symbol_ids@ }
            },
            ApiRequest::UnsubscribeDepthQuotes { account_id, symbol_ids } => {
                ApiRequestView::UnsubscribeDepthQuotes { account_id, symbol_ids: symbol_ids@ }
            },
        }
    }
}

/// The views of a list of requests.
pub open spec fn request_views(requests: Seq<ApiRequest>) -> Seq<ApiRequestView> {
    requests.map_values(|r: ApiRequest| r@)
}

} // verus!
