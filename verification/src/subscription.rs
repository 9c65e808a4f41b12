//! The request that opens a subscription on the WebSocket connection.

use vstd::prelude::*;

verus! {

/// The key half of the API credentials: a 128-bit identifier.
#[derive(Clone, Copy, Debug, PartialEq, Eq, Structural)]
pub struct ApiKey {
    /// The identifier's bits.
    pub value: u128,
}

impl ApiKey {
    /// The all-zero key.
    pub fn nil() -> (res: ApiKey)
        ensures
            res.value == 0,
    {
        ApiKey { value: 0 }
    }
}

/// API credentials that authenticate the user channel.
#[derive(Clone, Debug)]
pub struct Credentials {
    /// API key
    pub key: ApiKey,
    /// API secret
    pub secret: String,
    /// API passphrase
    pub passphrase: String,
}

impl Credentials {
    /// Bundles a key, its secret and its passphrase.
    pub fn new(key: ApiKey, secret: String, passphrase: String) -> (res: Credentials)
        ensures
            res.key == key,
            res.secret == secret,
            res.passphrase == passphrase,
    {
        Credentials { key, secret, passphrase }
    }
}

/// Subscription request message sent to the WebSocket server.
#[derive(Clone, Debug)]
pub struct SubscriptionRequest {
    /// Subscription type ("market" or "user"; `type` on the wire)
    pub sub_type: String,
    /// List of market IDs
    pub markets: Vec<String>,
    /// List of asset IDs (`assets_ids` on the wire)
    pub asset_ids: Vec<String>,
    /// Request initial state dump
    pub initial_dump: Option<bool>,
    /// Enable custom features like last_trade_price updates
    pub custom_feature_enabled: Option<bool>,
    /// Authentication credentials (never sent as part of the request body)
    pub auth: Option<Credentials>,
}

impl SubscriptionRequest {
    /// Create a market subscription request.
    pub fn market(asset_ids: Vec<String>) -> (res: Self)
        ensures
            res.sub_type@ == "market"@,
            res.markets@ == Seq::<String>::empty(),
            res.asset_ids == asset_ids,
            res.initial_dump == Some(true),
            res.custom_feature_enabled == Some(true),
            res.auth is None,
    {
        Self {
            sub_type: "market".to_owned(),
            markets: Vec::new(),
            asset_ids,
            initial_dump: Some(true),
            custom_feature_enabled: Some(true),
            auth: None,
        }
    }

    /// Create a user subscription request.
    pub fn user(markets: Vec<String>, auth: Credentials) -> (res: Self)
        ensures
            res.sub_type@ == "user"@,
            res.markets == markets,
            res.asset_ids@ == Seq::<String>::empty(),
            res.initial_dump == Some(true),
            res.custom_feature_enabled is None,
            res.auth == Some(auth),
    {
        Self {
            sub_type: "user".to_owned(),
            markets,
            asset_ids: Vec::new(),
            initial_dump: Some(true),
            custom_feature_enabled: None,
            auth: Some(auth),
        }
    }
}

} // verus!
