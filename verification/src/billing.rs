//! Subscription tiers; the Pro tier is optional.

use vstd::prelude::*;
use crate::error::Result;
use crate::ids::now_ms;
use crate::paths::{join_path, spec_path_join};

verus! {

#[derive(Debug, Clone, Copy, PartialEq, Eq, Structural)]
pub enum SubscriptionTier {
    Free,
    Pro,
}

#[derive(Debug)]
pub struct SubscriptionState {
    pub tier: SubscriptionTier,
    pub stripe_customer_id: Option<String>,
    pub stripe_subscription_id: Option<String>,
    /// Milliseconds since the Unix epoch.
    pub expires_at: Option<i64>,
    /// Milliseconds since the Unix epoch.
    pub updated_at: i64,
}

impl Clone for SubscriptionState {
    fn clone(&self) -> (r: Self)
        ensures
            r == *self,
    {
        SubscriptionState {
            tier: self.tier,
            stripe_customer_id: self.stripe_customer_id.clone(),
            stripe_subscription_id: self.stripe_subscription_id.clone(),
            expires_at: self.expires_at,
            updated_at: self.updated_at,
        }
    }
}

impl Default for SubscriptionState {
    /// Free, with no Stripe ids and no expiry, updated now.
    fn default() -> (r: Self)
        ensures
            r.tier == SubscriptionTier::Free,
            r.stripe_customer_id is None,
            r.stripe_subscription_id is None,
            r.expires_at is None,
    {
        SubscriptionState {
            tier: SubscriptionTier::Free,
            stripe_customer_id: None,
            stripe_subscription_id: None,
            expires_at: None,
            updated_at: now_ms(),
        }
    }
}

/// Where the subscription of a cloud root is kept.
pub struct BillingStore {
    path: String,
}

impl BillingStore {
    /// The store of `<cloud_root>/subscription.json`.
    pub fn new(cloud_root: &str) -> (r: Self)
        ensures
            r.path()@ == spec_path_join(cloud_root@, "subscription.json"@),
    {
        BillingStore { path: join_path(cloud_root, "subscription.json") }
    }

    pub closed spec fn path(&self) -> String {
        self.path
    }

    /// The subscription file.
    pub fn state_path(&self) -> (r: &str)
        ensures
            r@ == self.path()@,
    {
        self.path.as_str()
    }

    /// Whether the subscription read from the store is Pro; a failed read is
    /// passed on.
    pub fn is_pro(&self, loaded: Result<SubscriptionState>) -> (r: Result<bool>)
        ensures
            loaded matches Ok(s) ==> r == Ok::<bool, crate::error::CinemaError>(s.tier == SubscriptionTier::Pro),
            loaded matches Err(e) ==> r == Err::<bool, crate::error::CinemaError>(e),
    {
        match loaded {
            Ok(s) => Ok(pro_features_enabled(&s)),
            Err(e) => Err(e),
        }
    }
}

pub fn pro_features_enabled(state: &SubscriptionState) -> (r: bool)
    ensures
        r == (state.tier == SubscriptionTier::Pro),
{
    state.tier == SubscriptionTier::Pro
}

/// The subscription a simulated checkout gives: Pro, with the stub Stripe
/// ids, no expiry, updated now.
pub fn pro_stub_state() -> (r: SubscriptionState)
    ensures
        r.tier == SubscriptionTier::Pro,
        r.stripe_customer_id matches Some(c) && c@ == "cus_stub_phase6"@,
        r.stripe_subscription_id matches Some(c) && c@ == "sub_stub_phase6"@,
        r.expires_at is None,
{
    SubscriptionState {
        tier: SubscriptionTier::Pro,
        stripe_customer_id: Some(String::from_str("cus_stub_phase6")),
        stripe_subscription_id: Some(String::from_str("sub_stub_phase6")),
        expires_at: None,
        updated_at: now_ms(),
    }
}

/// `state` after cancelling: Free, without a subscription id, updated now;
/// the customer id and expiry stay.
pub fn cancelled_state(state: SubscriptionState) -> (r: SubscriptionState)
    ensures
        r.tier == SubscriptionTier::Free,
        r.stripe_customer_id == state.stripe_customer_id,
        r.stripe_subscription_id is None,
        r.expires_at == state.expires_at,
{
    let mut s = state;
    s.tier = SubscriptionTier::Free;
    s.stripe_subscription_id = None;
    s.updated_at = now_ms();
    s
}

} // verus!
