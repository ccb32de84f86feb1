//! Callback-button payloads: a scope tag plus a stable digest of the
//! button's value, so that long option texts fit the channel's payload
//! size limit.
use vstd::prelude::*;
use vstd::string::StrSliceExecFns;
use vstd::string::StringExecFns;

use crate::text::{spec_decimal, str_eq, u128_to_decimal};

verus! {

/// The digest of a string, as the stable-hash digest used in payloads.
pub uninterp spec fn stable_hash_of(s: Seq<char>) -> u128;

/// Relies on stable_hash::fast_stable_hash: a 128-bit digest that depends
/// on the string's characters alone, identical across processes and
/// machines.
#[verifier::external_body]
fn fast_stable_hash_str(s: &str) -> (r: u128)
    ensures
        r == stable_hash_of(s@),
{
    stable_hash::fast_stable_hash(&s)
}

/// The button scopes: which feature a callback payload belongs to.
#[derive(Debug, Clone, Copy, PartialEq, Eq, Structural)]
pub enum Scope {
    DailyEvents,
    PromoDailyEvents,
}

/// The payload tag of each scope.
pub open spec fn spec_scope_str(scope: Scope) -> Seq<char> {
    match scope {
        Scope::DailyEvents => "daily_events"@,
        Scope::PromoDailyEvents => "promo_daily"@,
    }
}

impl Scope {
    /// The payload tag of this scope.
    pub fn to_str(self) -> (r: &'static str)
        ensures
            r@ == spec_scope_str(self),
    {
        match self {
            Scope::PromoDailyEvents => "promo_daily",
            Scope::DailyEvents => "daily_events",
        }
    }

    /// Which scope a payload belongs to: the part before the first colon.
    pub fn from_payload(data: &str) -> (r: Option<Scope>)
        ensures
            r == Some(Scope::DailyEvents) <==> "daily_events:"@.is_prefix_of(data@),
            r == Some(Scope::PromoDailyEvents) <==> "promo_daily:"@.is_prefix_of(data@),
            r is None <==> !"daily_events:"@.is_prefix_of(data@) && !"promo_daily:"@.is_prefix_of(
                data@,
            ),
    {
        proof {
            reveal_strlit("daily_events:");
            reveal_strlit("promo_daily:");
        }
        if crate::text::str_starts_with(data, "daily_events:") {
            proof {
                if "promo_daily:"@.is_prefix_of(data@) {
                    assert(data@.subrange(0, 12)[0] == 'p');
                    assert(data@.subrange(0, 13)[0] == 'd');
                    assert(data@[0] == 'p' && data@[0] == 'd');
                }
            }
            Some(Scope::DailyEvents)
        } else if crate::text::str_starts_with(data, "promo_daily:") {
            Some(Scope::PromoDailyEvents)
        } else {
            None
        }
    }
}

/// The payload a button of this scope and digest carries.
pub open spec fn spec_payload_of(scope: Scope, hash: u128) -> Seq<char> {
    spec_scope_str(scope) + seq![':'] + spec_decimal(hash as int)
}

/// Render a button payload: the scope tag, a colon, and the digest in
/// decimal.
pub fn format_payload(hash: u128, scope: Scope) -> (r: String)
    ensures
        r@ == spec_payload_of(scope, hash),
{
    proof {
        reveal_strlit(":");
    }
    let mut s = String::from_str(scope.to_str());
    s.append(":");
    let digits = u128_to_decimal(hash);
    s.append(digits.as_str());
    proof {
        assert(":"@ =~= seq![':']);
        assert(s@ =~= spec_payload_of(scope, hash));
    }
    s
}

/// One callback button: the plain value it stands for, and the payload
/// actually sent through the channel.
#[derive(Debug)]
pub struct CallbackButtonData {
    pub value: String,
    pub payload: String,
    pub scope: Scope,
}

impl CallbackButtonData {
    /// A button for `data` under `scope`, with the digest-based payload.
    pub fn new(data: &str, scope: Scope) -> (r: CallbackButtonData)
        ensures
            r.value@ == data@,
            r.scope == scope,
            r.payload@ == spec_payload_of(scope, stable_hash_of(data@)),
    {
        let payload = format_payload(fast_stable_hash_str(data), scope);
        CallbackButtonData { value: data.to_owned(), payload, scope }
    }

    /// The plain value this button stands for.
    pub fn value(&self) -> (r: &String)
        ensures
            r@ == self.value@,
    {
        &self.value
    }

    /// Does an incoming payload belong to this button?
    pub fn matches(&self, payload: &str) -> (r: bool)
        ensures
            r == (self.payload@ == payload@),
    {
        str_eq(self.payload.as_str(), payload)
    }
}

} // verus!
