//! The access token as the coordinator sees it: when it expires and what it
//! grants.

use vstd::prelude::*;

verus! {

/// Seconds before its expiry time at which a token already counts as
/// expired, so that a request started now does not outlive it.
pub const EXPIRY_MARGIN_SECS: u64 = 10;

/// What the coordinator reads of a token. Times are seconds since the epoch.
#[derive(Clone, Debug, PartialEq, Eq)]
pub struct Token {
    /// When the access token stops being valid, if that is known.
    pub expires_at: Option<u64>,
    /// The scopes that were granted.
    pub scopes: Vec<String>,
}

/// Whether `scope` is among `granted`.
pub open spec fn grants(granted: Seq<String>, scope: Seq<char>) -> bool {
    exists|j: int| 0 <= j < granted.len() && (#[trigger] granted[j])@ == scope
}

/// Whether every scope of `required` is among `granted`.
pub open spec fn covers(granted: Seq<String>, required: Seq<String>) -> bool {
    forall|i: int| 0 <= i < required.len() ==> grants(granted, (#[trigger] required[i])@)
}

/// Whether a token with this expiry time counts as expired at `now`: it does
/// once `now` is within the margin of the expiry time, and always when no
/// expiry time is known.
pub open spec fn expired_at(expires_at: Option<u64>, now: u64) -> bool {
    match expires_at {
        None => true,
        Some(at) => now + EXPIRY_MARGIN_SECS >= at,
    }
}

/// Whether `scope` is among `granted`.
pub fn has_scope(granted: &Vec<String>, scope: &String) -> (found: bool)
    ensures
        found == grants(granted@, scope@),
{
    let mut j: usize = 0;
    while j < granted.len()
        invariant
            j <= granted.len(),
            forall|k: int| 0 <= k < j ==> (#[trigger] granted@[k])@ != scope@,
        decreases granted.len() - j,
    {
        if granted[j] == *scope {
            return true;
        }
        j += 1;
    }
    false
}

/// Whether every scope of `required` is among `granted`.
pub fn covers_scopes(granted: &Vec<String>, required: &Vec<String>) -> (all: bool)
    ensures
        all == covers(granted@, required@),
{
    let mut i: usize = 0;
    while i < required.len()
        invariant
            i <= required.len(),
            forall|k: int| 0 <= k < i ==> grants(granted@, (#[trigger] required@[k])@),
        decreases required.len() - i,
    {
        if !has_scope(granted, &required[i]) {
            return false;
        }
        i += 1;
    }
    true
}

impl Token {
    /// Whether the token counts as expired at `now`.
    pub open spec fn expired(&self, now: u64) -> bool {
        expired_at(self.expires_at, now)
    }

    /// Whether the token grants every scope of `required`.
    pub open spec fn sufficient(&self, required: Seq<String>) -> bool {
        covers(self.scopes@, required)
    }

    /// Whether the token can be used for a request at `now`: it has not
    /// expired and grants every required scope.
    pub open spec fn usable(&self, now: u64, required: Seq<String>) -> bool {
        !self.expired(now) && self.sufficient(required)
    }

    /// Whether the token counts as expired at `now`.
    pub fn is_expired(&self, now: u64) -> (gone: bool)
        ensures
            gone == self.expired(now),
    {
        match self.expires_at {
            None => true,
            Some(at) => now >= at || at - now <= EXPIRY_MARGIN_SECS,
        }
    }

    /// Whether the token grants every scope of `required`.
    pub fn has_scopes(&self, required: &Vec<String>) -> (all: bool)
        ensures
            all == self.sufficient(required@),
    {
        covers_scopes(&self.scopes, required)
    }

    /// Whether the token can be used for a request at `now`.
    pub fn is_usable(&self, now: u64, required: &Vec<String>) -> (ok: bool)
        ensures
            ok == self.usable(now, required@),
    {
        !self.is_expired(now) && self.has_scopes(required)
    }
}

} // verus!
