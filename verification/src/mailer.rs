//! The mail-dispatch decisions.
//!
//! The transport handle itself is built and cached by the caller; this
//! module decides the endpoint and whether credentials may be attached to
//! it. Credentials are fetched only for an encrypted endpoint: sending
//! authentication secrets over an unencrypted channel is disallowed by
//! design, so a misconfigured unencrypted endpoint is left to fail its
//! authentication naturally rather than leak the secret.

use vstd::prelude::*;

use crate::text::str_eq;

verus! {

/// The credentials for the mail transport, fetched from the secret store
/// at most once per process and only when the endpoint is encrypted.
#[derive(Debug, Clone)]
pub struct SmtpCredentials {
    pub username: String,
    pub password: String,
}

/// Whether a transport URL names an encrypted endpoint.
pub open spec fn spec_is_smtps(url: Seq<char>) -> bool {
    url.len() >= 8 && url.subrange(0, 8) == "smtps://"@
}

/// The transport endpoint: the configured override when one is set,
/// otherwise the fixed default.
pub fn smtp_url(env_override: Option<String>) -> (url: String)
    ensures
        match env_override {
            Some(configured) => url@ == configured@,
            None => url@ == "smtps://email-smtp.eu-north-1.amazonaws.com"@,
        },
{
    match env_override {
        Some(configured) => configured,
        None => "smtps://email-smtp.eu-north-1.amazonaws.com".to_owned(),
    }
}

/// How the transport is to be built: with credentials from the secret
/// store, or without any.
#[derive(Debug, Clone, PartialEq, Eq)]
pub enum TransportPlan {
    /// The endpoint is encrypted: fetch the credentials and attach them.
    WithCredentials,
    /// The endpoint is unencrypted: attach no credentials and fetch none.
    Unauthenticated,
}

/// The plan for a transport URL: credentials exactly for an encrypted
/// endpoint.
pub open spec fn spec_plan_transport(url: Seq<char>) -> TransportPlan {
    if spec_is_smtps(url) {
        TransportPlan::WithCredentials
    } else {
        TransportPlan::Unauthenticated
    }
}

/// Decides whether the transport at `url` gets credentials attached.
pub fn plan_transport(url: &str) -> (p: TransportPlan)
    ensures
        p == spec_plan_transport(url@),
{
    let n = url.unicode_len();
    if n >= 8 {
        let prefix = url.substring_char(0, 8);
        if str_eq(prefix, "smtps://") {
            return TransportPlan::WithCredentials;
        }
    }
    TransportPlan::Unauthenticated
}

/// The credential policy: an unencrypted endpoint never asks the secret
/// store for the mail credentials, so no secret can travel over an
/// unencrypted connection; an encrypted endpoint always does.
pub proof fn lemma_unencrypted_transport_stays_unauthenticated(url: Seq<char>)
    ensures
        !spec_is_smtps(url) ==> spec_plan_transport(url) is Unauthenticated,
        spec_is_smtps(url) ==> spec_plan_transport(url) is WithCredentials,
{
}

/// The memoized transport handle: constructed at most once and reused
/// thereafter; a failed construction is not cached, so the next request
/// retries from scratch. The handle itself is whatever the caller builds
/// around the transport.
pub struct TransportCache<T> {
    pub handle: Option<T>,
}

/// The contract of [`TransportCache::on_constructed`], on the cache state:
/// a successful construction is cached, a failed one leaves the cache
/// empty.
pub open spec fn transport_cache_post<T>(built: Result<T, String>, cache_after: Option<T>) -> bool {
    match built {
        Ok(handle) => cache_after == Some(handle),
        Err(_) => cache_after is None,
    }
}

impl<T> TransportCache<T> {
    /// An empty cache: nothing constructed yet.
    pub fn new() -> (c: Self)
        ensures
            c.handle is None,
    {
        TransportCache { handle: None }
    }

    /// The cached handle, when one was constructed.
    pub fn cached(&self) -> (r: Option<&T>)
        ensures
            r is Some <==> self.handle is Some,
            r matches Some(h) ==> self.handle matches Some(cached) && *h == cached,
    {
        match &self.handle {
            Some(handle) => Some(handle),
            None => None,
        }
    }

    /// Takes the outcome of a construction attempt. Success is cached and
    /// handed back; failure is not cached — the next call retries — and
    /// surfaces the description.
    pub fn on_constructed(&mut self, built: Result<T, String>) -> (r: Result<&T, String>)
        requires
            old(self).handle is None,
        ensures
            transport_cache_post(built, final(self).handle),
            built matches Ok(handle) ==> r matches Ok(h) && *h == handle,
            built matches Err(d) ==> r matches Err(e) && e@ == d@,
    {
        match built {
            Ok(handle) => {
                self.handle = Some(handle);
                match &self.handle {
                    Some(cached) => Ok(cached),
                    None => Err(String::new()),
                }
            },
            Err(description) => Err(description),
        }
    }
}

/// The memoization failure policy: a failed transport construction is not
/// cached, so the next request retries the construction from scratch and a
/// transient secret-store or network outage self-heals.
pub proof fn lemma_failed_transport_construction_not_cached<T>(
    built: Result<T, String>,
    cache_after: Option<T>,
)
    requires
        built is Err,
        transport_cache_post(built, cache_after),
    ensures
        cache_after is None,
{
}

} // verus!
