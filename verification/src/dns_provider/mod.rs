//! The providers of the names under which resources are reached.

pub mod qoverydns;

use vstd::prelude::*;

verus! {

/// The providers of names.
#[derive(Clone, Copy, Debug, PartialEq, Eq, Structural)]
pub enum Kind {
    Cloudflare,
    QoveryDns,
}

/// Why a provider of names cannot be used.
#[derive(Clone, Copy, Debug, PartialEq, Eq, Structural)]
pub enum DnsProviderError {
    InvalidCredentials,
}

/// A domain: its name, and the name that stands above it.
#[derive(Debug)]
pub struct Domain {
    pub raw: String,
    pub root_domain: String,
}

impl Domain {
    /// A domain that stands under no other.
    pub fn new(raw: String) -> (r: Domain)
        ensures
            r.raw@ == raw@,
            r.root_domain@ == raw@,
    {
        let root = raw.clone();
        Domain { raw, root_domain: root }
    }

}

} // verus!
