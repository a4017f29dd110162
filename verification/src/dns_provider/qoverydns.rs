//! The name service that comes with the engine.

use crate::dns_provider::{DnsProviderError, Domain, Kind};
use crate::models::Context;
use vstd::prelude::*;

verus! {

/// How the name service is reached.
#[derive(Debug)]
pub struct QoveryDnsConfig {
    pub api_url: String,
    pub api_port: String,
    pub api_key: String,
}

pub struct QoveryDns {
    pub context: Context,
    pub id: String,
    pub api_url: String,
    pub api_port: String,
    pub api_key: String,
    pub secret_name: String,
    pub name: String,
    pub domain: Domain,
}

impl QoveryDns {
    pub fn new(
        context: Context,
        id: &str,
        api_url: &str,
        api_port: &str,
        api_key: &str,
        secret_name: &str,
        name: &str,
        domain: Domain,
    ) -> (r: QoveryDns)
        ensures
            r.context == context,
            r.id@ == id@,
            r.api_url@ == api_url@,
            r.api_port@ == api_port@,
            r.api_key@ == api_key@,
            r.secret_name@ == secret_name@,
            r.name@ == name@,
            r.domain == domain,
    {
        QoveryDns {
            context,
            id: String::from_str(id),
            api_url: String::from_str(api_url),
            api_port: String::from_str(api_port),
            api_key: String::from_str(api_key),
            secret_name: String::from_str(secret_name),
            name: String::from_str(name),
            domain,
        }
    }

    pub fn context(&self) -> (r: &Context)
        ensures
            *r == self.context,
    {
        &self.context
    }

    pub fn provider_name(&self) -> (r: &'static str)
        ensures
            r@ == "qoverydns"@,
    {
        "qoverydns"
    }

    pub fn kind(&self) -> (r: Kind)
        ensures
            r == Kind::QoveryDns,
    {
        Kind::QoveryDns
    }

    pub fn id(&self) -> (r: &str)
        ensures
            r@ == self.id@,
    {
        self.id.as_str()
    }

    pub fn name(&self) -> (r: &str)
        ensures
            r@ == self.name@,
    {
        self.name.as_str()
    }

    /// How the name service is reached.
    pub fn provider_configuration(&self) -> (r: QoveryDnsConfig)
        ensures
            r.api_url@ == self.api_url@,
            r.api_port@ == self.api_port@,
            r.api_key@ == self.api_key@,
    {
        QoveryDnsConfig {
            api_url: self.api_url.clone(),
            api_port: self.api_port.clone(),
            api_key: self.api_key.clone(),
        }
    }

    pub fn domain(&self) -> (r: &Domain)
        ensures
            *r == self.domain,
    {
        &self.domain
    }

    /// The resolvers to ask for the names of this provider, each as the
    /// four numbers of its address.
    pub fn resolvers(&self) -> (r: Vec<(u8, u8, u8, u8)>)
        ensures
            r@ == seq![(8u8, 8u8, 8u8, 8u8), (8u8, 8u8, 4u8, 4u8)],
    {
        let mut r: Vec<(u8, u8, u8, u8)> = Vec::new();
        r.push((8, 8, 8, 8));
        r.push((8, 8, 4, 4));
        assert(r@ =~= seq![(8u8, 8u8, 8u8, 8u8), (8u8, 8u8, 4u8, 4u8)]);
        r
    }

    /// Whether the provider can be used: it needs a key and a port.
    pub fn is_valid(&self) -> (r: Result<(), DnsProviderError>)
        ensures
            r == if self.api_key@.len() == 0 || self.api_port@.len() == 0 {
                Err::<(), DnsProviderError>(DnsProviderError::InvalidCredentials)
            } else {
                Ok::<(), DnsProviderError>(())
            },
    {
        if self.api_key.as_str().unicode_len() == 0 || self.api_port.as_str().unicode_len() == 0 {
            Err(DnsProviderError::InvalidCredentials)
        } else {
            Ok(())
        }
    }
}

} // verus!
