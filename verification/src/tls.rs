//! Mutual-TLS identities, and the checks made of the certificates read
//! from them.
use vstd::prelude::*;
use vstd::string::StringExecFns;
use crate::error::McpError;
use crate::text::{concat, u64_text, decimal_text};

verus! {

/// PEM-encoded client identity and trust root for mutual TLS.
pub struct MtlsClientConfig {
    pub identity_pem: Vec<u8>,
    pub ca_certificate_pem: Vec<u8>,
}

impl MtlsClientConfig {
    pub fn new(identity_pem: Vec<u8>, ca_certificate_pem: Vec<u8>) -> (r: MtlsClientConfig)
        ensures
            r.identity_pem@ == identity_pem@,
            r.ca_certificate_pem@ == ca_certificate_pem@,
    {
        MtlsClientConfig { identity_pem, ca_certificate_pem }
    }
}

/// PEM-encoded server identity and the CA that client certificates must
/// chain to.
pub struct MtlsServerConfig {
    pub certificate_chain_pem: Vec<u8>,
    pub private_key_pem: Vec<u8>,
    pub client_ca_pem: Vec<u8>,
}

impl MtlsServerConfig {
    pub fn new(certificate_chain_pem: Vec<u8>, private_key_pem: Vec<u8>, client_ca_pem: Vec<u8>) -> (r: MtlsServerConfig)
        ensures
            r.certificate_chain_pem@ == certificate_chain_pem@,
            r.private_key_pem@ == private_key_pem@,
            r.client_ca_pem@ == client_ca_pem@,
    {
        MtlsServerConfig { certificate_chain_pem, private_key_pem, client_ca_pem }
    }
}

/// A server identity needs at least one certificate.
pub fn check_certificate_chain(count: usize) -> (r: Result<(), McpError>)
    ensures
        r is Ok <==> count > 0,
        r matches Err(e) ==> (e matches McpError::Authentication(m) && m@ == "mTLS server certificate chain is empty"@),
{
    if count == 0 {
        Err(McpError::Authentication(String::from_str("mTLS server certificate chain is empty")))
    } else {
        Ok(())
    }
}

/// The client CA must yield at least one certificate and none that was
/// refused.
pub fn check_client_ca(accepted: u64, rejected: u64) -> (r: Result<(), McpError>)
    ensures
        r is Ok <==> (accepted > 0 && rejected == 0),
        r matches Err(e) ==> (e matches McpError::Authentication(m) && m@ == "client CA contained "@
            + decimal_text(accepted as int) + " accepted and "@ + decimal_text(rejected as int) + " rejected certificates"@),
{
    if accepted == 0 || rejected > 0 {
        let a = concat("client CA contained ", u64_text(accepted).as_str());
        let b = concat(a.as_str(), " accepted and ");
        let c = concat(b.as_str(), u64_text(rejected).as_str());
        Err(McpError::Authentication(concat(c.as_str(), " rejected certificates")))
    } else {
        Ok(())
    }
}

} // verus!
