//! How the server starts: what it listens on, and the certificates that it
//! shows.

use vstd::prelude::*;

use crate::settings::{Config, ConfigView};
use crate::text::{decimal, decimal_text};

verus! {

/// The files of the server's certificate and key.
#[derive(Clone, Debug, PartialEq, Eq)]
pub struct TlsPaths {
    pub cert: String,
    pub key: String,
}

/// What the server does with its configuration.
#[derive(Clone, Debug, PartialEq, Eq)]
pub enum Startup {
    /// There is no API key: it does not start.
    MissingApiKey,
    /// It listens on the address, with TLS if there are certificates to use.
    Serve { address: String, tls: Option<TlsPaths> },
}

/// The address that the server listens on, with its port.
pub open spec fn listen_address(cfg: ConfigView) -> Seq<char> {
    cfg.address + ":"@ + decimal(cfg.port as nat)
}

impl Startup {
    /// Decides what the server does with its configuration.
    pub fn plan(cfg: &Config) -> (r: Startup)
        ensures
            if cfg.backend.api_key@.len() == 0 {
                r is MissingApiKey
            } else {
                r matches Startup::Serve { address, tls } && address@ == listen_address(cfg@)
                    && match tls {
                    Some(paths) => cfg.tls_enable && paths.cert@ == cfg.tls_cert_path@
                        && paths.key@ == cfg.tls_key_path@,
                    None => !cfg.tls_enable,
                }
            },
    {
        if cfg.backend.api_key.as_str().is_empty() {
            return Startup::MissingApiKey;
        }
        let address = cfg.address.as_str().to_string().concat(":").concat(
            decimal_text(cfg.port as u64).as_str(),
        );
        let tls = if cfg.tls_enable {
            Some(TlsPaths { cert: cfg.tls_cert_path.clone(), key: cfg.tls_key_path.clone() })
        } else {
            None
        };
        Startup::Serve { address, tls }
    }
}

/// The name of the file with the certificate of the issuer, which stands beside
/// the server's certificate and is named after it.
pub fn ca_file_name(cert_stem: Option<&str>) -> (r: String)
    ensures
        r@ == (match cert_stem {
            Some(stem) => stem@,
            None => "cert"@,
        }) + ".ca.pem"@,
{
    let stem = match cert_stem {
        Some(stem) => stem,
        None => "cert",
    };
    stem.to_string().concat(".ca.pem")
}

/// Whether certificates have to be generated: when the server's certificate or
/// its key is missing.
pub fn needs_certificates(cert_exists: bool, key_exists: bool) -> (r: bool)
    ensures
        r == !(cert_exists && key_exists),
{
    !cert_exists || !key_exists
}

/// The certificate chain that the server shows: its certificate, and on a new
/// line that of the issuer if there is one.
pub fn certificate_chain(cert: Vec<u8>, ca: Option<Vec<u8>>) -> (r: Vec<u8>)
    ensures
        r@ == (match ca {
            Some(ca) => cert@ + seq![10u8] + ca@,
            None => cert@,
        }),
{
    let mut chain = cert;
    match ca {
        Some(ca) => {
            let mut issuer = ca;
            chain.push(10u8);
            chain.append(&mut issuer);
            assert(chain@ =~= cert@ + seq![10u8] + ca@);
        },
        None => {},
    }
    chain
}

} // verus!
