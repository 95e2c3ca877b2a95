//! Configuration model.
//!
//! Structured host/port/certificate-path values as the configuration
//! and argument layers hand them to the core, with their defaults and
//! the precedence rules that merge command-line overrides over loaded
//! configuration over discovered defaults.  File discovery, parsing
//! and persistence happen outside the crate; only the resulting plain
//! values flow through here.

use vstd::prelude::*;
use vstd::string::*;
use crate::codec::{str_eq, ClipboardCmd};

verus! {

/// The default server port.
pub const DEFAULT_SERVER_PORT: u16 = 10080;

/// The default server host.
pub fn default_server_host() -> (r: String)
    ensures
        r@ == "127.0.0.1"@,
{
    String::from_str("127.0.0.1")
}

/// Endpoint section of a configuration: both fields optional, so that
/// a partial file or command line can leave them to the defaults.
pub struct Server {
    pub host: Option<String>,
    pub port: Option<u16>,
}

impl Default for Server {
    /// The default endpoint: local host on the default port.
    fn default() -> (r: Self)
        ensures
            r.host matches Some(h) && h@ == "127.0.0.1"@,
            r.port == Some(DEFAULT_SERVER_PORT),
    {
        Server { host: Some(default_server_host()), port: Some(DEFAULT_SERVER_PORT) }
    }
}

/// Certificate section of a server-side configuration.
pub struct ServerCertificate {
    pub der_cert_pub: Option<String>,
    pub der_cert_priv: Option<String>,
}

impl Default for ServerCertificate {
    /// No certificate paths are assumed.
    fn default() -> (r: Self)
        ensures
            r.der_cert_pub is None,
            r.der_cert_priv is None,
    {
        ServerCertificate { der_cert_pub: None, der_cert_priv: None }
    }
}

/// A server-side configuration: endpoint and certificate material.
pub struct ServerConfig {
    pub server: Server,
    pub certificate: ServerCertificate,
}

impl Default for ServerConfig {
    /// Defaults section by section.
    fn default() -> (r: Self)
        ensures
            r.server.host matches Some(h) && h@ == "127.0.0.1"@,
            r.server.port == Some(DEFAULT_SERVER_PORT),
            r.certificate.der_cert_pub is None,
            r.certificate.der_cert_priv is None,
    {
        ServerConfig { server: Server::default(), certificate: ServerCertificate::default() }
    }
}

/// Certificate section of a client-side configuration: the path of the
/// pinned public certificate, once resolved.
pub struct ClientCertificate {
    pub der_cert_pub: Option<String>,
}

impl Default for ClientCertificate {
    /// No certificate path is assumed.
    fn default() -> (r: Self)
        ensures
            r.der_cert_pub is None,
    {
        ClientCertificate { der_cert_pub: None }
    }
}

/// A client-side configuration: endpoint and pinned certificate path.
pub struct ClientConfig {
    pub server: Server,
    pub certificate: ClientCertificate,
}

impl Default for ClientConfig {
    /// Defaults section by section.
    fn default() -> (r: Self)
        ensures
            r.server.host matches Some(h) && h@ == "127.0.0.1"@,
            r.server.port == Some(DEFAULT_SERVER_PORT),
            r.certificate.der_cert_pub is None,
    {
        ClientConfig { server: Server::default(), certificate: ClientCertificate::default() }
    }
}

impl ClientConfig {
    /// Fill in a discovered default certificate path, but only where
    /// the loaded configuration supplied none.
    pub fn fill_default_cert(&mut self, fallback: Option<String>)
        ensures
            old(self).certificate.der_cert_pub is Some ==> *final(self) == *old(self),
            old(self).certificate.der_cert_pub is None ==> {
                &&& final(self).certificate.der_cert_pub == fallback
                &&& final(self).server == old(self).server
            },
    {
        if self.certificate.der_cert_pub.is_none() {
            self.certificate.der_cert_pub = fallback;
        }
    }

    /// Apply command-line overrides: a supplied argument wins over the
    /// loaded configuration, an absent one leaves it untouched.
    pub fn apply_cli_overrides(
        &mut self,
        host: Option<String>,
        port: Option<u16>,
        cert: Option<String>,
    )
        ensures
            final(self).server.host == (if host is Some { host } else { old(self).server.host }),
            final(self).server.port == (if port is Some { port } else { old(self).server.port }),
            final(self).certificate.der_cert_pub == (if cert is Some {
                cert
            } else {
                old(self).certificate.der_cert_pub
            }),
    {
        if let Some(h) = host {
            self.server.host = Some(h);
        }
        if let Some(p) = port {
            self.server.port = Some(p);
        }
        if let Some(c) = cert {
            self.certificate.der_cert_pub = Some(c);
        }
    }
}

/// True when building the command will need text sourced from the
/// local clipboard: only a write with no literal text supplied.
pub fn needs_clipboard_source(proposed: &str, text: &Option<String>) -> (r: bool)
    ensures
        r == (proposed@ != "READ"@ && proposed@ != "CLEAR"@ && text is None),
{
    !str_eq(proposed, "READ") && !str_eq(proposed, "CLEAR") && text.is_none()
}

/// Build the clipboard command from the chosen command word and the
/// write text: `READ` carries no text, `CLEAR` carries empty text, and
/// any other word is a write carrying the supplied text unchanged.
pub fn build_clipboard_cmd(proposed: &str, text: Option<String>) -> (r: ClipboardCmd)
    ensures
        proposed@ == "READ"@ ==> r.name@ == "READ"@ && r.text is None,
        proposed@ != "READ"@ && proposed@ == "CLEAR"@ ==> {
            &&& r.name@ == "CLEAR"@
            &&& r.text matches Some(t) && t@ == Seq::<char>::empty()
        },
        proposed@ != "READ"@ && proposed@ != "CLEAR"@ ==> {
            &&& r.name@ == "WRITE"@
            &&& r.text == text
        },
{
    if str_eq(proposed, "READ") {
        ClipboardCmd { name: String::from_str("READ"), text: None }
    } else if str_eq(proposed, "CLEAR") {
        ClipboardCmd { name: String::from_str("CLEAR"), text: Some(String::new()) }
    } else {
        ClipboardCmd { name: String::from_str("WRITE"), text }
    }
}

} // verus!
