//! Server configuration: the options an embedder sets before running
//! the listener, and the classification of PROXY-mode connections. The
//! listener itself (sockets, accept loops) lives outside the engine and
//! reads its decisions from here.

use vstd::prelude::*;
use crate::controlchan::HandlerCtx;
use crate::proxy_protocol::{ConnectionTuple, Ipv4Addr};

verus! {

/// PROXY-protocol mode parameters: the external IP the server
/// advertises in passive replies, and the external control port that
/// tells control connections apart from data connections.
#[derive(Clone, Copy, PartialEq, Eq, Structural, Debug)]
pub struct ProxyParams {
    pub external_ip: Ipv4Addr,
    pub external_control_port: u16,
}

impl ProxyParams {
    /// PROXY-mode parameters advertising `external_ip`, with control
    /// connections arriving on `external_control_port`.
    pub fn new(external_ip: Ipv4Addr, external_control_port: u16) -> (p: ProxyParams)
        ensures
            p.external_ip == external_ip,
            p.external_control_port == external_control_port,
    {
        ProxyParams { external_ip, external_control_port }
    }
}

/// An FTP server's configuration. Built in the builder style; the I/O
/// layer runs the listener against it.
pub struct Server {
    /// The greeting sent in the `220` welcome.
    pub greeting: String,
    /// First passive port, inclusive.
    pub passive_ports_start: u16,
    /// Last passive port, inclusive.
    pub passive_ports_end: u16,
    /// Path of the DER PKCS #12 archive with the TLS material, if FTPS
    /// is configured.
    pub certs_file: Option<String>,
    /// Password of that archive; present exactly when the file is.
    pub certs_password: Option<String>,
    /// Whether to collect metrics.
    pub collect_metrics: bool,
    /// How long a session may sit idle before the loop closes it, in
    /// seconds.
    pub idle_session_timeout_secs: u64,
    /// PROXY-protocol mode, when the server sits behind a proxy.
    pub proxy_protocol_mode: Option<ProxyParams>,
}

impl Server {
    /// A server with the default configuration: the stock greeting, the
    /// IANA ephemeral passive range, no TLS, no metrics, a 600-second
    /// idle timeout, and no PROXY mode.
    pub fn new() -> (s: Server)
        ensures
            s.greeting@ == "Welcome to the libunftp FTP server"@,
            s.passive_ports_start == 49152,
            s.passive_ports_end == 65534,
            s.certs_file is None,
            s.certs_password is None,
            !s.collect_metrics,
            s.idle_session_timeout_secs == 600,
            s.proxy_protocol_mode is None,
    {
        Server {
            greeting: "Welcome to the libunftp FTP server".to_owned(),
            passive_ports_start: 49152,
            passive_ports_end: 65534,
            certs_file: None,
            certs_password: None,
            collect_metrics: false,
            idle_session_timeout_secs: 600,
            proxy_protocol_mode: None,
        }
    }

    /// Sets the greeting sent after connecting.
    pub fn greeting(self, greeting: &str) -> (s: Server)
        ensures
            s == (Server { greeting: s.greeting, ..self }),
            s.greeting@ == greeting@,
    {
        Server { greeting: greeting.to_owned(), ..self }
    }

    /// Sets the inclusive range of passive ports.
    pub fn passive_ports(self, start: u16, end: u16) -> (s: Server)
        requires
            start <= end,
        ensures
            s == (Server { passive_ports_start: start, passive_ports_end: end, ..self }),
    {
        Server { passive_ports_start: start, passive_ports_end: end, ..self }
    }

    /// Configures the path of the DER PKCS #12 archive and its
    /// password, enabling FTPS.
    pub fn ftps(self, certs_file: &str, password: &str) -> (s: Server)
        ensures
            s == (Server { certs_file: s.certs_file, certs_password: s.certs_password, ..self }),
            s.certs_file matches Some(f) && f@ == certs_file@,
            s.certs_password matches Some(p) && p@ == password@,
    {
        Server {
            certs_file: Some(certs_file.to_owned()),
            certs_password: Some(password.to_owned()),
            ..self
        }
    }

    /// Enables metrics collection.
    pub fn metrics(self) -> (s: Server)
        ensures
            s == (Server { collect_metrics: true, ..self }),
    {
        Server { collect_metrics: true, ..self }
    }

    /// Sets the idle session timeout in seconds.
    pub fn idle_session_timeout(self, secs: u64) -> (s: Server)
        ensures
            s == (Server { idle_session_timeout_secs: secs, ..self }),
    {
        Server { idle_session_timeout_secs: secs, ..self }
    }

    /// Enables PROXY-protocol mode with the given external parameters.
    pub fn proxy_protocol_mode(self, external_ip: Ipv4Addr, external_control_port: u16) -> (s:
        Server)
        ensures
            s == (
            Server {
                proxy_protocol_mode: Some(
                    ProxyParams { external_ip, external_control_port },
                ),
                ..self
            }),
    {
        Server {
            proxy_protocol_mode: Some(ProxyParams { external_ip, external_control_port }),
            ..self
        }
    }

    /// Whether the server holds TLS material: both the archive path and
    /// its password must be present.
    pub fn tls_configured(&self) -> (b: bool)
        ensures
            b == (self.certs_file is Some && self.certs_password is Some),
    {
        self.certs_file.is_some() && self.certs_password.is_some()
    }

    /// The dispatcher context for one control connection of this
    /// server: `local_ip` is the connection's local address and
    /// `storage_features` the backend's feature bits.
    pub fn handler_ctx(&self, local_ip: Ipv4Addr, storage_features: u32) -> (ctx: HandlerCtx)
        ensures
            ctx == (HandlerCtx {
                tls_configured: self.certs_file is Some && self.certs_password is Some,
                passive_ports_start: self.passive_ports_start,
                passive_ports_end: self.passive_ports_end,
                local_ip,
                storage_features,
                proxy_mode: self.proxy_protocol_mode is Some,
            }),
    {
        HandlerCtx {
            tls_configured: self.tls_configured(),
            passive_ports_start: self.passive_ports_start,
            passive_ports_end: self.passive_ports_end,
            local_ip,
            storage_features,
            proxy_mode: self.proxy_protocol_mode.is_some(),
        }
    }
}

/// What a PROXY-mode connection is, judged by the destination port the
/// proxy preserved.
#[derive(Clone, Copy, PartialEq, Eq, Structural, Debug)]
pub enum ProxyConnClass {
    /// The original destination was the external control port: a
    /// control channel.
    Control,
    /// The original destination lies in the passive range: a data
    /// connection to pair through the switchboard.
    Data,
    /// Anything else: close the connection.
    Reject,
}

/// Classifies a PROXY-mode connection: the external control port makes
/// a control channel, a destination in the passive range makes a data
/// connection, anything else is rejected.
pub fn classify_proxy_connection(
    conn: &ConnectionTuple,
    params: &ProxyParams,
    passive_ports_start: u16,
    passive_ports_end: u16,
) -> (c: ProxyConnClass)
    ensures
        c == spec_classify_proxy_connection(
            *conn,
            *params,
            passive_ports_start,
            passive_ports_end,
        ),
{
    if conn.to_port == params.external_control_port {
        ProxyConnClass::Control
    } else if passive_ports_start <= conn.to_port && conn.to_port <= passive_ports_end {
        ProxyConnClass::Data
    } else {
        ProxyConnClass::Reject
    }
}

/// The classification rule of [`classify_proxy_connection`].
pub open spec fn spec_classify_proxy_connection(
    conn: ConnectionTuple,
    params: ProxyParams,
    passive_ports_start: u16,
    passive_ports_end: u16,
) -> ProxyConnClass {
    if conn.to_port == params.external_control_port {
        ProxyConnClass::Control
    } else if passive_ports_start <= conn.to_port <= passive_ports_end {
        ProxyConnClass::Data
    } else {
        ProxyConnClass::Reject
    }
}

} // verus!
