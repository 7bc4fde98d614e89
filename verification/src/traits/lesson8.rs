//! The way into a mail server: how a client is configured, what the
//! configuration asks of the connection, and what a connection remembers
//! of the server's greeting.

use crate::traits::lesson8::error::ImapError;
use vstd::prelude::*;

pub mod client;
pub mod error;

verus! {

/// The port on which a mail server expects TLS from the first byte.
pub const IMAPS_PORT: u16 = 993;

/// The connection mode we are going to use
#[derive(Clone, Copy, Debug, PartialEq, Eq, Structural)]
pub enum ConnectionMode {
    /// Automatically detect what connection mode should be used.
    /// This will use TLS if the port is 993, and StartTLls if the server says it's available.
    /// If only Plaintext is available it will error out.
    AutoTls,
    /// Automatically detect what connection mode should be used.
    /// This will use TLS if the port is 993, and StartTLls if the server says it's available.
    /// Finally it will fallback to Plaintext
    Auto,
    /// A plain unencrypted Tcp connection
    Plaintext,
    /// an encrypted TLS connection
    Tls,
    /// a start tls connection
    StartTls,
}

/// The tls backend to use, either explicit or auto (default)
#[derive(Clone, Copy, Debug, PartialEq, Eq, Structural)]
pub enum TlsKind {
    /// Use the NativeTLS backend
    Native,
    /// Use the Rustls backend
    Rust,
    /// Use whatever backend is available (uses rustls if both are available)
    Any,
}

/// What is done with a fresh TCP connection before the client talks over it.
#[derive(Clone, Copy, Debug, PartialEq, Eq, Structural)]
pub enum Transport {
    /// The TLS handshake is made at once. The greeting comes after it.
    Handshake,
    /// The greeting is read in the clear and the server is asked to switch
    /// to TLS. Where `required` holds, a server that cannot is given up.
    Upgrade { required: bool },
    /// The connection is used as it is.
    Plain,
}

/// What a connection mode asks for on a port.
pub open spec fn transport_for(mode: ConnectionMode, port: u16) -> Transport {
    match mode {
        ConnectionMode::AutoTls => if port == IMAPS_PORT {
            Transport::Handshake
        } else {
            Transport::Upgrade { required: true }
        },
        ConnectionMode::Auto => if port == IMAPS_PORT {
            Transport::Handshake
        } else {
            Transport::Upgrade { required: false }
        },
        ConnectionMode::Plaintext => Transport::Plain,
        ConnectionMode::StartTls => Transport::Upgrade { required: true },
        ConnectionMode::Tls => Transport::Handshake,
    }
}

/// Whether the greeting was read by the time the transport stands, given
/// whether the server switched to TLS when asked; `None` where the
/// connection is given up because it did not.
pub open spec fn greeting_read_after(transport: Transport, upgraded: bool) -> Option<bool> {
    match transport {
        Transport::Handshake => Some(false),
        Transport::Plain => Some(false),
        Transport::Upgrade { required } => if required && !upgraded {
            None
        } else {
            Some(true)
        },
    }
}

/// What the transport did, seen from the client that is made on it:
/// whether the greeting was read already, or the error that ends the
/// attempt. `upgraded` says whether the server switched to TLS when asked,
/// and counts for an upgrade alone.
pub fn settle(transport: Transport, upgraded: bool) -> (greeting_read: Result<bool, ImapError>)
    ensures
        match greeting_read_after(transport, upgraded) {
            Some(read) => greeting_read matches Ok(r) && r == read,
            None => greeting_read matches Err(ImapError::StartTlsNotAvailable),
        },
{
    match transport {
        Transport::Handshake => Ok(false),
        Transport::Plain => Ok(false),
        Transport::Upgrade { required } => {
            if required && !upgraded {
                Err(ImapError::StartTlsNotAvailable)
            } else {
                Ok(true)
            }
        },
    }
}

/// What a builder has collected.
pub struct ClientSettings<D> {
    pub domain: D,
    pub port: u16,
    pub mode: ConnectionMode,
    pub tls_kind: TlsKind,
    pub skip_tls_verify: bool,
}

#[derive(Clone)]
pub struct ClientBuilder<D> {
    domain: D,
    port: u16,
    mode: ConnectionMode,
    tls_kind: TlsKind,
    skip_tls_verify: bool,
}

impl<D> View for ClientBuilder<D> {
    type V = ClientSettings<D>;

    closed spec fn view(&self) -> ClientSettings<D> {
        ClientSettings {
            domain: self.domain,
            port: self.port,
            mode: self.mode,
            tls_kind: self.tls_kind,
            skip_tls_verify: self.skip_tls_verify,
        }
    }
}

impl<D> ClientBuilder<D> {
    /// Make a new `ClientBuilder` using the given domain and port. It
    /// insists on TLS, with any backend, and on valid certificates.
    pub fn new(domain: D, port: u16) -> (builder: Self)
        ensures
            builder@ == (ClientSettings {
                domain,
                port,
                mode: ConnectionMode::AutoTls,
                tls_kind: TlsKind::Any,
                skip_tls_verify: false,
            }),
    {
        ClientBuilder {
            domain,
            port,
            mode: ConnectionMode::AutoTls,
            tls_kind: TlsKind::Any,
            skip_tls_verify: false,
        }
    }

    /// Sets the Connection mode to use for this connection
    pub fn mode(&mut self, mode: ConnectionMode) -> (builder: &mut Self)
        ensures
            builder@ == (ClientSettings { mode, ..old(self)@ }),
            *final(self) == *final(builder),
    {
        self.mode = mode;
        self
    }

    /// Sets the TLS backend to use for this connection.
    pub fn tls_kind(&mut self, kind: TlsKind) -> (builder: &mut Self)
        ensures
            builder@ == (ClientSettings { tls_kind: kind, ..old(self)@ }),
            *final(self) == *final(builder),
    {
        self.tls_kind = kind;
        self
    }

    /// Controls the use of certificate validation.
    ///
    /// Defaults to `false`.
    ///
    /// # Warning
    ///
    /// You should only use this as a last resort as it allows another server to impersonate the
    /// server you think you're talking to, which would include being able to receive your
    /// credentials.
    pub fn danger_skip_tls_verify(&mut self, skip_tls_verify: bool) -> (builder: &mut Self)
        ensures
            builder@ == (ClientSettings { skip_tls_verify, ..old(self)@ }),
            *final(self) == *final(builder),
    {
        self.skip_tls_verify = skip_tls_verify;
        self
    }

    /// The domain to connect to.
    pub fn domain(&self) -> (domain: &D)
        ensures
            *domain == self@.domain,
    {
        &self.domain
    }

    /// The port to connect to.
    pub fn port(&self) -> (port: u16)
        ensures
            port == self@.port,
    {
        self.port
    }

    /// Whether certificates are left unchecked.
    pub fn skips_tls_verify(&self) -> (skip: bool)
        ensures
            skip == self@.skip_tls_verify,
    {
        self.skip_tls_verify
    }

    /// The TLS backend that was asked for.
    pub fn backend(&self) -> (kind: TlsKind)
        ensures
            kind == self@.tls_kind,
    {
        self.tls_kind
    }

    /// What is to be done with the TCP connection once it stands.
    pub fn transport(&self) -> (transport: Transport)
        ensures
            transport == transport_for(self@.mode, self@.port),
    {
        match self.mode {
            ConnectionMode::AutoTls => {
                if self.port == IMAPS_PORT {
                    Transport::Handshake
                } else {
                    Transport::Upgrade { required: true }
                }
            },
            ConnectionMode::Auto => {
                if self.port == IMAPS_PORT {
                    Transport::Handshake
                } else {
                    Transport::Upgrade { required: false }
                }
            },
            ConnectionMode::Plaintext => Transport::Plain,
            ConnectionMode::StartTls => Transport::Upgrade { required: true },
            ConnectionMode::Tls => Transport::Handshake,
        }
    }
}

/// On the TLS port no mode talks in the clear but the one that asks for it.
pub proof fn lemma_tls_port_is_encrypted(mode: ConnectionMode)
    ensures
        mode != ConnectionMode::Plaintext ==> transport_for(mode, IMAPS_PORT)
            == Transport::Handshake || transport_for(mode, IMAPS_PORT) == (Transport::Upgrade {
            required: true,
        }),
{
}

/// A connection is given up only where TLS was insisted on and the server
/// could not switch to it; and of a connection that stands, the greeting
/// was read exactly where the server was asked to switch.
pub proof fn lemma_settled_greeting(mode: ConnectionMode, port: u16, upgraded: bool)
    ensures
        greeting_read_after(transport_for(mode, port), upgraded) is None <==> {
            &&& !upgraded
            &&& mode == ConnectionMode::StartTls || (mode == ConnectionMode::AutoTls && port
                != IMAPS_PORT)
        },
        greeting_read_after(transport_for(mode, port), upgraded) == Some(true)
            ==> transport_for(mode, port) is Upgrade,
        mode == ConnectionMode::Plaintext ==> greeting_read_after(
            transport_for(mode, port),
            upgraded,
        ) == Some(false),
{
}

} // verus!
