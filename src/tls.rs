//! TLS termination: server configuration, captured ClientHello data and the
//! acceptor's handshake state machine.
//!
//! The acceptor is driven by its runtime: the runtime performs the network
//! work (reading the ClientHello, running a configuration resolver, finishing
//! the handshake) and reports each outcome back as an event. The acceptor
//! answers with the next action to perform, so every decision taken between
//! accepting a raw stream and handing the decrypted stream to the inner
//! service is verified here.
use vstd::prelude::*;
use std::sync::Arc;

use crate::context::Context;

verus! {

/// std's `io::Error`, the error of a failed handshake step: carried through
/// unopened, nothing is assumed of it.
#[verifier::external_type_specification]
#[verifier::external_body]
pub struct ExIoError(std::io::Error);

/// Application protocol identifier as offered or negotiated through ALPN.
#[derive(Clone, Debug, PartialEq, Eq)]
pub struct ApplicationProtocol {
    pub id: Vec<u8>,
}

/// Common configuration for a set of server sessions.
#[derive(Clone, Debug)]
pub struct ServerConfig {
    /// Private key of the server, DER encoded.
    pub private_key: Vec<u8>,
    /// Certificate chain of the server, each certificate DER encoded.
    pub ca_cert_chain: Vec<Vec<u8>>,
    /// ALPN protocols supported by the inner application service.
    pub alpn_protocols: Vec<ApplicationProtocol>,
    /// Write logging information to facilitate tls interception.
    pub keylog_filename: Option<String>,
}

impl ServerConfig {
    /// Create a new [`ServerConfig`] without ALPN protocols or key log.
    pub fn new(private_key: Vec<u8>, ca_cert_chain: Vec<Vec<u8>>) -> (r: ServerConfig)
        ensures
            r.private_key == private_key,
            r.ca_cert_chain == ca_cert_chain,
            r.alpn_protocols@.len() == 0,
            r.keylog_filename.is_none(),
    {
        ServerConfig { private_key, ca_cert_chain, alpn_protocols: Vec::new(), keylog_filename: None }
    }
}

/// The data captured from a TLS ClientHello message.
#[derive(Clone, Debug)]
pub struct ClientHello {
    /// Server name indication, when the client sent one.
    pub server_name: Option<Vec<u8>>,
    /// Offered ALPN protocols, in the client's order.
    pub alpn_protocols: Vec<ApplicationProtocol>,
    /// Offered cipher suites (opaque identifiers).
    pub cipher_suites: Vec<u16>,
    /// Offered signature schemes (opaque identifiers).
    pub signature_schemes: Vec<u16>,
    /// Offered protocol versions.
    pub protocol_versions: Vec<u16>,
}

/// What the TLS acceptor records about a terminated connection.
#[derive(Clone, Debug)]
pub struct SecureTransportInfo {
    /// The negotiated ALPN protocol, if any.
    pub alpn: Option<ApplicationProtocol>,
    /// The ClientHello, only when capturing it was enabled.
    pub client_hello: Option<ClientHello>,
}

/// How the acceptor picks its server configuration.
#[derive(Clone, Copy, Debug, PartialEq, Eq)]
pub enum TlsClientConfigHandler {
    /// No ClientHello inspection: the fixed configuration is used right away.
    Static,
    /// Pause after the ClientHello, optionally capture it, resume with the
    /// fixed configuration.
    Inspect { store_client_hello: bool },
    /// Pause after the ClientHello and ask a resolver for a configuration,
    /// falling back to the fixed one when it has no override.
    Dynamic { store_client_hello: bool },
}

impl TlsClientConfigHandler {
    pub open spec fn stores_client_hello(self) -> bool {
        match self {
            TlsClientConfigHandler::Static => false,
            TlsClientConfigHandler::Inspect { store_client_hello } => store_client_hello,
            TlsClientConfigHandler::Dynamic { store_client_hello } => store_client_hello,
        }
    }
}

/// The configuration a handshake is to complete with.
#[derive(Debug)]
pub enum ConfigChoice {
    /// The acceptor's own fixed configuration.
    Default,
    /// A configuration chosen for this connection.
    Override(Arc<ServerConfig>),
}

/// Where a handshake stands.
#[derive(Clone, Debug)]
pub enum HandshakeState {
    /// The raw stream was accepted and the handshake begun.
    HandshakeStarted,
    /// Paused after the ClientHello, waiting for the resolver.
    ClientHelloCaptured { hello: ClientHello },
    /// The configuration is known; `captured` is what the context will hold.
    ConfigResolved { captured: Option<ClientHello> },
    /// The handshake completed and the inner service is to run.
    Delegated,
    /// The handshake was aborted; the inner service never runs.
    Failed,
}

/// What the runtime must do next for a handshake.
#[derive(Debug)]
pub enum TlsAction {
    /// Read the ClientHello from the stream and report it.
    ReadClientHello,
    /// Ask the configuration resolver about the captured ClientHello
    /// (see [`TlsHandshake::captured_client_hello`]) and report its answer.
    ResolveConfig,
    /// Drive the handshake to completion with this configuration and report the outcome.
    CompleteHandshake(ConfigChoice),
    /// Hand the decrypted stream and the context to the inner service.
    Delegate,
    /// Abort the call with this error; the inner service is not invoked.
    Fail(std::io::Error),
}

/// One connection's progress through the acceptor.
#[derive(Debug)]
pub struct TlsHandshake {
    pub state: HandshakeState,
}

/// Errors that can happen when using [`TlsAcceptorService`].
#[derive(Debug)]
pub enum TlsAcceptorError<E> {
    /// An error occurred while accepting a TLS connection.
    Accept(std::io::Error),
    /// An error occurred while serving the underlying transport stream
    /// using the inner service.
    Service(E),
}

/// A service which accepts TLS connections and delegates the underlying
/// transport stream to the given service.
#[derive(Clone, Debug)]
pub struct TlsAcceptorService<S> {
    config: Arc<ServerConfig>,
    client_config_handler: TlsClientConfigHandler,
    inner: S,
}

impl<S> TlsAcceptorService<S> {
    pub closed spec fn spec_config(&self) -> Arc<ServerConfig> {
        self.config
    }

    pub closed spec fn spec_handler(&self) -> TlsClientConfigHandler {
        self.client_config_handler
    }

    pub closed spec fn spec_inner(&self) -> S {
        self.inner
    }

    /// Creates a new [`TlsAcceptorService`].
    pub fn new(config: Arc<ServerConfig>, inner: S, client_config_handler: TlsClientConfigHandler) -> (r: Self)
        ensures
            r.spec_config() == config,
            r.spec_inner() == inner,
            r.spec_handler() == client_config_handler,
    {
        TlsAcceptorService { config, client_config_handler, inner }
    }

    /// The fixed configuration used when no override applies.
    pub fn config(&self) -> (r: &Arc<ServerConfig>)
        ensures
            *r == self.spec_config(),
    {
        &self.config
    }

    /// How this acceptor picks its configuration.
    pub fn client_config_handler(&self) -> (r: TlsClientConfigHandler)
        ensures
            r == self.spec_handler(),
    {
        self.client_config_handler
    }

    /// Reference to the inner service.
    pub fn get_ref(&self) -> (r: &S)
        ensures
            *r == self.spec_inner(),
    {
        &self.inner
    }

    /// Consumes the acceptor, returning the inner service.
    pub fn into_inner(self) -> (r: S)
        ensures
            r == self.spec_inner(),
    {
        self.inner
    }

    /// Starts the handshake of a freshly accepted raw stream.
    ///
    /// In static mode the handshake is driven to completion with the fixed
    /// configuration right away; the other modes first read the ClientHello.
    pub fn start_handshake(&self) -> (r: (TlsHandshake, TlsAction))
        ensures
            r.0.state is HandshakeStarted,
            self.spec_handler() is Static ==> (r.1 matches TlsAction::CompleteHandshake(ConfigChoice::Default)),
            !(self.spec_handler() is Static) ==> r.1 is ReadClientHello,
    {
        let action = match self.client_config_handler {
            TlsClientConfigHandler::Static => TlsAction::CompleteHandshake(ConfigChoice::Default),
            _ => TlsAction::ReadClientHello,
        };
        (TlsHandshake { state: HandshakeState::HandshakeStarted }, action)
    }

    /// The ClientHello has been read, or reading it failed.
    ///
    /// Inspecting mode resumes with the fixed configuration; dynamic mode asks
    /// the resolver about the hello, which the handshake keeps meanwhile. The
    /// hello is kept for the context only when capturing it is enabled. A
    /// failed read aborts the handshake.
    pub fn on_client_hello(&self, hs: &mut TlsHandshake, hello: Result<ClientHello, std::io::Error>) -> (r: TlsAction)
        requires
            old(hs).state is HandshakeStarted,
            !(self.spec_handler() is Static),
        ensures
            hello is Err ==> {
                &&& r == TlsAction::Fail(hello->Err_0)
                &&& final(hs).state is Failed
            },
            hello is Ok && self.spec_handler() is Inspect ==> {
                &&& r matches TlsAction::CompleteHandshake(ConfigChoice::Default)
                &&& final(hs).state == (HandshakeState::ConfigResolved {
                    captured: if self.spec_handler().stores_client_hello() {
                        Some(hello->Ok_0)
                    } else {
                        None
                    },
                })
            },
            hello is Ok && self.spec_handler() is Dynamic ==> {
                &&& r is ResolveConfig
                &&& final(hs).state == (HandshakeState::ClientHelloCaptured { hello: hello->Ok_0 })
            },
    {
        match hello {
            Err(e) => {
                hs.state = HandshakeState::Failed;
                TlsAction::Fail(e)
            },
            Ok(hello) => match self.client_config_handler {
                TlsClientConfigHandler::Dynamic { .. } => {
                    hs.state = HandshakeState::ClientHelloCaptured { hello };
                    TlsAction::ResolveConfig
                },
                _ => {
                    let captured = if self.stores_client_hello() {
                        Some(hello)
                    } else {
                        None
                    };
                    hs.state = HandshakeState::ConfigResolved { captured };
                    TlsAction::CompleteHandshake(ConfigChoice::Default)
                },
            },
        }
    }

    /// Whether the ClientHello is to be kept in the context.
    pub fn stores_client_hello(&self) -> (r: bool)
        ensures
            r == self.spec_handler().stores_client_hello(),
    {
        match self.client_config_handler {
            TlsClientConfigHandler::Static => false,
            TlsClientConfigHandler::Inspect { store_client_hello } => store_client_hello,
            TlsClientConfigHandler::Dynamic { store_client_hello } => store_client_hello,
        }
    }

    /// The resolver answered for the captured ClientHello (dynamic mode).
    ///
    /// An override is used as given, no override falls back to the fixed
    /// configuration, and a resolver failure aborts the handshake.
    pub fn on_config_resolved(
        &self,
        hs: &mut TlsHandshake,
        resolved: Result<Option<Arc<ServerConfig>>, std::io::Error>,
    ) -> (r: TlsAction)
        requires
            old(hs).state is ClientHelloCaptured,
            self.spec_handler() is Dynamic,
        ensures
            resolved is Err ==> {
                &&& r == TlsAction::Fail(resolved->Err_0)
                &&& final(hs).state is Failed
            },
            resolved is Ok ==> final(hs).state == (HandshakeState::ConfigResolved {
                captured: if self.spec_handler().stores_client_hello() {
                    Some(old(hs).state->hello)
                } else {
                    None
                },
            }),
            resolved matches Ok(Some(c)) ==> r == TlsAction::CompleteHandshake(ConfigChoice::Override(c)),
            resolved matches Ok(None) ==> r matches TlsAction::CompleteHandshake(ConfigChoice::Default),
    {
        let mut previous = HandshakeState::Failed;
        std::mem::swap(&mut hs.state, &mut previous);
        match resolved {
            Err(e) => TlsAction::Fail(e),
            Ok(choice) => {
                let captured = match previous {
                    HandshakeState::ClientHelloCaptured { hello } => {
                        if self.stores_client_hello() {
                            Some(hello)
                        } else {
                            None
                        }
                    },
                    _ => None,
                };
                hs.state = HandshakeState::ConfigResolved { captured };
                match choice {
                    Some(c) => TlsAction::CompleteHandshake(ConfigChoice::Override(c)),
                    None => TlsAction::CompleteHandshake(ConfigChoice::Default),
                }
            },
        }
    }

    /// The handshake finished, with the negotiated ALPN protocol, or failed.
    ///
    /// On success the connection's [`SecureTransportInfo`] is written into the
    /// context, holding the ClientHello only when capturing is enabled, and
    /// the inner service is to run. On failure the context is left as it was.
    pub fn on_handshake_complete<State>(
        &self,
        hs: &mut TlsHandshake,
        ctx: &mut Context<State>,
        outcome: Result<Option<ApplicationProtocol>, std::io::Error>,
    ) -> (r: TlsAction)
        requires
            (old(hs).state is HandshakeStarted && self.spec_handler() is Static)
                || old(hs).state is ConfigResolved,
        ensures
            outcome is Err ==> {
                &&& r == TlsAction::Fail(outcome->Err_0)
                &&& final(hs).state is Failed
                &&& *final(ctx) == *old(ctx)
            },
            outcome is Ok ==> {
                &&& r is Delegate
                &&& final(hs).state is Delegated
                &&& final(ctx).spec_secure_transport() == Some(SecureTransportInfo {
                    alpn: outcome->Ok_0,
                    client_hello: match old(hs).state {
                        HandshakeState::ConfigResolved { captured } => captured,
                        _ => None,
                    },
                })
                &&& final(ctx).spec_state() == old(ctx).spec_state()
                &&& final(ctx).spec_dns() == old(ctx).spec_dns()
            },
    {
        let mut previous = HandshakeState::Failed;
        std::mem::swap(&mut hs.state, &mut previous);
        match outcome {
            Err(e) => TlsAction::Fail(e),
            Ok(alpn) => {
                let client_hello = match previous {
                    HandshakeState::ConfigResolved { captured } => captured,
                    _ => None,
                };
                ctx.insert_secure_transport(SecureTransportInfo { alpn, client_hello });
                hs.state = HandshakeState::Delegated;
                TlsAction::Delegate
            },
        }
    }
}

impl TlsHandshake {
    /// The ClientHello waiting for the resolver's answer, if any.
    pub fn captured_client_hello(&self) -> (r: Option<&ClientHello>)
        ensures
            self.state is ClientHelloCaptured ==> r == Some(&self.state->hello),
            !(self.state is ClientHelloCaptured) ==> r is None,
    {
        match &self.state {
            HandshakeState::ClientHelloCaptured { hello } => Some(hello),
            _ => None,
        }
    }
}

/// Maps the inner service's outcome into the acceptor's error type.
pub fn map_service_result<R, E>(result: Result<R, E>) -> (r: Result<R, TlsAcceptorError<E>>)
    ensures
        result is Ok ==> r == Ok::<R, TlsAcceptorError<E>>(result->Ok_0),
        result is Err ==> r == Err::<R, TlsAcceptorError<E>>(TlsAcceptorError::Service(result->Err_0)),
{
    match result {
        Ok(v) => Ok(v),
        Err(e) => Err(TlsAcceptorError::Service(e)),
    }
}

} // verus!
