use std::sync::Arc;

use rama::context::Context;
use rama::tls::{
    map_service_result, ApplicationProtocol, ClientHello, ConfigChoice, HandshakeState,
    ServerConfig, TlsAcceptorError, TlsAcceptorService, TlsAction, TlsClientConfigHandler,
};

fn config(key: u8) -> Arc<ServerConfig> {
    Arc::new(ServerConfig::new(vec![key], vec![vec![1, 2, 3]]))
}

fn hello(sni: &str) -> ClientHello {
    ClientHello {
        server_name: Some(sni.as_bytes().to_vec()),
        alpn_protocols: vec![ApplicationProtocol { id: b"h2".to_vec() }],
        cipher_suites: vec![0x1301],
        signature_schemes: vec![0x0403],
        protocol_versions: vec![0x0304],
    }
}

fn io_error() -> std::io::Error {
    std::io::Error::new(std::io::ErrorKind::Other, "boom")
}

fn require_send<T: Send>() {}

fn require_sync<T: Sync>() {}

#[test]
fn assert_send() {
    require_send::<TlsAcceptorService<()>>();
}

#[test]
fn assert_sync() {
    require_sync::<TlsAcceptorService<()>>();
}

#[test]
fn server_config_new() {
    let c = ServerConfig::new(vec![9], vec![vec![1]]);
    assert_eq!(c.private_key, vec![9]);
    assert_eq!(c.ca_cert_chain, vec![vec![1]]);
    assert!(c.alpn_protocols.is_empty());
    assert!(c.keylog_filename.is_none());
}

#[test]
fn tls_static_mode_records_no_client_hello() {
    let svc = TlsAcceptorService::new(config(1), (), TlsClientConfigHandler::Static);
    let (mut hs, action) = svc.start_handshake();
    assert!(matches!(action, TlsAction::CompleteHandshake(ConfigChoice::Default)));
    let mut ctx = Context::new(());
    let alpn = Some(ApplicationProtocol { id: b"h2".to_vec() });
    let action = svc.on_handshake_complete(&mut hs, &mut ctx, Ok(alpn.clone()));
    assert!(matches!(action, TlsAction::Delegate));
    assert!(matches!(hs.state, HandshakeState::Delegated));
    let info = ctx.secure_transport().unwrap();
    assert!(info.client_hello.is_none());
    assert_eq!(info.alpn, alpn);
}

#[test]
fn tls_inspect_mode_captures_when_enabled() {
    for store in [true, false] {
        let svc = TlsAcceptorService::new(
            config(1),
            (),
            TlsClientConfigHandler::Inspect { store_client_hello: store },
        );
        let (mut hs, action) = svc.start_handshake();
        assert!(matches!(action, TlsAction::ReadClientHello));
        let action = svc.on_client_hello(&mut hs, Ok(hello("example.com")));
        assert!(matches!(action, TlsAction::CompleteHandshake(ConfigChoice::Default)));
        let mut ctx = Context::new(());
        svc.on_handshake_complete(&mut hs, &mut ctx, Ok(None));
        let info = ctx.secure_transport().unwrap();
        assert_eq!(info.client_hello.is_some(), store);
        if store {
            let captured = info.client_hello.as_ref().unwrap();
            assert_eq!(captured.server_name, Some(b"example.com".to_vec()));
        }
    }
}

#[test]
fn tls_dynamic_mode_uses_override() {
    let svc = TlsAcceptorService::new(
        config(1),
        (),
        TlsClientConfigHandler::Dynamic { store_client_hello: true },
    );
    let (mut hs, _) = svc.start_handshake();
    let action = svc.on_client_hello(&mut hs, Ok(hello("tenant.example")));
    assert!(matches!(action, TlsAction::ResolveConfig));
    let sni = hs.captured_client_hello().unwrap().server_name.clone().unwrap();
    let resolved = if sni == b"tenant.example".to_vec() { Some(config(2)) } else { None };
    match svc.on_config_resolved(&mut hs, Ok(resolved)) {
        TlsAction::CompleteHandshake(ConfigChoice::Override(c)) => assert_eq!(c.private_key, vec![2]),
        other => panic!("unexpected action {other:?}"),
    }
    let mut ctx = Context::new(());
    svc.on_handshake_complete(&mut hs, &mut ctx, Ok(None));
    assert!(ctx.secure_transport().unwrap().client_hello.is_some());
}

#[test]
fn tls_dynamic_mode_falls_back_to_default() {
    let svc = TlsAcceptorService::new(
        config(1),
        (),
        TlsClientConfigHandler::Dynamic { store_client_hello: false },
    );
    let (mut hs, _) = svc.start_handshake();
    svc.on_client_hello(&mut hs, Ok(hello("other.example")));
    let action = svc.on_config_resolved(&mut hs, Ok(None));
    assert!(matches!(action, TlsAction::CompleteHandshake(ConfigChoice::Default)));
    assert_eq!(svc.config().private_key, vec![1]);
    let mut ctx = Context::new(());
    svc.on_handshake_complete(&mut hs, &mut ctx, Ok(None));
    assert!(ctx.secure_transport().unwrap().client_hello.is_none());
}

#[test]
fn tls_dynamic_mode_resolver_failure_aborts() {
    let svc = TlsAcceptorService::new(
        config(1),
        (),
        TlsClientConfigHandler::Dynamic { store_client_hello: true },
    );
    let (mut hs, _) = svc.start_handshake();
    svc.on_client_hello(&mut hs, Ok(hello("x.example")));
    let action = svc.on_config_resolved(&mut hs, Err(io_error()));
    assert!(matches!(action, TlsAction::Fail(_)));
    assert!(matches!(hs.state, HandshakeState::Failed));
}

#[test]
fn tls_handshake_failure_leaves_context() {
    let svc = TlsAcceptorService::new(config(1), (), TlsClientConfigHandler::Static);
    let (mut hs, _) = svc.start_handshake();
    let mut ctx = Context::new(());
    let action = svc.on_handshake_complete(&mut hs, &mut ctx, Err(io_error()));
    assert!(matches!(action, TlsAction::Fail(_)));
    assert!(ctx.secure_transport().is_none());
}

#[test]
fn tls_client_hello_read_failure_aborts() {
    let svc = TlsAcceptorService::new(
        config(1),
        (),
        TlsClientConfigHandler::Inspect { store_client_hello: true },
    );
    let (mut hs, _) = svc.start_handshake();
    assert!(matches!(svc.on_client_hello(&mut hs, Err(io_error())), TlsAction::Fail(_)));
}

#[test]
fn tls_service_errors_are_wrapped() {
    let ok: Result<u8, &str> = Ok(3);
    assert!(matches!(map_service_result(ok), Ok(3)));
    let err: Result<u8, &str> = Err("inner");
    assert!(matches!(map_service_result(err), Err(TlsAcceptorError::Service("inner"))));
}
