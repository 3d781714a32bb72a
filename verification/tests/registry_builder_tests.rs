use stream_session::environment_builder::{Builder, EnvironmentSession};
use stream_session::environments::{
    contains_environment, insert_environment, remove_environment, with_environment, HandleRegistry,
};
use stream_session::error::SessionError;

#[test]
fn handles_start_at_one_and_increase() {
    let mut reg: HandleRegistry<u32> = HandleRegistry::new();
    let h1 = insert_environment(&mut reg, 10);
    let h2 = insert_environment(&mut reg, 20);
    let h3 = insert_environment(&mut reg, 30);
    assert_eq!(h1, 1);
    assert!(h1 < h2 && h2 < h3);
    assert!(contains_environment(&reg, h1));
    assert!(contains_environment(&reg, h2));
    assert!(contains_environment(&reg, h3));
}

#[test]
fn removed_handle_is_not_reused() {
    let mut reg: HandleRegistry<u32> = HandleRegistry::new();
    let h1 = insert_environment(&mut reg, 10);
    remove_environment(&mut reg, h1);
    let h2 = insert_environment(&mut reg, 20);
    assert_ne!(h1, h2);
    assert!(h2 > h1);
}

#[test]
fn with_after_remove_returns_none() {
    let mut reg: HandleRegistry<u32> = HandleRegistry::new();
    let h = insert_environment(&mut reg, 42);
    let seen = with_environment(&mut reg, h, |env: u32| (env, env + 1));
    assert_eq!(seen, Some(43));
    remove_environment(&mut reg, h);
    let gone = with_environment(&mut reg, h, |env: u32| (env, env + 1));
    assert_eq!(gone, None);
    assert!(!contains_environment(&reg, h));
}

#[test]
fn with_environment_updates_the_stored_resource() {
    let mut reg: HandleRegistry<u32> = HandleRegistry::new();
    let h = insert_environment(&mut reg, 5);
    let doubled = with_environment(&mut reg, h, |env: u32| (env * 2, ()));
    assert_eq!(doubled, Some(()));
    let read = with_environment(&mut reg, h, |env: u32| (env, env));
    assert_eq!(read, Some(10));
}

#[test]
fn unknown_handle_is_absent() {
    let mut reg: HandleRegistry<u32> = HandleRegistry::new();
    assert!(!contains_environment(&reg, 1));
    assert_eq!(with_environment(&mut reg, 7, |env: u32| (env, ())), None);
}

#[test]
fn build_assembles_the_configured_request() {
    let mut b = Builder::new();
    b.set_host(String::from("broker.local")).unwrap();
    b.set_port(5552).unwrap();
    b.set_username(String::from("guest")).unwrap();
    b.set_password(String::from("pw")).unwrap();
    b.set_virtual_host(String::from("/")).unwrap();
    b.set_heartbeat(30).unwrap();
    b.set_load_balancer_mode(true).unwrap();
    let req = b.build().unwrap();
    assert_eq!(req.config.host.as_deref(), Some("broker.local"));
    assert_eq!(req.config.port, Some(5552));
    assert_eq!(req.config.username.as_deref(), Some("guest"));
    assert_eq!(req.config.virtual_host.as_deref(), Some("/"));
    assert_eq!(req.config.heartbeat, Some(30));
    assert_eq!(req.config.load_balancer_mode, Some(true));
    assert!(req.tls.is_none());
}

#[test]
fn second_build_fails_with_already_built() {
    let mut b = Builder::new();
    b.set_host(String::from("h")).unwrap();
    let first = b.build();
    assert!(first.is_ok());
    let second = b.build();
    assert!(matches!(second, Err(SessionError::AlreadyBuilt)));
}

#[test]
fn setter_after_build_fails_with_spent_builder() {
    let mut b = Builder::new();
    b.build().unwrap();
    assert!(matches!(b.set_host(String::from("h")), Err(SessionError::SpentBuilder)));
    assert!(matches!(b.set_port(1), Err(SessionError::SpentBuilder)));
    assert!(matches!(b.trust_certificates(true), Err(SessionError::SpentBuilder)));
}

#[test]
fn tls_attached_only_when_touched() {
    let mut b = Builder::new();
    b.add_client_certificates_keys(String::from("cert.pem"), String::from("key.pem")).unwrap();
    let req = b.build().unwrap();
    let tls = req.tls.expect("tls section");
    assert_eq!(
        tls.client_certificates,
        Some((String::from("cert.pem"), String::from("key.pem")))
    );
    assert_eq!(tls.root_certificates, None);
    assert!(!tls.trust_all_certificates);
}

#[test]
fn tls_trust_applied_regardless_of_other_fields() {
    let mut b = Builder::new();
    b.trust_certificates(true).unwrap();
    let req = b.build().unwrap();
    let tls = req.tls.expect("tls section");
    assert_eq!(tls.client_certificates, None);
    assert_eq!(tls.root_certificates, None);
    assert!(tls.trust_all_certificates);
}

#[test]
fn tls_root_certificates_attached_when_set() {
    let mut b = Builder::new();
    b.add_root_certificates(String::from("ca.pem")).unwrap();
    let req = b.build().unwrap();
    let tls = req.tls.expect("tls section");
    assert_eq!(tls.root_certificates.as_deref(), Some("ca.pem"));
    assert_eq!(tls.client_certificates, None);
}

#[test]
fn scenario_connection_build_and_handle_query() {
    let mut session = EnvironmentSession::new();
    session.builder.set_host(String::from("broker.local")).unwrap();
    session.builder.set_port(5552).unwrap();
    assert!(matches!(session.handle(), Err(SessionError::NoConnection)));
    let req = session.builder.build().unwrap();
    assert_eq!(req.config.host.as_deref(), Some("broker.local"));
    assert_eq!(req.config.port, Some(5552));
    // The shell would now hand `req` to the broker client; a stand-in
    // connection takes its place here.
    let mut reg: HandleRegistry<String> = HandleRegistry::new();
    let h = insert_environment(&mut reg, String::from("connection"));
    assert!(h >= 1);
    session.record_handle(h);
    assert_eq!(session.handle().unwrap(), h);
    assert_eq!(session.handle().unwrap(), h);
}
