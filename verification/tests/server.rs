use upload_server::binder::{bind_first_free, BindErrorKind, PortBinder};
use upload_server::network::Ipv4Addr;
use upload_server::phone_server::{
    fallback_ports, EnableAction, PhoneServer, ServerBindMode, StartAction,
};
use upload_server::token::{AuthError, TokenStore};
use upload_server::{DEFAULT_SERVER_PORT, PHONE_TOKEN_TTL_MS};

const LOOPBACK: Ipv4Addr = Ipv4Addr { o0: 127, o1: 0, o2: 0, o3: 1 };
const LAN_CALLER: Ipv4Addr = Ipv4Addr { o0: 192, o1: 168, o2: 1, o3: 20 };

#[test]
fn issued_token_validates_until_ttl() {
    let mut store = TokenStore::new();
    let issued = store.issue(1_000, 500);
    assert_eq!(issued.expires_at, 1_500);
    assert_eq!(issued.token.len(), 36);
    assert!(store.validate(&issued.token, 1_000));
    assert!(store.validate(&issued.token, 1_499));
    assert!(!store.validate(&issued.token, 1_500));
    assert!(!store.validate(&issued.token, 2_000));
}

#[test]
fn validation_prunes_expired_entries() {
    let mut store = TokenStore::new();
    let early = store.issue(0, 100);
    let late = store.issue(0, 10_000);
    assert_eq!(store.len(), 2);
    assert!(!store.validate(&early.token, 5_000));
    assert_eq!(store.len(), 1);
    assert!(store.validate(&late.token, 5_000));
}

#[test]
fn clearing_drops_all_tokens() {
    let mut store = TokenStore::new();
    let t = store.issue(0, 10_000);
    store.clear_phone_tokens();
    assert_eq!(store.len(), 0);
    assert!(!store.validate(&t.token, 1));
}

#[test]
fn unknown_tokens_never_validate() {
    let mut store = TokenStore::new();
    let t = store.issue(0, 10_000);
    let mut other = t.token.clone();
    other.pop();
    other.push('x');
    assert!(!store.validate(&other, 1));
    assert!(!store.validate("", 1));
}

#[test]
fn binder_reaches_third_fallback_when_first_ports_are_occupied() {
    let fallbacks = fallback_ports();
    let occupied = [DEFAULT_SERVER_PORT, fallbacks[0], fallbacks[1]];
    let mut binder = PortBinder::new(DEFAULT_SERVER_PORT, &fallbacks, 3);
    let bound_port = loop {
        let port = binder.current_port().expect("ports exhausted");
        if occupied.contains(&port) {
            binder.record_failure(BindErrorKind::AddrInUse);
        } else {
            break port;
        }
    };
    assert_eq!(bound_port, fallbacks[2]);
    assert_eq!(bound_port, 8790);
}

#[test]
fn binder_retries_address_in_use_up_to_budget() {
    let fallbacks = vec![9001u16];
    let mut binder = PortBinder::new(9000, &fallbacks, 2);
    assert_eq!(binder.current_port(), Some(9000));
    assert!(binder.record_failure(BindErrorKind::AddrInUse));
    assert!(binder.record_failure(BindErrorKind::AddrInUse));
    assert!(!binder.record_failure(BindErrorKind::AddrInUse));
    assert_eq!(binder.current_port(), Some(9001));
}

#[test]
fn binder_skips_port_at_once_on_permission_denied() {
    let fallbacks = vec![9001u16];
    let mut binder = PortBinder::new(9000, &fallbacks, 5);
    assert!(!binder.record_failure(BindErrorKind::PermissionDenied));
    assert_eq!(binder.current_port(), Some(9001));
    assert!(!binder.record_failure(BindErrorKind::Other));
    assert_eq!(binder.current_port(), None);
}

#[test]
fn binder_aggregates_all_failures() {
    let fallbacks = vec![8788u16];
    let mut binder = PortBinder::new(8787, &fallbacks, 0);
    binder.record_failure(BindErrorKind::PermissionDenied);
    binder.record_failure(BindErrorKind::AddrInUse);
    assert_eq!(binder.current_port(), None);
    let message = binder.aggregate_error();
    assert_eq!(
        message,
        "Failed to start server - all ports unavailable. Tried ports 8787, 8788: \
         Port 8787: permission denied; Port 8788: in use. This may be caused by a \
         firewall, antivirus software, or reserved port ranges. Try adding a \
         firewall exception for this application."
    );
}

#[test]
fn policy_binds_the_first_free_port_whatever_the_budget() {
    let fallbacks = fallback_ports();
    let occupied = vec![DEFAULT_SERVER_PORT, fallbacks[0], fallbacks[1]];
    for budget in [0u32, 1, 3, 7] {
        let bound = bind_first_free(DEFAULT_SERVER_PORT, &fallbacks, budget, &occupied);
        assert_eq!(bound, Ok(8790));
    }
    let free_at_once = bind_first_free(DEFAULT_SERVER_PORT, &fallbacks, 3, &Vec::new());
    assert_eq!(free_at_once, Ok(DEFAULT_SERVER_PORT));
}

#[test]
fn exhausting_every_port_names_them_all() {
    let fallbacks = vec![8788u16];
    let occupied = vec![8787u16, 8788];
    let refused = bind_first_free(8787, &fallbacks, 1, &occupied);
    assert_eq!(
        refused,
        Err("Failed to start server - all ports unavailable. Tried ports 8787, 8788: \
             Port 8787: in use; Port 8788: in use. This may be caused by a firewall, \
             antivirus software, or reserved port ranges. Try adding a firewall \
             exception for this application."
            .to_string())
    );
}

#[test]
fn loopback_start_is_a_no_op_while_running() {
    let mut server = PhoneServer::new();
    assert_eq!(server.start_extension_server(), StartAction::BindLoopback);
    server.on_loopback_bound(8787);
    assert_eq!(server.start_extension_server(), StartAction::AlreadyRunning);
    server.stop_phone_server();
    assert_eq!(server.start_extension_server(), StartAction::BindLoopback);
}

#[test]
fn timer_is_armed_only_for_an_expiring_lease() {
    let mut server = PhoneServer::new();
    assert_eq!(server.arm_auto_shutdown(), None);
    server.on_loopback_bound(8787);
    assert_eq!(server.arm_auto_shutdown(), None);
    server.stop_phone_server();
    server.on_all_interfaces_bound(1_000, 60_000, 8788);
    assert_eq!(
        server.arm_auto_shutdown(),
        Some((server.current_generation(), 61_000))
    );
}

#[test]
fn loopback_start_reports_disabled_status() {
    let mut server = PhoneServer::new();
    assert!(!server.is_running());
    server.on_loopback_bound(8787);
    assert!(server.is_running());
    assert!(matches!(server.get_bind_mode(), ServerBindMode::LocalhostOnly));
    let status = server.status_at(1_000);
    assert!(!status.enabled);
    assert_eq!(status.expires_at, 0);
}

#[test]
fn enable_from_loopback_stops_then_asks_for_lan_bind() {
    let mut server = PhoneServer::new();
    server.on_loopback_bound(8787);
    let action = server.set_phone_upload_enabled(true, Some(60_000), 1_000);
    assert!(matches!(action, EnableAction::BindAllInterfaces(60_000)));
    assert!(!server.is_running());
    let status = server.on_all_interfaces_bound(1_000, 60_000, 8787);
    assert!(status.enabled);
    assert_eq!(status.expires_at, 61_000);
    let status = server.status_at(2_000);
    assert!(status.enabled);
    assert_eq!(status.expires_at, 61_000);
}

#[test]
fn repeated_enable_extends_without_shortening() {
    let mut server = PhoneServer::new();
    server.on_all_interfaces_bound(1_000, 60_000, 8787);
    let first_expiry = server.lease_expires_at();
    let action = server.set_phone_upload_enabled(true, Some(60_000), 5_000);
    match action {
        EnableAction::Extended(status) => {
            assert!(status.enabled);
            assert_eq!(status.expires_at, 65_000);
            assert!(status.expires_at >= first_expiry);
        }
        _ => panic!("expected an in-place extension"),
    }
    assert!(server.is_running());
    assert_eq!(server.lease_expires_at(), 65_000);
}

#[test]
fn stale_timer_never_stops_a_newer_generation() {
    let mut server = PhoneServer::new();
    server.on_all_interfaces_bound(1_000, 60_000, 8787);
    let armed_generation = server.current_generation();
    let armed_expiry = server.lease_expires_at();
    server.set_phone_upload_enabled(true, Some(60_000), 5_000);
    assert!(!server.auto_shutdown_fire(armed_generation, armed_expiry));
    assert!(server.is_running());
    let current = (server.current_generation(), server.lease_expires_at());
    assert!(server.auto_shutdown_fire(current.0, current.1));
    assert!(!server.is_running());
}

#[test]
fn status_stops_an_expired_lease() {
    let mut server = PhoneServer::new();
    server.on_all_interfaces_bound(1_000, 60_000, 8787);
    let status = server.status_at(61_000);
    assert!(!status.enabled);
    assert_eq!(status.expires_at, 0);
    assert!(!server.is_running());
    assert!(matches!(server.get_bind_mode(), ServerBindMode::NotRunning));
}

#[test]
fn disable_stops_and_asks_for_loopback_restart() {
    let mut server = PhoneServer::new();
    server.on_all_interfaces_bound(1_000, 60_000, 8787);
    let action = server.set_phone_upload_enabled(false, None, 2_000);
    assert!(matches!(action, EnableAction::RestartLoopback));
    assert!(!server.is_running());
    let action = server.set_phone_upload_enabled(true, Some(0), 2_000);
    assert!(matches!(action, EnableAction::RestartLoopback));
}

#[test]
fn stop_is_idempotent_and_clears_tokens() {
    let mut server = PhoneServer::new();
    server.on_all_interfaces_bound(1_000, 60_000, 8787);
    let token = server.phone_token_handler(1_000).unwrap();
    let stopped = server.stop_phone_server();
    assert!(!stopped.enabled);
    assert_eq!(stopped.expires_at, 0);
    let stopped_again = server.stop_phone_server();
    assert!(!stopped_again.enabled);
    server.on_all_interfaces_bound(2_000, 60_000, 8787);
    let refused = server.validate_token(LAN_CALLER, Some(token.token.as_str()), 2_000);
    assert_eq!(refused, Err(AuthError::InvalidToken));
}

#[test]
fn active_port_falls_back_to_default() {
    let mut server = PhoneServer::new();
    assert_eq!(server.get_active_port(), DEFAULT_SERVER_PORT);
    server.on_loopback_bound(8800);
    assert_eq!(server.get_active_port(), 8800);
    server.stop_phone_server();
    assert_eq!(server.get_active_port(), DEFAULT_SERVER_PORT);
    server.on_loopback_bound(1);
    server.set_active_port(8880);
    assert_eq!(server.get_active_port(), 8880);
}

#[test]
fn loopback_caller_bypasses_tokens_even_when_disabled() {
    let mut server = PhoneServer::new();
    server.on_loopback_bound(8787);
    assert_eq!(server.validate_token(LOOPBACK, None, 1_000), Ok(()));
    server.stop_phone_server();
    assert_eq!(server.validate_token(LOOPBACK, None, 1_000), Ok(()));
}

#[test]
fn lan_caller_needs_enabled_uploads_and_a_token() {
    let mut server = PhoneServer::new();
    server.on_loopback_bound(8787);
    assert_eq!(
        server.validate_token(LAN_CALLER, None, 1_000),
        Err(AuthError::UploadsOff)
    );
    server.stop_phone_server();
    server.on_all_interfaces_bound(1_000, 10_000_000, 8787);
    assert_eq!(
        server.validate_token(LAN_CALLER, None, 1_000),
        Err(AuthError::MissingToken)
    );
    assert_eq!(
        server.validate_token(LAN_CALLER, Some(""), 1_000),
        Err(AuthError::MissingToken)
    );
    assert_eq!(
        server.validate_token(LAN_CALLER, Some("not-a-token"), 1_000),
        Err(AuthError::InvalidToken)
    );
    let token = server.phone_token_handler(1_000).unwrap();
    assert_eq!(token.expires_at, 1_000 + PHONE_TOKEN_TTL_MS);
    assert_eq!(
        server.validate_token(LAN_CALLER, Some(token.token.as_str()), 2_000),
        Ok(())
    );
    assert_eq!(
        server.validate_token(LAN_CALLER, Some(token.token.as_str()), token.expires_at),
        Err(AuthError::InvalidToken)
    );
}

#[test]
fn token_issuance_refused_while_disabled() {
    let mut server = PhoneServer::new();
    assert!(matches!(server.phone_token_handler(1_000), Err(AuthError::UploadsOff)));
    server.on_loopback_bound(8787);
    assert!(matches!(server.phone_token_handler(1_000), Err(AuthError::UploadsOff)));
}

#[test]
fn status_can_be_read_off_the_host_clock() {
    let mut server = PhoneServer::new();
    let status = server.phone_upload_status();
    assert!(!status.enabled);
    assert_eq!(status.expires_at, 0);
    server.on_all_interfaces_bound(0, i64::MAX, 8787);
    let status = server.phone_upload_status();
    assert!(status.enabled);
    assert_eq!(status.expires_at, i64::MAX);
}

#[test]
fn auth_errors_carry_status_and_message() {
    assert_eq!(AuthError::UploadsOff.status_code(), 503);
    assert_eq!(AuthError::MissingToken.status_code(), 401);
    assert_eq!(AuthError::InvalidToken.status_code(), 401);
    assert_eq!(AuthError::UploadsOff.message(), "Phone uploads are off");
    assert_eq!(AuthError::MissingToken.message(), "Missing token");
    assert_eq!(AuthError::InvalidToken.message(), "Invalid or expired token");
}
