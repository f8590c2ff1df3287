use threaded_http::server::accept_step;
use threaded_http::server::AcceptAction;
use threaded_http::server::AcceptEvent;
use threaded_http::server::POLL_INTERVAL_MS;
use threaded_http::ServerConfig;
use threaded_http::ServerError;

#[test]
fn shutdown_flag_stops_the_accept_loop_whatever_the_poll_says() {
    for event in [
        AcceptEvent::Connection,
        AcceptEvent::WouldBlock,
        AcceptEvent::OtherError,
    ] {
        assert_eq!(accept_step(true, event), AcceptAction::Stop);
    }
}

#[test]
fn active_loop_submits_sleeps_or_logs() {
    assert_eq!(accept_step(false, AcceptEvent::Connection), AcceptAction::Submit);
    assert_eq!(accept_step(false, AcceptEvent::WouldBlock), AcceptAction::SleepRetry);
    assert_eq!(accept_step(false, AcceptEvent::OtherError), AcceptAction::LogAndContinue);
}

#[test]
fn poll_interval_bounds_shutdown_latency() {
    assert_eq!(POLL_INTERVAL_MS, 10);
}

#[test]
fn server_error_carries_its_message() {
    let err = ServerError::new("Empty request");
    assert_eq!(err.describe(), "Server error: Empty request");
}

#[test]
fn default_config_matches_the_documented_defaults() {
    let config = ServerConfig::default();
    assert_eq!(config.address, "127.0.0.1:7878");
    assert_eq!(config.pool_size, 4);
    assert!(!config.verbose);
}
