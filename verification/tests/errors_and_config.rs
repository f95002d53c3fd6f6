use sidecar_supervisor::config::{u16_to_decimal, AppConfig};
use sidecar_supervisor::error::StartupError;
use sidecar_supervisor::state::SidecarState;

#[test]
fn titles_are_fixed_per_variant() {
    assert_eq!(StartupError::PortInUse.title(), "Port Already in Use");
    assert_eq!(
        StartupError::SidecarSpawnFailed("uv not found".to_string()).title(),
        "Failed to Start Backend"
    );
    assert_eq!(StartupError::HealthCheckTimeout.title(), "Backend Not Responding");
    assert_eq!(StartupError::SidecarCrashed("signal 11".to_string()).title(), "Backend Crashed");
}

#[test]
fn port_in_use_message() {
    assert_eq!(
        StartupError::PortInUse.message(),
        "Port 8123 is already in use. Please close any other Reader3 instances or applications using this port."
    );
}

#[test]
fn spawn_failed_message_embeds_detail() {
    let e = StartupError::SidecarSpawnFailed("uv not found".to_string());
    assert_eq!(
        e.message(),
        "Could not start the backend server: uv not found. Try reinstalling the application or contact support."
    );
}

#[test]
fn health_check_timeout_message() {
    assert_eq!(
        StartupError::HealthCheckTimeout.message(),
        "The backend server started but did not become ready within 30 seconds. Check the logs for more information."
    );
}

#[test]
fn crashed_message_embeds_detail() {
    let e = StartupError::SidecarCrashed("exit status 1".to_string());
    assert_eq!(
        e.message(),
        "The backend server crashed unexpectedly: exit status 1. Try restarting the application."
    );
}

#[test]
fn describe_joins_title_and_message() {
    assert_eq!(
        StartupError::HealthCheckTimeout.describe(),
        "Backend Not Responding: The backend server started but did not become ready within 30 seconds. Check the logs for more information."
    );
}

#[test]
fn duplicate_is_equal() {
    let e = StartupError::SidecarSpawnFailed("detail".to_string());
    assert_eq!(e.duplicate(), e);
    assert_eq!(StartupError::PortInUse.duplicate(), StartupError::PortInUse);
}

#[test]
fn state_default_is_stopped() {
    assert!(matches!(SidecarState::default(), SidecarState::Stopped));
}

#[test]
fn state_describe_names_the_state() {
    assert_eq!(SidecarState::Stopped.describe(), "Stopped");
    assert_eq!(SidecarState::Starting.describe(), "Starting");
    assert_eq!(SidecarState::Healthy.describe(), "Healthy");
    assert_eq!(SidecarState::Restarting.describe(), "Restarting");
    assert_eq!(
        SidecarState::Failed(StartupError::PortInUse).describe(),
        "Failed: Port Already in Use"
    );
}

#[test]
fn config_derives_paths_from_data_dir() {
    let c = AppConfig::new("/home/user/Reader3".to_string());
    assert_eq!(c.app_data_dir, "/home/user/Reader3");
    assert_eq!(c.books_dir, "/home/user/Reader3/books");
    assert_eq!(c.ai_settings_path, "/home/user/Reader3/config/ai_settings.json");
    assert_eq!(c.log_dir, "/home/user/Reader3/logs");
    assert_eq!(c.sidecar_port, 8123);
    assert_eq!(c.health_check_interval_ms, 500);
    assert_eq!(c.health_check_timeout_s, 30);
}

#[test]
fn config_default_has_fixed_port_and_bounds() {
    let c = AppConfig::default();
    assert_eq!(c.app_data_dir, "");
    assert_eq!(c.sidecar_port, 8123);
    assert_eq!(c.health_check_interval_ms, 500);
    assert_eq!(c.health_check_timeout_s, 30);
}

#[test]
fn sidecar_url_formats_the_port() {
    let c = AppConfig::default();
    assert_eq!(c.sidecar_url(), "http://127.0.0.1:8123/");
    let mut other = AppConfig::default();
    other.sidecar_port = 80;
    assert_eq!(other.sidecar_url(), "http://127.0.0.1:80/");
}

#[test]
fn decimal_rendering() {
    assert_eq!(u16_to_decimal(0), "0");
    assert_eq!(u16_to_decimal(7), "7");
    assert_eq!(u16_to_decimal(10), "10");
    assert_eq!(u16_to_decimal(1000), "1000");
    assert_eq!(u16_to_decimal(8123), "8123");
    assert_eq!(u16_to_decimal(65535), "65535");
}
