use esp_wifi_manager::structs::byte_length;
use esp_wifi_manager::structs::AccessPointConfig;
use esp_wifi_manager::structs::ClientConfig;
use esp_wifi_manager::structs::InitializationError;
use esp_wifi_manager::structs::ModeConfig;
use esp_wifi_manager::structs::ScanEntry;
use esp_wifi_manager::structs::WifiError;
use esp_wifi_manager::AutoSetupSettings;
use esp_wifi_manager::WmError;
use esp_wifi_manager::WmSettings;

#[test]
fn default_settings() {
    let s = WmSettings::default();
    assert_eq!(s.ssid, "ESP-");
    assert_eq!(s.wifi_panel, "");
    assert_eq!(s.wifi_reconnect_time, 1000);
    assert_eq!(s.wifi_conn_timeout, 15000);
    assert_eq!(s.wifi_scan_interval, 15000);
    assert_eq!(s.esp_reset_timeout, None);
    assert!(!s.esp_restart_after_connection);
}

#[test]
fn settings_clone() {
    let mut s = WmSettings::default();
    s.ssid = "DEV-".to_string();
    s.wifi_panel = "<html>";
    s.esp_reset_timeout = Some(300000);
    s.esp_restart_after_connection = true;
    let c = s.clone();
    assert_eq!(c.ssid, "DEV-");
    assert_eq!(c.wifi_panel, "<html>");
    assert_eq!(c.esp_reset_timeout, Some(300000));
    assert!(c.esp_restart_after_connection);
    assert_eq!(c.wifi_conn_timeout, 15000);
}

#[test]
fn default_credentials_are_empty() {
    let c = AutoSetupSettings::default();
    assert_eq!(c.ssid, "");
    assert_eq!(c.psk, "");
    let c = ClientConfig::default();
    assert_eq!(c.ssid, "");
    assert_eq!(c.password, "");
}

#[test]
fn byte_lengths() {
    assert_eq!(byte_length(""), 0);
    assert_eq!(byte_length("abc"), 3);
    assert_eq!(byte_length("\u{e9}"), 2);
    assert_eq!(byte_length("\u{20ac}\u{1f600}"), 7);
}

#[test]
fn client_config_from_credentials() {
    let c = AutoSetupSettings { ssid: "HomeWifi".to_string(), psk: "secret123".to_string() };
    let conf = c.to_client_conf().unwrap();
    assert_eq!(conf.ssid, "HomeWifi");
    assert_eq!(conf.password, "secret123");
    match c.to_configuration().unwrap() {
        ModeConfig::Client(conf) => {
            assert_eq!(conf.ssid, "HomeWifi");
            assert_eq!(conf.password, "secret123");
        }
        other => panic!("unexpected {:?}", other),
    }
}

#[test]
fn client_config_limits() {
    let fits = AutoSetupSettings { ssid: "s".repeat(32), psk: "p".repeat(64) };
    assert!(fits.to_client_conf().is_ok());
    assert!(fits.to_configuration().is_ok());
    let long_ssid = AutoSetupSettings { ssid: "s".repeat(33), psk: String::new() };
    assert!(matches!(long_ssid.to_client_conf(), Err(WmError::Other)));
    assert!(matches!(long_ssid.to_configuration(), Err(WmError::Other)));
    let long_psk = AutoSetupSettings { ssid: String::new(), psk: "p".repeat(65) };
    assert!(matches!(long_psk.to_client_conf(), Err(WmError::Other)));
    let wide = AutoSetupSettings { ssid: "\u{20ac}".repeat(11), psk: String::new() };
    assert!(matches!(wide.to_client_conf(), Err(WmError::Other)));
    let wide_fits = AutoSetupSettings { ssid: "\u{20ac}".repeat(10), psk: String::new() };
    assert!(wide_fits.to_client_conf().is_ok());
}

#[test]
fn set_client_keeps_the_access_point() {
    let mut m = ModeConfig::ApSta(ClientConfig::default(), AccessPointConfig { ssid: "ESP-1".to_string() });
    m.set_client(ClientConfig { ssid: "a".to_string(), password: "b".to_string() });
    match &m {
        ModeConfig::ApSta(c, ap) => {
            assert_eq!(c.ssid, "a");
            assert_eq!(c.password, "b");
            assert_eq!(ap.ssid, "ESP-1");
        }
        other => panic!("unexpected {:?}", other),
    }
    let copy = m.clone();
    assert!(matches!(copy, ModeConfig::ApSta(c, ap) if c.ssid == "a" && ap.ssid == "ESP-1"));
    let mut m = ModeConfig::Client(ClientConfig::default());
    m.set_client(ClientConfig { ssid: "x".to_string(), password: "y".to_string() });
    assert!(matches!(m, ModeConfig::Client(c) if c.ssid == "x" && c.password == "y"));
}

#[test]
fn scan_entry_clone() {
    let e = ScanEntry { ssid: "HomeWifi".to_string(), signal_strength: -45 };
    let c = e.clone();
    assert_eq!(c.ssid, "HomeWifi");
    assert_eq!(c.signal_strength, -45);
}

#[test]
fn errors_lift() {
    assert!(matches!(WmError::from(WifiError::Unsupported), WmError::WifiError(WifiError::Unsupported)));
    assert!(matches!(
        WmError::from(InitializationError::WrongClockConfig),
        WmError::WifiInitalizationError(InitializationError::WrongClockConfig)
    ));
    assert!(matches!(WmError::from(embassy_executor::SpawnError::Busy), WmError::TaskSpawnError));
    assert!(matches!(
        WmError::from(tickv::ErrorCode::FlashFull),
        WmError::FlashError(tickv::ErrorCode::FlashFull)
    ));
    let bad = serde_json::from_slice::<u8>(b"x").unwrap_err();
    assert!(matches!(WmError::from(bad), WmError::SerdeError(_)));
    assert!(matches!(WmError::from(esp_nvs::error::Error::KeyNotFound), WmError::NvsError));
    assert!(matches!(WmError::from(()), WmError::Other));
}

#[test]
fn errors_describe_themselves() {
    assert_eq!(WmError::WmTimeout.describe(), "timed out");
    assert_eq!(WmError::WifiControllerStartError.describe(), "radio could not be started");
    assert_eq!(WmError::FlashError(tickv::ErrorCode::ReadFail).describe(), "flash failure");
    assert_eq!(WmError::WifiError(WifiError::Disconnected).describe(), "radio failure");
    assert_eq!(
        WmError::WifiInitalizationError(InitializationError::General(-1)).describe(),
        "radio could not be brought up"
    );
    assert_eq!(WmError::TaskSpawnError.describe(), "task could not be spawned");
    assert_eq!(WmError::NvsError.describe(), "credential store failure");
    assert_eq!(WmError::Other.describe(), "failure");
    let bad = serde_json::from_slice::<u8>(b"x").unwrap_err();
    assert_eq!(WmError::SerdeError(bad).describe(), "malformed submission");
}

#[test]
fn fatal_failures() {
    assert!(WmError::WifiControllerStartError.fatal());
    assert!(WmError::WifiError(WifiError::InvalidArguments).fatal());
    assert!(WmError::WifiInitalizationError(InitializationError::InterruptsDisabled).fatal());
    assert!(WmError::TaskSpawnError.fatal());
    assert!(!WmError::WmTimeout.fatal());
    assert!(!WmError::FlashError(tickv::ErrorCode::WriteFail).fatal());
    assert!(!WmError::NvsError.fatal());
    assert!(!WmError::Other.fatal());
    let bad = serde_json::from_slice::<u8>(b"x").unwrap_err();
    assert!(!WmError::SerdeError(bad).fatal());
}
