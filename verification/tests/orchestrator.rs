use esp_wifi_manager::orchestrator::Orchestrator;
use esp_wifi_manager::orchestrator::StartupAction;
use esp_wifi_manager::orchestrator::StartupEvent;
use esp_wifi_manager::orchestrator::StartupStage;
use esp_wifi_manager::structs::ConnectionOutcome;
use esp_wifi_manager::structs::ModeConfig;
use esp_wifi_manager::structs::WifiError;
use esp_wifi_manager::AutoSetupSettings;
use esp_wifi_manager::NvsWifiHelper;
use esp_wifi_manager::WmError;
use esp_wifi_manager::WmSettings;

const MAC: [u8; 6] = [0x24, 0x6f, 0x28, 0xab, 0xcd, 0xef];

fn settings() -> WmSettings {
    let mut s = WmSettings::default();
    s.wifi_conn_timeout = 5000;
    s.wifi_reconnect_time = 700;
    s
}

fn store_with(ssid: &str, psk: &str) -> NvsWifiHelper {
    let mut nvs = NvsWifiHelper::new(4).unwrap();
    nvs.set_str("WIFI", "SSID", ssid).unwrap();
    nvs.set_str("WIFI", "PASSWORD", psk).unwrap();
    nvs
}

fn creds(ssid: &str, psk: &str) -> AutoSetupSettings {
    AutoSetupSettings { ssid: ssid.to_string(), psk: psk.to_string() }
}

fn is_session(a: &StartupAction, access_point: bool) -> bool {
    match a {
        StartupAction::StartProvisioning { identifier, configuration } => {
            identifier == "ESP-246F28ABCDEF"
                && match configuration {
                    ModeConfig::ApSta(c, ap) => {
                        access_point && c.ssid.is_empty() && c.password.is_empty() && ap.ssid == "ESP-246F28ABCDEF"
                    }
                    ModeConfig::Client(c) => !access_point && c.ssid.is_empty() && c.password.is_empty(),
                }
        }
        _ => false,
    }
}

#[test]
fn stored_credentials_skip_provisioning() {
    let mut nvs = store_with("HomeWifi", "secret123");
    let mut o = Orchestrator::new(settings(), true, MAC);
    assert!(matches!(o.stage, StartupStage::Boot));
    let a = o.init_wm(StartupEvent::RadioReady, &mut nvs);
    match a {
        StartupAction::ConnectStored { configuration: ModeConfig::Client(c), timeout } => {
            assert_eq!(c.ssid, "HomeWifi");
            assert_eq!(c.password, "secret123");
            assert_eq!(timeout, 5000);
        }
        other => panic!("unexpected {:?}", other),
    }
    let a = o.init_wm(StartupEvent::ConnectFinished(ConnectionOutcome::Connected), &mut nvs);
    match a {
        StartupAction::BringUpNetwork { configuration: ModeConfig::Client(c), reconnect } => {
            assert_eq!(c.ssid, "HomeWifi");
            assert_eq!(c.password, "secret123");
            assert_eq!(reconnect, 700);
        }
        other => panic!("unexpected {:?}", other),
    }
    let a = o.init_wm(StartupEvent::AddressAssigned([192, 168, 1, 7]), &mut nvs);
    match a {
        StartupAction::Done(mut handle) => {
            assert_eq!(handle.ip_address, [192, 168, 1, 7]);
            assert_eq!(handle.ssid, "HomeWifi");
            assert_eq!(handle.password, "secret123");
            assert_eq!(handle.stop_signal.try_take(), None);
        }
        other => panic!("unexpected {:?}", other),
    }
    assert!(matches!(o.stage, StartupStage::Ready));
    assert!(matches!(o.init_wm(StartupEvent::RadioReady, &mut nvs), StartupAction::Continue));
}

#[test]
fn empty_store_enters_provisioning() {
    let mut nvs = NvsWifiHelper::new(4).unwrap();
    let mut o = Orchestrator::new(settings(), true, MAC);
    let a = o.init_wm(StartupEvent::RadioReady, &mut nvs);
    assert!(is_session(&a, true));
    assert!(matches!(o.stage, StartupStage::Provisioning));
}

#[test]
fn station_only_provisioning() {
    let mut nvs = NvsWifiHelper::new(4).unwrap();
    let mut o = Orchestrator::new(settings(), false, MAC);
    let a = o.init_wm(StartupEvent::RadioReady, &mut nvs);
    assert!(is_session(&a, false));
}

#[test]
fn stored_credentials_that_do_not_connect_enter_provisioning() {
    for outcome in [ConnectionOutcome::TimedOut, ConnectionOutcome::Rejected] {
        let mut nvs = store_with("HomeWifi", "secret123");
        let mut o = Orchestrator::new(settings(), true, MAC);
        o.init_wm(StartupEvent::RadioReady, &mut nvs);
        let a = o.init_wm(StartupEvent::ConnectFinished(outcome), &mut nvs);
        assert!(is_session(&a, true));
        assert!(matches!(o.stage, StartupStage::Provisioning));
    }
}

#[test]
fn stored_credentials_that_do_not_fit_enter_provisioning() {
    let mut nvs = store_with(&"s".repeat(33), "b");
    let mut o = Orchestrator::new(settings(), true, MAC);
    assert!(is_session(&o.init_wm(StartupEvent::RadioReady, &mut nvs), true));
}

#[test]
fn half_stored_credentials_enter_provisioning() {
    let mut nvs = NvsWifiHelper::new(4).unwrap();
    nvs.set_str("WIFI", "SSID", "HomeWifi").unwrap();
    let mut o = Orchestrator::new(settings(), true, MAC);
    assert!(is_session(&o.init_wm(StartupEvent::RadioReady, &mut nvs), true));
}

#[test]
fn provisioned_credentials_bring_the_network_up() {
    let mut nvs = NvsWifiHelper::new(4).unwrap();
    let mut o = Orchestrator::new(settings(), true, MAC);
    o.init_wm(StartupEvent::RadioReady, &mut nvs);
    let a = o.init_wm(StartupEvent::Provisioned(creds("HomeWifi", "secret123")), &mut nvs);
    match a {
        StartupAction::BringUpNetwork { configuration: ModeConfig::Client(c), reconnect } => {
            assert_eq!(c.ssid, "HomeWifi");
            assert_eq!(c.password, "secret123");
            assert_eq!(reconnect, 700);
        }
        other => panic!("unexpected {:?}", other),
    }
    let a = o.init_wm(StartupEvent::AddressAssigned([10, 0, 0, 2]), &mut nvs);
    match a {
        StartupAction::Done(handle) => {
            assert_eq!(handle.ip_address, [10, 0, 0, 2]);
            assert_eq!(handle.ssid, "HomeWifi");
            assert_eq!(handle.password, "secret123");
        }
        other => panic!("unexpected {:?}", other),
    }
}

#[test]
fn restart_after_provisioning_when_asked() {
    let mut nvs = NvsWifiHelper::new(4).unwrap();
    let mut s = settings();
    s.esp_restart_after_connection = true;
    let mut o = Orchestrator::new(s, true, MAC);
    o.init_wm(StartupEvent::RadioReady, &mut nvs);
    let a = o.init_wm(StartupEvent::Provisioned(creds("a", "b")), &mut nvs);
    assert!(matches!(a, StartupAction::Restart { grace } if grace == 1000));
    assert!(matches!(o.stage, StartupStage::Restarting));
    assert!(matches!(o.init_wm(StartupEvent::AddressAssigned([1, 2, 3, 4]), &mut nvs), StartupAction::Continue));
}

#[test]
fn restart_flag_does_not_touch_the_stored_path() {
    let mut nvs = store_with("HomeWifi", "secret123");
    let mut s = settings();
    s.esp_restart_after_connection = true;
    let mut o = Orchestrator::new(s, true, MAC);
    o.init_wm(StartupEvent::RadioReady, &mut nvs);
    let a = o.init_wm(StartupEvent::ConnectFinished(ConnectionOutcome::Connected), &mut nvs);
    assert!(matches!(a, StartupAction::BringUpNetwork { .. }));
}

#[test]
fn provisioned_credentials_that_do_not_fit_abort() {
    let mut nvs = NvsWifiHelper::new(4).unwrap();
    let mut o = Orchestrator::new(settings(), true, MAC);
    o.init_wm(StartupEvent::RadioReady, &mut nvs);
    let a = o.init_wm(StartupEvent::Provisioned(creds("a", &"p".repeat(65))), &mut nvs);
    assert!(matches!(a, StartupAction::Abort(WmError::Other)));
    assert!(matches!(o.stage, StartupStage::Failed));
}

#[test]
fn reported_failure_aborts_at_any_stage() {
    let mut nvs = store_with("HomeWifi", "secret123");
    let mut o = Orchestrator::new(settings(), true, MAC);
    let a = o.init_wm(StartupEvent::Failed(WmError::WifiControllerStartError), &mut nvs);
    assert!(matches!(a, StartupAction::Abort(WmError::WifiControllerStartError)));
    assert!(matches!(o.stage, StartupStage::Failed));
    assert!(matches!(o.init_wm(StartupEvent::RadioReady, &mut nvs), StartupAction::Continue));

    let mut o = Orchestrator::new(settings(), true, MAC);
    o.init_wm(StartupEvent::RadioReady, &mut nvs);
    let a = o.init_wm(StartupEvent::Failed(WmError::WifiError(WifiError::InvalidArguments)), &mut nvs);
    assert!(matches!(a, StartupAction::Abort(WmError::WifiError(WifiError::InvalidArguments))));

    let mut o = Orchestrator::new(settings(), true, MAC);
    o.init_wm(StartupEvent::RadioReady, &mut nvs);
    o.init_wm(StartupEvent::ConnectFinished(ConnectionOutcome::Connected), &mut nvs);
    let a = o.init_wm(StartupEvent::Failed(WmError::TaskSpawnError), &mut nvs);
    assert!(matches!(a, StartupAction::Abort(WmError::TaskSpawnError)));
}

#[test]
fn events_out_of_turn_are_passed_over() {
    let mut nvs = store_with("HomeWifi", "secret123");
    let mut o = Orchestrator::new(settings(), true, MAC);
    assert!(matches!(
        o.init_wm(StartupEvent::ConnectFinished(ConnectionOutcome::Connected), &mut nvs),
        StartupAction::Continue
    ));
    assert!(matches!(o.init_wm(StartupEvent::Provisioned(creds("a", "b")), &mut nvs), StartupAction::Continue));
    assert!(matches!(o.init_wm(StartupEvent::AddressAssigned([1, 2, 3, 4]), &mut nvs), StartupAction::Continue));
    assert!(matches!(o.stage, StartupStage::Boot));
    o.init_wm(StartupEvent::RadioReady, &mut nvs);
    assert!(matches!(o.init_wm(StartupEvent::RadioReady, &mut nvs), StartupAction::Continue));
    assert!(matches!(o.init_wm(StartupEvent::Provisioned(creds("a", "b")), &mut nvs), StartupAction::Continue));
    assert!(matches!(&o.stage, StartupStage::ConnectingStored(c) if c.ssid == "HomeWifi"));
}

#[test]
fn step_follows_what_was_read() {
    let mut o = Orchestrator::new(settings(), true, MAC);
    let a = o.step(StartupEvent::RadioReady, Some(creds("x", "y")));
    assert!(matches!(a, StartupAction::ConnectStored { configuration: ModeConfig::Client(c), .. } if c.ssid == "x"));
    let mut o = Orchestrator::new(settings(), true, MAC);
    assert!(is_session(&o.step(StartupEvent::RadioReady, None), true));
}

#[test]
fn start_up_does_not_write_the_store() {
    let mut nvs = store_with("HomeWifi", "secret123");
    let mut o = Orchestrator::new(settings(), true, MAC);
    o.init_wm(StartupEvent::RadioReady, &mut nvs);
    o.init_wm(StartupEvent::ConnectFinished(ConnectionOutcome::TimedOut), &mut nvs);
    o.init_wm(StartupEvent::Provisioned(creds("New", "other")), &mut nvs);
    assert_eq!(nvs.get_str("WIFI", "SSID").unwrap(), "HomeWifi");
    assert_eq!(nvs.get_str("WIFI", "PASSWORD").unwrap(), "secret123");
}
