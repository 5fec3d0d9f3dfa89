//! Data types shared by the provisioning components: credentials, settings,
//! radio configuration, the error type and the handle returned at the end of
//! start-up.

use crate::signals::Mailbox;
use vstd::prelude::*;
use vstd::utf8::encode_utf8;

verus! {

/// Largest network identifier, in bytes, that a radio accepts.
pub const MAX_SSID_BYTES: usize = 32;

/// Largest secret, in bytes, that a radio accepts.
pub const MAX_PSK_BYTES: usize = 64;

/// Number of bytes a text occupies once encoded as UTF-8.
pub open spec fn byte_len(text: Seq<char>) -> nat {
    encode_utf8(text).len()
}

/// The number of bytes of a text.
pub fn byte_length(text: &str) -> (n: usize)
    ensures
        n == byte_len(text@),
{
    text.as_bytes().len()
}

/// Mathematical value of a credential set.
pub struct Credentials {
    pub network_id: Seq<char>,
    pub secret: Seq<char>,
}

impl Credentials {
    /// Both parts fit the radio's limits.
    pub open spec fn fits_radio(self) -> bool {
        byte_len(self.network_id) <= MAX_SSID_BYTES && byte_len(self.secret) <= MAX_PSK_BYTES
    }

    /// Both parts are present; an empty part counts as absent in the store.
    pub open spec fn storable(self) -> bool {
        self.network_id.len() > 0 && self.secret.len() > 0
    }
}

/// Credentials of the network to join.
#[derive(Debug)]
pub struct AutoSetupSettings {
    pub ssid: String,
    pub psk: String,
}

impl View for AutoSetupSettings {
    type V = Credentials;

    open spec fn view(&self) -> Credentials {
        Credentials { network_id: self.ssid@, secret: self.psk@ }
    }
}

impl Clone for AutoSetupSettings {
    fn clone(&self) -> (r: Self)
        ensures
            r@ == self@,
    {
        AutoSetupSettings { ssid: self.ssid.clone(), psk: self.psk.clone() }
    }
}

impl Default for AutoSetupSettings {
    fn default() -> (r: Self)
        ensures
            r@.network_id.len() == 0,
            r@.secret.len() == 0,
    {
        AutoSetupSettings { ssid: String::new(), psk: String::new() }
    }
}

/// Station part of a radio configuration.
#[derive(Debug)]
pub struct ClientConfig {
    pub ssid: String,
    pub password: String,
}

impl View for ClientConfig {
    type V = Credentials;

    open spec fn view(&self) -> Credentials {
        Credentials { network_id: self.ssid@, secret: self.password@ }
    }
}

impl Default for ClientConfig {
    fn default() -> (r: Self)
        ensures
            r@.network_id.len() == 0,
            r@.secret.len() == 0,
    {
        ClientConfig { ssid: String::new(), password: String::new() }
    }
}

impl Clone for ClientConfig {
    fn clone(&self) -> (r: Self)
        ensures
            r@ == self@,
    {
        ClientConfig { ssid: self.ssid.clone(), password: self.password.clone() }
    }
}

/// Access-point part of a radio configuration.
#[derive(Debug)]
pub struct AccessPointConfig {
    pub ssid: String,
}

impl Clone for AccessPointConfig {
    fn clone(&self) -> (r: Self)
        ensures
            r.ssid@ == self.ssid@,
    {
        AccessPointConfig { ssid: self.ssid.clone() }
    }
}

/// Mathematical value of a radio configuration.
pub enum RadioSetup {
    /// Station only, joining with the given credentials.
    Client(Credentials),
    /// Station with the given credentials, beside an access point of the given name.
    ApSta(Credentials, Seq<char>),
}

impl RadioSetup {
    /// The credentials that the station part joins with.
    pub open spec fn client(self) -> Credentials {
        match self {
            RadioSetup::Client(c) => c,
            RadioSetup::ApSta(c, _) => c,
        }
    }

    /// The same setup with the station part replaced.
    pub open spec fn with_client(self, c: Credentials) -> RadioSetup {
        match self {
            RadioSetup::Client(_) => RadioSetup::Client(c),
            RadioSetup::ApSta(_, ap) => RadioSetup::ApSta(c, ap),
        }
    }
}

/// Configuration applied to the radio.
#[derive(Debug)]
pub enum ModeConfig {
    /// Station only.
    Client(ClientConfig),
    /// Station and access point together.
    ApSta(ClientConfig, AccessPointConfig),
}

impl View for ModeConfig {
    type V = RadioSetup;

    open spec fn view(&self) -> RadioSetup {
        match self {
            ModeConfig::Client(c) => RadioSetup::Client(c@),
            ModeConfig::ApSta(c, ap) => RadioSetup::ApSta(c@, ap.ssid@),
        }
    }
}

impl Clone for ModeConfig {
    fn clone(&self) -> (r: Self)
        ensures
            r@ == self@,
    {
        match self {
            ModeConfig::Client(c) => ModeConfig::Client(c.clone()),
            ModeConfig::ApSta(c, ap) => ModeConfig::ApSta(c.clone(), ap.clone()),
        }
    }
}

impl ModeConfig {
    /// Replaces the station part and keeps the rest.
    pub fn set_client(&mut self, client: ClientConfig)
        ensures
            final(self)@ == old(self)@.with_client(client@),
    {
        match self {
            ModeConfig::Client(c) => {
                *c = client;
            },
            ModeConfig::ApSta(c, _) => {
                *c = client;
            },
        }
    }
}

impl AutoSetupSettings {
    /// The station-only radio configuration that joins with these credentials.
    ///
    /// Fails with `WmError::Other` exactly when a part exceeds the radio's limit.
    pub fn to_configuration(&self) -> (r: Result<ModeConfig, WmError>)
        ensures
            self@.fits_radio() ==> (r matches Ok(m) && m@ == RadioSetup::Client(self@)),
            !self@.fits_radio() ==> r matches Err(WmError::Other),
    {
        match self.to_client_conf() {
            Ok(c) => Ok(ModeConfig::Client(c)),
            Err(e) => Err(e),
        }
    }

    /// The station part of a radio configuration that joins with these credentials.
    ///
    /// Fails with `WmError::Other` exactly when the identifier is longer than
    /// 32 bytes or the secret longer than 64 bytes.
    pub fn to_client_conf(&self) -> (r: Result<ClientConfig, WmError>)
        ensures
            self@.fits_radio() ==> (r matches Ok(c) && c@ == self@),
            !self@.fits_radio() ==> r matches Err(WmError::Other),
    {
        if byte_length(self.ssid.as_str()) > MAX_SSID_BYTES || byte_length(self.psk.as_str()) > MAX_PSK_BYTES {
            return Err(WmError::Other);
        }
        Ok(ClientConfig { ssid: self.ssid.clone(), password: self.psk.clone() })
    }
}

/// Result of a connect attempt.
#[derive(Clone, Copy, Debug, PartialEq, Eq, Structural)]
pub enum ConnectionOutcome {
    /// The station joined the network.
    Connected,
    /// The attempt did not finish within the time allowed.
    TimedOut,
    /// The network refused the station.
    Rejected,
}

/// One network seen by a scan.
#[derive(Debug)]
pub struct ScanEntry {
    pub ssid: String,
    pub signal_strength: i8,
}

impl View for ScanEntry {
    type V = (Seq<char>, i8);

    open spec fn view(&self) -> (Seq<char>, i8) {
        (self.ssid@, self.signal_strength)
    }
}

impl Clone for ScanEntry {
    fn clone(&self) -> (r: Self)
        ensures
            r@ == self@,
    {
        ScanEntry { ssid: self.ssid.clone(), signal_strength: self.signal_strength }
    }
}

/// Failure reported by the radio driver.
#[derive(Clone, Copy, Debug, PartialEq, Eq, Structural)]
pub enum WifiError {
    /// The radio is not initialized.
    NotInitialized,
    /// The driver failed inside; its code is reported.
    InternalError(i32),
    /// The station lost the network or could not join it.
    Disconnected,
    /// The radio is in a mode that is not known.
    UnknownWifiMode,
    /// The operation or mode is not supported.
    Unsupported,
    /// An argument was refused.
    InvalidArguments,
}

/// Failure to bring the radio up.
#[derive(Clone, Copy, Debug, PartialEq, Eq, Structural)]
pub enum InitializationError {
    /// The radio driver failed while starting; its code is reported.
    General(i32),
    /// The radio reported a failure of its own.
    WifiError(WifiError),
    /// The clock runs too slowly for the radio.
    WrongClockConfig,
    /// Interrupts were disabled.
    InterruptsDisabled,
    /// The scheduler that the radio needs is not running.
    SchedulerNotInitialized,
    /// A converter that the radio needs is in use.
    Adc2IsUsed,
}

/// `tickv::ErrorCode`, carried through as it is.
#[verifier::external_type_specification]
#[verifier::external_body]
pub struct ExTickvErrorCode(tickv::ErrorCode);

/// `serde_json::Error`, carried through as it is.
#[verifier::external_type_specification]
#[verifier::external_body]
pub struct ExSerdeJsonError(serde_json::Error);

/// `embassy_executor::SpawnError`, carried through as it is.
#[verifier::external_type_specification]
#[verifier::external_body]
pub struct ExSpawnError(embassy_executor::SpawnError);

/// `esp_nvs::error::Error`, carried through as it is.
#[verifier::external_type_specification]
#[verifier::external_body]
pub struct ExNvsError(esp_nvs::error::Error);

/// Everything that can go wrong during start-up and provisioning.
#[derive(Debug)]
pub enum WmError {
    /// Start-up did not finish in time.
    WmTimeout,
    /// The radio could not be started.
    WifiControllerStartError,
    /// The flash beneath the store failed.
    FlashError(tickv::ErrorCode),
    /// The radio refused a configuration or an operation.
    WifiError(WifiError),
    /// The radio could not be brought up.
    WifiInitalizationError(InitializationError),
    /// A submission was no well-formed document.
    SerdeError(serde_json::Error),
    /// A task could not be spawned.
    TaskSpawnError,
    /// The credential store failed.
    NvsError,
    /// Any other failure.
    Other,
}

impl WmError {
    /// Whether the failure aborts start-up instead of being absorbed by a loop.
    pub open spec fn is_fatal(self) -> bool {
        match self {
            WmError::WifiControllerStartError => true,
            WmError::WifiError(_) => true,
            WmError::WifiInitalizationError(_) => true,
            WmError::TaskSpawnError => true,
            _ => false,
        }
    }

    /// Whether the failure aborts start-up instead of being absorbed by a loop.
    pub fn fatal(&self) -> (r: bool)
        ensures
            r == self.is_fatal(),
    {
        match self {
            WmError::WifiControllerStartError => true,
            WmError::WifiError(_) => true,
            WmError::WifiInitalizationError(_) => true,
            WmError::TaskSpawnError => true,
            _ => false,
        }
    }

    /// Short name of the failure.
    pub fn describe(&self) -> (r: &'static str)
        ensures
            r@ == Self::spec_describe(*self),
    {
        match self {
            WmError::WmTimeout => "timed out",
            WmError::WifiControllerStartError => "radio could not be started",
            WmError::FlashError(_) => "flash failure",
            WmError::WifiError(_) => "radio failure",
            WmError::WifiInitalizationError(_) => "radio could not be brought up",
            WmError::SerdeError(_) => "malformed submission",
            WmError::TaskSpawnError => "task could not be spawned",
            WmError::NvsError => "credential store failure",
            WmError::Other => "failure",
        }
    }

    /// What `describe` returns.
    pub open spec fn spec_describe(e: WmError) -> Seq<char> {
        match e {
            WmError::WmTimeout => "timed out"@,
            WmError::WifiControllerStartError => "radio could not be started"@,
            WmError::FlashError(_) => "flash failure"@,
            WmError::WifiError(_) => "radio failure"@,
            WmError::WifiInitalizationError(_) => "radio could not be brought up"@,
            WmError::SerdeError(_) => "malformed submission"@,
            WmError::TaskSpawnError => "task could not be spawned"@,
            WmError::NvsError => "credential store failure"@,
            WmError::Other => "failure"@,
        }
    }
}

impl From<InitializationError> for WmError {
    fn from(value: InitializationError) -> (r: Self) {
        WmError::WifiInitalizationError(value)
    }
}

impl vstd::std_specs::convert::FromSpecImpl<InitializationError> for WmError {
    open spec fn obeys_from_spec() -> bool {
        true
    }

    open spec fn from_spec(value: InitializationError) -> Self {
        WmError::WifiInitalizationError(value)
    }
}

impl From<WifiError> for WmError {
    fn from(value: WifiError) -> (r: Self) {
        WmError::WifiError(value)
    }
}

impl vstd::std_specs::convert::FromSpecImpl<WifiError> for WmError {
    open spec fn obeys_from_spec() -> bool {
        true
    }

    open spec fn from_spec(value: WifiError) -> Self {
        WmError::WifiError(value)
    }
}

impl From<embassy_executor::SpawnError> for WmError {
    fn from(_value: embassy_executor::SpawnError) -> (r: Self) {
        WmError::TaskSpawnError
    }
}

impl vstd::std_specs::convert::FromSpecImpl<embassy_executor::SpawnError> for WmError {
    open spec fn obeys_from_spec() -> bool {
        true
    }

    open spec fn from_spec(_value: embassy_executor::SpawnError) -> Self {
        WmError::TaskSpawnError
    }
}

impl From<tickv::ErrorCode> for WmError {
    fn from(value: tickv::ErrorCode) -> (r: Self) {
        WmError::FlashError(value)
    }
}

impl vstd::std_specs::convert::FromSpecImpl<tickv::ErrorCode> for WmError {
    open spec fn obeys_from_spec() -> bool {
        true
    }

    open spec fn from_spec(value: tickv::ErrorCode) -> Self {
        WmError::FlashError(value)
    }
}

impl From<serde_json::Error> for WmError {
    fn from(value: serde_json::Error) -> (r: Self) {
        WmError::SerdeError(value)
    }
}

impl vstd::std_specs::convert::FromSpecImpl<serde_json::Error> for WmError {
    open spec fn obeys_from_spec() -> bool {
        true
    }

    open spec fn from_spec(value: serde_json::Error) -> Self {
        WmError::SerdeError(value)
    }
}

impl From<esp_nvs::error::Error> for WmError {
    fn from(_value: esp_nvs::error::Error) -> (r: Self) {
        WmError::NvsError
    }
}

impl vstd::std_specs::convert::FromSpecImpl<esp_nvs::error::Error> for WmError {
    open spec fn obeys_from_spec() -> bool {
        true
    }

    open spec fn from_spec(_value: esp_nvs::error::Error) -> Self {
        WmError::NvsError
    }
}

impl From<()> for WmError {
    fn from(_value: ()) -> (r: Self) {
        WmError::Other
    }
}

impl vstd::std_specs::convert::FromSpecImpl<()> for WmError {
    open spec fn obeys_from_spec() -> bool {
        true
    }

    open spec fn from_spec(_value: ()) -> Self {
        WmError::Other
    }
}

impl From<core::convert::Infallible> for WmError {
    fn from(_value: core::convert::Infallible) -> (r: Self) {
        WmError::Other
    }
}

impl vstd::std_specs::convert::FromSpecImpl<core::convert::Infallible> for WmError {
    open spec fn obeys_from_spec() -> bool {
        true
    }

    open spec fn from_spec(_value: core::convert::Infallible) -> Self {
        WmError::Other
    }
}

/// Settings of a provisioning session, fixed at start-up.
#[derive(Debug)]
pub struct WmSettings {
    /// Prefix of the name under which the device offers itself while it is
    /// being provisioned.
    pub ssid: String,
    /// Page served to an operator who joins the device's own network.
    pub wifi_panel: &'static str,
    /// Longest time, in milliseconds, a connect may take.
    pub wifi_conn_timeout: u64,
    /// Pause, in milliseconds, before each reconnect.
    pub wifi_reconnect_time: u64,
    /// Time, in milliseconds, between two scans.
    pub wifi_scan_interval: u64,
    /// Time, in milliseconds, after which a session without success restarts
    /// the device.
    pub esp_reset_timeout: Option<u64>,
    /// Whether the device restarts once provisioning has succeeded.
    pub esp_restart_after_connection: bool,
}

impl Clone for WmSettings {
    fn clone(&self) -> (r: Self)
        ensures
            r.ssid@ == self.ssid@,
            r.wifi_panel@ == self.wifi_panel@,
            r.wifi_conn_timeout == self.wifi_conn_timeout,
            r.wifi_reconnect_time == self.wifi_reconnect_time,
            r.wifi_scan_interval == self.wifi_scan_interval,
            r.esp_reset_timeout == self.esp_reset_timeout,
            r.esp_restart_after_connection == self.esp_restart_after_connection,
    {
        WmSettings {
            ssid: self.ssid.clone(),
            wifi_panel: self.wifi_panel,
            wifi_conn_timeout: self.wifi_conn_timeout,
            wifi_reconnect_time: self.wifi_reconnect_time,
            wifi_scan_interval: self.wifi_scan_interval,
            esp_reset_timeout: self.esp_reset_timeout,
            esp_restart_after_connection: self.esp_restart_after_connection,
        }
    }
}

impl Default for WmSettings {
    fn default() -> (r: Self)
        ensures
            r.ssid@ == "ESP-"@,
            r.wifi_panel@ == ""@,
            r.wifi_reconnect_time == 1000,
            r.wifi_conn_timeout == 15000,
            r.wifi_scan_interval == 15000,
            r.esp_reset_timeout is None,
            !r.esp_restart_after_connection,
    {
        WmSettings {
            ssid: "ESP-".to_owned(),
            wifi_panel: "",
            wifi_reconnect_time: 1000,
            wifi_conn_timeout: 15000,
            wifi_scan_interval: 15000,
            esp_reset_timeout: None,
            esp_restart_after_connection: false,
        }
    }
}

/// What start-up hands back: the address, the credentials in use and the
/// control of the link's supervisor.
#[derive(Debug)]
pub struct WmReturn {
    pub ip_address: [u8; 4],
    pub ssid: String,
    pub password: String,
    pub stop_signal: Mailbox<bool>,
}

impl WmReturn {
    /// Asks the supervisor to leave the network and stop the radio.
    pub fn stop_radio(&mut self)
        ensures
            final(self).stop_signal@ == Some(true),
            final(self).ip_address == old(self).ip_address,
            final(self).ssid == old(self).ssid,
            final(self).password == old(self).password,
    {
        self.stop_signal.signal(true);
    }

    /// Asks the supervisor to start the radio again and rejoin the network.
    pub fn restart_radio(&mut self)
        ensures
            final(self).stop_signal@ == Some(false),
            final(self).ip_address == old(self).ip_address,
            final(self).ssid == old(self).ssid,
            final(self).password == old(self).password,
    {
        self.stop_signal.signal(false);
    }
}

} // verus!
