//! The provisioning orchestrator: start-up from the first look into the
//! credential store to the handle that is given back.
//!
//! Stored credentials are tried first. Only where there are none, or where
//! they do not connect, a provisioning session is entered; either way the
//! network is brought up afterwards and the link handed to its supervisor.

use crate::coordinator::GRACE_PERIOD_MS;
use crate::get_wifi_settings;
use crate::nvs::NvsWifiHelper;
use crate::signals::Mailbox;
use crate::stored_credentials;
use crate::structs::AccessPointConfig;
use crate::structs::AutoSetupSettings;
use crate::structs::ClientConfig;
use crate::structs::ConnectionOutcome;
use crate::structs::Credentials;
use crate::structs::ModeConfig;
use crate::structs::RadioSetup;
use crate::structs::WmError;
use crate::structs::WmReturn;
use crate::structs::WmSettings;
use crate::utils::fallback_identifier;
use crate::utils::fallback_identifier_of;
use vstd::prelude::*;

verus! {

/// Mathematical value of a stage of start-up.
pub enum Stage {
    /// Nothing was done yet.
    Boot,
    /// A connect with the stored credentials is under way.
    ConnectingStored(Credentials),
    /// A provisioning session runs.
    Provisioning,
    /// The network is coming up with the given credentials.
    AwaitingAddress(Credentials),
    /// The device restarts.
    Restarting,
    /// Start-up is over; the handle was given back.
    Ready,
    /// Start-up was given up.
    Failed,
}

/// Who may change the radio's configuration.
#[derive(Clone, Copy, Debug, PartialEq, Eq, Structural)]
pub enum RadioOwner {
    /// Start-up itself.
    Orchestrator,
    /// The provisioning session.
    Coordinator,
    /// The supervisor of the link.
    Supervisor,
    /// Nobody any more: the device restarts or start-up was given up.
    Nobody,
}

impl RadioOwner {
    /// Place of an owner in the order in which the radio is handed on.
    pub open spec fn rank(self) -> nat {
        match self {
            RadioOwner::Orchestrator => 0,
            RadioOwner::Coordinator => 1,
            RadioOwner::Supervisor => 2,
            RadioOwner::Nobody => 3,
        }
    }
}

impl Stage {
    /// The one owner of the radio at this stage.
    pub open spec fn radio_owner(self) -> RadioOwner {
        match self {
            Stage::Boot => RadioOwner::Orchestrator,
            Stage::ConnectingStored(_) => RadioOwner::Orchestrator,
            Stage::Provisioning => RadioOwner::Coordinator,
            Stage::AwaitingAddress(_) => RadioOwner::Supervisor,
            Stage::Ready => RadioOwner::Supervisor,
            Stage::Restarting => RadioOwner::Nobody,
            Stage::Failed => RadioOwner::Nobody,
        }
    }

    /// Whether start-up is over, one way or another.
    pub open spec fn is_final(self) -> bool {
        self is Restarting || self is Ready || self is Failed
    }

    /// Whether stored credentials connected, so that no session is needed.
    pub open spec fn past_provisioning(self) -> bool {
        self is AwaitingAddress || self.is_final()
    }
}

/// Mathematical value of an event of start-up.
pub enum Event {
    /// The radio is initialized.
    RadioReady,
    /// The connect that was asked for is over.
    ConnectFinished(ConnectionOutcome),
    /// The provisioning session ended with credentials that connected.
    Provisioned(Credentials),
    /// The network stack has an address.
    AddressAssigned([u8; 4]),
    /// The radio could not be initialized or configured, or a task could not
    /// be spawned.
    Failed(WmError),
}

/// Mathematical value of what the caller has to do next.
pub enum Demand {
    /// Nothing; the event did not concern this stage.
    Continue,
    /// A bounded connect with stored credentials.
    ConnectStored { setup: RadioSetup, timeout: u64 },
    /// A provisioning session under the given name.
    StartProvisioning { identifier: Seq<char>, setup: RadioSetup },
    /// A restart of the device after the grace period.
    Restart { grace: u64 },
    /// The network stack and the supervisor.
    BringUpNetwork { setup: RadioSetup, reconnect: u64 },
    /// The handle, with the address and the credentials in use.
    Done { ip_address: [u8; 4], credentials: Credentials },
    /// The end of start-up with a failure.
    Abort(WmError),
}

/// What is fixed when start-up begins.
pub struct Setup {
    /// The name under which the device offers itself.
    pub identifier: Seq<char>,
    /// Whether the device offers a network of its own during a session.
    pub access_point: bool,
    /// Longest time a connect may take, in milliseconds.
    pub wifi_conn_timeout: u64,
    /// Pause before each reconnect, in milliseconds.
    pub wifi_reconnect_time: u64,
    /// Whether the device restarts once a session has succeeded.
    pub esp_restart_after_connection: bool,
}

impl Setup {
    /// The radio configuration of a provisioning session: station and access
    /// point of the device's name, or station only, with no credentials yet.
    pub open spec fn provisioning_setup(self) -> RadioSetup {
        let nobody = Credentials { network_id: Seq::<char>::empty(), secret: Seq::<char>::empty() };
        if self.access_point {
            RadioSetup::ApSta(nobody, self.identifier)
        } else {
            RadioSetup::Client(nobody)
        }
    }

    /// The demand that enters a provisioning session.
    pub open spec fn enter_session(self) -> (Stage, Demand) {
        (
            Stage::Provisioning,
            Demand::StartProvisioning { identifier: self.identifier, setup: self.provisioning_setup() },
        )
    }
}

/// The credentials among those read from the store that start-up tries:
/// those that fit the radio's limits.
pub open spec fn usable(read: Option<Credentials>) -> Option<Credentials> {
    match read {
        Some(c) => if c.fits_radio() {
            Some(c)
        } else {
            None
        },
        None => None,
    }
}

/// Mathematical value of what the store gave.
pub open spec fn as_read(read: Option<AutoSetupSettings>) -> Option<Credentials> {
    match read {
        Some(c) => Some(c@),
        None => None,
    }
}

/// One step of start-up: the stage after it and what the caller has to do,
/// with `read` as what the store gave when it was asked.
///
/// At boot, once the radio is ready, credentials read from the store that fit
/// the radio are tried with a bounded connect; without them a provisioning
/// session is entered. A stored connect that succeeds goes straight on to the
/// network; one that does not enters a session. A session that ends with
/// credentials goes on to the network, or to a restart where the settings ask
/// for one. With the address the handle is given back. A failure that is
/// reported ends start-up at once, as long as it is not over. What does not
/// concern a stage is passed over.
pub open spec fn startup_step(setup: Setup, stage: Stage, event: Event, read: Option<Credentials>) -> (Stage, Demand) {
    if stage.is_final() {
        (stage, Demand::Continue)
    } else {
        match (stage, event) {
            (_, Event::Failed(e)) => (Stage::Failed, Demand::Abort(e)),
            (Stage::Boot, Event::RadioReady) => match usable(read) {
                Some(c) => (
                    Stage::ConnectingStored(c),
                    Demand::ConnectStored { setup: RadioSetup::Client(c), timeout: setup.wifi_conn_timeout },
                ),
                None => setup.enter_session(),
            },
            (Stage::ConnectingStored(c), Event::ConnectFinished(outcome)) => if outcome
                == ConnectionOutcome::Connected {
                (
                    Stage::AwaitingAddress(c),
                    Demand::BringUpNetwork { setup: RadioSetup::Client(c), reconnect: setup.wifi_reconnect_time },
                )
            } else {
                setup.enter_session()
            },
            (Stage::Provisioning, Event::Provisioned(c)) => if !c.fits_radio() {
                (Stage::Failed, Demand::Abort(WmError::Other))
            } else if setup.esp_restart_after_connection {
                (Stage::Restarting, Demand::Restart { grace: GRACE_PERIOD_MS })
            } else {
                (
                    Stage::AwaitingAddress(c),
                    Demand::BringUpNetwork { setup: RadioSetup::Client(c), reconnect: setup.wifi_reconnect_time },
                )
            },
            (Stage::AwaitingAddress(c), Event::AddressAssigned(ip_address)) => (
                Stage::Ready,
                Demand::Done { ip_address, credentials: c },
            ),
            _ => (stage, Demand::Continue),
        }
    }
}

/// The stage that start-up reaches from `stage` through `events`, with `read`
/// as what the store gives whenever it is asked.
pub open spec fn stage_after(setup: Setup, stage: Stage, events: Seq<Event>, read: Option<Credentials>) -> Stage
    decreases events.len(),
{
    if events.len() == 0 {
        stage
    } else {
        startup_step(setup, stage_after(setup, stage, events.drop_last(), read), events.last(), read).0
    }
}

/// Where start-up stands.
#[derive(Debug)]
pub enum StartupStage {
    /// Nothing was done yet.
    Boot,
    /// A connect with the stored credentials is under way.
    ConnectingStored(AutoSetupSettings),
    /// A provisioning session runs.
    Provisioning,
    /// The network is coming up with the given credentials.
    AwaitingAddress(AutoSetupSettings),
    /// The device restarts.
    Restarting,
    /// Start-up is over; the handle was given back.
    Ready,
    /// Start-up was given up.
    Failed,
}

impl View for StartupStage {
    type V = Stage;

    open spec fn view(&self) -> Stage {
        match self {
            StartupStage::Boot => Stage::Boot,
            StartupStage::ConnectingStored(c) => Stage::ConnectingStored(c@),
            StartupStage::Provisioning => Stage::Provisioning,
            StartupStage::AwaitingAddress(c) => Stage::AwaitingAddress(c@),
            StartupStage::Restarting => Stage::Restarting,
            StartupStage::Ready => Stage::Ready,
            StartupStage::Failed => Stage::Failed,
        }
    }
}

/// What happened.
#[derive(Debug)]
pub enum StartupEvent {
    /// The radio is initialized.
    RadioReady,
    /// The connect that was asked for is over.
    ConnectFinished(ConnectionOutcome),
    /// The provisioning session ended with credentials that connected.
    Provisioned(AutoSetupSettings),
    /// The network stack has an address.
    AddressAssigned([u8; 4]),
    /// The radio could not be initialized or configured, or a task could not
    /// be spawned.
    Failed(WmError),
}

impl View for StartupEvent {
    type V = Event;

    open spec fn view(&self) -> Event {
        match self {
            StartupEvent::RadioReady => Event::RadioReady,
            StartupEvent::ConnectFinished(outcome) => Event::ConnectFinished(*outcome),
            StartupEvent::Provisioned(c) => Event::Provisioned(c@),
            StartupEvent::AddressAssigned(ip_address) => Event::AddressAssigned(*ip_address),
            StartupEvent::Failed(e) => Event::Failed(*e),
        }
    }
}

/// What the caller has to do next.
#[derive(Debug)]
pub enum StartupAction {
    /// Nothing; the event did not concern this stage.
    Continue,
    /// Apply the configuration to the radio, start it, try to connect within
    /// the timeout and report the outcome.
    ConnectStored { configuration: ModeConfig, timeout: u64 },
    /// Apply the configuration to the radio, start it, make a fresh signal
    /// bus, spawn the listeners and a session on it, and report the
    /// credentials that the session ends with.
    StartProvisioning { identifier: String, configuration: ModeConfig },
    /// Wait for the grace period, then restart the device.
    Restart { grace: u64 },
    /// Apply the configuration to the radio, bring the network stack up on
    /// the station interface, spawn the supervisor with the given reconnect
    /// delay, and report the address once there is one.
    BringUpNetwork { configuration: ModeConfig, reconnect: u64 },
    /// Give the handle back. Its control mailbox is empty.
    Done(WmReturn),
    /// Give up with the failure.
    Abort(WmError),
}

impl View for StartupAction {
    type V = Demand;

    open spec fn view(&self) -> Demand {
        match self {
            StartupAction::Continue => Demand::Continue,
            StartupAction::ConnectStored { configuration, timeout } => Demand::ConnectStored {
                setup: configuration@,
                timeout: *timeout,
            },
            StartupAction::StartProvisioning { identifier, configuration } => Demand::StartProvisioning {
                identifier: identifier@,
                setup: configuration@,
            },
            StartupAction::Restart { grace } => Demand::Restart { grace: *grace },
            StartupAction::BringUpNetwork { configuration, reconnect } => Demand::BringUpNetwork {
                setup: configuration@,
                reconnect: *reconnect,
            },
            StartupAction::Done(handle) => Demand::Done {
                ip_address: handle.ip_address,
                credentials: Credentials { network_id: handle.ssid@, secret: handle.password@ },
            },
            StartupAction::Abort(e) => Demand::Abort(*e),
        }
    }
}

/// State of start-up.
#[derive(Debug)]
pub struct Orchestrator {
    /// The settings of this start-up.
    pub settings: WmSettings,
    /// Whether the device offers a network of its own while it is being
    /// provisioned.
    pub access_point: bool,
    /// The hardware identifier of the device.
    pub mac: [u8; 6],
    /// Where start-up stands.
    pub stage: StartupStage,
}

impl Orchestrator {
    /// What was fixed when start-up began.
    pub open spec fn setup(&self) -> Setup {
        Setup {
            identifier: fallback_identifier_of(self.settings.ssid@, self.mac@),
            access_point: self.access_point,
            wifi_conn_timeout: self.settings.wifi_conn_timeout,
            wifi_reconnect_time: self.settings.wifi_reconnect_time,
            esp_restart_after_connection: self.settings.esp_restart_after_connection,
        }
    }

    /// Whether two states agree in what was fixed at the beginning.
    pub open spec fn same_setup_as(&self, other: &Orchestrator) -> bool {
        &&& self.settings == other.settings
        &&& self.access_point == other.access_point
        &&& self.mac == other.mac
    }

    /// Start-up at its beginning.
    pub fn new(settings: WmSettings, access_point: bool, mac: [u8; 6]) -> (r: Self)
        ensures
            r.settings == settings,
            r.access_point == access_point,
            r.mac == mac,
            r.stage is Boot,
    {
        Orchestrator { settings, access_point, mac, stage: StartupStage::Boot }
    }

    /// The action that enters a provisioning session.
    fn start_provisioning(&mut self) -> (action: StartupAction)
        ensures
            final(self).same_setup_as(old(self)),
            (final(self).stage@, action@) == old(self).setup().enter_session(),
    {
        let identifier = fallback_identifier(self.settings.ssid.as_str(), self.mac);
        let configuration = if self.access_point {
            ModeConfig::ApSta(ClientConfig::default(), AccessPointConfig { ssid: identifier.clone() })
        } else {
            ModeConfig::Client(ClientConfig::default())
        };
        assert(configuration@.client().network_id =~= Seq::<char>::empty());
        assert(configuration@.client().secret =~= Seq::<char>::empty());
        self.stage = StartupStage::Provisioning;
        StartupAction::StartProvisioning { identifier, configuration }
    }

    /// One step of start-up, with `read` as what the store gave; see
    /// `startup_step`, which it follows exactly.
    pub fn step(&mut self, event: StartupEvent, read: Option<AutoSetupSettings>) -> (action: StartupAction)
        ensures
            final(self).same_setup_as(old(self)),
            (final(self).stage@, action@) == startup_step(old(self).setup(), old(self).stage@, event@, as_read(read)),
            action matches StartupAction::Done(handle) ==> handle.stop_signal@ is None,
    {
        match &self.stage {
            StartupStage::Restarting => {
                return StartupAction::Continue;
            },
            StartupStage::Ready => {
                return StartupAction::Continue;
            },
            StartupStage::Failed => {
                return StartupAction::Continue;
            },
            _ => {},
        }
        match event {
            StartupEvent::Failed(e) => {
                self.stage = StartupStage::Failed;
                StartupAction::Abort(e)
            },
            StartupEvent::RadioReady => {
                match &self.stage {
                    StartupStage::Boot => {},
                    _ => {
                        return StartupAction::Continue;
                    },
                }
                match read {
                    Some(wifi_setup) => match wifi_setup.to_configuration() {
                        Ok(configuration) => {
                            let timeout = self.settings.wifi_conn_timeout;
                            self.stage = StartupStage::ConnectingStored(wifi_setup);
                            StartupAction::ConnectStored { configuration, timeout }
                        },
                        Err(_) => self.start_provisioning(),
                    },
                    None => self.start_provisioning(),
                }
            },
            StartupEvent::ConnectFinished(outcome) => {
                let stored = match &self.stage {
                    StartupStage::ConnectingStored(c) => c.clone(),
                    _ => {
                        return StartupAction::Continue;
                    },
                };
                if outcome == ConnectionOutcome::Connected {
                    let configuration = ModeConfig::Client(
                        ClientConfig { ssid: stored.ssid.clone(), password: stored.psk.clone() },
                    );
                    let reconnect = self.settings.wifi_reconnect_time;
                    self.stage = StartupStage::AwaitingAddress(stored);
                    StartupAction::BringUpNetwork { configuration, reconnect }
                } else {
                    self.start_provisioning()
                }
            },
            StartupEvent::Provisioned(credentials) => {
                match &self.stage {
                    StartupStage::Provisioning => {},
                    _ => {
                        return StartupAction::Continue;
                    },
                }
                let configuration = match credentials.to_configuration() {
                    Ok(configuration) => configuration,
                    Err(e) => {
                        self.stage = StartupStage::Failed;
                        return StartupAction::Abort(e);
                    },
                };
                if self.settings.esp_restart_after_connection {
                    self.stage = StartupStage::Restarting;
                    return StartupAction::Restart { grace: GRACE_PERIOD_MS };
                }
                let reconnect = self.settings.wifi_reconnect_time;
                self.stage = StartupStage::AwaitingAddress(credentials);
                StartupAction::BringUpNetwork { configuration, reconnect }
            },
            StartupEvent::AddressAssigned(ip_address) => {
                let used = match &self.stage {
                    StartupStage::AwaitingAddress(c) => c.clone(),
                    _ => {
                        return StartupAction::Continue;
                    },
                };
                self.stage = StartupStage::Ready;
                StartupAction::Done(
                    WmReturn { ip_address, ssid: used.ssid, password: used.psk, stop_signal: Mailbox::new() },
                )
            },
        }
    }

    /// One step of start-up. The store is asked exactly when the radio
    /// becomes ready at boot.
    ///
    /// The step is the one that `startup_step` makes of the credentials that
    /// the store holds; at any other moment the store plays no part. No step
    /// changes an item of the store.
    pub fn init_wm(&mut self, event: StartupEvent, nvs: &mut NvsWifiHelper) -> (action: StartupAction)
        ensures
            final(self).same_setup_as(old(self)),
            final(nvs)@ == old(nvs)@,
            final(nvs).in_order() == old(nvs).in_order(),
            final(nvs).pages() == old(nvs).pages(),
            (final(self).stage@, action@) == startup_step(
                old(self).setup(),
                old(self).stage@,
                event@,
                stored_credentials(old(nvs)),
            ),
            action matches StartupAction::Done(handle) ==> handle.stop_signal@ is None,
    {
        let asks_store = match (&self.stage, &event) {
            (StartupStage::Boot, StartupEvent::RadioReady) => true,
            _ => false,
        };
        let read = if asks_store {
            get_wifi_settings(nvs)
        } else {
            None
        };
        self.step(event, read)
    }
}

/// Stored credentials that connect lead to the network and to the handle
/// without a provisioning session: the store is read, the connect is asked
/// for, the network is brought up and the handle carries the address and the
/// stored credentials.
pub proof fn lemma_stored_credentials_skip_provisioning(
    setup: Setup,
    credentials: Credentials,
    ip_address: [u8; 4],
)
    requires
        credentials.fits_radio(),
    ensures
        ({
            let read = Some(credentials);
            let first = startup_step(setup, Stage::Boot, Event::RadioReady, read);
            let second = startup_step(setup, first.0, Event::ConnectFinished(ConnectionOutcome::Connected), read);
            let third = startup_step(setup, second.0, Event::AddressAssigned(ip_address), read);
            &&& first.1 == (Demand::ConnectStored {
                setup: RadioSetup::Client(credentials),
                timeout: setup.wifi_conn_timeout,
            })
            &&& second.1 == (Demand::BringUpNetwork {
                setup: RadioSetup::Client(credentials),
                reconnect: setup.wifi_reconnect_time,
            })
            &&& third.1 == (Demand::Done { ip_address, credentials })
            &&& third.0 == Stage::Ready
        }),
{
}

/// A session is entered only at boot, or after stored credentials did not
/// connect.
pub proof fn lemma_session_entered_only_without_connection(
    setup: Setup,
    stage: Stage,
    event: Event,
    read: Option<Credentials>,
)
    requires
        startup_step(setup, stage, event, read).1 is StartProvisioning,
    ensures
        ({
            ||| stage is Boot && event is RadioReady && usable(read) is None
            ||| stage is ConnectingStored && event is ConnectFinished && event->ConnectFinished_0
                != ConnectionOutcome::Connected
        }),
{
}

/// Once stored credentials have connected, nothing that happens afterwards
/// leads into a provisioning session.
pub proof fn lemma_no_session_after_connection(
    setup: Setup,
    stage: Stage,
    events: Seq<Event>,
    read: Option<Credentials>,
)
    requires
        stage.past_provisioning(),
    ensures
        stage_after(setup, stage, events, read).past_provisioning(),
        forall|event: Event|
            !(#[trigger] startup_step(setup, stage_after(setup, stage, events, read), event, read).1
                is StartProvisioning),
    decreases events.len(),
{
    if events.len() > 0 {
        lemma_no_session_after_connection(setup, stage, events.drop_last(), read);
    }
}

/// The radio is handed on in one direction only: from start-up to the
/// session, from either to the supervisor, and never back. A step that hands
/// it to the session is one that demands the session, and a step that hands
/// it to the supervisor is one that demands the network.
pub proof fn lemma_radio_is_handed_on_in_order(setup: Setup, stage: Stage, event: Event, read: Option<Credentials>)
    ensures
        ({
            let next = startup_step(setup, stage, event, read);
            &&& stage.radio_owner().rank() <= next.0.radio_owner().rank()
            &&& next.0.radio_owner() != stage.radio_owner() && next.0.radio_owner() == RadioOwner::Coordinator
                ==> next.1 is StartProvisioning
            &&& next.0.radio_owner() != stage.radio_owner() && next.0.radio_owner() == RadioOwner::Supervisor
                ==> next.1 is BringUpNetwork
            &&& next.1 is StartProvisioning ==> next.0.radio_owner() == RadioOwner::Coordinator
            &&& next.1 is BringUpNetwork ==> next.0.radio_owner() == RadioOwner::Supervisor
        }),
{
}

} // verus!
