//! The provisioning coordinator: what one provisioning session decides, tick
//! by tick, until it holds credentials that connected.
//!
//! The coordinator never waits. Each call takes what has happened, changes its
//! own state, the signal bus and the credential store accordingly, and returns
//! what has to be done next; the caller does it and calls again.

use crate::nvs::NvsWifiHelper;
use crate::signals::WmInnerSignals;
use crate::structs::AutoSetupSettings;
use crate::structs::ConnectionOutcome;
use crate::structs::Credentials;
use crate::structs::ModeConfig;
use crate::structs::RadioSetup;
use crate::structs::ScanEntry;
use crate::structs::WmError;
use crate::structs::WmSettings;
use crate::submission::decode_submission;
use crate::submission::decoded;
use crate::KEY_PASSWORD;
use crate::KEY_SSID;
use crate::NAMESPACE_WIFI;
use vstd::prelude::*;

verus! {

/// Time between two ticks that find nothing to do, in milliseconds.
pub const POLL_INTERVAL_MS: u64 = 100;

/// Time left to the listeners to wind down before the session ends, in
/// milliseconds.
pub const GRACE_PERIOD_MS: u64 = 1000;

/// Time passed between `since` and `now`; none where the clock went back.
pub open spec fn elapsed(now: u64, since: u64) -> u64 {
    if now >= since {
        (now - since) as u64
    } else {
        0
    }
}

/// Time passed between `since` and `now`; none where the clock went back.
pub fn elapsed_ms(now: u64, since: u64) -> (r: u64)
    ensures
        r == elapsed(now, since),
{
    if now >= since {
        now - since
    } else {
        0
    }
}

/// Whether a scan is due: none was made yet, or the last one is at least the
/// scan interval old.
pub open spec fn scan_due(last_scan: Option<u64>, now: u64, interval: u64) -> bool {
    match last_scan {
        Some(t) => elapsed(now, t) >= interval,
        None => true,
    }
}

/// Whether the reset deadline has passed: one is set, and the session is at
/// least that old.
pub open spec fn reset_due(deadline: Option<u64>, now: u64, start: u64) -> bool {
    match deadline {
        Some(t) => elapsed(now, start) >= t,
        None => false,
    }
}

/// What a tick turns to.
#[derive(Clone, Copy, Debug, PartialEq, Eq, Structural)]
pub enum TickChoice {
    /// The pending submission.
    Submission,
    /// A scan.
    Scan,
    /// A restart of the device.
    Restart,
    /// Nothing.
    Idle,
}

/// The order of a tick: a pending submission that decodes first, else a scan
/// that is due, else a reset deadline that has passed.
pub open spec fn tick_choice(pending: bool, scan: bool, reset: bool) -> TickChoice {
    if pending {
        TickChoice::Submission
    } else if scan {
        TickChoice::Scan
    } else if reset {
        TickChoice::Restart
    } else {
        TickChoice::Idle
    }
}

/// The radio configuration after a submission was taken: with the
/// credentials it decodes to as its station part, and as before where it
/// does not decode.
pub open spec fn radio_after(setup: RadioSetup, payload: Seq<u8>) -> RadioSetup {
    match decoded(payload) {
        Some(c) => setup.with_client(c),
        None => setup,
    }
}

/// Where a session stands.
#[derive(Debug)]
pub enum WorkerPhase {
    /// Waiting for a submission, scanning from time to time.
    Polling,
    /// A connect with the given credentials is under way.
    Connecting(AutoSetupSettings),
    /// The given credentials connected; the session is over.
    Finished(AutoSetupSettings),
    /// The reset deadline passed; the device restarts.
    Restarting,
}

impl WorkerPhase {
    /// How often a session in this phase has signalled its end: once when it
    /// is over, never before.
    pub open spec fn ends_signalled(&self) -> nat {
        if self is Finished {
            1
        } else {
            0
        }
    }

    /// How often a session has signalled its end between an earlier phase and
    /// this one.
    pub open spec fn signalled_since(&self, before: &WorkerPhase) -> int {
        self.ends_signalled() - before.ends_signalled()
    }

    /// The credentials under test or accepted.
    pub open spec fn candidate(&self) -> Option<Credentials> {
        match self {
            WorkerPhase::Connecting(c) => Some(c@),
            WorkerPhase::Finished(c) => Some(c@),
            _ => None,
        }
    }
}

/// What the caller has to do next.
#[derive(Debug)]
pub enum WorkerAction {
    /// Sleep, then tick again.
    Sleep { millis: u64 },
    /// Apply the configuration to the radio, try to connect within the
    /// timeout and report the outcome.
    Connect { configuration: ModeConfig, timeout: u64 },
    /// Scan and report what was found.
    Scan,
    /// Restart the device.
    Restart,
    /// Wait for the grace period, then hand the credentials to whoever
    /// started the session. `persisted` tells whether the store holds both.
    Finish { credentials: AutoSetupSettings, persisted: bool, grace: u64 },
}

/// State of one provisioning session.
#[derive(Debug)]
pub struct ConnectionWorker {
    /// Longest time a connect may take, in milliseconds.
    pub wifi_conn_timeout: u64,
    /// Time between two scans, in milliseconds.
    pub wifi_scan_interval: u64,
    /// Age of the session at which the device restarts, in milliseconds.
    pub esp_reset_timeout: Option<u64>,
    /// When the session began.
    pub start_time: u64,
    /// When the last scan ended.
    pub last_scan: Option<u64>,
    /// The configuration that the radio was given last.
    pub configuration: ModeConfig,
    /// Where the session stands.
    pub phase: WorkerPhase,
    /// Whether the store holds the credentials that connected.
    pub persisted: bool,
}

impl ConnectionWorker {
    /// Whether two states agree in their settings and in the start of the
    /// session.
    pub open spec fn same_settings_as(&self, other: &ConnectionWorker) -> bool {
        &&& self.wifi_conn_timeout == other.wifi_conn_timeout
        &&& self.wifi_scan_interval == other.wifi_scan_interval
        &&& self.esp_reset_timeout == other.esp_reset_timeout
        &&& self.start_time == other.start_time
    }

    /// Whether two states agree in their settings and times.
    pub open spec fn same_clock_as(&self, other: &ConnectionWorker) -> bool {
        &&& self.same_settings_as(other)
        &&& self.last_scan == other.last_scan
    }

    /// What a tick at `now` turns to, where `pending` tells whether a
    /// submission that decodes waits in the mailbox.
    pub open spec fn choice(&self, pending: bool, now: u64) -> TickChoice {
        tick_choice(
            pending,
            scan_due(self.last_scan, now, self.wifi_scan_interval),
            reset_due(self.esp_reset_timeout, now, self.start_time),
        )
    }

    /// A session that begins at `now` with the radio configured as given.
    pub fn new(settings: &WmSettings, configuration: ModeConfig, now: u64) -> (r: Self)
        ensures
            r.wifi_conn_timeout == settings.wifi_conn_timeout,
            r.wifi_scan_interval == settings.wifi_scan_interval,
            r.esp_reset_timeout == settings.esp_reset_timeout,
            r.start_time == now,
            r.last_scan is None,
            r.configuration == configuration,
            r.phase is Polling,
            !r.persisted,
    {
        ConnectionWorker {
            wifi_conn_timeout: settings.wifi_conn_timeout,
            wifi_scan_interval: settings.wifi_scan_interval,
            esp_reset_timeout: settings.esp_reset_timeout,
            start_time: now,
            last_scan: None,
            configuration,
            phase: WorkerPhase::Polling,
            persisted: false,
        }
    }

    /// One tick of the session at time `now`.
    ///
    /// While the session polls, the tick turns to exactly one thing, in this
    /// order. A pending submission is taken out of its mailbox and decoded:
    /// one that decodes is put into the radio configuration and a connect is
    /// asked for; one that does not is dropped, and the tick goes on as if
    /// none had waited. Else a scan that is due is asked for. Else, where the
    /// reset deadline has passed, a restart is asked for. Else the caller is
    /// sent to sleep. The deadline is looked at once more when the scan
    /// ends, so that every tick after the deadline that starts no connect
    /// ends in a restart.
    ///
    /// In every other phase the tick changes nothing: while a connect is under
    /// way it sends the caller to sleep, and at the end of the session it
    /// repeats the last word.
    pub fn wifi_connection_worker(&mut self, signals: &mut WmInnerSignals, now: u64) -> (action: WorkerAction)
        ensures
            final(self).same_settings_as(old(self)),
            final(signals).wifi_scan_res == old(signals).wifi_scan_res,
            final(signals).wifi_conn_res_sig == old(signals).wifi_conn_res_sig,
            final(signals).end_signal_pubsub == old(signals).end_signal_pubsub,
            final(self).phase.ends_signalled() == old(self).phase.ends_signalled(),
            final(self).last_scan == old(self).last_scan,
            old(self).phase is Polling ==> final(signals).wifi_conn_info_sig@ is None,
            !(old(self).phase is Polling) ==> final(signals).wifi_conn_info_sig == old(signals).wifi_conn_info_sig
                && *final(self) == *old(self),
            old(self).phase is Polling && old(signals).wifi_conn_info_sig@ is Some ==> final(self).configuration@
                == radio_after(old(self).configuration@, old(signals).wifi_conn_info_sig@->0@),
            old(self).phase is Connecting ==> action == (WorkerAction::Sleep { millis: POLL_INTERVAL_MS }),
            old(self).phase is Restarting ==> action == WorkerAction::Restart,
            old(self).phase is Finished ==> (action matches WorkerAction::Finish { credentials, persisted, grace }
                && Some(credentials@) == old(self).phase.candidate() && persisted == old(self).persisted && grace
                == GRACE_PERIOD_MS),
            old(self).phase is Polling ==> match old(self).choice(submission_waits(old(signals)), now) {
                TickChoice::Submission => {
                    &&& final(self).phase is Connecting
                    &&& final(self).phase.candidate() == decoded(old(signals).wifi_conn_info_sig@->0@)
                    &&& final(self).configuration@ == old(self).configuration@.with_client(
                        decoded(old(signals).wifi_conn_info_sig@->0@)->0,
                    )
                    &&& final(self).persisted == old(self).persisted
                    &&& action matches WorkerAction::Connect { configuration, timeout }
                    &&& configuration@ == final(self).configuration@
                    &&& timeout == old(self).wifi_conn_timeout
                },
                TickChoice::Scan => *final(self) == *old(self) && action == WorkerAction::Scan,
                TickChoice::Restart => {
                    &&& final(self).phase is Restarting
                    &&& final(self).configuration == old(self).configuration
                    &&& final(self).persisted == old(self).persisted
                    &&& action == WorkerAction::Restart
                },
                TickChoice::Idle => {
                    &&& *final(self) == *old(self)
                    &&& action == (WorkerAction::Sleep { millis: POLL_INTERVAL_MS })
                },
            },
    {
        match &self.phase {
            WorkerPhase::Polling => {},
            WorkerPhase::Connecting(_) => {
                return WorkerAction::Sleep { millis: POLL_INTERVAL_MS };
            },
            WorkerPhase::Restarting => {
                return WorkerAction::Restart;
            },
            WorkerPhase::Finished(c) => {
                return WorkerAction::Finish {
                    credentials: c.clone(),
                    persisted: self.persisted,
                    grace: GRACE_PERIOD_MS,
                };
            },
        }
        let submitted = match signals.wifi_conn_info_sig.try_take() {
            Some(payload) => match decode_submission(payload.as_slice()) {
                Ok(setup_info) => match setup_info.to_client_conf() {
                    Ok(client) => Some((setup_info, client)),
                    Err(_) => None,
                },
                Err(_) => None,
            },
            None => None,
        };
        match submitted {
            Some((setup_info, client)) => {
                self.configuration.set_client(client);
                let configuration = self.configuration.clone();
                self.phase = WorkerPhase::Connecting(setup_info);
                WorkerAction::Connect { configuration, timeout: self.wifi_conn_timeout }
            },
            None => {
                let scan = match self.last_scan {
                    Some(t) => elapsed_ms(now, t) >= self.wifi_scan_interval,
                    None => true,
                };
                if scan {
                    return WorkerAction::Scan;
                }
                self.restart_or_sleep(now)
            },
        }
    }

    /// Looks at the reset deadline at `now`: where it has passed, the session
    /// turns to the restart; else the caller is sent to sleep.
    fn restart_or_sleep(&mut self, now: u64) -> (action: WorkerAction)
        ensures
            reset_due(old(self).esp_reset_timeout, now, old(self).start_time) ==> {
                &&& *final(self) == (ConnectionWorker { phase: WorkerPhase::Restarting, ..*old(self) })
                &&& action == WorkerAction::Restart
            },
            !reset_due(old(self).esp_reset_timeout, now, old(self).start_time) ==> {
                &&& *final(self) == *old(self)
                &&& action == (WorkerAction::Sleep { millis: POLL_INTERVAL_MS })
            },
    {
        let reset = match self.esp_reset_timeout {
            Some(t) => elapsed_ms(now, self.start_time) >= t,
            None => false,
        };
        if reset {
            self.phase = WorkerPhase::Restarting;
            return WorkerAction::Restart;
        }
        WorkerAction::Sleep { millis: POLL_INTERVAL_MS }
    }

    /// Takes the outcome of the connect that the last tick asked for.
    ///
    /// The outcome is put on the result mailbox. With `Connected` the
    /// credentials are written to the store, identifier and secret each under
    /// its own key, the end of the session is signalled once, and the session
    /// is over. With another outcome the session polls again. Where no connect
    /// was under way nothing changes and the caller is sent to sleep.
    pub fn connect_finished(
        &mut self,
        outcome: ConnectionOutcome,
        signals: &mut WmInnerSignals,
        nvs: &mut NvsWifiHelper,
    ) -> (action: WorkerAction)
        ensures
            final(self).same_clock_as(old(self)),
            final(self).configuration == old(self).configuration,
            final(signals).end_signal().published_since(&old(signals).end_signal()) == final(self).phase.signalled_since(&old(self).phase),
            final(signals).wifi_scan_res == old(signals).wifi_scan_res,
            final(nvs).pages() == old(nvs).pages(),
            final(signals).wifi_conn_info_sig == old(signals).wifi_conn_info_sig,
            !(old(self).phase is Connecting) ==> {
                &&& *final(self) == *old(self)
                &&& *final(signals) == *old(signals)
                &&& *final(nvs) == *old(nvs)
                &&& action == (WorkerAction::Sleep { millis: POLL_INTERVAL_MS })
            },
            old(self).phase is Connecting ==> final(signals).wifi_conn_res_sig@ == Some(outcome),
            old(self).phase is Connecting && outcome != ConnectionOutcome::Connected ==> {
                &&& final(self).phase is Polling
                &&& final(self).persisted == old(self).persisted
                &&& final(signals).end_signal_pubsub == old(signals).end_signal_pubsub
                &&& *final(nvs) == *old(nvs)
                &&& action == (WorkerAction::Sleep { millis: POLL_INTERVAL_MS })
            },
            old(self).phase is Connecting && outcome == ConnectionOutcome::Connected ==> {
                &&& final(self).phase is Finished
                &&& final(self).phase.candidate() == old(self).phase.candidate()
                &&& final(signals).end_signal().published() == old(signals).end_signal().published() + 1
                &&& final(signals).end_signal().published_to(old(signals).end_signal().places())
                &&& action matches WorkerAction::Finish { credentials, persisted, grace }
                &&& Some(credentials@) == old(self).phase.candidate()
                &&& grace == GRACE_PERIOD_MS
                &&& final(self).persisted == persisted
                &&& persisted ==> {
                    &&& final(nvs).stored(NAMESPACE_WIFI@, KEY_SSID@) == Some(credentials@.network_id)
                    &&& final(nvs).stored(NAMESPACE_WIFI@, KEY_PASSWORD@) == Some(credentials@.secret)
                }
                &&& persisted && old(nvs).in_order() ==> {
                    &&& final(nvs).in_order()
                    &&& final(nvs)@ == old(nvs)@.insert((NAMESPACE_WIFI@, KEY_SSID@), credentials@.network_id).insert(
                        (NAMESPACE_WIFI@, KEY_PASSWORD@),
                        credentials@.secret,
                    )
                }
            },
    {
        let setup_info = match &self.phase {
            WorkerPhase::Connecting(c) => c.clone(),
            _ => {
                return WorkerAction::Sleep { millis: POLL_INTERVAL_MS };
            },
        };
        signals.wifi_conn_res_sig.signal(outcome);
        if outcome != ConnectionOutcome::Connected {
            self.phase = WorkerPhase::Polling;
            return WorkerAction::Sleep { millis: POLL_INTERVAL_MS };
        }
        let persisted = persist_credentials(nvs, &setup_info);
        signals.signal_end();
        self.persisted = persisted;
        self.phase = WorkerPhase::Finished(setup_info.clone());
        WorkerAction::Finish { credentials: setup_info, persisted, grace: GRACE_PERIOD_MS }
    }

    /// Takes the result of the scan that the last tick asked for, ended at
    /// `now`.
    ///
    /// While the session polls, a scan that succeeded replaces the scan
    /// mailbox's content as a whole, one that failed leaves it, and either way
    /// the next scan is due one interval after `now`. Then the reset deadline
    /// is looked at: where it has passed at `now`, a restart is asked for;
    /// else the caller is sent to sleep. In every other phase nothing changes
    /// and the caller is sent to sleep.
    pub fn scan_finished(
        &mut self,
        found: Option<Vec<ScanEntry>>,
        now: u64,
        signals: &mut WmInnerSignals,
    ) -> (action: WorkerAction)
        ensures
            final(self).same_settings_as(old(self)),
            final(self).configuration == old(self).configuration,
            final(self).phase.ends_signalled() == old(self).phase.ends_signalled(),
            final(self).persisted == old(self).persisted,
            final(signals).wifi_conn_info_sig == old(signals).wifi_conn_info_sig,
            final(signals).wifi_conn_res_sig == old(signals).wifi_conn_res_sig,
            final(signals).end_signal_pubsub == old(signals).end_signal_pubsub,
            old(self).phase is Polling ==> final(self).last_scan == Some(now),
            old(self).phase is Polling ==> match found {
                Some(entries) => final(signals).wifi_scan_res@ == Some(entries),
                None => final(signals).wifi_scan_res == old(signals).wifi_scan_res,
            },
            old(self).phase is Polling ==> if reset_due(old(self).esp_reset_timeout, now, old(self).start_time) {
                final(self).phase is Restarting && action == WorkerAction::Restart
            } else {
                final(self).phase is Polling && action == (WorkerAction::Sleep { millis: POLL_INTERVAL_MS })
            },
            !(old(self).phase is Polling) ==> *final(self) == *old(self) && *final(signals) == *old(signals) && action
                == (WorkerAction::Sleep { millis: POLL_INTERVAL_MS }),
    {
        match &self.phase {
            WorkerPhase::Polling => {},
            _ => {
                return WorkerAction::Sleep { millis: POLL_INTERVAL_MS };
            },
        }
        match found {
            Some(entries) => {
                signals.wifi_scan_res.signal(entries);
            },
            None => {},
        }
        self.last_scan = Some(now);
        self.restart_or_sleep(now)
    }
}

/// Whether a submission that decodes waits in the mailbox.
pub open spec fn submission_waits(signals: &WmInnerSignals) -> bool {
    signals.wifi_conn_info_sig@ matches Some(payload) && decoded(payload@) is Some
}

/// Writes credentials to the store, the identifier and the secret each under
/// its own key, and tells whether the store then holds both.
///
/// The secret is written whether or not the identifier was taken. After the
/// two writes the identifier is read once more: `persisted` means that both
/// items are read as they were written. On a store in order every other item
/// is then as before.
pub fn persist_credentials(nvs: &mut NvsWifiHelper, credentials: &AutoSetupSettings) -> (persisted: bool)
    ensures
        final(nvs).pages() == old(nvs).pages(),
        persisted ==> old(nvs).takes(NAMESPACE_WIFI@, KEY_SSID@, credentials@.network_id),
        persisted ==> {
            &&& final(nvs).stored(NAMESPACE_WIFI@, KEY_SSID@) == Some(credentials@.network_id)
            &&& final(nvs).stored(NAMESPACE_WIFI@, KEY_PASSWORD@) == Some(credentials@.secret)
        },
        persisted && old(nvs).in_order() ==> {
            &&& final(nvs).in_order()
            &&& final(nvs)@ == old(nvs)@.insert((NAMESPACE_WIFI@, KEY_SSID@), credentials@.network_id).insert(
                (NAMESPACE_WIFI@, KEY_PASSWORD@),
                credentials@.secret,
            )
        },
{
    let first = nvs.set_str(NAMESPACE_WIFI, KEY_SSID, credentials.ssid.as_str());
    persist_secret(first, nvs, credentials)
}

/// The second step of writing credentials to the store, given what the
/// writing of the identifier came to: writes the secret, reads the
/// identifier once more, and tells whether the store then holds both.
///
/// It does exactly where the identifier was written, the store takes the
/// secret, and both are then read as they were written.
pub fn persist_secret(
    first: Result<(), WmError>,
    nvs: &mut NvsWifiHelper,
    credentials: &AutoSetupSettings,
) -> (persisted: bool)
    ensures
        final(nvs).pages() == old(nvs).pages(),
        final(nvs).sequence_bound() <= old(nvs).sequence_bound() + crate::nvs::WRITE_STARTS,
        persisted <==> {
            &&& first is Ok
            &&& old(nvs).takes(NAMESPACE_WIFI@, KEY_PASSWORD@, credentials@.secret)
            &&& final(nvs).stored(NAMESPACE_WIFI@, KEY_PASSWORD@) == Some(credentials@.secret)
            &&& final(nvs).stored(NAMESPACE_WIFI@, KEY_SSID@) == Some(credentials@.network_id)
        },
        old(nvs).in_order() && old(nvs).takes(NAMESPACE_WIFI@, KEY_PASSWORD@, credentials@.secret)
            && final(nvs).stored(NAMESPACE_WIFI@, KEY_PASSWORD@) == Some(credentials@.secret) ==> {
            &&& final(nvs).in_order()
            &&& final(nvs)@ == old(nvs)@.insert((NAMESPACE_WIFI@, KEY_PASSWORD@), credentials@.secret)
        },
{
    proof {
        crate::lemma_store_keys();
    }
    let second = nvs.set_str(NAMESPACE_WIFI, KEY_PASSWORD, credentials.psk.as_str());
    let kept = nvs.get_str(NAMESPACE_WIFI, KEY_SSID);
    both_taken(&first, &second, &kept, credentials.ssid.as_str())
}

/// Whether the store holds the credentials, given what the two writes came
/// to and what reading the identifier gave after them: it does where both
/// writes succeeded and the identifier was read as written.
pub fn both_taken(
    identifier: &Result<(), WmError>,
    secret: &Result<(), WmError>,
    kept: &Result<String, WmError>,
    network_id: &str,
) -> (persisted: bool)
    ensures
        persisted == (identifier is Ok && secret is Ok && (kept matches Ok(v) && v@ == network_id@)),
{
    match kept {
        Ok(v) => identifier.is_ok() && secret.is_ok() && *v == network_id.to_owned(),
        Err(_) => false,
    }
}

/// While a session polls and no submission waits, a scan that is due is what
/// the tick turns to; so whenever such a tick turns to something else, the
/// last scan is younger than the scan interval.
pub proof fn lemma_scan_is_never_overdue(worker: ConnectionWorker, now: u64)
    ensures
        scan_due(worker.last_scan, now, worker.wifi_scan_interval) ==> worker.choice(false, now) == TickChoice::Scan,
        worker.choice(false, now) != TickChoice::Scan ==> worker.last_scan is Some && elapsed(
            now,
            worker.last_scan->0,
        ) < worker.wifi_scan_interval,
{
}

/// With a reset deadline that has passed, a tick that finds no submission
/// that decodes turns to the restart, or to a scan; and the end of that
/// scan, which is no earlier, finds the deadline passed and turns to the
/// restart. So no such tick ends in sleep.
pub proof fn lemma_restart_at_deadline(worker: ConnectionWorker, deadline: u64, now: u64, scanned: u64)
    requires
        worker.esp_reset_timeout == Some(deadline),
        elapsed(now, worker.start_time) >= deadline,
        now <= scanned,
    ensures
        worker.choice(false, now) == TickChoice::Restart || worker.choice(false, now) == TickChoice::Scan,
        !scan_due(worker.last_scan, now, worker.wifi_scan_interval) ==> worker.choice(false, now)
            == TickChoice::Restart,
        reset_due(worker.esp_reset_timeout, scanned, worker.start_time),
{
}

/// A submission that does not decode leaves the radio configuration as it
/// was, so that the submission after it has the effect it would have had
/// without the first.
pub proof fn lemma_undecodable_submission_is_forgotten(setup: RadioSetup, bad: Seq<u8>, next: Seq<u8>)
    requires
        decoded(bad) is None,
    ensures
        radio_after(setup, bad) == setup,
        radio_after(radio_after(setup, bad), next) == radio_after(setup, next),
{
}

/// A submission that decodes takes a tick before a scan and a restart,
/// whatever is due.
pub proof fn lemma_submission_comes_first(scan: bool, reset: bool)
    ensures
        tick_choice(true, scan, reset) == TickChoice::Submission,
{
}

} // verus!
