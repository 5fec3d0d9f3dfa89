//! The connection supervisor: what keeps the link up once the device is
//! provisioned, and how it is paused and resumed.
//!
//! Pause and resume travel as values through a mailbox, `true` for pause and
//! `false` for resume. The supervisor looks into the mailbox only while it
//! watches a standing link or sits paused; at any other time a value waits
//! there until it does.

use crate::signals::Mailbox;
use vstd::prelude::*;

verus! {

/// Where the supervisor stands.
#[derive(Clone, Copy, Debug, PartialEq, Eq, Structural)]
pub enum LinkState {
    /// The link stands; the supervisor waits for its loss or for a pause.
    Watching,
    /// The radio is stopped; the supervisor waits for a resume.
    Paused,
    /// The supervisor lets the reconnect delay pass.
    Backoff,
    /// A connect is under way.
    Connecting,
}

/// What happened.
#[derive(Clone, Copy, Debug, PartialEq, Eq, Structural)]
pub enum LinkEvent {
    /// The control mailbox may hold a value.
    Wake,
    /// The link was lost.
    Disconnected,
    /// The delay that was asked for has passed.
    DelayElapsed,
    /// The connect that was asked for is over; `true` where it succeeded.
    ConnectFinished(bool),
}

/// What the caller has to do next.
#[derive(Clone, Copy, Debug, PartialEq, Eq, Structural)]
pub enum LinkAction {
    /// Go on with what was asked for before.
    Continue,
    /// Wait for the loss of the link or for a value in the control mailbox.
    Watch,
    /// Leave the network, then stop the radio, then wait for a value in the
    /// control mailbox.
    StopRadio,
    /// Start the radio, then sleep.
    StartRadio { millis: u64 },
    /// Sleep.
    Sleep { millis: u64 },
    /// Ask the radio to connect.
    Connect,
}

impl LinkAction {
    /// Whether the action touches the radio.
    pub open spec fn touches_radio(self) -> bool {
        self is StopRadio || self is StartRadio || self is Connect
    }
}

/// A step of the supervisor: the state after it, what the caller has to do,
/// and whether the value in the control mailbox was taken.
pub struct LinkStep {
    pub state: LinkState,
    pub action: LinkAction,
    pub taken: bool,
}

/// The step that the supervisor makes in `state` on `event`, with `control`
/// in the mailbox and `delay` as the reconnect delay.
///
/// Watching: the loss of the link leads into the delay and from there to a
/// connect; a pause stops the radio; a resume changes nothing. Paused: a
/// resume starts the radio and leads into the delay; a pause changes nothing.
/// After the delay a connect follows; one that succeeds leads back to
/// watching, one that fails into the delay again, each time the same. What
/// does not concern a state is passed over.
pub open spec fn link_step(state: LinkState, event: LinkEvent, control: Option<bool>, delay: u64) -> LinkStep {
    match (state, event) {
        (LinkState::Watching, LinkEvent::Disconnected) => LinkStep {
            state: LinkState::Backoff,
            action: LinkAction::Sleep { millis: delay },
            taken: false,
        },
        (LinkState::Watching, LinkEvent::Wake) => match control {
            Some(true) => LinkStep { state: LinkState::Paused, action: LinkAction::StopRadio, taken: true },
            Some(false) => LinkStep { state: LinkState::Watching, action: LinkAction::Continue, taken: true },
            None => LinkStep { state: LinkState::Watching, action: LinkAction::Continue, taken: false },
        },
        (LinkState::Paused, LinkEvent::Wake) => match control {
            Some(false) => LinkStep {
                state: LinkState::Backoff,
                action: LinkAction::StartRadio { millis: delay },
                taken: true,
            },
            Some(true) => LinkStep { state: LinkState::Paused, action: LinkAction::Continue, taken: true },
            None => LinkStep { state: LinkState::Paused, action: LinkAction::Continue, taken: false },
        },
        (LinkState::Backoff, LinkEvent::DelayElapsed) => LinkStep {
            state: LinkState::Connecting,
            action: LinkAction::Connect,
            taken: false,
        },
        (LinkState::Connecting, LinkEvent::ConnectFinished(true)) => LinkStep {
            state: LinkState::Watching,
            action: LinkAction::Watch,
            taken: false,
        },
        (LinkState::Connecting, LinkEvent::ConnectFinished(false)) => LinkStep {
            state: LinkState::Backoff,
            action: LinkAction::Sleep { millis: delay },
            taken: false,
        },
        _ => LinkStep { state, action: LinkAction::Continue, taken: false },
    }
}

/// The supervisor of the link.
#[derive(Clone, Copy, Debug)]
pub struct Supervisor {
    /// Pause before each reconnect, in milliseconds.
    pub wifi_reconnect_time: u64,
    /// Where the supervisor stands.
    pub state: LinkState,
}

impl Supervisor {
    /// What the supervisor begins with: it watches a link that stands, and
    /// connects at once where none does.
    pub open spec fn first_action(connected: bool) -> LinkAction {
        if connected {
            LinkAction::Watch
        } else {
            LinkAction::Connect
        }
    }

    /// A supervisor, and what the caller has to do first.
    pub fn new(wifi_reconnect_time: u64, connected: bool) -> (r: (Self, LinkAction))
        ensures
            r.0.wifi_reconnect_time == wifi_reconnect_time,
            r.0.state == (if connected {
                LinkState::Watching
            } else {
                LinkState::Connecting
            }),
            r.1 == Self::first_action(connected),
    {
        if connected {
            (Supervisor { wifi_reconnect_time, state: LinkState::Watching }, LinkAction::Watch)
        } else {
            (Supervisor { wifi_reconnect_time, state: LinkState::Connecting }, LinkAction::Connect)
        }
    }

    /// One step of the supervisor; see `link_step`. The value in the control
    /// mailbox is taken out exactly where the step says so.
    pub fn connection(&mut self, event: LinkEvent, stop_signal: &mut Mailbox<bool>) -> (action: LinkAction)
        ensures
            final(self).wifi_reconnect_time == old(self).wifi_reconnect_time,
            final(self).state == link_step(
                old(self).state,
                event,
                old(stop_signal)@,
                old(self).wifi_reconnect_time,
            ).state,
            action == link_step(old(self).state, event, old(stop_signal)@, old(self).wifi_reconnect_time).action,
            final(stop_signal)@ == (if link_step(
                old(self).state,
                event,
                old(stop_signal)@,
                old(self).wifi_reconnect_time,
            ).taken {
                None
            } else {
                old(stop_signal)@
            }),
    {
        let delay = self.wifi_reconnect_time;
        match (self.state, event) {
            (LinkState::Watching, LinkEvent::Disconnected) => {
                self.state = LinkState::Backoff;
                LinkAction::Sleep { millis: delay }
            },
            (LinkState::Watching, LinkEvent::Wake) => {
                match stop_signal.try_take() {
                    Some(true) => {
                        self.state = LinkState::Paused;
                        LinkAction::StopRadio
                    },
                    _ => LinkAction::Continue,
                }
            },
            (LinkState::Paused, LinkEvent::Wake) => {
                match stop_signal.try_take() {
                    Some(false) => {
                        self.state = LinkState::Backoff;
                        LinkAction::StartRadio { millis: delay }
                    },
                    _ => LinkAction::Continue,
                }
            },
            (LinkState::Backoff, LinkEvent::DelayElapsed) => {
                self.state = LinkState::Connecting;
                LinkAction::Connect
            },
            (LinkState::Connecting, LinkEvent::ConnectFinished(true)) => {
                self.state = LinkState::Watching;
                LinkAction::Watch
            },
            (LinkState::Connecting, LinkEvent::ConnectFinished(false)) => {
                self.state = LinkState::Backoff;
                LinkAction::Sleep { millis: delay }
            },
            _ => LinkAction::Continue,
        }
    }
}

/// A pause given twice leaves the supervisor where one pause leaves it, and
/// the second asks nothing of the radio.
pub proof fn lemma_pause_is_idempotent(state: LinkState, delay: u64)
    requires
        state == LinkState::Watching || state == LinkState::Paused,
    ensures
        ({
            let once = link_step(state, LinkEvent::Wake, Some(true), delay);
            let twice = link_step(once.state, LinkEvent::Wake, Some(true), delay);
            &&& once.state == LinkState::Paused
            &&& twice.state == once.state
            &&& twice.action == LinkAction::Continue
        }),
{
}

/// A resume given to a supervisor that is not paused changes nothing and asks
/// nothing of the radio.
pub proof fn lemma_resume_while_running_is_noop(state: LinkState, delay: u64)
    requires
        state != LinkState::Paused,
    ensures
        ({
            let step = link_step(state, LinkEvent::Wake, Some(false), delay);
            &&& step.state == state
            &&& step.action == LinkAction::Continue
            &&& !step.action.touches_radio()
        }),
{
}

/// A pause reaches the radio only from a standing link, and then as a stop;
/// a resume reaches it only from the pause, and then as a start.
pub proof fn lemma_control_reaches_radio_in_order(state: LinkState, control: Option<bool>, delay: u64)
    ensures
        ({
            let step = link_step(state, LinkEvent::Wake, control, delay);
            &&& step.action is StopRadio <==> state == LinkState::Watching && control == Some(true)
            &&& step.action is StartRadio <==> state == LinkState::Paused && control == Some(false)
            &&& !(step.action is Connect)
        }),
{
}

/// Whatever happens, the pause before a reconnect is the configured delay,
/// never longer after a failure.
pub proof fn lemma_reconnect_delay_is_fixed(state: LinkState, event: LinkEvent, control: Option<bool>, delay: u64)
    ensures
        ({
            let step = link_step(state, event, control, delay);
            &&& step.action matches LinkAction::Sleep { millis } ==> millis == delay
            &&& step.action matches LinkAction::StartRadio { millis } ==> millis == delay
        }),
{
}

} // verus!
