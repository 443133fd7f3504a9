//! The provisioning cycle as the controller drives it: setup network, portal,
//! client attempt, and over again when an attempt fails.

use crate::wifi::{AccessPointInfo, Credentials};
use vstd::prelude::*;

verus! {

/// Why the provisioning ended without a connection.
#[derive(Clone, Copy, Debug, PartialEq, Eq, Structural)]
pub enum Error {
    /// The portal failed beyond another try.
    Server(crate::server::Error),
    /// The network interface failed beyond another try.
    WiFi(crate::wifi::Error),
}

/// Where the controller stands in a cycle.
#[derive(Clone, Copy, Debug, PartialEq, Eq, Structural)]
pub enum CyclePhase {
    /// Nothing has been asked for yet.
    Idle,
    /// The interface is being brought up for the setup.
    EnteringSetup,
    /// The portal is open.
    Serving,
    /// The interface is joining the submitted network.
    Attaching,
    /// The provisioning is over, with or without a connection.
    Over,
}

/// What the controller learns from the part it asked last.
#[derive(Debug, PartialEq, Eq)]
pub enum CycleEvent {
    /// The device wants to be provisioned.
    Begin,
    /// The setup network is up, and the scan before it found these networks.
    SetupUp(Vec<AccessPointInfo>),
    /// The interface did not come up for the setup.
    SetupFailed(crate::wifi::Error),
    /// The portal gave credentials.
    Served(Credentials),
    /// The portal gave none.
    ServeFailed(crate::server::Error),
    /// The interface has joined the network.
    Attached,
    /// The interface did not join the network.
    AttachFailed(crate::wifi::Error),
}

/// What the controller asks for next.
#[derive(Debug, PartialEq, Eq)]
pub enum CycleAction {
    /// Bring the interface up for the setup. A failure that comes along is
    /// the one that ended the cycle before: report it.
    EnterSetup(Option<Error>),
    /// Open the portal, starting from these networks.
    Serve(Vec<AccessPointInfo>),
    /// Join the network of these credentials.
    Attach(Credentials),
    /// Leave the provisioning.
    Exit(Result<(), Error>),
}

/// Whether a failure of the interface leaves room for another cycle: all do
/// but those of the driver's own setup.
pub open spec fn wifi_retryable(e: crate::wifi::Error) -> bool {
    !(e is Setup || e is Wrap)
}

/// Whether a failure of the portal leaves room for another cycle: a server
/// that did not come up or took no page, and a scan that may yet succeed.
pub open spec fn server_retryable(e: crate::server::Error) -> bool {
    match e {
        crate::server::Error::SetupEspServer(_) => true,
        crate::server::Error::HttpHandle(_) => true,
        crate::server::Error::Scan(inner) => wifi_retryable(inner),
        _ => false,
    }
}

/// Whether a failure leaves room for another cycle.
pub open spec fn retryable(e: Error) -> bool {
    match e {
        Error::Server(inner) => server_retryable(inner),
        Error::WiFi(inner) => wifi_retryable(inner),
    }
}

/// Whether `event` is an answer to what the controller asked for in `phase`.
pub open spec fn expects(phase: CyclePhase, event: CycleEvent) -> bool {
    match (phase, event) {
        (CyclePhase::Idle, CycleEvent::Begin) => true,
        (CyclePhase::EnteringSetup, CycleEvent::SetupUp(_)) => true,
        (CyclePhase::EnteringSetup, CycleEvent::SetupFailed(_)) => true,
        (CyclePhase::Serving, CycleEvent::Served(_)) => true,
        (CyclePhase::Serving, CycleEvent::ServeFailed(_)) => true,
        (CyclePhase::Attaching, CycleEvent::Attached) => true,
        (CyclePhase::Attaching, CycleEvent::AttachFailed(_)) => true,
        _ => false,
    }
}

/// Where a failure leads: back to the setup if there is room for another
/// cycle, out of the provisioning if not.
pub open spec fn after_failure(e: Error, next: CyclePhase, action: CycleAction) -> bool {
    if retryable(e) {
        next == CyclePhase::EnteringSetup && action == CycleAction::EnterSetup(Some(e))
    } else {
        next == CyclePhase::Over && action == CycleAction::Exit(Err(e))
    }
}

/// Whether the controller goes from `phase` to `next`, asking for `action`, when it learns `event`.
pub open spec fn cycle_follows(
    phase: CyclePhase,
    event: CycleEvent,
    next: CyclePhase,
    action: CycleAction,
) -> bool {
    match (phase, event) {
        (CyclePhase::Idle, CycleEvent::Begin) => next == CyclePhase::EnteringSetup && action
            == CycleAction::EnterSetup(None),
        (CyclePhase::EnteringSetup, CycleEvent::SetupUp(found)) => next == CyclePhase::Serving
            && action == CycleAction::Serve(found),
        (CyclePhase::EnteringSetup, CycleEvent::SetupFailed(e)) => after_failure(
            Error::WiFi(e),
            next,
            action,
        ),
        (CyclePhase::Serving, CycleEvent::Served(credentials)) => next == CyclePhase::Attaching
            && action == CycleAction::Attach(credentials),
        (CyclePhase::Serving, CycleEvent::ServeFailed(e)) => after_failure(
            Error::Server(e),
            next,
            action,
        ),
        (CyclePhase::Attaching, CycleEvent::Attached) => next == CyclePhase::Over && action
            == CycleAction::Exit(Ok(())),
        (CyclePhase::Attaching, CycleEvent::AttachFailed(e)) => after_failure(
            Error::WiFi(e),
            next,
            action,
        ),
        _ => false,
    }
}

/// Whether `event` is an answer to what the controller asked for in `phase`.
pub fn accepts(phase: CyclePhase, event: &CycleEvent) -> (ok: bool)
    ensures
        ok == expects(phase, *event),
{
    match (phase, event) {
        (CyclePhase::Idle, CycleEvent::Begin) => true,
        (CyclePhase::EnteringSetup, CycleEvent::SetupUp(_)) => true,
        (CyclePhase::EnteringSetup, CycleEvent::SetupFailed(_)) => true,
        (CyclePhase::Serving, CycleEvent::Served(_)) => true,
        (CyclePhase::Serving, CycleEvent::ServeFailed(_)) => true,
        (CyclePhase::Attaching, CycleEvent::Attached) => true,
        (CyclePhase::Attaching, CycleEvent::AttachFailed(_)) => true,
        _ => false,
    }
}

/// Whether a failure of the interface leaves room for another cycle.
pub fn wifi_may_retry(e: crate::wifi::Error) -> (ok: bool)
    ensures
        ok == wifi_retryable(e),
{
    match e {
        crate::wifi::Error::Setup(_) => false,
        crate::wifi::Error::Wrap(_) => false,
        _ => true,
    }
}

/// Whether a failure leaves room for another cycle.
pub fn may_retry(e: Error) -> (ok: bool)
    ensures
        ok == retryable(e),
{
    match e {
        Error::WiFi(inner) => wifi_may_retry(inner),
        Error::Server(crate::server::Error::SetupEspServer(_)) => true,
        Error::Server(crate::server::Error::HttpHandle(_)) => true,
        Error::Server(crate::server::Error::Scan(inner)) => wifi_may_retry(inner),
        Error::Server(_) => false,
    }
}

/// The step after a failure.
fn fail(e: Error) -> (next: (CyclePhase, CycleAction))
    ensures
        after_failure(e, next.0, next.1),
{
    if may_retry(e) {
        (CyclePhase::EnteringSetup, CycleAction::EnterSetup(Some(e)))
    } else {
        (CyclePhase::Over, CycleAction::Exit(Err(e)))
    }
}

/// One step of the controller: it has the interface brought up for the
/// setup, opens the portal with what the scan found, and has the interface
/// join the network that the portal's credentials name. Once it has joined,
/// the provisioning is over. A failure on the way starts the cycle over from
/// the setup, with new credentials to be submitted, unless it leaves no room
/// for another try.
pub fn run(phase: CyclePhase, event: CycleEvent) -> (next: (CyclePhase, CycleAction))
    requires
        expects(phase, event),
    ensures
        cycle_follows(phase, event, next.0, next.1),
{
    match event {
        CycleEvent::Begin => (CyclePhase::EnteringSetup, CycleAction::EnterSetup(None)),
        CycleEvent::SetupUp(found) => (CyclePhase::Serving, CycleAction::Serve(found)),
        CycleEvent::SetupFailed(e) => fail(Error::WiFi(e)),
        CycleEvent::Served(credentials) => (CyclePhase::Attaching, CycleAction::Attach(credentials)),
        CycleEvent::ServeFailed(e) => fail(Error::Server(e)),
        CycleEvent::Attached => (CyclePhase::Over, CycleAction::Exit(Ok(()))),
        CycleEvent::AttachFailed(e) => fail(Error::WiFi(e)),
    }
}

/// The provisioning ends well only when the interface has joined the
/// network, and ends badly only on a failure that leaves no room for another
/// cycle: every other failure leads back to the setup.
pub proof fn lemma_cycle_ends(
    phase: CyclePhase,
    event: CycleEvent,
    next: CyclePhase,
    action: CycleAction,
)
    requires
        cycle_follows(phase, event, next, action),
    ensures
        action == CycleAction::Exit(Ok(())) ==> phase == CyclePhase::Attaching && event
            == CycleEvent::Attached,
        action matches CycleAction::Exit(Err(e)) ==> !retryable(e),
        action matches CycleAction::EnterSetup(Some(e)) ==> retryable(e),
        (next == CyclePhase::Over) == (action is Exit),
{
}

impl Error {
    /// What the failure says of itself.
    pub open spec fn message_text(self) -> Seq<char> {
        match self {
            Error::Server(_) => "Server error"@,
            Error::WiFi(_) => "Wi-Fi error"@,
        }
    }

    /// What the failure says of itself.
    pub fn message(&self) -> (message: &'static str)
        ensures
            message@ == self.message_text(),
    {
        match self {
            Error::Server(_) => "Server error",
            Error::WiFi(_) => "Wi-Fi error",
        }
    }

    /// The failure's message and those of its causes.
    pub open spec fn chain_text(self) -> Seq<Seq<char>> {
        match self {
            Error::Server(e) => seq![self.message_text()] + e.chain_text(),
            Error::WiFi(e) => seq![self.message_text(), e.message_text()],
        }
    }

    /// The failure's message and those of its causes, for one line.
    pub fn chain(&self) -> (messages: Vec<String>)
        ensures
            messages.deep_view() == self.chain_text(),
    {
        match self {
            Error::Server(e) => crate::error::caused(self.message(), e.chain()),
            Error::WiFi(e) => {
                let messages = crate::error::caused(self.message(), e.chain());
                messages
            },
        }
    }

    /// The code that the platform gave for the failure, if it came from the platform.
    pub open spec fn platform_code(self) -> Option<i32> {
        match self {
            Error::Server(e) => e.platform_code(),
            Error::WiFi(e) => e.platform_code(),
        }
    }

    /// The code that the platform gave for the failure, if it came from the platform.
    pub fn code(&self) -> (code: Option<i32>)
        ensures
            code == self.platform_code(),
    {
        match self {
            Error::Server(e) => e.code(),
            Error::WiFi(e) => e.code(),
        }
    }
}

} // verus!
