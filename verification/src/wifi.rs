//! The credentials of a network, and the bring-up of the network interface.

use vstd::prelude::*;
use vstd::string::StringSliceAdditionalSpecFns;

verus! {

/// The most bytes that a network name may take.
pub const NAME_LIMIT: usize = 32;

/// The most bytes that a network secret may take.
pub const SECRET_LIMIT: usize = 64;

/// The number of bytes that a text takes in UTF-8.
pub open spec fn byte_len(text: Seq<char>) -> nat {
    vstd::utf8::encode_utf8(text).len()
}

/// Why the network interface did not come up. A number is the code that the
/// platform gave for the failure.
#[derive(Clone, Copy, Debug, PartialEq, Eq, Structural)]
pub enum Error {
    /// The radio driver could not be set up.
    Setup(i32),
    /// The driver could not be taken into blocking use.
    Wrap(i32),
    /// The scan for networks failed.
    Scan(i32),
    /// The interface refused to start.
    Start(i32),
    /// The interface refused to connect.
    Connect(i32),
    /// The interface refused a configuration.
    Configuration(i32),
    /// The interface did not report itself started in time.
    WaitStart,
    /// The link did not come up with an address in time.
    WaitConnect,
}

/// One network that a scan found.
#[derive(Clone, Debug, PartialEq, Eq)]
pub struct AccessPointInfo {
    /// The name that the network announces.
    pub name: String,
    /// The strength of its signal, in dBm.
    pub signal_strength: i8,
    /// Whether joining it takes a secret.
    pub protected: bool,
}

/// A network name and secret as mathematical values.
pub struct CredentialsView {
    pub name: Seq<char>,
    pub secret: Seq<char>,
}

/// Why a name and a secret make no credentials.
#[derive(Clone, Copy, Debug, PartialEq, Eq, Structural)]
pub enum CredentialsError {
    /// The name takes more than `NAME_LIMIT` bytes.
    NameTooLong,
    /// The secret takes more than `SECRET_LIMIT` bytes.
    SecretTooLong,
}

/// The name and the secret of the network to join. Neither is longer than the
/// radio takes: `NAME_LIMIT` and `SECRET_LIMIT` bytes.
#[derive(Debug, PartialEq, Eq)]
pub struct Credentials {
    name: String,
    secret: String,
}

impl View for Credentials {
    type V = CredentialsView;

    closed spec fn view(&self) -> CredentialsView {
        CredentialsView { name: self.name@, secret: self.secret@ }
    }
}

impl Credentials {
    #[verifier::type_invariant]
    spec fn within_limits(self) -> bool {
        byte_len(self.name@) <= NAME_LIMIT && byte_len(self.secret@) <= SECRET_LIMIT
    }

    /// What `new` answers for a name and a secret.
    pub open spec fn checked(name: Seq<char>, secret: Seq<char>) -> Result<
        CredentialsView,
        CredentialsError,
    > {
        if byte_len(name) > NAME_LIMIT {
            Err(CredentialsError::NameTooLong)
        } else if byte_len(secret) > SECRET_LIMIT {
            Err(CredentialsError::SecretTooLong)
        } else {
            Ok(CredentialsView { name, secret })
        }
    }

    /// Makes credentials of a name and a secret that fit the limits.
    pub fn new(name: String, secret: String) -> (res: Result<Credentials, CredentialsError>)
        ensures
            match res {
                Ok(c) => Self::checked(name@, secret@) == Ok::<CredentialsView, CredentialsError>(
                    c@,
                ),
                Err(e) => Self::checked(name@, secret@) == Err::<CredentialsView, CredentialsError>(
                    e,
                ),
            },
    {
        if name.as_str().as_bytes().len() > NAME_LIMIT {
            Err(CredentialsError::NameTooLong)
        } else if secret.as_str().as_bytes().len() > SECRET_LIMIT {
            Err(CredentialsError::SecretTooLong)
        } else {
            Ok(Credentials { name, secret })
        }
    }

    /// The network's name.
    pub fn name(&self) -> (name: &str)
        ensures
            name@ == self@.name,
            byte_len(name@) <= NAME_LIMIT,
    {
        proof {
            use_type_invariant(self);
        }
        self.name.as_str()
    }

    /// The network's secret.
    pub fn secret(&self) -> (secret: &str)
        ensures
            secret@ == self@.secret,
            byte_len(secret@) <= SECRET_LIMIT,
    {
        proof {
            use_type_invariant(self);
        }
        self.secret.as_str()
    }
}

/// The name under which the device offers its setup network.
pub const SETUP_NAME: &'static str = "UTC-Fetcher-Setup";

/// The name of the setup network is one that the radio takes.
pub proof fn lemma_setup_name_fits()
    ensures
        byte_len(SETUP_NAME@) <= NAME_LIMIT,
{
    reveal_strlit("UTC-Fetcher-Setup");
    vstd::utf8::is_ascii_chars_encode_utf8(SETUP_NAME@);
}

/// How long the interface gets to report itself started, in milliseconds.
pub const START_TIMEOUT_MS: u64 = 20_000;

/// How long the link gets to come up with an address, in milliseconds.
pub const CONNECT_TIMEOUT_MS: u64 = 20_000;

/// How long the bring-up sleeps between two looks at the interface, in milliseconds.
pub const POLL_INTERVAL_MS: u64 = 100;

impl Clone for Credentials {
    fn clone(&self) -> (copy: Credentials)
        ensures
            copy@ == self@,
    {
        proof {
            use_type_invariant(self);
        }
        Credentials { name: self.name.clone(), secret: self.secret.clone() }
    }
}

/// The settings that the interface is given for a stage.
#[derive(Debug, PartialEq, Eq)]
pub enum Configuration {
    /// Client of a network; without credentials the interface only becomes able to scan.
    Client(Option<Credentials>),
    /// Access point of this name, and client as above.
    Mixed(Option<Credentials>, String),
}

/// The stages through which the interface is brought.
#[derive(Clone, Copy, Debug, PartialEq, Eq, Structural)]
pub enum BringUpStage {
    /// Able to scan for networks.
    ScanMode,
    /// Offering the setup network, and still able to scan.
    SetupAccessPoint,
    /// Joining the network of the submitted credentials.
    ClientAttempt,
}

/// What the bring-up has asked for last within its stage.
#[derive(Clone, Copy, Debug, PartialEq, Eq, Structural)]
pub enum Step {
    /// Nothing.
    Idle,
    /// That the stage's configuration be applied.
    Applying,
    /// That the interface be started.
    Starting,
    /// Whether the interface has started.
    CheckingStart,
    /// A sleep before it asks again whether the interface has started.
    SleepingStart,
    /// A scan.
    Scanning,
    /// That the interface connect.
    Connecting,
    /// Whether the link is up and has an address.
    CheckingLink,
    /// A sleep before it asks about the link again.
    SleepingLink,
}

/// What the bring-up asks of the network interface next.
#[derive(Clone, Copy, Debug, PartialEq, Eq, Structural)]
pub enum Command {
    /// Apply the configuration of the stage, which `configuration` gives.
    Apply,
    /// Start the interface.
    Start,
    /// Scan for networks.
    Scan,
    /// Connect to the configured network.
    Connect,
    /// Say whether the interface has started.
    CheckStarted,
    /// Say whether the link is connected and whether it has an address.
    CheckLink,
    /// Sleep for this many milliseconds.
    Sleep(u64),
    /// Nothing more: the interface is up for what was asked.
    Done,
    /// Nothing more: the bring-up has failed.
    Fail(Error),
}

/// What the network interface answers.
#[derive(Debug, PartialEq, Eq)]
pub enum Report {
    /// What was asked for was done.
    Done,
    /// What was asked for was refused, with this code.
    Failed(i32),
    /// The scan found these networks.
    Found(Vec<AccessPointInfo>),
    /// Whether the interface has started.
    Started(bool),
    /// Whether the link is connected, and whether it has an address that is not the unspecified one.
    Link { connected: bool, addressed: bool },
    /// The sleep is over.
    Slept,
}

/// The timeouts of the two waits and the sleep between two looks, in milliseconds.
#[derive(Clone, Copy, Debug, PartialEq, Eq, Structural)]
pub struct Timing {
    pub start_timeout_ms: u64,
    pub connect_timeout_ms: u64,
    pub poll_interval_ms: u64,
}

/// The timing that the device runs with.
pub open spec fn standard_timing() -> Timing {
    Timing {
        start_timeout_ms: START_TIMEOUT_MS,
        connect_timeout_ms: CONNECT_TIMEOUT_MS,
        poll_interval_ms: POLL_INTERVAL_MS,
    }
}

impl Timing {
    /// The timing that the device runs with.
    pub fn standard() -> (timing: Timing)
        ensures
            timing == standard_timing(),
    {
        Timing {
            start_timeout_ms: START_TIMEOUT_MS,
            connect_timeout_ms: CONNECT_TIMEOUT_MS,
            poll_interval_ms: POLL_INTERVAL_MS,
        }
    }
}

/// The bring-up as a mathematical value.
pub struct WifiView {
    pub timing: Timing,
    pub stage: BringUpStage,
    pub step: Step,
    /// The milliseconds slept in the wait that is under way.
    pub waited_ms: nat,
    /// The networks of the last scan.
    pub found: Seq<AccessPointInfo>,
    /// The credentials of the client attempt.
    pub credentials: Option<CredentialsView>,
}

/// The sleep that a wait takes next: the interval, or what is left of the timeout if that is less.
pub open spec fn nap(timeout_ms: nat, interval_ms: nat, waited_ms: nat) -> nat {
    if timeout_ms - waited_ms < interval_ms {
        (timeout_ms - waited_ms) as nat
    } else {
        interval_ms
    }
}

impl WifiView {
    /// Whether `report` answers what the bring-up asked for last.
    pub open spec fn expects(self, report: Report) -> bool {
        match (self.step, report) {
            (Step::Applying, Report::Done) => true,
            (Step::Applying, Report::Failed(_)) => true,
            (Step::Starting, Report::Done) => true,
            (Step::Starting, Report::Failed(_)) => true,
            (Step::CheckingStart, Report::Started(_)) => true,
            (Step::SleepingStart, Report::Slept) => true,
            (Step::Scanning, Report::Found(_)) => true,
            (Step::Scanning, Report::Failed(_)) => true,
            (Step::Connecting, Report::Done) => true,
            (Step::Connecting, Report::Failed(_)) => true,
            (Step::CheckingLink, Report::Link { .. }) => true,
            (Step::SleepingLink, Report::Slept) => true,
            _ => false,
        }
    }

    /// The bring-up at `step`, all else as it is.
    pub open spec fn at(self, step: Step) -> WifiView {
        WifiView { step, ..self }
    }

    /// The bring-up at `step` once its configuration has gone to the
    /// interface: the credentials went with it and are held no longer.
    pub open spec fn applied(self, step: Step) -> WifiView {
        WifiView { step, credentials: None, ..self }
    }

    /// The bring-up at `step` of a wait in which nothing has been slept yet.
    pub open spec fn waiting(self, step: Step) -> WifiView {
        WifiView { step, waited_ms: 0, ..self }
    }

    /// The bring-up after a look at the interface that found it not ready:
    /// the wait's failure once its timeout has been slept, a sleep before that.
    pub open spec fn missed(
        self,
        timeout_ms: nat,
        sleeping: Step,
        failure: Error,
    ) -> (WifiView, Command) {
        if self.waited_ms >= timeout_ms {
            (self.at(Step::Idle), Command::Fail(failure))
        } else {
            let nap = nap(timeout_ms, self.timing.poll_interval_ms as nat, self.waited_ms);
            (
                WifiView { step: sleeping, waited_ms: self.waited_ms + nap, ..self },
                Command::Sleep(nap as u64),
            )
        }
    }

    /// The bring-up after `report`, and what it asks for next.
    pub open spec fn next(self, report: Report) -> (WifiView, Command) {
        match (self.step, report) {
            (Step::Applying, Report::Done) => (self.applied(Step::Starting), Command::Start),
            (Step::Applying, Report::Failed(code)) => (
                self.applied(Step::Idle),
                Command::Fail(Error::Configuration(code)),
            ),
            (Step::Starting, Report::Done) => (
                self.waiting(Step::CheckingStart),
                Command::CheckStarted,
            ),
            (Step::Starting, Report::Failed(code)) => (
                self.at(Step::Idle),
                Command::Fail(Error::Start(code)),
            ),
            (Step::CheckingStart, Report::Started(true)) => match self.stage {
                BringUpStage::ScanMode => (self.at(Step::Scanning), Command::Scan),
                BringUpStage::SetupAccessPoint => (self.at(Step::Idle), Command::Done),
                BringUpStage::ClientAttempt => (self.at(Step::Connecting), Command::Connect),
            },
            (Step::CheckingStart, Report::Started(false)) => self.missed(
                self.timing.start_timeout_ms as nat,
                Step::SleepingStart,
                Error::WaitStart,
            ),
            (Step::SleepingStart, Report::Slept) => (
                self.at(Step::CheckingStart),
                Command::CheckStarted,
            ),
            (Step::Scanning, Report::Found(found)) => (
                WifiView {
                    stage: BringUpStage::SetupAccessPoint,
                    step: Step::Applying,
                    found: found@,
                    ..self
                },
                Command::Apply,
            ),
            (Step::Scanning, Report::Failed(code)) => (
                self.at(Step::Idle),
                Command::Fail(Error::Scan(code)),
            ),
            (Step::Connecting, Report::Done) => (
                self.waiting(Step::CheckingLink),
                Command::CheckLink,
            ),
            (Step::Connecting, Report::Failed(code)) => (
                self.at(Step::Idle),
                Command::Fail(Error::Connect(code)),
            ),
            (Step::CheckingLink, Report::Link { connected, addressed }) => if connected
                && addressed {
                (self.at(Step::Idle), Command::Done)
            } else {
                self.missed(
                    self.timing.connect_timeout_ms as nat,
                    Step::SleepingLink,
                    Error::WaitConnect,
                )
            },
            (Step::SleepingLink, Report::Slept) => (
                self.at(Step::CheckingLink),
                Command::CheckLink,
            ),
            _ => (self, Command::Done),
        }
    }

    /// The timeout of the wait that `step` belongs to.
    pub open spec fn timeout_ms(self) -> nat {
        match self.step {
            Step::CheckingLink | Step::SleepingLink => self.timing.connect_timeout_ms as nat,
            _ => self.timing.start_timeout_ms as nat,
        }
    }
}

/// The bring-up of the network interface: it says what to ask of the
/// interface, takes the answer, and says what to ask next.
#[derive(Debug, PartialEq, Eq)]
pub struct WifiWrapper {
    timing: Timing,
    stage: BringUpStage,
    step: Step,
    waited_ms: u64,
    found: Vec<AccessPointInfo>,
    credentials: Option<Credentials>,
}

impl View for WifiWrapper {
    type V = WifiView;

    closed spec fn view(&self) -> WifiView {
        WifiView {
            timing: self.timing,
            stage: self.stage,
            step: self.step,
            waited_ms: self.waited_ms as nat,
            found: self.found@,
            credentials: match self.credentials {
                Some(c) => Some(c@),
                None => None,
            },
        }
    }
}

/// The credentials of a configuration's client, as a mathematical value.
pub open spec fn client_view(client: Option<Credentials>) -> Option<CredentialsView> {
    match client {
        Some(c) => Some(c@),
        None => None,
    }
}

impl WifiView {
    /// Whether `configuration` is what the stage has the interface be: able to
    /// scan, the setup network beside that, or client with the credentials.
    pub open spec fn configured_by(self, configuration: Configuration) -> bool {
        match self.stage {
            BringUpStage::ScanMode => configuration == Configuration::Client(None),
            BringUpStage::SetupAccessPoint => configuration matches Configuration::Mixed(
                None,
                name,
            ) && name@ == SETUP_NAME@,
            BringUpStage::ClientAttempt => configuration matches Configuration::Client(client)
                && client_view(client) == self.credentials,
        }
    }
}

impl WifiWrapper {
    /// A bring-up that has asked for nothing yet, with the standard timing.
    pub fn new() -> (wifi: WifiWrapper)
        ensures
            wifi@ == (WifiView {
                timing: standard_timing(),
                stage: BringUpStage::ScanMode,
                step: Step::Idle,
                waited_ms: 0,
                found: Seq::empty(),
                credentials: None,
            }),
    {
        WifiWrapper {
            timing: Timing::standard(),
            stage: BringUpStage::ScanMode,
            step: Step::Idle,
            waited_ms: 0,
            found: Vec::new(),
            credentials: None,
        }
    }

    /// A bring-up with a timing of its own. There is none without a sleep
    /// between two looks: its waits would never end.
    pub fn with_timing(timing: Timing) -> (res: Option<WifiWrapper>)
        ensures
            timing.poll_interval_ms == 0 ==> res is None,
            timing.poll_interval_ms > 0 ==> (res matches Some(wifi) && wifi@ == (WifiView {
                timing,
                stage: BringUpStage::ScanMode,
                step: Step::Idle,
                waited_ms: 0,
                found: Seq::empty(),
                credentials: None,
            })),
    {
        if timing.poll_interval_ms == 0 {
            None
        } else {
            Some(
                WifiWrapper {
                    timing,
                    stage: BringUpStage::ScanMode,
                    step: Step::Idle,
                    waited_ms: 0,
                    found: Vec::new(),
                    credentials: None,
                },
            )
        }
    }

    /// Begins to bring the interface up for the setup: first able to scan,
    /// then, after a scan, offering the setup network. Whatever was under way
    /// is given up, and credentials that were held are dropped.
    pub fn use_setup_configuration(&mut self) -> (command: Command)
        ensures
            command == Command::Apply,
            final(self)@ == (WifiView {
                stage: BringUpStage::ScanMode,
                step: Step::Applying,
                credentials: None,
                ..old(self)@
            }),
    {
        self.stage = BringUpStage::ScanMode;
        self.step = Step::Applying;
        self.credentials = None;
        Command::Apply
    }

    /// Begins to bring the interface up as client of the network that
    /// `credentials` name. Whatever was under way is given up. The
    /// credentials are held until the configuration made of them has gone to
    /// the interface.
    pub fn use_client_configuration(&mut self, credentials: Credentials) -> (command: Command)
        ensures
            command == Command::Apply,
            final(self)@ == (WifiView {
                stage: BringUpStage::ClientAttempt,
                step: Step::Applying,
                credentials: Some(credentials@),
                ..old(self)@
            }),
    {
        self.stage = BringUpStage::ClientAttempt;
        self.step = Step::Applying;
        self.credentials = Some(credentials);
        Command::Apply
    }

    /// What a scan made for the selection page gave, its failure told as the bring-up tells it.
    pub fn scan(found: Result<Vec<AccessPointInfo>, i32>) -> (res: Result<
        Vec<AccessPointInfo>,
        Error,
    >)
        ensures
            match found {
                Ok(list) => res == Ok::<Vec<AccessPointInfo>, Error>(list),
                Err(code) => res == Err::<Vec<AccessPointInfo>, Error>(Error::Scan(code)),
            },
    {
        match found {
            Ok(list) => Ok(list),
            Err(code) => Err(Error::Scan(code)),
        }
    }

    /// The stage that the bring-up is in, or was in last.
    pub fn stage(&self) -> (stage: BringUpStage)
        ensures
            stage == self@.stage,
    {
        self.stage
    }

    /// The networks that the setup's scan found.
    pub fn found(&self) -> (found: &Vec<AccessPointInfo>)
        ensures
            found@ == self@.found,
    {
        &self.found
    }

    /// The configuration that `Command::Apply` asks to be applied, until it
    /// has been applied.
    pub fn configuration(&self) -> (configuration: Configuration)
        ensures
            self@.configured_by(configuration),
    {
        match self.stage {
            BringUpStage::ScanMode => Configuration::Client(None),
            BringUpStage::SetupAccessPoint => Configuration::Mixed(None, SETUP_NAME.to_owned()),
            BringUpStage::ClientAttempt => Configuration::Client(
                match &self.credentials {
                    Some(c) => Some(c.clone()),
                    None => None,
                },
            ),
        }
    }

    /// Whether `report` answers what the bring-up asked for last.
    pub fn accepts(&self, report: &Report) -> (ok: bool)
        ensures
            ok == self@.expects(*report),
    {
        match (self.step, report) {
            (Step::Applying, Report::Done) => true,
            (Step::Applying, Report::Failed(_)) => true,
            (Step::Starting, Report::Done) => true,
            (Step::Starting, Report::Failed(_)) => true,
            (Step::CheckingStart, Report::Started(_)) => true,
            (Step::SleepingStart, Report::Slept) => true,
            (Step::Scanning, Report::Found(_)) => true,
            (Step::Scanning, Report::Failed(_)) => true,
            (Step::Connecting, Report::Done) => true,
            (Step::Connecting, Report::Failed(_)) => true,
            (Step::CheckingLink, Report::Link { .. }) => true,
            (Step::SleepingLink, Report::Slept) => true,
            _ => false,
        }
    }

    /// The look at the interface found it not ready: sleep, or give the wait up.
    fn miss(&mut self, timeout_ms: u64, sleeping: Step, failure: Error) -> (command: Command)
        ensures
            (final(self)@, command) == old(self)@.missed(timeout_ms as nat, sleeping, failure),
    {
        if self.waited_ms >= timeout_ms {
            self.step = Step::Idle;
            Command::Fail(failure)
        } else {
            let left: u64 = timeout_ms - self.waited_ms;
            let nap: u64 = if left < self.timing.poll_interval_ms {
                left
            } else {
                self.timing.poll_interval_ms
            };
            self.step = sleeping;
            self.waited_ms = self.waited_ms + nap;
            Command::Sleep(nap)
        }
    }

    /// Takes the interface's answer to what was asked last, and says what to
    /// ask next. Each stage applies its configuration and starts the
    /// interface, then looks whether it has started, sleeping between two
    /// looks, until it has or the timeout has been slept. The scan stage goes
    /// on to scan and to the setup network; the client attempt goes on to
    /// connect and waits likewise for a link with an address.
    pub fn advance(&mut self, report: Report) -> (command: Command)
        requires
            old(self)@.expects(report),
        ensures
            (final(self)@, command) == old(self)@.next(report),
    {
        match report {
            Report::Done => match self.step {
                Step::Applying => {
                    self.step = Step::Starting;
                    self.credentials = None;
                    Command::Start
                },
                Step::Starting => {
                    self.step = Step::CheckingStart;
                    self.waited_ms = 0;
                    Command::CheckStarted
                },
                _ => {
                    self.step = Step::CheckingLink;
                    self.waited_ms = 0;
                    Command::CheckLink
                },
            },
            Report::Failed(code) => {
                let failure = match self.step {
                    Step::Applying => {
                        self.credentials = None;
                        Error::Configuration(code)
                    },
                    Step::Starting => Error::Start(code),
                    Step::Scanning => Error::Scan(code),
                    _ => Error::Connect(code),
                };
                self.step = Step::Idle;
                Command::Fail(failure)
            },
            Report::Found(found) => {
                self.found = found;
                self.stage = BringUpStage::SetupAccessPoint;
                self.step = Step::Applying;
                Command::Apply
            },
            Report::Started(true) => match self.stage {
                BringUpStage::ScanMode => {
                    self.step = Step::Scanning;
                    Command::Scan
                },
                BringUpStage::SetupAccessPoint => {
                    self.step = Step::Idle;
                    Command::Done
                },
                BringUpStage::ClientAttempt => {
                    self.step = Step::Connecting;
                    Command::Connect
                },
            },
            Report::Started(false) => {
                let timeout_ms: u64 = self.timing.start_timeout_ms;
                self.miss(timeout_ms, Step::SleepingStart, Error::WaitStart)
            },
            Report::Link { connected, addressed } => {
                if connected && addressed {
                    self.step = Step::Idle;
                    Command::Done
                } else {
                    let timeout_ms: u64 = self.timing.connect_timeout_ms;
                    self.miss(timeout_ms, Step::SleepingLink, Error::WaitConnect)
                }
            },
            Report::Slept => match self.step {
                Step::SleepingStart => {
                    self.step = Step::CheckingStart;
                    Command::CheckStarted
                },
                _ => {
                    self.step = Step::CheckingLink;
                    Command::CheckLink
                },
            },
        }
    }
}

/// The number of sleeps that a wait still takes before it gives up, if the
/// interface is never ready.
pub open spec fn sleeps_left(timeout_ms: nat, interval_ms: nat, waited_ms: nat) -> nat
    decreases timeout_ms - waited_ms,
{
    if waited_ms >= timeout_ms || interval_ms == 0 {
        0
    } else {
        1 + sleeps_left(
            timeout_ms,
            interval_ms,
            waited_ms + nap(timeout_ms, interval_ms, waited_ms),
        )
    }
}

/// Whether `report` is a look at the interface, made at `step`, that found it not ready.
pub open spec fn found_not_ready(step: Step, report: Report) -> bool {
    match (step, report) {
        (Step::CheckingStart, Report::Started(false)) => true,
        (Step::CheckingLink, Report::Link { connected, addressed }) => !(connected && addressed),
        _ => false,
    }
}

/// Whether `command` asks for a sleep of some length.
pub open spec fn asks_to_sleep(command: Command) -> bool {
    command matches Command::Sleep(ms) && ms > 0
}

/// The failure of the wait that `step` belongs to.
pub open spec fn wait_failure(step: Step) -> Error {
    match step {
        Step::CheckingLink | Step::SleepingLink => Error::WaitConnect,
        _ => Error::WaitStart,
    }
}

impl WifiView {
    /// The bring-up after `rounds` looks that each gave `miss` and were each followed by a sleep.
    pub open spec fn after_misses(self, miss: Report, rounds: nat) -> WifiView
        decreases rounds,
    {
        if rounds == 0 {
            self
        } else {
            self.next(miss).0.next(Report::Slept).0.after_misses(miss, (rounds - 1) as nat)
        }
    }
}

/// A wait on an interface that is never ready ends, and ends in time: every
/// look before the timeout has been slept is answered by a sleep of some
/// length, never by a failure; the sleeps add up to the timeout exactly; and
/// the look after the last of them is answered by the wait's failure.
pub proof fn lemma_wait_times_out(wifi: WifiView, miss: Report)
    requires
        found_not_ready(wifi.step, miss),
        wifi.timing.poll_interval_ms > 0,
        wifi.waited_ms <= wifi.timeout_ms(),
    ensures
        ({
            let sleeps = sleeps_left(
                wifi.timeout_ms(),
                wifi.timing.poll_interval_ms as nat,
                wifi.waited_ms,
            );
            let last = wifi.after_misses(miss, sleeps);
            &&& forall|k: nat|
                k < sleeps ==> asks_to_sleep((#[trigger] wifi.after_misses(miss, k)).next(miss).1)
            &&& last.waited_ms == wifi.timeout_ms()
            &&& last.next(miss) == (last.at(Step::Idle), Command::Fail(wait_failure(wifi.step)))
            &&& wifi.waited_ms < wifi.timeout_ms() ==> sleeps > 0
        }),
    decreases wifi.timeout_ms() - wifi.waited_ms,
{
    let timeout = wifi.timeout_ms();
    let interval = wifi.timing.poll_interval_ms as nat;
    let sleeps = sleeps_left(timeout, interval, wifi.waited_ms);
    if wifi.waited_ms < timeout {
        let slept = wifi.next(miss).0.next(Report::Slept).0;
        lemma_wait_times_out(slept, miss);
        assert forall|k: nat| k < sleeps implies asks_to_sleep(
            (#[trigger] wifi.after_misses(miss, k)).next(miss).1,
        ) by {
            if k > 0 {
                assert(wifi.after_misses(miss, k) == slept.after_misses(miss, (k - 1) as nat));
            }
        }
    }
}

/// Credentials are held only from the beginning of a client attempt until
/// its configuration has gone to the interface: whatever the interface
/// answers to that, they are held no longer, and no later step brings
/// them back.
pub proof fn lemma_credentials_are_consumed(wifi: WifiView, report: Report)
    requires
        wifi.expects(report),
    ensures
        wifi.step == Step::Applying ==> wifi.next(report).0.credentials is None,
        wifi.credentials is None ==> wifi.next(report).0.credentials is None,
{
}

/// A bring-up is up only on a good look: a client attempt once the link is
/// connected and has an address, and nothing but the setup on an interface
/// that has merely started.
pub proof fn lemma_up_only_when_ready(wifi: WifiView, report: Report)
    requires
        wifi.expects(report),
        wifi.next(report).1 == Command::Done,
    ensures
        wifi.stage == BringUpStage::ClientAttempt ==> report == (Report::Link {
            connected: true,
            addressed: true,
        }),
        report == Report::Started(true) ==> wifi.stage == BringUpStage::SetupAccessPoint,
        report == Report::Started(true) || report == (Report::Link {
            connected: true,
            addressed: true,
        }),
{
}

/// The sleeps of a wait are as many as it takes intervals to cover what is
/// left of the timeout, and no more.
pub proof fn lemma_sleeps_cover_timeout(timeout_ms: nat, interval_ms: nat, waited_ms: nat)
    requires
        interval_ms > 0,
        waited_ms <= timeout_ms,
    ensures
        sleeps_left(timeout_ms, interval_ms, waited_ms) * interval_ms >= timeout_ms - waited_ms,
        sleeps_left(timeout_ms, interval_ms, waited_ms) > 0 ==> (sleeps_left(
            timeout_ms,
            interval_ms,
            waited_ms,
        ) - 1) * interval_ms < timeout_ms - waited_ms,
    decreases timeout_ms - waited_ms,
{
    if waited_ms < timeout_ms {
        let nap = nap(timeout_ms, interval_ms, waited_ms);
        let rest = sleeps_left(timeout_ms, interval_ms, waited_ms + nap);
        lemma_sleeps_cover_timeout(timeout_ms, interval_ms, waited_ms + nap);
        assert((1 + rest) * interval_ms == interval_ms + rest * interval_ms) by (nonlinear_arith);
        if rest > 0 {
            assert(rest * interval_ms == interval_ms + (rest - 1) * interval_ms)
                by (nonlinear_arith);
        }
    }
}

impl Error {
    /// What the failure says of itself.
    pub open spec fn message_text(self) -> Seq<char> {
        match self {
            Error::Setup(_) => "Failed to set up ESP WiFi"@,
            Error::Wrap(_) => "Failed to wrap ESP WiFi"@,
            Error::Scan(_) => "Failed to scan WiFi"@,
            Error::Start(_) => "Failed to start WiFi"@,
            Error::Connect(_) => "Failed to connect to WiFi"@,
            Error::Configuration(_) => "Failed to configure ESP WiFI"@,
            Error::WaitStart => "Failed to wait WiFi start"@,
            Error::WaitConnect => "Failed to wait WiFi set up"@,
        }
    }

    /// What the failure says of itself.
    pub fn message(&self) -> (message: &'static str)
        ensures
            message@ == self.message_text(),
    {
        match self {
            Error::Setup(_) => "Failed to set up ESP WiFi",
            Error::Wrap(_) => "Failed to wrap ESP WiFi",
            Error::Scan(_) => "Failed to scan WiFi",
            Error::Start(_) => "Failed to start WiFi",
            Error::Connect(_) => "Failed to connect to WiFi",
            Error::Configuration(_) => "Failed to configure ESP WiFI",
            Error::WaitStart => "Failed to wait WiFi start",
            Error::WaitConnect => "Failed to wait WiFi set up",
        }
    }

    /// The failure's message and those of its causes, for one line.
    pub fn chain(&self) -> (messages: Vec<String>)
        ensures
            messages.deep_view() == seq![self.message_text()],
    {
        crate::error::uncaused(self.message())
    }

    /// The code that the platform gave for the failure, if it came from the platform.
    pub open spec fn platform_code(self) -> Option<i32> {
        match self {
            Error::Setup(code) => Some(code),
            Error::Wrap(code) => Some(code),
            Error::Scan(code) => Some(code),
            Error::Start(code) => Some(code),
            Error::Connect(code) => Some(code),
            Error::Configuration(code) => Some(code),
            Error::WaitStart => None,
            Error::WaitConnect => None,
        }
    }

    /// The code that the platform gave for the failure, if it came from the platform.
    pub fn code(&self) -> (code: Option<i32>)
        ensures
            code == self.platform_code(),
    {
        match self {
            Error::Setup(code) => Some(*code),
            Error::Wrap(code) => Some(*code),
            Error::Scan(code) => Some(*code),
            Error::Start(code) => Some(*code),
            Error::Connect(code) => Some(*code),
            Error::Configuration(code) => Some(*code),
            Error::WaitStart => None,
            Error::WaitConnect => None,
        }
    }
}

} // verus!
