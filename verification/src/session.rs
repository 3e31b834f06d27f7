//! The model of a session with an inverter: what is known, what is awaited, and
//! what each answer leads to.

use crate::capabilities::{described, Device};
use crate::crypto::CryptoError;
use crate::error::InverterError;
use crate::protos::{ApplicationInfo, CommandReqDTO, Page, Telemetry};
use crate::requests::Query;
use crate::telemetry::{accepted, mapped, merged};
use vstd::prelude::*;

verus! {

/// Whether the inverter answers.
#[derive(Clone, Copy, Debug, PartialEq, Eq, PartialOrd, Ord, Structural)]
pub enum NetworkState {
    Unknown,
    Online,
    Offline,
}

/// Which of the startup commands have been sent.
#[derive(Clone, Copy, Debug, PartialEq, Eq, Structural)]
pub struct StartupCommandState {
    pub performance_mode_initialized: bool,
    pub power_limit_initialized: bool,
}

impl Default for StartupCommandState {
    fn default() -> (s: Self)
        ensures
            !s.performance_mode_initialized,
            !s.power_limit_initialized,
    {
        StartupCommandState { performance_mode_initialized: false, power_limit_initialized: false }
    }
}

impl StartupCommandState {
    /// Notes that the performance data mode has been asked for.
    pub fn mark_performance_mode_initialized(&mut self)
        ensures
            *final(self) == (StartupCommandState {
                performance_mode_initialized: true,
                ..*old(self)
            }),
    {
        self.performance_mode_initialized = true;
    }

    /// Notes that the power limit has been sent.
    pub fn mark_power_limit_initialized(&mut self)
        ensures
            *final(self) == (StartupCommandState { power_limit_initialized: true, ..*old(self) }),
    {
        self.power_limit_initialized = true;
    }

    /// Has the performance data mode asked for once more.
    pub fn reset_performance_mode(&mut self)
        ensures
            *final(self) == (StartupCommandState {
                performance_mode_initialized: false,
                ..*old(self)
            }),
    {
        self.performance_mode_initialized = false;
    }
}

/// The contents of an answer.
pub enum Answer {
    ApplicationInformation(ApplicationInfo),
    Command(CommandReqDTO),
    LegacyRealData(Telemetry),
    RealDataNew(Page),
}

/// What became of an exchange.
pub type Outcome = Result<Answer, InverterError>;

/// What drives a session on.
pub enum Stimulus {
    /// Telemetry is wanted.
    Poll,
    /// The exchange that was asked for is over.
    Reply(Outcome),
}

/// What a session asks for in return.
pub enum Move {
    /// Ask the inverter.
    Exchange { query: Query, encrypted: bool },
    /// The update is over, with telemetry or with the reason why there is none.
    Finished(Result<Telemetry, InverterError>),
}

/// What a session waits for. `retry` says that the update already had its
/// application information refreshed.
pub enum Phase {
    Idle,
    Capabilities { retry: bool },
    PerformanceMode { retry: bool },
    PowerLimit { retry: bool },
    Legacy { retry: bool },
    FirstPage { retry: bool },
    NextPage { retry: bool, package: i32, package_count: i32, so_far: Page },
}

/// All that a session knows.
#[verifier::ext_equal]
pub struct Session {
    pub host: Seq<char>,
    pub state: NetworkState,
    pub sequence: u16,
    pub capabilities: Option<Device>,
    pub enable_performance_mode: bool,
    pub initialize_power_limit: Option<u8>,
    pub startup: StartupCommandState,
    pub phase: Phase,
}

/// How many pages the first one announces; at least itself.
pub open spec fn announced_pages(first: Page) -> i32 {
    if first.ap > 1 {
        first.ap
    } else {
        1
    }
}

/// The number of the request after request `sequence`; the last is followed by zero.
pub open spec fn following(sequence: u16) -> u16 {
    if sequence == u16::MAX {
        0
    } else {
        (sequence + 1) as u16
    }
}

impl Session {
    /// Whether the performance data mode is still to be asked for.
    pub open spec fn performance_mode_due(self) -> bool {
        self.enable_performance_mode && !self.startup.performance_mode_initialized
    }

    /// Whether the power limit is still to be sent.
    pub open spec fn power_limit_due(self) -> bool {
        self.initialize_power_limit is Some && !self.startup.power_limit_initialized
    }

    /// Whether all startup commands are done with.
    pub open spec fn started(self) -> bool {
        !self.performance_mode_due() && !self.power_limit_due()
    }

    /// What holds of every session between two steps. Startup commands come
    /// before telemetry, the performance data mode before the power limit.
    pub open spec fn wf(self) -> bool {
        &&& self.capabilities matches Some(device) ==> device.wf()
        &&& match self.phase {
            Phase::Idle => true,
            Phase::Capabilities { .. } => self.capabilities is None,
            Phase::PerformanceMode { .. } => {
                &&& self.capabilities is Some
                &&& self.performance_mode_due()
            },
            Phase::PowerLimit { .. } => {
                &&& self.capabilities is Some
                &&& !self.performance_mode_due()
                &&& self.power_limit_due()
            },
            Phase::Legacy { .. } => {
                &&& self.capabilities matches Some(device) && !device.encrypted
                &&& self.started()
            },
            Phase::FirstPage { .. } => {
                &&& self.capabilities matches Some(device) && device.encrypted
                &&& self.started()
            },
            Phase::NextPage { package, package_count, .. } => {
                &&& self.capabilities matches Some(device) && device.encrypted
                &&& self.started()
                &&& 1 <= package < package_count
            },
        }
    }

    /// Whether the session waits for this: a poll while it is idle, else the
    /// answer that it asked for, or a failure.
    pub open spec fn accepts(self, stimulus: Stimulus) -> bool {
        match stimulus {
            Stimulus::Poll => self.phase is Idle,
            Stimulus::Reply(Err(_)) => !(self.phase is Idle),
            Stimulus::Reply(Ok(answer)) => match self.phase {
                Phase::Idle => false,
                Phase::Capabilities { .. } => answer is ApplicationInformation,
                Phase::PerformanceMode { .. } => answer is Command,
                Phase::PowerLimit { .. } => answer is Command,
                Phase::Legacy { .. } => answer is LegacyRealData,
                Phase::FirstPage { .. } => answer is RealDataNew,
                Phase::NextPage { .. } => answer is RealDataNew,
            },
        }
    }

    /// The session waits for the answer to `query`.
    pub open spec fn asking(self, phase: Phase, query: Query, encrypted: bool) -> (Session, Move) {
        (Session { phase, ..self }, Move::Exchange { query, encrypted })
    }

    /// Whether the known device encrypts.
    pub open spec fn encrypts(self) -> bool {
        self.capabilities matches Some(device) && device.encrypted
    }

    /// The random string of the known device.
    pub open spec fn random_string(self) -> Option<Seq<u8>> {
        match self.capabilities {
            Some(device) => device.enc_rand,
            None => None,
        }
    }

    /// The update ends.
    pub open spec fn finished(self, result: Result<Telemetry, InverterError>) -> (Session, Move) {
        let state = if result is Ok {
            NetworkState::Online
        } else {
            NetworkState::Offline
        };
        (Session { phase: Phase::Idle, state, ..self }, Move::Finished(result))
    }

    /// Application information is asked for.
    pub open spec fn loading(self, retry: bool) -> (Session, Move) {
        Session { capabilities: None, ..self }.asking(
            Phase::Capabilities { retry },
            Query::ApplicationInformation,
            false,
        )
    }

    /// The startup command that comes next, as long as one is due: the
    /// performance data mode, then the power limit.
    pub open spec fn startup_command(self, retry: bool) -> Option<(Session, Move)> {
        if self.performance_mode_due() {
            Some(
                self.asking(
                    Phase::PerformanceMode { retry },
                    Query::PerformanceDataMode,
                    self.encrypts(),
                ),
            )
        } else if self.power_limit_due() {
            Some(
                self.asking(
                    Phase::PowerLimit { retry },
                    Query::PowerLimit { percent: self.initialize_power_limit->0 },
                    self.encrypts(),
                ),
            )
        } else {
            None
        }
    }

    /// The startup commands that are due come first, then telemetry.
    pub open spec fn starting(self, retry: bool) -> (Session, Move) {
        match self.startup_command(retry) {
            Some(next) => next,
            None => self.measuring(retry),
        }
    }

    /// Telemetry comes last: in the new format from a device that encrypts, in
    /// the legacy format from one that does not. A device of which nothing is
    /// known is not asked.
    pub open spec fn measuring(self, retry: bool) -> (Session, Move) {
        match self.capabilities {
            None => self.concluding(retry, Err(InverterError::CapabilitiesUnknown)),
            Some(device) => if device.encrypted {
                self.asking(Phase::FirstPage { retry }, Query::RealDataNew { package: 0 }, true)
            } else {
                self.asking(Phase::Legacy { retry }, Query::LegacyRealData, false)
            },
        }
    }

    /// Telemetry has come or has failed. The first failure to authenticate has
    /// the application information refreshed and everything tried once more.
    pub open spec fn concluding(self, retry: bool, result: Result<Telemetry, InverterError>) -> (
        Session,
        Move,
    ) {
        match result {
            Ok(telemetry) => self.finished(Ok(telemetry)),
            Err(e) => if !retry && e == InverterError::Crypto(CryptoError::AuthenticationFailed) {
                self.loading(true)
            } else {
                self.finished(Err(e))
            },
        }
    }

    /// Another page has come: ask for the next one, or conclude.
    pub open spec fn collecting(
        self,
        retry: bool,
        next_package: int,
        package_count: i32,
        so_far: Page,
    ) -> (Session, Move)
        recommends
            self.capabilities is Some,
    {
        if next_package < package_count {
            let package = next_package as i32;
            self.asking(
                Phase::NextPage { retry, package, package_count, so_far },
                Query::RealDataNew { package },
                true,
            )
        } else {
            self.concluding(retry, mapped(so_far, self.capabilities->0))
        }
    }

    /// Application information has come or has failed.
    pub open spec fn loaded(self, retry: bool, outcome: Outcome) -> (Session, Move) {
        match outcome {
            Err(e) => self.finished(Err(e)),
            Ok(Answer::ApplicationInformation(info)) => match described(info) {
                Err(e) => self.finished(Err(e)),
                Ok(device) => Session {
                    capabilities: Some(device),
                    startup: StartupCommandState {
                        performance_mode_initialized: !retry
                            && self.startup.performance_mode_initialized,
                        ..self.startup
                    },
                    ..self
                }.starting(retry),
            },
            Ok(_) => self.finished(Err(InverterError::UnexpectedReply)),
        }
    }

    /// Legacy telemetry has come or has failed.
    pub open spec fn legacy_measured(self, retry: bool, outcome: Outcome) -> (Session, Move)
        recommends
            self.capabilities is Some,
    {
        match outcome {
            Err(e) => self.concluding(retry, Err(e)),
            Ok(Answer::LegacyRealData(telemetry)) => self.concluding(
                retry,
                accepted(telemetry, self.capabilities->0),
            ),
            Ok(_) => self.finished(Err(InverterError::UnexpectedReply)),
        }
    }

    /// A page has come or has failed; `before` are the pages merged so far,
    /// the place of this one and the number of pages, nothing for the first.
    pub open spec fn page_measured(
        self,
        retry: bool,
        before: Option<(Page, int, i32)>,
        outcome: Outcome,
    ) -> (Session, Move) {
        match outcome {
            Err(e) => self.concluding(retry, Err(e)),
            Ok(Answer::RealDataNew(page)) => match before {
                None => self.collecting(retry, 1, announced_pages(page), page),
                Some((so_far, package, package_count)) => self.collecting(
                    retry,
                    package + 1,
                    package_count,
                    merged(so_far, page),
                ),
            },
            Ok(_) => self.finished(Err(InverterError::UnexpectedReply)),
        }
    }

    /// The session after a step, and what it asks for. How a startup command
    /// went makes no difference.
    pub open spec fn step(self, stimulus: Stimulus) -> (Session, Move)
        recommends
            self.accepts(stimulus),
    {
        match stimulus {
            Stimulus::Poll => if self.capabilities is None {
                self.loading(false)
            } else {
                self.starting(false)
            },
            Stimulus::Reply(outcome) => match self.phase {
                Phase::Idle => self.finished(Err(InverterError::UnexpectedReply)),
                Phase::Capabilities { retry } => self.loaded(retry, outcome),
                Phase::PerformanceMode { retry } => Session {
                    startup: StartupCommandState {
                        performance_mode_initialized: true,
                        ..self.startup
                    },
                    ..self
                }.starting(retry),
                Phase::PowerLimit { retry } => Session {
                    startup: StartupCommandState { power_limit_initialized: true, ..self.startup },
                    ..self
                }.starting(retry),
                Phase::Legacy { retry } => self.legacy_measured(retry, outcome),
                Phase::FirstPage { retry } => self.page_measured(retry, None, outcome),
                Phase::NextPage { retry, package, package_count, so_far } => self.page_measured(
                    retry,
                    Some((so_far, package as int, package_count)),
                    outcome,
                ),
            },
        }
    }

    /// The session and its last move after a series of outcomes. What is left
    /// over once the update has ended is not looked at.
    pub open spec fn run(now: (Session, Move), outcomes: Seq<Outcome>) -> (Session, Move)
        decreases outcomes.len(),
    {
        if outcomes.len() == 0 || now.1 is Finished {
            now
        } else {
            Session::run(now.0.step(Stimulus::Reply(outcomes[0])), outcomes.drop_first())
        }
    }

    /// The same, where requests are numbered: before each outcome is taken in,
    /// the session holds the next of `numbers`.
    pub open spec fn run_numbered(
        now: (Session, Move),
        numbers: Seq<u16>,
        outcomes: Seq<Outcome>,
    ) -> (Session, Move)
        recommends
            numbers.len() >= outcomes.len(),
        decreases outcomes.len(),
    {
        if outcomes.len() == 0 || now.1 is Finished {
            now
        } else {
            let numbered = Session { sequence: numbers[0], ..now.0 };
            Session::run_numbered(
                numbered.step(Stimulus::Reply(outcomes[0])),
                numbers.drop_first(),
                outcomes.drop_first(),
            )
        }
    }
}

} // verus!
