//! The session with one inverter.
//!
//! An update is driven from outside: [`Inverter::update_state`] is given an
//! event and says what to do next. It is polled first, then given the outcome
//! of each exchange that it asked for, until it says that the update is over.
//! For an exchange, [`build_message`](crate::requests::build_message) makes the
//! message, [`Inverter::send_request`] frames its bytes and hands out the reader
//! of the response.

use crate::capabilities::{read_capabilities, Capabilities};
use crate::crypto::GCM_TAG_LENGTH;
use crate::error::{is_authentication_failure, InverterError};
use crate::frame::{build_frame, framed, slice_view, Reading, ResponseReader};
use crate::protos::{APPInfoDataReqDTO, CommandReqDTO, HMSStateResponse, RealDataNewReqDTO};
use crate::requests::{answering_command, Query};
use crate::session::{
    following, Answer, Move, NetworkState, Outcome, Phase, Session, StartupCommandState,
    Stimulus,
};
use crate::telemetry::{accept_legacy, map_real_data_new, merge_page, telemetry_view};
use vstd::prelude::*;

verus! {

/// An answer of the inverter.
#[derive(Debug)]
pub enum Reply {
    ApplicationInformation(APPInfoDataReqDTO),
    Command(CommandReqDTO),
    LegacyRealData(HMSStateResponse),
    RealDataNew(RealDataNewReqDTO),
}

impl View for Reply {
    type V = Answer;

    open spec fn view(&self) -> Answer {
        match self {
            Reply::ApplicationInformation(m) => Answer::ApplicationInformation(m@),
            Reply::Command(m) => Answer::Command(*m),
            Reply::LegacyRealData(m) => Answer::LegacyRealData(m@),
            Reply::RealDataNew(m) => Answer::RealDataNew(m@),
        }
    }
}

/// An outcome by its contents.
pub open spec fn outcome_view(outcome: Result<Reply, InverterError>) -> Outcome {
    match outcome {
        Ok(reply) => Ok(reply@),
        Err(e) => Err(e),
    }
}

/// What drives an update on.
#[derive(Debug)]
pub enum Event {
    /// Telemetry is wanted.
    Poll,
    /// The exchange that was asked for is over.
    Reply(Result<Reply, InverterError>),
}

impl View for Event {
    type V = Stimulus;

    open spec fn view(&self) -> Stimulus {
        match self {
            Event::Poll => Stimulus::Poll,
            Event::Reply(outcome) => Stimulus::Reply(outcome_view(*outcome)),
        }
    }
}

/// What to do next.
#[derive(Debug)]
pub enum Action {
    /// Ask the inverter, with an encrypted payload or a plain one.
    Exchange { query: Query, encrypted: bool },
    /// The update is over, with telemetry or with the reason why there is none.
    Finished(Result<HMSStateResponse, InverterError>),
}

impl View for Action {
    type V = Move;

    open spec fn view(&self) -> Move {
        match self {
            Action::Exchange { query, encrypted } => Move::Exchange {
                query: *query,
                encrypted: *encrypted,
            },
            Action::Finished(result) => Move::Finished(telemetry_view(*result)),
        }
    }
}

/// What an update waits for.
enum Progress {
    Idle,
    Capabilities { retry: bool },
    PerformanceMode { retry: bool },
    PowerLimit { retry: bool },
    Legacy { retry: bool },
    FirstPage { retry: bool },
    NextPage { retry: bool, package: i32, package_count: i32, so_far: RealDataNewReqDTO },
}

impl View for Progress {
    type V = Phase;

    closed spec fn view(&self) -> Phase {
        match self {
            Progress::Idle => Phase::Idle,
            Progress::Capabilities { retry } => Phase::Capabilities { retry: *retry },
            Progress::PerformanceMode { retry } => Phase::PerformanceMode { retry: *retry },
            Progress::PowerLimit { retry } => Phase::PowerLimit { retry: *retry },
            Progress::Legacy { retry } => Phase::Legacy { retry: *retry },
            Progress::FirstPage { retry } => Phase::FirstPage { retry: *retry },
            Progress::NextPage { retry, package, package_count, so_far } => Phase::NextPage {
                retry: *retry,
                package: *package,
                package_count: *package_count,
                so_far: so_far@,
            },
        }
    }
}

/// The session with one inverter.
pub struct Inverter<'a> {
    host: &'a str,
    state: NetworkState,
    sequence: u16,
    capabilities: Option<Capabilities>,
    enable_performance_mode: bool,
    initialize_power_limit: Option<u8>,
    startup_command_state: StartupCommandState,
    progress: Progress,
}

impl<'a> View for Inverter<'a> {
    type V = Session;

    closed spec fn view(&self) -> Session {
        Session {
            host: self.host@,
            state: self.state,
            sequence: self.sequence,
            capabilities: match self.capabilities {
                Some(capabilities) => Some(capabilities@),
                None => None,
            },
            enable_performance_mode: self.enable_performance_mode,
            initialize_power_limit: self.initialize_power_limit,
            startup: self.startup_command_state,
            phase: self.progress@,
        }
    }
}

/// The session before anything has happened.
pub open spec fn fresh_session(
    host: Seq<char>,
    enable_performance_mode: bool,
    initialize_power_limit: Option<u8>,
) -> Session {
    Session {
        host,
        state: NetworkState::Unknown,
        sequence: 0,
        capabilities: None,
        enable_performance_mode,
        initialize_power_limit,
        startup: StartupCommandState {
            performance_mode_initialized: false,
            power_limit_initialized: false,
        },
        phase: Phase::Idle,
    }
}

impl<'a> Inverter<'a> {
    /// A session without startup commands.
    pub fn new(host: &'a str) -> (inverter: Self)
        ensures
            inverter@ == fresh_session(host@, false, None),
            inverter@.wf(),
            !inverter@.enable_performance_mode,
            inverter@.initialize_power_limit is None,
    {
        Self::with_options(host, false, None)
    }

    /// A session that sends the given startup commands.
    pub fn with_options(
        host: &'a str,
        enable_performance_mode: bool,
        initialize_power_limit: Option<u8>,
    ) -> (inverter: Self)
        ensures
            inverter@ == fresh_session(host@, enable_performance_mode, initialize_power_limit),
            inverter@.wf(),
    {
        Inverter {
            host,
            state: NetworkState::Unknown,
            sequence: 0,
            capabilities: None,
            enable_performance_mode,
            initialize_power_limit,
            startup_command_state: StartupCommandState::default(),
            progress: Progress::Idle,
        }
    }

    /// The host of the inverter.
    pub fn host(&self) -> (host: &'a str)
        ensures
            host@ == self@.host,
    {
        self.host
    }

    /// Whether the inverter answered the last update.
    pub fn state(&self) -> (state: NetworkState)
        ensures
            state == self@.state,
    {
        self.state
    }

    /// The number of the last request.
    pub fn sequence(&self) -> (sequence: u16)
        ensures
            sequence == self@.sequence,
    {
        self.sequence
    }

    fn set_state(&mut self, new_state: NetworkState)
        ensures
            final(self)@ == (Session { state: new_state, ..old(self)@ }),
    {
        if self.state != new_state {
            self.state = new_state;
        }
    }

    /// Whether the session waits for this event.
    pub fn accepts(&self, event: &Event) -> (b: bool)
        ensures
            b == self@.accepts(event@),
    {
        match event {
            Event::Poll => matches!(self.progress, Progress::Idle),
            Event::Reply(Err(_)) => !matches!(self.progress, Progress::Idle),
            Event::Reply(Ok(reply)) => match &self.progress {
                Progress::Idle => false,
                Progress::Capabilities { .. } => matches!(reply, Reply::ApplicationInformation(_)),
                Progress::PerformanceMode { .. } => matches!(reply, Reply::Command(_)),
                Progress::PowerLimit { .. } => matches!(reply, Reply::Command(_)),
                Progress::Legacy { .. } => matches!(reply, Reply::LegacyRealData(_)),
                Progress::FirstPage { .. } => matches!(reply, Reply::RealDataNew(_)),
                Progress::NextPage { .. } => matches!(reply, Reply::RealDataNew(_)),
            },
        }
    }

    /// Whether the known device encrypts.
    fn encrypts(&self) -> (b: bool)
        ensures
            b == self@.encrypts(),
    {
        match &self.capabilities {
            Some(capabilities) => capabilities.encrypted,
            None => false,
        }
    }

    /// The random string of the known device.
    fn encryption_rand(&self) -> (rand: Option<&[u8]>)
        ensures
            slice_view(rand) == self@.random_string(),
    {
        match &self.capabilities {
            Some(capabilities) => match &capabilities.enc_rand {
                Some(rand) => Some(rand.as_slice()),
                None => None,
            },
            None => None,
        }
    }

    fn ask(&mut self, progress: Progress, query: Query, encrypted: bool) -> (action: Action)
        ensures
            (final(self)@, action@) == old(self)@.asking(progress@, query, encrypted),
    {
        self.progress = progress;
        Action::Exchange { query, encrypted }
    }

    fn finish(&mut self, result: Result<HMSStateResponse, InverterError>) -> (action: Action)
        ensures
            (final(self)@, action@) == old(self)@.finished(telemetry_view(result)),
    {
        self.progress = Progress::Idle;
        if result.is_ok() {
            self.set_state(NetworkState::Online);
        } else {
            self.set_state(NetworkState::Offline);
        }
        Action::Finished(result)
    }

    fn load_capabilities(&mut self, retry: bool) -> (action: Action)
        ensures
            (final(self)@, action@) == old(self)@.loading(retry),
    {
        self.capabilities = None;
        self.ask(Progress::Capabilities { retry }, Query::ApplicationInformation, false)
    }

    /// A command is encrypted exactly where the device encrypts.
    fn send_command(&mut self, progress: Progress, query: Query) -> (action: Action)
        ensures
            (final(self)@, action@) == old(self)@.asking(progress@, query, old(self)@.encrypts()),
    {
        let encrypted = self.encrypts();
        self.ask(progress, query, encrypted)
    }

    /// Asks for the startup command that comes next. Where none is due, as once
    /// each of them has been sent, nothing is asked for and nothing changes.
    /// `retry` says that the update already had its application information
    /// refreshed. An update takes this step by itself.
    pub fn initialize_startup_commands(&mut self, retry: bool) -> (action: Option<Action>)
        ensures
            match old(self)@.startup_command(retry) {
                None => action is None && *final(self) == *old(self),
                Some(next) => action matches Some(asked) && (final(self)@, asked@) == next,
            },
            old(self)@.wf() && old(self)@.capabilities is Some ==> final(self)@.wf(),
    {
        if self.enable_performance_mode && !self.startup_command_state.performance_mode_initialized {
            return Some(self.enable_performance_data_mode(retry));
        }
        if let Some(percent) = self.initialize_power_limit {
            if !self.startup_command_state.power_limit_initialized {
                return Some(self.set_power_limit(retry, percent));
            }
        }
        None
    }

    fn enable_performance_data_mode(&mut self, retry: bool) -> (action: Action)
        ensures
            (final(self)@, action@) == old(self)@.asking(
                Phase::PerformanceMode { retry },
                Query::PerformanceDataMode,
                old(self)@.encrypts(),
            ),
    {
        self.send_command(Progress::PerformanceMode { retry }, Query::PerformanceDataMode)
    }

    fn set_power_limit(&mut self, retry: bool, percent: u8) -> (action: Action)
        ensures
            (final(self)@, action@) == old(self)@.asking(
                Phase::PowerLimit { retry },
                Query::PowerLimit { percent },
                old(self)@.encrypts(),
            ),
    {
        self.send_command(Progress::PowerLimit { retry }, Query::PowerLimit { percent })
    }

    fn start(&mut self, retry: bool) -> (action: Action)
        ensures
            (final(self)@, action@) == old(self)@.starting(retry),
    {
        match self.initialize_startup_commands(retry) {
            Some(action) => action,
            None => self.measure(retry),
        }
    }

    /// Asks for telemetry in the format that fits the device. A device of which
    /// nothing is known is not asked, and the session stays as it is.
    fn request_telemetry(&mut self, retry: bool) -> (r: Result<Action, InverterError>)
        ensures
            match old(self)@.capabilities {
                None => {
                    &&& r == Err::<Action, _>(InverterError::CapabilitiesUnknown)
                    &&& final(self)@ == old(self)@
                },
                Some(device) => r matches Ok(action) && (final(self)@, action@) == (
                if device.encrypted {
                    old(self)@.asking(
                        Phase::FirstPage { retry },
                        Query::RealDataNew { package: 0 },
                        true,
                    )
                } else {
                    old(self)@.asking(Phase::Legacy { retry }, Query::LegacyRealData, false)
                }),
            },
    {
        let encrypted = match &self.capabilities {
            None => {
                return Err(InverterError::CapabilitiesUnknown);
            },
            Some(capabilities) => capabilities.encrypted,
        };
        if encrypted {
            Ok(self.ask(Progress::FirstPage { retry }, Query::RealDataNew { package: 0 }, true))
        } else {
            Ok(self.ask(Progress::Legacy { retry }, Query::LegacyRealData, false))
        }
    }

    fn measure(&mut self, retry: bool) -> (action: Action)
        ensures
            (final(self)@, action@) == old(self)@.measuring(retry),
    {
        match self.request_telemetry(retry) {
            Ok(action) => action,
            Err(e) => self.conclude(retry, Err(e)),
        }
    }

    fn conclude(&mut self, retry: bool, result: Result<HMSStateResponse, InverterError>) -> (action:
        Action)
        ensures
            (final(self)@, action@) == old(self)@.concluding(retry, telemetry_view(result)),
    {
        match result {
            Ok(telemetry) => self.finish(Ok(telemetry)),
            Err(e) => if !retry && is_authentication_failure(&e) {
                self.load_capabilities(true)
            } else {
                self.finish(Err(e))
            },
        }
    }

    fn capabilities_loaded(&mut self, retry: bool, outcome: Result<Reply, InverterError>) -> (action:
        Action)
        ensures
            (final(self)@, action@) == old(self)@.loaded(retry, outcome_view(outcome)),
    {
        match outcome {
            Err(e) => self.finish(Err(e)),
            Ok(Reply::ApplicationInformation(info)) => match read_capabilities(&info) {
                Err(e) => self.finish(Err(e)),
                Ok(capabilities) => {
                    self.capabilities = Some(capabilities);
                    if retry {
                        self.startup_command_state.reset_performance_mode();
                    }
                    self.start(retry)
                },
            },
            Ok(_) => self.finish(Err(InverterError::UnexpectedReply)),
        }
    }

    fn request_legacy_real_data(&mut self, retry: bool, outcome: Result<Reply, InverterError>) -> (
    action: Action)
        requires
            old(self)@.capabilities is Some,
        ensures
            (final(self)@, action@) == old(self)@.legacy_measured(retry, outcome_view(outcome)),
    {
        let result = match outcome {
            Err(e) => Err(e),
            Ok(Reply::LegacyRealData(response)) => match &self.capabilities {
                Some(capabilities) => accept_legacy(response, capabilities),
                None => Err(InverterError::CapabilitiesUnknown),
            },
            Ok(_) => Err(InverterError::UnexpectedReply),
        };
        self.conclude(retry, result)
    }

    fn request_real_data_new(
        &mut self,
        retry: bool,
        next_package: i32,
        package_count: i32,
        so_far: RealDataNewReqDTO,
    ) -> (action: Action)
        requires
            old(self)@.capabilities is Some,
        ensures
            (final(self)@, action@) == old(self)@.collecting(
                retry,
                next_package as int,
                package_count,
                so_far@,
            ),
    {
        if next_package < package_count {
            return self.ask(
                Progress::NextPage { retry, package: next_package, package_count, so_far },
                Query::RealDataNew { package: next_package },
                true,
            );
        }
        let result = match &self.capabilities {
            Some(capabilities) => map_real_data_new(&so_far, capabilities),
            None => Err(InverterError::CapabilitiesUnknown),
        };
        self.conclude(retry, result)
    }

    fn request_real_data_new_page(
        &mut self,
        retry: bool,
        before: Option<(RealDataNewReqDTO, i32, i32)>,
        outcome: Result<Reply, InverterError>,
    ) -> (action: Action)
        requires
            old(self)@.capabilities is Some,
            before matches Some((_, package, package_count)) ==> package < package_count,
        ensures
            (final(self)@, action@) == old(self)@.page_measured(
                retry,
                match before {
                    Some((so_far, package, package_count)) => Some(
                        (so_far@, package as int, package_count),
                    ),
                    None => None,
                },
                outcome_view(outcome),
            ),
    {
        match outcome {
            Err(e) => self.conclude(retry, Err(e)),
            Ok(Reply::RealDataNew(page)) => match before {
                None => {
                    let package_count = if page.ap > 1 {
                        page.ap
                    } else {
                        1
                    };
                    self.request_real_data_new(retry, 1, package_count, page)
                },
                Some((so_far, package, package_count)) => self.request_real_data_new(
                    retry,
                    package + 1,
                    package_count,
                    merge_page(so_far, page),
                ),
            },
            Ok(_) => self.finish(Err(InverterError::UnexpectedReply)),
        }
    }

    /// Numbers and frames the payload of a request, and hands out the reader of
    /// the response. The reader takes an answer under the number of the request,
    /// under its command or the one that answers it, encrypted like the request.
    pub fn send_request(&mut self, query: Query, encrypted: bool, payload: &[u8]) -> (r: Result<
        (Vec<u8>, ResponseReader),
        InverterError,
    >)
        requires
            encrypted ==> payload@.len() + GCM_TAG_LENGTH <= isize::MAX,
        ensures
            final(self)@ == (Session { sequence: following(old(self)@.sequence), ..old(self)@ }),
            final(self)@.sequence == (old(self)@.sequence + 1) % 65536,
            match framed(
                query.command_code(),
                following(old(self)@.sequence),
                payload@,
                encrypted,
                old(self)@.random_string(),
            ) {
                Err(e) => r matches Err(refused) && refused == e,
                Ok(frame) => r matches Ok((sent, reader)) && sent@ == frame && reader@ == (Reading {
                    expected_sequence: following(old(self)@.sequence),
                    encrypted,
                    enc_rand: old(self)@.random_string(),
                    expected_commands: seq![
                        query.command_code(),
                        answering_command(query.command_code()),
                    ],
                    received: Seq::empty(),
                }),
            },
    {
        self.sequence = self.sequence.wrapping_add(1);
        let sequence = self.sequence;
        let enc_rand = self.encryption_rand();
        let frame = match build_frame(query.command(), sequence, payload, encrypted, enc_rand) {
            Err(e) => {
                return Err(e);
            },
            Ok(frame) => frame,
        };
        let expected_commands = query.expected_commands();
        let reader = ResponseReader::new(
            sequence,
            encrypted,
            enc_rand,
            expected_commands.as_slice(),
        );
        Ok((frame, reader))
    }

    /// Takes one step of an update and says what to do next.
    pub fn update_state(&mut self, event: Event) -> (action: Action)
        requires
            old(self)@.wf(),
            old(self)@.accepts(event@),
        ensures
            (final(self)@, action@) == old(self)@.step(event@),
            final(self)@.wf(),
    {
        let outcome = match event {
            Event::Poll => {
                return if self.capabilities.is_none() {
                    self.load_capabilities(false)
                } else {
                    self.start(false)
                };
            },
            Event::Reply(outcome) => outcome,
        };
        let mut progress = Progress::Idle;
        core::mem::swap(&mut self.progress, &mut progress);
        match progress {
            Progress::Idle => self.finish(Err(InverterError::UnexpectedReply)),
            Progress::Capabilities { retry } => self.capabilities_loaded(retry, outcome),
            Progress::PerformanceMode { retry } => {
                self.startup_command_state.mark_performance_mode_initialized();
                self.start(retry)
            },
            Progress::PowerLimit { retry } => {
                self.startup_command_state.mark_power_limit_initialized();
                self.start(retry)
            },
            Progress::Legacy { retry } => self.request_legacy_real_data(retry, outcome),
            Progress::FirstPage { retry } => self.request_real_data_new_page(retry, None, outcome),
            Progress::NextPage { retry, package, package_count, so_far } => {
                self.request_real_data_new_page(
                    retry,
                    Some((so_far, package, package_count)),
                    outcome,
                )
            },
        }
    }
}

/// A fresh session knows its host and its options and nothing else: it has
/// heard nothing, sent nothing and waits for nothing.
pub proof fn law_fresh_session_knows_only_its_options(
    host: Seq<char>,
    enable_performance_mode: bool,
    initialize_power_limit: Option<u8>,
)
    ensures
        ({
            let s = fresh_session(host, enable_performance_mode, initialize_power_limit);
            &&& s.host == host
            &&& s.enable_performance_mode == enable_performance_mode
            &&& s.initialize_power_limit == initialize_power_limit
            &&& s.state == NetworkState::Unknown
            &&& s.sequence == 0
            &&& s.capabilities is None
            &&& !s.startup.performance_mode_initialized
            &&& !s.startup.power_limit_initialized
            &&& s.phase is Idle
        }),
{
}

/// An answer is modelled by its own message, and an outcome by its answer or by
/// its error.
pub proof fn law_answers_are_kept(reply: Reply, failure: InverterError)
    ensures
        reply matches Reply::ApplicationInformation(m) ==> reply@
            == Answer::ApplicationInformation(m@),
        reply matches Reply::Command(m) ==> reply@ == Answer::Command(m),
        reply matches Reply::LegacyRealData(m) ==> reply@ == Answer::LegacyRealData(m@),
        reply matches Reply::RealDataNew(m) ==> reply@ == Answer::RealDataNew(m@),
        outcome_view(Ok(reply)) == Ok::<_, InverterError>(reply@),
        outcome_view(Err(failure)) == Err::<Answer, _>(failure),
{
}

/// An event is modelled as the poll or the outcome that it is.
pub proof fn law_events_are_kept(event: Event)
    ensures
        event is Poll ==> event@ == Stimulus::Poll,
        event matches Event::Reply(Ok(reply)) ==> event@ == Stimulus::Reply(Ok(reply@)),
        event matches Event::Reply(Err(e)) ==> event@ == Stimulus::Reply(Err(e)),
{
}

/// An action is modelled as the exchange that it asks for, or by the telemetry
/// or the error that it ends with.
pub proof fn law_actions_are_kept(action: Action)
    ensures
        action matches Action::Exchange { query, encrypted } ==> action@ == (Move::Exchange {
            query,
            encrypted,
        }),
        action matches Action::Finished(Ok(telemetry)) ==> action@ == Move::Finished(
            Ok(telemetry@),
        ),
        action matches Action::Finished(Err(e)) ==> action@ == Move::Finished(Err(e)),
{
}

} // verus!
