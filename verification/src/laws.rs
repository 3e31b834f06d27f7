//! What holds of every session, whatever the inverter answers.

use crate::capabilities::described;
use crate::course::commands_sent;
use crate::crypto::CryptoError;
use crate::error::InverterError;
use crate::protos::{Page, Telemetry};
use crate::requests::Query;
use crate::session::{
    following, Answer, Move, NetworkState, Outcome, Phase, Session, StartupCommandState, Stimulus,
};
use crate::telemetry::{mapped, merged};
use vstd::prelude::*;

verus! {

/// Whether `answer` is of the kind that `query` asks for.
pub open spec fn answers(query: Query, answer: Answer) -> bool {
    match query {
        Query::ApplicationInformation => answer is ApplicationInformation,
        Query::PerformanceDataMode => answer is Command,
        Query::PowerLimit { .. } => answer is Command,
        Query::LegacyRealData => answer is LegacyRealData,
        Query::RealDataNew { .. } => answer is RealDataNew,
    }
}

/// Whether the update already had its application information refreshed.
pub open spec fn refreshed(phase: Phase) -> bool {
    match phase {
        Phase::Idle => false,
        Phase::Capabilities { retry } => retry,
        Phase::PerformanceMode { retry } => retry,
        Phase::PowerLimit { retry } => retry,
        Phase::Legacy { retry } => retry,
        Phase::FirstPage { retry } => retry,
        Phase::NextPage { retry, .. } => retry,
    }
}

/// Whether the session waits for telemetry.
pub open spec fn measures(phase: Phase) -> bool {
    phase is Legacy || phase is FirstPage || phase is NextPage
}

/// Whether application information is asked for.
pub open spec fn asks_for_information(m: Move) -> bool {
    m matches Move::Exchange { query, .. } && query is ApplicationInformation
}

/// The one failure that has the application information refreshed.
pub open spec fn authentication_failed() -> InverterError {
    InverterError::Crypto(CryptoError::AuthenticationFailed)
}

/// A step leads from a well-formed session to a well-formed session, and leaves
/// host, request number and options alone.
pub proof fn law_step_keeps_session(s: Session, stimulus: Stimulus)
    requires
        s.wf(),
        s.accepts(stimulus),
    ensures
        ({
            let t = s.step(stimulus).0;
            &&& t.wf()
            &&& t.host == s.host
            &&& t.sequence == s.sequence
            &&& t.enable_performance_mode == s.enable_performance_mode
            &&& t.initialize_power_limit == s.initialize_power_limit
        }),
{
}

/// An update ends online exactly with telemetry and offline exactly without;
/// until it ends, the network state stays what it was.
pub proof fn law_network_state_follows_result(s: Session, stimulus: Stimulus)
    requires
        s.wf(),
        s.accepts(stimulus),
    ensures
        match s.step(stimulus) {
            (t, Move::Finished(result)) => {
                &&& t.phase is Idle
                &&& t.state == (if result is Ok {
                    NetworkState::Online
                } else {
                    NetworkState::Offline
                })
            },
            (t, Move::Exchange { .. }) => !(t.phase is Idle) && t.state == s.state,
        },
{
}

/// Whatever a session asks for, it takes both an answer of that kind and a
/// failure.
pub proof fn law_every_exchange_can_be_answered(
    s: Session,
    stimulus: Stimulus,
    answer: Answer,
    failure: InverterError,
)
    requires
        s.wf(),
        s.accepts(stimulus),
    ensures
        s.step(stimulus) matches (t, Move::Exchange { query, encrypted }) ==> t.accepts(
            Stimulus::Reply(Err(failure)),
        ) && (answers(query, answer) ==> t.accepts(Stimulus::Reply(Ok(answer)))),
{
}

/// Telemetry takes the way that fits the device: a device that encrypts is
/// asked for the new format in encrypted frames, any other for the legacy
/// format in plain ones. Commands are encrypted exactly where the device
/// encrypts. Application information is asked for in the plain, and everything
/// else only once it is there.
pub proof fn law_way_follows_encryption(s: Session, stimulus: Stimulus)
    requires
        s.wf(),
        s.accepts(stimulus),
    ensures
        s.step(stimulus) matches (t, Move::Exchange { query, encrypted }) ==> match query {
            Query::ApplicationInformation => !encrypted && t.capabilities is None,
            Query::RealDataNew { .. } => {
                encrypted && (t.capabilities matches Some(device) && device.encrypted)
            },
            Query::LegacyRealData => {
                !encrypted && (t.capabilities matches Some(device) && !device.encrypted)
            },
            _ => t.capabilities matches Some(device) && encrypted == device.encrypted,
        },
{
}

/// An encrypted exchange always finds a random string of the right length.
pub proof fn law_encryption_has_a_random_string(s: Session, stimulus: Stimulus)
    requires
        s.wf(),
        s.accepts(stimulus),
    ensures
        s.step(stimulus) matches (t, Move::Exchange { query, encrypted }) ==> encrypted ==> (
        t.random_string() matches Some(rand) && rand.len() == crate::crypto::ENC_RAND_LENGTH),
{
}

/// How a startup command went makes no difference to the update: a refusal or
/// a lost exchange is passed over.
pub proof fn law_startup_commands_never_stop_an_update(s: Session, a: Outcome, b: Outcome)
    requires
        s.phase is PerformanceMode || s.phase is PowerLimit,
    ensures
        s.step(Stimulus::Reply(a)) == s.step(Stimulus::Reply(b)),
{
}

/// The power limit is sent once: it counts as sent as soon as its exchange is
/// over, that never changes back, and it is then not asked for any more.
/// Without the option it is never sent, and with it never another limit.
pub proof fn law_power_limit_is_sent_once(s: Session, stimulus: Stimulus)
    requires
        s.wf(),
        s.accepts(stimulus),
    ensures
        ({
            let (t, m) = s.step(stimulus);
            &&& s.phase is PowerLimit ==> t.startup.power_limit_initialized
            &&& s.startup.power_limit_initialized ==> t.startup.power_limit_initialized
            &&& m matches Move::Exchange { query: Query::PowerLimit { percent }, .. }
                ==> !t.startup.power_limit_initialized && s.initialize_power_limit == Some(percent)
        }),
{
}

/// The performance data mode is asked for only where the option is set, and
/// once: it counts as asked for as soon as its exchange is over, and only fresh
/// application information after a failure to authenticate changes that back.
pub proof fn law_performance_mode_is_sent_once(s: Session, stimulus: Stimulus)
    requires
        s.wf(),
        s.accepts(stimulus),
    ensures
        ({
            let (t, m) = s.step(stimulus);
            &&& s.phase is PerformanceMode ==> t.startup.performance_mode_initialized
            &&& s.startup.performance_mode_initialized && !t.startup.performance_mode_initialized
                ==> s.phase == (Phase::Capabilities { retry: true })
            &&& m matches Move::Exchange { query: Query::PerformanceDataMode, .. }
                ==> s.enable_performance_mode && !t.startup.performance_mode_initialized
        }),
{
}

/// Within an update application information is refreshed for one reason, a
/// failure to authenticate telemetry, and once: after that every step either
/// ends the update or stays past the refresh.
pub proof fn law_refresh_happens_once(s: Session, outcome: Outcome)
    requires
        s.wf(),
        s.accepts(Stimulus::Reply(outcome)),
    ensures
        ({
            let (t, m) = s.step(Stimulus::Reply(outcome));
            &&& asks_for_information(m) <==> measures(s.phase) && !refreshed(s.phase) && outcome
                == Err::<Answer, InverterError>(authentication_failed())
            &&& m is Exchange && refreshed(s.phase) ==> refreshed(t.phase)
            &&& m is Exchange && !refreshed(s.phase) && refreshed(t.phase) ==> t.phase == (
            Phase::Capabilities { retry: true })
        }),
{
}

/// Telemetry is awaited only once all startup commands are done with, and a
/// refresh of application information never brings the power limit back: only
/// the performance data mode can then be asked for once more.
pub proof fn law_nothing_is_due_while_measuring(s: Session, outcome: Outcome)
    requires
        s.wf(),
        measures(s.phase),
        s.accepts(Stimulus::Reply(outcome)),
    ensures
        s.started(),
        s.step(Stimulus::Reply(outcome)).0.started(),
{
}

/// The startup commands are sent once: one is asked for exactly where one is
/// due. Once the commands that were due are done with, none is due any more, so
/// that none is asked for and telemetry comes at once. After the performance
/// data mode alone has been reset, nothing else can be asked for again.
pub proof fn law_startup_commands_are_done_once(s: Session, retry: bool)
    ensures
        s.startup_command(retry) is None <==> s.started(),
        commands_sent(s).started(),
        commands_sent(s).startup_command(retry) is None,
        commands_sent(s).starting(retry) == commands_sent(s).measuring(retry),
        ({
            let reset = Session {
                startup: StartupCommandState {
                    performance_mode_initialized: false,
                    ..commands_sent(s).startup
                },
                ..commands_sent(s)
            };
            reset.startup_command(retry) matches Some((_, m)) ==> asks_for_performance_mode(m)
        }),
{
}

/// Telemetry is never asked for from a device of which nothing is known: the
/// update ends with that reason instead.
pub proof fn law_unknown_device_is_not_measured(s: Session, retry: bool)
    requires
        s.capabilities is None,
    ensures
        s.measuring(retry) == s.finished(Err(InverterError::CapabilitiesUnknown)),
{
}

/// How far a session is from the end of its update: attempts left, then steps
/// left in the attempt, then pages left.
pub open spec fn distance(phase: Phase) -> (nat, nat, nat) {
    let attempts: nat = if phase is Idle {
        0
    } else if refreshed(phase) {
        1
    } else {
        2
    };
    match phase {
        Phase::Idle => (attempts, 0, 0),
        Phase::Capabilities { .. } => (attempts, 5, 0),
        Phase::PerformanceMode { .. } => (attempts, 4, 0),
        Phase::PowerLimit { .. } => (attempts, 3, 0),
        Phase::FirstPage { .. } => (attempts, 2, 0),
        Phase::NextPage { package, package_count, .. } => (
            attempts,
            1,
            (package_count - package) as nat,
        ),
        Phase::Legacy { .. } => (attempts, 1, 0),
    }
}

/// Whether one distance is shorter than another.
pub open spec fn closer(a: (nat, nat, nat), b: (nat, nat, nat)) -> bool {
    ||| a.0 < b.0
    ||| a.0 == b.0 && a.1 < b.1
    ||| a.0 == b.0 && a.1 == b.1 && a.2 < b.2
}

/// Every outcome brings an update closer to its end, so that every update ends.
pub proof fn law_every_update_ends(s: Session, outcome: Outcome)
    requires
        s.wf(),
        s.accepts(Stimulus::Reply(outcome)),
    ensures
        closer(distance(s.step(Stimulus::Reply(outcome)).0.phase), distance(s.phase)),
{
}

proof fn lemma_loaded_ignores_numbering(
    s: Session,
    retry: bool,
    outcome: Outcome,
    sequence: u16,
)
    ensures
        (Session { sequence, ..s }).loaded(retry, outcome) == (
            Session { sequence, ..s.loaded(retry, outcome).0 },
            s.loaded(retry, outcome).1,
        ),
{
}

/// The numbering of requests has no influence on the course of an update.
pub proof fn law_step_ignores_numbering(s: Session, stimulus: Stimulus, sequence: u16)
    ensures
        (Session { sequence, ..s }).step(stimulus) == (
            Session { sequence, ..s.step(stimulus).0 },
            s.step(stimulus).1,
        ),
{
    match stimulus {
        Stimulus::Poll => {},
        Stimulus::Reply(outcome) => {
            match s.phase {
                Phase::Idle => {},
                Phase::Capabilities { retry } => {
                    lemma_loaded_ignores_numbering(s, retry, outcome, sequence);
                },
                Phase::PerformanceMode { .. } => {},
                Phase::PowerLimit { .. } => {},
                Phase::Legacy { .. } => {},
                Phase::FirstPage { .. } => {},
                Phase::NextPage { .. } => {},
            }
        },
    }
}

/// Whether a session goes through the states of `history`, driven by `stimuli`;
/// between two steps requests may have been numbered.
pub open spec fn lived(history: Seq<Session>, stimuli: Seq<Stimulus>) -> bool {
    &&& history.len() == stimuli.len() + 1
    &&& history[0].wf()
    &&& forall|i: int|
        #![trigger stimuli[i]]
        0 <= i < stimuli.len() ==> history[i].accepts(stimuli[i]) && history[i + 1] == (Session {
            sequence: history[i + 1].sequence,
            ..history[i].step(stimuli[i]).0
        })
}

/// What a session asked for in its step number `i`.
pub open spec fn asked(history: Seq<Session>, stimuli: Seq<Stimulus>, i: int) -> Move {
    history[i].step(stimuli[i]).1
}

/// Whether the power limit is asked for.
pub open spec fn asks_for_power_limit(m: Move) -> bool {
    m matches Move::Exchange { query, .. } && query is PowerLimit
}

/// Whether the performance data mode is asked for.
pub open spec fn asks_for_performance_mode(m: Move) -> bool {
    m matches Move::Exchange { query, .. } && query is PerformanceDataMode
}

/// A session is well-formed all its life.
pub proof fn law_session_stays_well_formed(
    history: Seq<Session>,
    stimuli: Seq<Stimulus>,
    i: int,
)
    requires
        lived(history, stimuli),
        0 <= i <= stimuli.len(),
    ensures
        history[i].wf(),
    decreases i,
{
    if i > 0 {
        law_session_stays_well_formed(history, stimuli, i - 1);
        let stimulus = stimuli[i - 1];
        law_step_keeps_session(history[i - 1], stimulus);
    }
}

/// Once the power limit has been asked for, its exchange is under way or it
/// counts as sent.
proof fn lemma_power_limit_under_way(
    history: Seq<Session>,
    stimuli: Seq<Stimulus>,
    i: int,
    j: int,
)
    requires
        lived(history, stimuli),
        0 <= i < j <= stimuli.len(),
        asks_for_power_limit(asked(history, stimuli, i)),
    ensures
        history[j].phase is PowerLimit || history[j].startup.power_limit_initialized,
    decreases j,
{
    let stimulus = stimuli[j - 1];
    law_session_stays_well_formed(history, stimuli, j - 1);
    law_power_limit_is_sent_once(history[j - 1], stimulus);
    if i < j - 1 {
        lemma_power_limit_under_way(history, stimuli, i, j - 1);
    }
}

/// In all its life, over any number of updates, a session sends the power limit
/// at most once.
pub proof fn law_power_limit_is_never_sent_twice(
    history: Seq<Session>,
    stimuli: Seq<Stimulus>,
    i: int,
    j: int,
)
    requires
        lived(history, stimuli),
        0 <= i < j < stimuli.len(),
        asks_for_power_limit(asked(history, stimuli, i)),
    ensures
        !asks_for_power_limit(asked(history, stimuli, j)),
{
    lemma_power_limit_under_way(history, stimuli, i, j);
    law_session_stays_well_formed(history, stimuli, j);
    law_power_limit_is_sent_once(history[j], stimuli[j]);
}

/// Once the performance data mode has been asked for, its exchange is under way
/// or it counts as asked for, unless application information was refreshed.
proof fn lemma_performance_mode_under_way(
    history: Seq<Session>,
    stimuli: Seq<Stimulus>,
    i: int,
    j: int,
)
    requires
        lived(history, stimuli),
        0 <= i < j <= stimuli.len(),
        asks_for_performance_mode(asked(history, stimuli, i)),
        forall|k: int|
            i < k < j ==> (#[trigger] history[k]).phase != (Phase::Capabilities { retry: true }),
    ensures
        history[j].phase is PerformanceMode || history[j].startup.performance_mode_initialized,
    decreases j,
{
    let stimulus = stimuli[j - 1];
    law_session_stays_well_formed(history, stimuli, j - 1);
    law_performance_mode_is_sent_once(history[j - 1], stimulus);
    if i < j - 1 {
        lemma_performance_mode_under_way(history, stimuli, i, j - 1);
        assert(history[j - 1].phase != (Phase::Capabilities { retry: true }));
    }
}

/// Between two requests for the performance data mode application information
/// is always refreshed after a failure to authenticate.
pub proof fn law_performance_mode_is_repeated_only_after_a_refresh(
    history: Seq<Session>,
    stimuli: Seq<Stimulus>,
    i: int,
    j: int,
)
    requires
        lived(history, stimuli),
        0 <= i < j < stimuli.len(),
        asks_for_performance_mode(asked(history, stimuli, i)),
        asks_for_performance_mode(asked(history, stimuli, j)),
    ensures
        exists|k: int|
            i < k <= j && (#[trigger] history[k]).phase == (Phase::Capabilities { retry: true }),
{
    if forall|k: int|
        i < k <= j ==> (#[trigger] history[k]).phase != (Phase::Capabilities { retry: true }) {
        lemma_performance_mode_under_way(history, stimuli, i, j);
        law_session_stays_well_formed(history, stimuli, j);
        assert(history[j].phase != (Phase::Capabilities { retry: true }));
        law_performance_mode_is_sent_once(history[j], stimuli[j]);
    }
}

/// Whether an attempt goes on from `s`, of whose device everything is known, as
/// it should: with the performance data mode where that is wanted and was not
/// asked for, else with the power limit where one is set and was not sent, else
/// with telemetry. Commands are encrypted where the device encrypts.
pub open spec fn goes_on(s: Session, retry: bool, next: (Session, Move)) -> bool
    recommends
        s.capabilities is Some,
{
    let device = s.capabilities->0;
    if s.enable_performance_mode && !s.startup.performance_mode_initialized {
        &&& next.0 == (Session { phase: Phase::PerformanceMode { retry }, ..s })
        &&& next.1 == (Move::Exchange {
            query: Query::PerformanceDataMode,
            encrypted: device.encrypted,
        })
    } else if s.initialize_power_limit is Some && !s.startup.power_limit_initialized {
        &&& next.0 == (Session { phase: Phase::PowerLimit { retry }, ..s })
        &&& next.1 == (Move::Exchange {
            query: Query::PowerLimit { percent: s.initialize_power_limit->0 },
            encrypted: device.encrypted,
        })
    } else if device.encrypted {
        &&& next.0 == (Session { phase: Phase::FirstPage { retry }, ..s })
        &&& next.1 == (Move::Exchange { query: Query::RealDataNew { package: 0 }, encrypted: true })
    } else {
        &&& next.0 == (Session { phase: Phase::Legacy { retry }, ..s })
        &&& next.1 == (Move::Exchange { query: Query::LegacyRealData, encrypted: false })
    }
}

/// Whether an update ends with telemetry as it should: online, and with nothing
/// else changed.
pub open spec fn ends_well(s: Session, telemetry: Telemetry, next: (Session, Move)) -> bool {
    &&& next.0 == (Session { phase: Phase::Idle, state: NetworkState::Online, ..s })
    &&& next.1 == Move::Finished(Ok(telemetry))
}

/// Whether an update ends without telemetry as it should: offline, with the
/// reason, and with nothing else changed.
pub open spec fn ends_badly(s: Session, reason: InverterError, next: (Session, Move)) -> bool {
    &&& next.0 == (Session { phase: Phase::Idle, state: NetworkState::Offline, ..s })
    &&& next.1 == Move::Finished(Err(reason))
}

/// Whether a failure to get telemetry is taken as it should be: the first
/// failure to authenticate has application information asked for once more,
/// with what was known forgotten; every other ends the update.
pub open spec fn takes_failure(
    s: Session,
    retry: bool,
    reason: InverterError,
    next: (Session, Move),
) -> bool {
    if reason == InverterError::Crypto(CryptoError::AuthenticationFailed) && !retry {
        &&& next.0 == (Session {
            capabilities: None,
            phase: Phase::Capabilities { retry: true },
            ..s
        })
        &&& next.1 == (Move::Exchange { query: Query::ApplicationInformation, encrypted: false })
    } else {
        ends_badly(s, reason, next)
    }
}

/// Whether a result is taken as it should be, telemetry or failure.
pub open spec fn takes_result(
    s: Session,
    retry: bool,
    result: Result<Telemetry, InverterError>,
    next: (Session, Move),
) -> bool {
    match result {
        Ok(telemetry) => ends_well(s, telemetry, next),
        Err(reason) => takes_failure(s, retry, reason, next),
    }
}

/// A poll asks for application information in the plain where none is known, and
/// else goes on with the attempt.
pub proof fn law_poll_starts_an_update(s: Session)
    requires
        s.wf(),
        s.phase is Idle,
    ensures
        s.capabilities is None ==> s.step(Stimulus::Poll) == (
            Session { phase: Phase::Capabilities { retry: false }, ..s },
            Move::Exchange { query: Query::ApplicationInformation, encrypted: false },
        ),
        s.capabilities is Some ==> goes_on(s, false, s.step(Stimulus::Poll)),
{
    if s.capabilities is None {
        assert(Session { capabilities: None, ..s } == s);
    }
}

/// Application information makes the device known that it describes, and the
/// attempt goes on; only after a refresh does the performance data mode count as
/// not asked for. Without it the update ends.
pub proof fn law_information_makes_the_device_known(s: Session, retry: bool, outcome: Outcome)
    requires
        s.wf(),
        s.phase == (Phase::Capabilities { retry }),
        s.accepts(Stimulus::Reply(outcome)),
    ensures
        ({
            let next = s.step(Stimulus::Reply(outcome));
            match outcome {
                Err(e) => ends_badly(s, e, next),
                Ok(answer) => {
                    let info = answer->ApplicationInformation_0;
                    &&& answer is ApplicationInformation
                    &&& described(info) matches Err(e) ==> ends_badly(s, e, next)
                    &&& described(info) matches Ok(device) ==> goes_on(
                        Session {
                            capabilities: Some(device),
                            startup: StartupCommandState {
                                performance_mode_initialized: if retry {
                                    false
                                } else {
                                    s.startup.performance_mode_initialized
                                },
                                power_limit_initialized: s.startup.power_limit_initialized,
                            },
                            ..s
                        },
                        retry,
                        next,
                    )
                },
            }
        }),
{
}

/// However the performance data mode went, it counts as asked for, and the
/// attempt goes on.
pub proof fn law_performance_mode_is_passed_over(s: Session, retry: bool, outcome: Outcome)
    requires
        s.wf(),
        s.phase == (Phase::PerformanceMode { retry }),
        s.accepts(Stimulus::Reply(outcome)),
    ensures
        goes_on(
            Session {
                startup: StartupCommandState {
                    performance_mode_initialized: true,
                    power_limit_initialized: s.startup.power_limit_initialized,
                },
                ..s
            },
            retry,
            s.step(Stimulus::Reply(outcome)),
        ),
{
}

/// However the power limit went, it counts as sent, and the attempt goes on.
pub proof fn law_power_limit_is_passed_over(s: Session, retry: bool, outcome: Outcome)
    requires
        s.wf(),
        s.phase == (Phase::PowerLimit { retry }),
        s.accepts(Stimulus::Reply(outcome)),
    ensures
        goes_on(
            Session {
                startup: StartupCommandState {
                    performance_mode_initialized: s.startup.performance_mode_initialized,
                    power_limit_initialized: true,
                },
                ..s
            },
            retry,
            s.step(Stimulus::Reply(outcome)),
        ),
{
}

/// An update of a device that does not encrypt ends with exactly the telemetry
/// that it answered, unless neither the answer nor the device names the DTU.
pub proof fn law_legacy_answer_is_handed_on(s: Session, retry: bool, outcome: Outcome)
    requires
        s.wf(),
        s.phase == (Phase::Legacy { retry }),
        s.accepts(Stimulus::Reply(outcome)),
    ensures
        ({
            let next = s.step(Stimulus::Reply(outcome));
            match outcome {
                Err(e) => takes_failure(s, retry, e, next),
                Ok(answer) => {
                    let telemetry = answer->LegacyRealData_0;
                    &&& answer is LegacyRealData
                    &&& telemetry.dtu_sn.len() > 0 || s.capabilities->0.dtu_serial_number.len() > 0
                        ==> ends_well(s, telemetry, next)
                    &&& telemetry.dtu_sn.len() == 0 && s.capabilities->0.dtu_serial_number.len()
                        == 0 ==> ends_badly(s, InverterError::MissingSerialNumber, next)
                },
            }
        }),
{
}

/// A poll of a known device that does not encrypt, with nothing else to send,
/// takes one plain exchange, and hands on what the device answers.
pub proof fn law_legacy_update_hands_on_the_answer(s: Session, telemetry: Telemetry, number: u16)
    requires
        s.wf(),
        s.phase is Idle,
        s.capabilities matches Some(device) && !device.encrypted,
        s.startup.performance_mode_initialized || !s.enable_performance_mode,
        s.startup.power_limit_initialized || s.initialize_power_limit is None,
        telemetry.dtu_sn.len() > 0,
    ensures
        ({
            let (asked, m) = s.step(Stimulus::Poll);
            let numbered = Session { sequence: number, ..asked };
            &&& m == (Move::Exchange { query: Query::LegacyRealData, encrypted: false })
            &&& ends_well(
                Session { sequence: number, ..s },
                telemetry,
                numbered.step(Stimulus::Reply(Ok(Answer::LegacyRealData(telemetry)))),
            )
        }),
{
}

/// The first page says how many pages there are. Where there is only one it is
/// the telemetry; else the second is asked for.
pub proof fn law_first_page_says_how_many(s: Session, retry: bool, outcome: Outcome)
    requires
        s.wf(),
        s.phase == (Phase::FirstPage { retry }),
        s.accepts(Stimulus::Reply(outcome)),
    ensures
        ({
            let next = s.step(Stimulus::Reply(outcome));
            match outcome {
                Err(e) => takes_failure(s, retry, e, next),
                Ok(answer) => {
                    let page = answer->RealDataNew_0;
                    &&& answer is RealDataNew
                    &&& page.ap <= 1 ==> takes_result(
                        s,
                        retry,
                        mapped(page, s.capabilities->0),
                        next,
                    )
                    &&& page.ap > 1 ==> next == (
                        Session {
                            phase: Phase::NextPage {
                                retry,
                                package: 1,
                                package_count: page.ap,
                                so_far: page,
                            },
                            ..s
                        },
                        Move::Exchange { query: Query::RealDataNew { package: 1 }, encrypted: true },
                    )
                },
            }
        }),
{
}

/// Each further page is merged behind those before it, the next one is asked
/// for by its number, and after the last of them all pages together are the
/// telemetry.
pub proof fn law_next_page_is_merged_behind(
    s: Session,
    retry: bool,
    package: i32,
    package_count: i32,
    so_far: Page,
    outcome: Outcome,
)
    requires
        s.wf(),
        s.phase == (Phase::NextPage { retry, package, package_count, so_far }),
        s.accepts(Stimulus::Reply(outcome)),
    ensures
        ({
            let next = s.step(Stimulus::Reply(outcome));
            match outcome {
                Err(e) => takes_failure(s, retry, e, next),
                Ok(answer) => {
                    let all = merged(so_far, answer->RealDataNew_0);
                    &&& answer is RealDataNew
                    &&& package + 1 >= package_count ==> takes_result(
                        s,
                        retry,
                        mapped(all, s.capabilities->0),
                        next,
                    )
                    &&& package + 1 < package_count ==> next == (
                        Session {
                            phase: Phase::NextPage {
                                retry,
                                package: (package + 1) as i32,
                                package_count,
                                so_far: all,
                            },
                            ..s
                        },
                        Move::Exchange {
                            query: Query::RealDataNew { package: (package + 1) as i32 },
                            encrypted: true,
                        },
                    )
                },
            }
        }),
{
}

/// A session takes a poll exactly while it is idle, a failure exactly while it
/// is not, and an answer exactly while it waits for one of that kind.
pub proof fn law_session_takes_what_it_waits_for(
    s: Session,
    failure: InverterError,
    answer: Answer,
)
    ensures
        s.accepts(Stimulus::Poll) <==> s.phase is Idle,
        s.accepts(Stimulus::Reply(Err(failure))) <==> !(s.phase is Idle),
        answer is ApplicationInformation ==> (s.accepts(Stimulus::Reply(Ok(answer)))
            <==> s.phase is Capabilities),
        answer is Command ==> (s.accepts(Stimulus::Reply(Ok(answer))) <==> s.phase
            is PerformanceMode || s.phase is PowerLimit),
        answer is LegacyRealData ==> (s.accepts(Stimulus::Reply(Ok(answer))) <==> s.phase
            is Legacy),
        answer is RealDataNew ==> (s.accepts(Stimulus::Reply(Ok(answer))) <==> s.phase is FirstPage
            || s.phase is NextPage),
{
}

/// Whether a session encrypts, and with which random string, is what is known of
/// its device; of an unknown device there is neither.
pub proof fn law_encryption_is_that_of_the_device(s: Session)
    ensures
        s.encrypts() <==> s.capabilities is Some && s.capabilities->0.encrypted,
        s.capabilities is None ==> s.random_string() is None,
        s.capabilities matches Some(device) ==> s.random_string() == device.enc_rand,
{
}

/// What a well-formed session can rely on: the random string of its device is
/// there exactly where the device encrypts and has sixteen bytes, and nothing
/// but application information is awaited from an unknown device.
pub proof fn law_well_formed_sessions_know_their_device(s: Session)
    requires
        s.wf(),
    ensures
        s.capabilities matches Some(device) ==> (device.encrypted <==> device.enc_rand is Some),
        s.capabilities matches Some(device) ==> (device.enc_rand matches Some(rand) ==> rand.len()
            == 16),
        s.capabilities is None ==> s.phase is Idle || s.phase is Capabilities,
        s.phase is Legacy ==> !s.capabilities->0.encrypted,
        s.phase is FirstPage || s.phase is NextPage ==> s.capabilities->0.encrypted,
        s.phase matches Phase::NextPage { package, package_count, .. } ==> 1 <= package
            < package_count,
{
}

/// Requests are numbered one after the other, and start over behind 65535.
pub proof fn law_requests_are_numbered_in_order(sequence: u16)
    ensures
        following(sequence) == (sequence + 1) % 65536,
{
}

/// The startup command that comes next is the performance data mode where that
/// is wanted and was not asked for, else the power limit where one is set and
/// was not sent, else none.
pub proof fn law_next_startup_command(s: Session, retry: bool)
    requires
        s.capabilities is Some,
    ensures
        s.startup_command(retry) is None <==> (s.startup.performance_mode_initialized
            || !s.enable_performance_mode) && (s.startup.power_limit_initialized
            || s.initialize_power_limit is None),
        s.startup_command(retry) matches Some(next) ==> goes_on(s, retry, next),
{
}

} // verus!
