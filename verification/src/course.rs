//! The course of a whole update, told in one go, and the proof that the steps of
//! a session add up to it.
//!
//! The outcomes of all exchanges of an update are given as one list; each part
//! of the course takes from its front what it needs and hands on the rest.
//! Where the list is too short, or an answer is not of the kind that was asked
//! for, there is no course.

use crate::capabilities::{described, Device};
use crate::crypto::CryptoError;
use crate::error::InverterError;
use crate::laws::law_step_ignores_numbering;
use crate::protos::{Page, Telemetry};
use crate::session::{
    announced_pages, Answer, Move, NetworkState, Outcome, Phase, Session, StartupCommandState,
    Stimulus,
};
use crate::telemetry::{accepted, mapped, merged};
use vstd::prelude::*;

verus! {

/// The pages from number `package` on, merged into those before.
pub open spec fn pages(
    so_far: Page,
    package: int,
    package_count: i32,
    outcomes: Seq<Outcome>,
) -> Option<(Result<Page, InverterError>, Seq<Outcome>)>
    decreases outcomes.len(),
{
    if package >= package_count {
        Some((Ok(so_far), outcomes))
    } else if outcomes.len() == 0 {
        None
    } else {
        let rest = outcomes.drop_first();
        match outcomes[0] {
            Err(e) => Some((Err(e), rest)),
            Ok(Answer::RealDataNew(page)) => pages(
                merged(so_far, page),
                package + 1,
                package_count,
                rest,
            ),
            Ok(_) => None,
        }
    }
}

/// Telemetry: all pages that the first one announces from a device that
/// encrypts, one legacy answer from any other.
pub open spec fn measurement(device: Device, outcomes: Seq<Outcome>) -> Option<
    (Result<Telemetry, InverterError>, Seq<Outcome>),
> {
    if outcomes.len() == 0 {
        None
    } else {
        let rest = outcomes.drop_first();
        match outcomes[0] {
            Err(e) => Some((Err(e), rest)),
            Ok(Answer::RealDataNew(page)) if device.encrypted => match pages(
                page,
                1,
                announced_pages(page),
                rest,
            ) {
                None => None,
                Some((Err(e), rest)) => Some((Err(e), rest)),
                Some((Ok(all), rest)) => Some((mapped(all, device), rest)),
            },
            Ok(Answer::LegacyRealData(telemetry)) if !device.encrypted => Some(
                (accepted(telemetry, device), rest),
            ),
            Ok(_) => None,
        }
    }
}

/// The number of startup commands that are still to be sent.
pub open spec fn commands_due(s: Session) -> int {
    (if s.performance_mode_due() {
        1int
    } else {
        0
    }) + (if s.power_limit_due() {
        1int
    } else {
        0
    })
}

/// The session once no startup command is due.
pub open spec fn commands_sent(s: Session) -> Session {
    Session {
        startup: StartupCommandState {
            performance_mode_initialized: s.startup.performance_mode_initialized
                || s.enable_performance_mode,
            power_limit_initialized: s.startup.power_limit_initialized || s.initialize_power_limit
                is Some,
        },
        ..s
    }
}

/// One attempt: the startup commands that are due, however they go, and then
/// telemetry.
pub open spec fn attempt(s: Session, outcomes: Seq<Outcome>) -> Option<
    (Session, Result<Telemetry, InverterError>, Seq<Outcome>),
> {
    if outcomes.len() < commands_due(s) || s.capabilities is None {
        None
    } else {
        match measurement(s.capabilities->0, outcomes.skip(commands_due(s))) {
            None => None,
            Some((result, rest)) => Some((commands_sent(s), result, rest)),
        }
    }
}

/// Application information: the session with the device that it describes, or
/// why there is none. A refresh has the performance data mode asked for once
/// more.
pub open spec fn information(s: Session, refresh: bool, outcomes: Seq<Outcome>) -> Option<
    (Result<Session, InverterError>, Seq<Outcome>),
> {
    if outcomes.len() == 0 {
        None
    } else {
        let rest = outcomes.drop_first();
        match outcomes[0] {
            Err(e) => Some((Err(e), rest)),
            Ok(Answer::ApplicationInformation(info)) => match described(info) {
                Err(e) => Some((Err(e), rest)),
                Ok(device) => Some(
                    (
                        Ok(
                            Session {
                                capabilities: Some(device),
                                startup: StartupCommandState {
                                    performance_mode_initialized: !refresh
                                        && s.startup.performance_mode_initialized,
                                    ..s.startup
                                },
                                ..s
                            },
                        ),
                        rest,
                    ),
                ),
            },
            Ok(_) => None,
        }
    }
}

/// The end of an update: the session, and telemetry or the reason why there is
/// none.
pub type Ending = (Session, Result<Telemetry, InverterError>);

/// The session after an update with the given result.
pub open spec fn ended(s: Session, result: Result<Telemetry, InverterError>) -> Ending {
    let state = if result is Ok {
        NetworkState::Online
    } else {
        NetworkState::Offline
    };
    (Session { phase: Phase::Idle, state, ..s }, result)
}

/// A second attempt, after application information has been refreshed.
pub open spec fn second_attempt(s: Session, outcomes: Seq<Outcome>) -> Option<Ending> {
    let forgotten = Session { capabilities: None, ..s };
    match information(forgotten, true, outcomes) {
        None => None,
        Some((Err(e), _)) => Some(ended(forgotten, Err(e))),
        Some((Ok(informed), outcomes)) => match attempt(informed, outcomes) {
            None => None,
            Some((tried, result, _)) => Some(ended(tried, result)),
        },
    }
}

/// An attempt, and a second one where the first failed to authenticate.
pub open spec fn attempts(s: Session, outcomes: Seq<Outcome>) -> Option<Ending> {
    match attempt(s, outcomes) {
        None => None,
        Some((tried, result, rest)) => if result == Err::<Telemetry, InverterError>(
            InverterError::Crypto(CryptoError::AuthenticationFailed),
        ) {
            second_attempt(tried, rest)
        } else {
            Some(ended(tried, result))
        },
    }
}

/// A whole update: application information where none is known, and then the
/// attempts.
pub open spec fn update(s: Session, outcomes: Seq<Outcome>) -> Option<Ending> {
    if s.capabilities is Some {
        attempts(s, outcomes)
    } else {
        match information(s, false, outcomes) {
            None => None,
            Some((Err(e), _)) => Some(ended(s, Err(e))),
            Some((Ok(informed), outcomes)) => attempts(informed, outcomes),
        }
    }
}

proof fn lemma_pages(
    s: Session,
    retry: bool,
    so_far: Page,
    package: int,
    package_count: i32,
    outcomes: Seq<Outcome>,
)
    requires
        s.capabilities is Some,
        1 <= package,
        pages(so_far, package, package_count, outcomes) is Some,
    ensures
        ({
            let (collected, rest) = pages(so_far, package, package_count, outcomes)->0;
            let result = match collected {
                Err(e) => Err(e),
                Ok(all) => mapped(all, s.capabilities->0),
            };
            Session::run(s.collecting(retry, package, package_count, so_far), outcomes)
                == Session::run(s.concluding(retry, result), rest)
        }),
    decreases outcomes.len(),
{
    if package < package_count {
        let now = s.collecting(retry, package, package_count, so_far);
        let rest = outcomes.drop_first();
        match outcomes[0] {
            Ok(Answer::RealDataNew(page)) => {
                lemma_pages(
                    now.0,
                    retry,
                    merged(so_far, page),
                    package + 1,
                    package_count,
                    rest,
                );
            },
            _ => {},
        }
    }
}

proof fn lemma_measurement(s: Session, retry: bool, outcomes: Seq<Outcome>)
    requires
        s.capabilities is Some,
        measurement(s.capabilities->0, outcomes) is Some,
    ensures
        ({
            let (result, rest) = measurement(s.capabilities->0, outcomes)->0;
            Session::run(s.measuring(retry), outcomes) == Session::run(
                s.concluding(retry, result),
                rest,
            )
        }),
{
    let now = s.measuring(retry);
    let rest = outcomes.drop_first();
    match outcomes[0] {
        Ok(Answer::RealDataNew(page)) => {
            lemma_pages(now.0, retry, page, 1, announced_pages(page), rest);
        },
        _ => {},
    }
}

proof fn lemma_attempt(s: Session, retry: bool, outcomes: Seq<Outcome>)
    requires
        attempt(s, outcomes) is Some,
    ensures
        ({
            let (tried, result, rest) = attempt(s, outcomes)->0;
            Session::run(s.starting(retry), outcomes) == Session::run(
                tried.concluding(retry, result),
                rest,
            )
        }),
{
    let mut now = s.starting(retry);
    let mut left = outcomes;
    assert(outcomes.skip(0) == outcomes);
    if s.performance_mode_due() {
        let outcome = left[0];
        now = now.0.step(Stimulus::Reply(outcome));
        left = left.drop_first();
        assert(left == outcomes.skip(1));
    }
    if s.power_limit_due() {
        let outcome = left[0];
        now = now.0.step(Stimulus::Reply(outcome));
        left = left.drop_first();
        assert(left == outcomes.skip(commands_due(s)));
    }
    assert(Session::run(s.starting(retry), outcomes) == Session::run(now, left)) by {
        reveal_with_fuel(Session::run, 3);
    }
    let tried = Session { phase: now.0.phase, ..commands_sent(s) };
    assert(now == tried.measuring(retry));
    lemma_measurement(tried, retry, left);
}

/// The startup commands that are due are asked for one after the other, and
/// whatever comes back, telemetry is asked for next.
pub proof fn law_startup_sends_what_is_due(s: Session, retry: bool, outcomes: Seq<Outcome>)
    requires
        s.capabilities is Some,
        outcomes.len() == commands_due(s),
    ensures
        Session::run(s.starting(retry), outcomes) == commands_sent(s).measuring(retry),
{
    reveal_with_fuel(Session::run, 3);
}

proof fn lemma_information(s: Session, retry: bool, outcomes: Seq<Outcome>)
    requires
        information(s, retry, outcomes) is Some,
    ensures
        match information(s, retry, outcomes)->0 {
            (Err(e), rest) => Session::run(s.loading(retry), outcomes) == Session {
                capabilities: None,
                ..s
            }.finished(Err(e)),
            (Ok(informed), rest) => Session::run(s.loading(retry), outcomes) == Session::run(
                informed.starting(retry),
                rest,
            ),
        },
{
    reveal_with_fuel(Session::run, 2);
}

proof fn lemma_second_attempt(s: Session, outcomes: Seq<Outcome>)
    requires
        second_attempt(s, outcomes) is Some,
    ensures
        ({
            let (t, result) = second_attempt(s, outcomes)->0;
            Session::run(s.loading(true), outcomes) == (t, Move::Finished(result))
        }),
{
    let forgotten = Session { capabilities: None, ..s };
    lemma_information(forgotten, true, outcomes);
    assert(s.loading(true) == forgotten.loading(true));
    if let (Ok(informed), rest) = information(forgotten, true, outcomes)->0 {
        lemma_attempt(informed, true, rest);
    }
}

proof fn lemma_attempts(s: Session, outcomes: Seq<Outcome>)
    requires
        attempts(s, outcomes) is Some,
    ensures
        ({
            let (t, result) = attempts(s, outcomes)->0;
            Session::run(s.starting(false), outcomes) == (t, Move::Finished(result))
        }),
{
    lemma_attempt(s, false, outcomes);
    let (tried, result, rest) = attempt(s, outcomes)->0;
    if result == Err::<Telemetry, InverterError>(
        InverterError::Crypto(CryptoError::AuthenticationFailed),
    ) {
        lemma_second_attempt(tried, rest);
    }
}

/// What has been collected stays at the front, in order, whatever pages follow.
proof fn lemma_pages_are_put_behind(
    so_far: Page,
    package: int,
    package_count: i32,
    outcomes: Seq<Outcome>,
)
    ensures
        pages(so_far, package, package_count, outcomes) matches Some((Ok(all), _))
            ==> so_far.sgs_data.is_prefix_of(all.sgs_data) && so_far.pv_data.is_prefix_of(
            all.pv_data,
        ),
    decreases outcomes.len(),
{
    if package < package_count && outcomes.len() > 0 {
        if let Ok(Answer::RealDataNew(page)) = outcomes[0] {
            lemma_pages_are_put_behind(
                merged(so_far, page),
                package + 1,
                package_count,
                outcomes.drop_first(),
            );
        }
    }
}

/// No page is lost: where all pages could be collected, each of them came, and
/// each of its inverters and panel inputs is among the collected ones.
pub proof fn law_no_page_is_lost(
    so_far: Page,
    package: int,
    package_count: i32,
    outcomes: Seq<Outcome>,
    k: int,
)
    requires
        pages(so_far, package, package_count, outcomes) matches Some((Ok(_), _)),
        0 <= k < package_count - package,
    ensures
        k < outcomes.len(),
        outcomes[k] matches Ok(Answer::RealDataNew(page)) && ({
            let (collected, _) = pages(so_far, package, package_count, outcomes)->0;
            let all = collected->Ok_0;
            &&& forall|j: int|
                0 <= j < page.sgs_data.len() ==> all.sgs_data.contains(#[trigger] page.sgs_data[j])
            &&& forall|j: int|
                0 <= j < page.pv_data.len() ==> all.pv_data.contains(#[trigger] page.pv_data[j])
        }),
    decreases outcomes.len(),
{
    let rest = outcomes.drop_first();
    let page = outcomes[0]->Ok_0->RealDataNew_0;
    let next = merged(so_far, page);
    if k > 0 {
        law_no_page_is_lost(next, package + 1, package_count, rest, k - 1);
    } else {
        lemma_pages_are_put_behind(next, package + 1, package_count, rest);
        let (collected, _) = pages(so_far, package, package_count, outcomes)->0;
        let all = collected->Ok_0;
        assert forall|j: int| 0 <= j < page.sgs_data.len() implies all.sgs_data.contains(
            #[trigger] page.sgs_data[j],
        ) by {
            assert(all.sgs_data[so_far.sgs_data.len() + j] == next.sgs_data[so_far.sgs_data.len()
                + j]);
        }
        assert forall|j: int| 0 <= j < page.pv_data.len() implies all.pv_data.contains(
            #[trigger] page.pv_data[j],
        ) by {
            assert(all.pv_data[so_far.pv_data.len() + j] == next.pv_data[so_far.pv_data.len() + j]);
        }
    }
}

/// A poll and the steps after it, one for each outcome, add up to one update:
/// application information where none is known, the startup commands that are
/// due, telemetry, and after a failure to authenticate all of that once more.
pub proof fn law_steps_add_up_to_an_update(s: Session, outcomes: Seq<Outcome>)
    requires
        s.wf(),
        s.phase is Idle,
        update(s, outcomes) is Some,
    ensures
        ({
            let (t, result) = update(s, outcomes)->0;
            Session::run(s.step(Stimulus::Poll), outcomes) == (t, Move::Finished(result))
        }),
{
    if s.capabilities is Some {
        lemma_attempts(s, outcomes);
    } else {
        lemma_information(s, false, outcomes);
        assert(Session { capabilities: None, ..s } == s);
        if let (Ok(informed), rest) = information(s, false, outcomes)->0 {
            lemma_attempts(informed, rest);
        }
    }
}

/// Numbers have no influence on a run: the last move is the same, and so is the
/// session but for its number.
pub proof fn law_run_ignores_numbering(
    now: (Session, Move),
    sequence: u16,
    numbers: Seq<u16>,
    outcomes: Seq<Outcome>,
)
    requires
        numbers.len() >= outcomes.len(),
    ensures
        ({
            let start = (Session { sequence, ..now.0 }, now.1);
            let (t, m) = Session::run_numbered(start, numbers, outcomes);
            let (u, n) = Session::run(now, outcomes);
            m == n && t == (Session { sequence: t.sequence, ..u })
        }),
    decreases outcomes.len(),
{
    if outcomes.len() > 0 && !(now.1 is Finished) {
        let stimulus = Stimulus::Reply(outcomes[0]);
        law_step_ignores_numbering(now.0, stimulus, numbers[0]);
        let start = Session { sequence, ..now.0 };
        assert(Session { sequence: numbers[0], ..start } == Session {
            sequence: numbers[0],
            ..now.0
        });
        law_run_ignores_numbering(
            now.0.step(stimulus),
            numbers[0],
            numbers.drop_first(),
            outcomes.drop_first(),
        );
    }
}

/// The steps add up to the update whatever numbers the requests are given on
/// the way: before each outcome the session may hold any number, and only that
/// number tells the session at the end apart.
pub proof fn law_numbered_steps_add_up_to_an_update(
    s: Session,
    numbers: Seq<u16>,
    outcomes: Seq<Outcome>,
)
    requires
        s.wf(),
        s.phase is Idle,
        numbers.len() >= outcomes.len(),
        update(s, outcomes) is Some,
    ensures
        ({
            let (t, result) = update(s, outcomes)->0;
            let (u, m) = Session::run_numbered(s.step(Stimulus::Poll), numbers, outcomes);
            m == Move::Finished(result) && u == (Session { sequence: u.sequence, ..t })
        }),
{
    let now = s.step(Stimulus::Poll);
    law_steps_add_up_to_an_update(s, outcomes);
    law_run_ignores_numbering(now, now.0.sequence, numbers, outcomes);
    assert(Session { sequence: now.0.sequence, ..now.0 } == now.0);
}

} // verus!
