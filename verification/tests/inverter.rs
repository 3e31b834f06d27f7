use hms2mqtt::crypto::CryptoError;
use hms2mqtt::error::InverterError;
use hms2mqtt::frame::build_frame;
use hms2mqtt::inverter::{Action, Event, Inverter, Reply};
use hms2mqtt::protos::{
    APPDtuInfoMO, APPInfoDataReqDTO, CommandReqDTO, HMSStateResponse, PvMO, RealDataNewReqDTO,
    SGSMO,
};
use hms2mqtt::requests::Query;
use hms2mqtt::session::{NetworkState, StartupCommandState};

const AUTHENTICATION_FAILED: InverterError =
    InverterError::Crypto(CryptoError::AuthenticationFailed);

fn information(encrypted: bool) -> Reply {
    Reply::ApplicationInformation(APPInfoDataReqDTO {
        dtu_serial_number: "serial".to_string(),
        dtu_info: Some(APPDtuInfoMO {
            dfs: if encrypted { 1 << 25 } else { 0 },
            enc_rand: vec![0x42; 16],
            dtu_sw_version: 1,
        }),
    })
}

fn page(number: i32, count: i32) -> Reply {
    Reply::RealDataNew(RealDataNewReqDTO {
        ap: count,
        cp: number,
        timestamp: 100 + number,
        sgs_data: vec![SGSMO { serial_number: 1 + i64::from(number), ..Default::default() }],
        pv_data: vec![PvMO { port_number: number, ..Default::default() }],
        ..Default::default()
    })
}

fn legacy() -> HMSStateResponse {
    HMSStateResponse { dtu_sn: "dtu".to_string(), time: 5, ..Default::default() }
}

fn step(inverter: &mut Inverter, event: Event) -> Action {
    assert!(inverter.accepts(&event));
    inverter.update_state(event)
}

fn asks(action: Action) -> (Query, bool) {
    match action {
        Action::Exchange { query, encrypted } => (query, encrypted),
        Action::Finished(_) => panic!("the update is over"),
    }
}

fn ends(action: Action) -> Option<HMSStateResponse> {
    outcome(action).ok()
}

fn outcome(action: Action) -> Result<HMSStateResponse, InverterError> {
    match action {
        Action::Exchange { query, .. } => panic!("still asks {query:?}"),
        Action::Finished(result) => result,
    }
}

fn answer(inverter: &mut Inverter, reply: Reply) -> Action {
    step(inverter, Event::Reply(Ok(reply)))
}

fn failure(inverter: &mut Inverter, error: InverterError) -> Action {
    step(inverter, Event::Reply(Err(error)))
}

fn poll(inverter: &mut Inverter) -> Action {
    step(inverter, Event::Poll)
}

fn command_done() -> Reply {
    Reply::Command(CommandReqDTO::default())
}

#[test]
fn startup_command_state_reinitializes_only_performance_mode() {
    let mut state = StartupCommandState::default();

    assert!(!state.performance_mode_initialized);
    assert!(!state.power_limit_initialized);

    state.mark_performance_mode_initialized();
    state.mark_power_limit_initialized();
    assert!(state.performance_mode_initialized);
    assert!(state.power_limit_initialized);

    state.reset_performance_mode();
    assert!(!state.performance_mode_initialized);
    assert!(state.power_limit_initialized);
}

#[test]
fn a_new_inverter_is_unknown() {
    let inverter = Inverter::new("inverter.local");
    assert_eq!(inverter.host(), "inverter.local");
    assert_eq!(inverter.state(), NetworkState::Unknown);
    assert!(inverter.accepts(&Event::Poll));
    assert!(!inverter.accepts(&Event::Reply(Err(InverterError::HeaderUnread))));
    assert!(!inverter.accepts(&Event::Reply(Ok(command_done()))));
}

#[test]
fn legacy_devices_take_the_plain_path() {
    let mut inverter = Inverter::new("host");
    let action = poll(&mut inverter);
    assert_eq!(asks(action), (Query::ApplicationInformation, false));
    let action = answer(&mut inverter, information(false));
    assert_eq!(asks(action), (Query::LegacyRealData, false));
    assert_eq!(inverter.state(), NetworkState::Unknown);
    let action = answer(&mut inverter, Reply::LegacyRealData(legacy()));
    assert_eq!(ends(action), Some(legacy()));
    assert_eq!(inverter.state(), NetworkState::Online);

    let action = poll(&mut inverter);
    assert_eq!(asks(action), (Query::LegacyRealData, false));
    let action = failure(&mut inverter, InverterError::HeaderUnread);
    assert_eq!(ends(action), None);
    assert_eq!(inverter.state(), NetworkState::Offline);
}

#[test]
fn encrypted_devices_are_asked_for_all_pages() {
    let mut inverter = Inverter::new("host");
    poll(&mut inverter);
    let action = answer(&mut inverter, information(true));
    assert_eq!(asks(action), (Query::RealDataNew { package: 0 }, true));
    let action = answer(&mut inverter, page(0, 3));
    assert_eq!(asks(action), (Query::RealDataNew { package: 1 }, true));
    let action = answer(&mut inverter, page(1, 9));
    assert_eq!(asks(action), (Query::RealDataNew { package: 2 }, true));
    let action = answer(&mut inverter, page(2, 0));
    let telemetry = ends(action).expect("telemetry");
    assert_eq!(inverter.state(), NetworkState::Online);
    assert_eq!(telemetry.dtu_sn, "serial");
    assert_eq!(telemetry.time, 102);
    assert_eq!(telemetry.device_nub, 3);
    let serials: Vec<i64> = telemetry.inverter_state.iter().map(|s| s.inv_id).collect();
    assert_eq!(serials, [1, 2, 3]);
    let ports: Vec<i32> = telemetry.port_state.iter().map(|s| s.pv_port).collect();
    assert_eq!(ports, [0, 1, 2]);
}

#[test]
fn a_page_count_below_one_means_one_page() {
    for count in [-1, 0, 1] {
        let mut inverter = Inverter::new("host");
        poll(&mut inverter);
        answer(&mut inverter, information(true));
        let action = answer(&mut inverter, page(0, count));
        assert_eq!(ends(action).expect("telemetry").device_nub, 1);
    }
}

#[test]
fn a_lost_page_ends_the_update() {
    let mut inverter = Inverter::new("host");
    poll(&mut inverter);
    answer(&mut inverter, information(true));
    answer(&mut inverter, page(0, 3));
    let action = failure(&mut inverter, InverterError::PayloadUnread);
    assert_eq!(ends(action), None);
    assert_eq!(inverter.state(), NetworkState::Offline);
    let action = poll(&mut inverter);
    assert_eq!(asks(action), (Query::RealDataNew { package: 0 }, true));
}

#[test]
fn an_update_without_application_information_ends_offline() {
    let mut inverter = Inverter::new("host");
    poll(&mut inverter);
    let action = failure(&mut inverter, AUTHENTICATION_FAILED);
    assert_eq!(ends(action), None);
    assert_eq!(inverter.state(), NetworkState::Offline);

    let action = poll(&mut inverter);
    assert_eq!(asks(action), (Query::ApplicationInformation, false));
    let action = answer(
        &mut inverter,
        Reply::ApplicationInformation(APPInfoDataReqDTO::default()),
    );
    assert_eq!(ends(action), None);
}

#[test]
fn startup_commands_are_sent_once_whatever_comes_back() {
    let mut inverter = Inverter::with_options("host", true, Some(100));
    poll(&mut inverter);
    let action = answer(&mut inverter, information(true));
    assert_eq!(asks(action), (Query::PerformanceDataMode, true));
    let action = failure(&mut inverter, InverterError::HeaderUnread);
    assert_eq!(asks(action), (Query::PowerLimit { percent: 100 }, true));
    let action = answer(
        &mut inverter,
        Reply::Command(CommandReqDTO { action: 1, err_code: 1 }),
    );
    assert_eq!(asks(action), (Query::RealDataNew { package: 0 }, true));
    let action = answer(&mut inverter, page(0, 1));
    assert!(ends(action).is_some());

    let action = poll(&mut inverter);
    assert_eq!(asks(action), (Query::RealDataNew { package: 0 }, true));
}

#[test]
fn commands_to_a_legacy_device_are_plain() {
    let mut inverter = Inverter::with_options("host", true, None);
    poll(&mut inverter);
    let action = answer(&mut inverter, information(false));
    assert_eq!(asks(action), (Query::PerformanceDataMode, false));
    let action = answer(&mut inverter, command_done());
    assert_eq!(asks(action), (Query::LegacyRealData, false));
}

#[test]
fn a_failure_to_authenticate_is_recovered_once() {
    let mut inverter = Inverter::with_options("host", true, Some(7));
    poll(&mut inverter);
    answer(&mut inverter, information(true));
    answer(&mut inverter, command_done());
    answer(&mut inverter, command_done());
    let action = failure(&mut inverter, AUTHENTICATION_FAILED);
    assert_eq!(asks(action), (Query::ApplicationInformation, false));
    let action = answer(&mut inverter, information(true));
    assert_eq!(asks(action), (Query::PerformanceDataMode, true));
    let action = answer(&mut inverter, command_done());
    assert_eq!(asks(action), (Query::RealDataNew { package: 0 }, true));
    let action = answer(&mut inverter, page(0, 2));
    assert_eq!(asks(action), (Query::RealDataNew { package: 1 }, true));
    let action = answer(&mut inverter, page(1, 2));
    assert_eq!(ends(action).expect("telemetry").device_nub, 2);
    assert_eq!(inverter.state(), NetworkState::Online);
}

#[test]
fn a_second_failure_to_authenticate_ends_the_update() {
    let mut inverter = Inverter::new("host");
    poll(&mut inverter);
    answer(&mut inverter, information(true));
    answer(&mut inverter, page(0, 2));
    let action = failure(&mut inverter, AUTHENTICATION_FAILED);
    assert_eq!(asks(action), (Query::ApplicationInformation, false));
    answer(&mut inverter, information(true));
    let action = failure(&mut inverter, AUTHENTICATION_FAILED);
    assert_eq!(ends(action), None);
    assert_eq!(inverter.state(), NetworkState::Offline);
}

#[test]
fn a_failed_refresh_ends_the_update_without_capabilities() {
    let mut inverter = Inverter::new("host");
    poll(&mut inverter);
    answer(&mut inverter, information(true));
    failure(&mut inverter, AUTHENTICATION_FAILED);
    let action = failure(&mut inverter, InverterError::HeaderUnread);
    assert_eq!(ends(action), None);
    let action = poll(&mut inverter);
    assert_eq!(asks(action), (Query::ApplicationInformation, false));
}

#[test]
fn a_session_takes_only_the_answer_it_asked_for() {
    let mut inverter = Inverter::new("host");
    poll(&mut inverter);
    assert!(!inverter.accepts(&Event::Poll));
    assert!(!inverter.accepts(&Event::Reply(Ok(command_done()))));
    assert!(!inverter.accepts(&Event::Reply(Ok(page(0, 1)))));
    assert!(!inverter.accepts(&Event::Reply(Ok(Reply::LegacyRealData(legacy())))));
    assert!(inverter.accepts(&Event::Reply(Ok(information(true)))));
    assert!(inverter.accepts(&Event::Reply(Err(InverterError::HeaderUnread))));
}

#[test]
fn requests_are_numbered_and_answered_under_their_number() {
    let mut inverter = Inverter::new("host");
    poll(&mut inverter);
    let (frame, mut reader) = inverter
        .send_request(Query::ApplicationInformation, false, b"question")
        .expect("frame builds");
    assert_eq!(frame[..6], *b"HM\xa3\x01\x00\x01");
    assert_eq!(frame[10..], *b"question");
    let reply = build_frame(0xa201, 1, b"answer", false, None).expect("frame builds");
    reader.feed(&reply);
    assert_eq!(reader.needed(), Ok(0));
    assert_eq!(reader.finish(), Ok(b"answer".to_vec()));

    let (frame, mut reader) = inverter
        .send_request(Query::ApplicationInformation, false, b"question")
        .expect("frame builds");
    assert_eq!(frame[4..6], [0, 2]);
    reader.feed(&reply);
    assert_eq!(
        reader.finish(),
        Err(InverterError::UnexpectedSequence { sequence: 1, expected: 2 })
    );
}

#[test]
fn request_numbers_start_over_after_the_last() {
    let mut inverter = Inverter::new("host");
    for expected in (1..=u16::MAX).chain([0, 1]) {
        let (frame, _) = inverter
            .send_request(Query::LegacyRealData, false, b"")
            .expect("frame builds");
        assert_eq!(u16::from_be_bytes([frame[4], frame[5]]), expected);
    }
}

#[test]
fn encrypted_requests_use_the_random_string_of_the_device() {
    let mut inverter = Inverter::new("host");
    assert!(matches!(
        inverter.send_request(Query::RealDataNew { package: 0 }, true, b"question"),
        Err(InverterError::RequestWithoutEncRand)
    ));
    poll(&mut inverter);
    answer(&mut inverter, information(true));
    let (frame, mut reader) = inverter
        .send_request(Query::RealDataNew { package: 0 }, true, b"question")
        .expect("frame builds");
    assert_eq!(
        frame,
        build_frame(0xa311, 2, b"question", true, Some(&[0x42; 16])).expect("frame builds")
    );
    reader.feed(&build_frame(0xa211, 2, b"answer", true, Some(&[0x42; 16])).expect("builds"));
    assert_eq!(reader.finish(), Ok(b"answer".to_vec()));
}

#[test]
fn startup_commands_over_many_updates() {
    let mut inverter = Inverter::with_options("host", true, Some(50));
    let mut limits = 0;
    let mut modes = 0;
    let mut refreshes = 0;
    for update in 0..10 {
        let mut action = poll(&mut inverter);
        while let Action::Exchange { query, .. } = action {
            action = match query {
                Query::ApplicationInformation => {
                    refreshes += 1;
                    answer(&mut inverter, information(true))
                }
                Query::PerformanceDataMode => {
                    modes += 1;
                    failure(&mut inverter, InverterError::HeaderUnread)
                }
                Query::PowerLimit { percent } => {
                    assert_eq!(percent, 50);
                    limits += 1;
                    failure(&mut inverter, InverterError::HeaderUnread)
                }
                _ if update % 4 == 3 => failure(&mut inverter, AUTHENTICATION_FAILED),
                _ => answer(&mut inverter, page(0, 1)),
            };
        }
    }
    assert_eq!(limits, 1);
    assert_eq!(refreshes, 3);
    assert_eq!(modes, 3);
}

#[test]
fn an_update_ends_with_the_reason_of_its_failure() {
    let mut inverter = Inverter::new("host");
    poll(&mut inverter);
    let action = failure(&mut inverter, InverterError::TagUnread);
    assert_eq!(outcome(action), Err(InverterError::TagUnread));

    poll(&mut inverter);
    let action = answer(
        &mut inverter,
        Reply::ApplicationInformation(APPInfoDataReqDTO::default()),
    );
    assert_eq!(outcome(action), Err(InverterError::MissingDtuInfo));

    poll(&mut inverter);
    answer(&mut inverter, information(true));
    let action = answer(&mut inverter, Reply::RealDataNew(RealDataNewReqDTO::default()));
    assert_eq!(outcome(action), Err(InverterError::NoSgsTelemetry));

    poll(&mut inverter);
    failure(&mut inverter, AUTHENTICATION_FAILED);
    answer(&mut inverter, information(true));
    let action = failure(&mut inverter, AUTHENTICATION_FAILED);
    assert_eq!(outcome(action), Err(AUTHENTICATION_FAILED));
}

#[test]
fn unnamed_legacy_telemetry_ends_the_update() {
    let mut inverter = Inverter::new("host");
    poll(&mut inverter);
    answer(
        &mut inverter,
        Reply::ApplicationInformation(APPInfoDataReqDTO {
            dtu_serial_number: String::new(),
            dtu_info: Some(APPDtuInfoMO::default()),
        }),
    );
    let action = answer(&mut inverter, Reply::LegacyRealData(HMSStateResponse::default()));
    assert_eq!(outcome(action), Err(InverterError::MissingSerialNumber));
    assert_eq!(inverter.state(), NetworkState::Offline);
}

#[test]
fn no_startup_command_is_asked_for_twice() {
    let mut inverter = Inverter::with_options("host", true, Some(7));
    poll(&mut inverter);
    let action = answer(&mut inverter, information(true));
    assert_eq!(asks(action), (Query::PerformanceDataMode, true));
    answer(&mut inverter, command_done());
    answer(&mut inverter, command_done());
    let action = answer(&mut inverter, page(0, 1));
    assert!(ends(action).is_some());
    assert!(inverter.initialize_startup_commands(false).is_none());
    assert!(inverter.accepts(&Event::Poll));

    poll(&mut inverter);
    failure(&mut inverter, AUTHENTICATION_FAILED);
    let action = answer(&mut inverter, information(true));
    assert_eq!(asks(action), (Query::PerformanceDataMode, true));
    let action = answer(&mut inverter, command_done());
    assert_eq!(asks(action), (Query::RealDataNew { package: 0 }, true));
    assert!(inverter.initialize_startup_commands(true).is_none());
}

#[test]
fn startup_commands_come_in_order() {
    let mut both = Inverter::with_options("host", true, Some(7));
    let action = both.initialize_startup_commands(false).expect("a command is due");
    assert_eq!(asks(action), (Query::PerformanceDataMode, false));

    let mut limit = Inverter::with_options("host", false, Some(7));
    let action = limit.initialize_startup_commands(false).expect("a command is due");
    assert_eq!(asks(action), (Query::PowerLimit { percent: 7 }, false));

    let mut none = Inverter::new("host");
    assert!(none.initialize_startup_commands(false).is_none());
}

#[test]
fn numbering_does_not_change_the_course() {
    let mut plain = Inverter::new("host");
    let mut numbered = Inverter::new("host");
    let steps = || [information(true), page(0, 2), page(1, 2)];
    poll(&mut plain);
    poll(&mut numbered);
    let mut last = (None, None);
    for (number, (a, b)) in steps().into_iter().zip(steps()).enumerate() {
        numbered
            .send_request(Query::LegacyRealData, false, b"")
            .expect("frame builds");
        assert_eq!(usize::from(numbered.sequence()), number + 1);
        last = match (answer(&mut plain, a), answer(&mut numbered, b)) {
            (Action::Finished(x), Action::Finished(y)) => (x.ok(), y.ok()),
            (x, y) => {
                assert_eq!(asks(x), asks(y));
                (None, None)
            }
        };
    }
    assert_eq!(plain.sequence(), 0);
    assert!(last.0.is_some());
    assert_eq!(last.0, last.1);
    assert_eq!(plain.state(), numbered.state());
}
