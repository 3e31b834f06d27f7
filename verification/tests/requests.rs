use hms2mqtt::clock::{unix_timestamp, unix_timestamp_i32, wrap_timestamp};
use hms2mqtt::error::{InverterError, MessageKind};
use hms2mqtt::protos::{
    APPInfoDataResDTO, CommandReqDTO, CommandResDTO, RealDataNewResDTO, RealDataResDTO,
};
use hms2mqtt::requests::{
    build_application_info_request, build_legacy_request, build_message,
    build_performance_data_mode_request, build_power_limit_request, build_real_data_new_request,
    command_outcome, message_at, response_command, validate_command_response, Message, Query,
};

const TIME: &str = "2026-09-17 12:34:56";

#[test]
fn serializes_performance_data_mode_request() {
    let request = build_performance_data_mode_request(1_789_712_893).expect("request builds");

    assert_eq!(request.time, 1_789_712_893);
    assert_eq!(request.action, 33);
    assert_eq!(request.package_nub, 1);
    assert_eq!(request.tid, 0);
    assert!(request.data.is_empty());
}

#[test]
fn serializes_power_limit_request_and_validates_bounds() {
    let minimum = build_power_limit_request(0, 1_789_712_893).expect("request builds");
    assert_eq!(minimum.data, "A:0,B:0,C:0\r");

    let request = build_power_limit_request(100, 1_789_712_893).expect("request builds");

    assert_eq!(request.time, 1_789_712_893);
    assert_eq!(request.action, 8);
    assert_eq!(request.package_nub, 1);
    assert_eq!(request.tid, 1_789_712_893);
    assert_eq!(request.data, "A:1000,B:0,C:0\r");
    assert!(build_power_limit_request(101, 1_789_712_893).is_err());
}

#[test]
fn a_limit_above_the_range_is_named() {
    assert_eq!(
        build_power_limit_request(101, 1).expect_err("out of range").to_string(),
        "power limit must be between 0 and 100 percent"
    );
    assert_eq!(
        build_power_limit_request(255, 1),
        Err(InverterError::PowerLimitOutOfRange)
    );
    assert_eq!(
        build_power_limit_request(55, -1).expect("request builds").tid,
        -1
    );
}

#[test]
fn an_answer_keeps_the_low_byte_of_the_request() {
    assert_eq!(response_command(0xa301), 0xa201);
    assert_eq!(response_command(0xa303), 0xa203);
    assert_eq!(response_command(0xa305), 0xa205);
    assert_eq!(response_command(0xa311), 0xa211);
    assert_eq!(response_command(0xffff), 0xa2ff);
    assert_eq!(response_command(0x0000), 0xa200);
}

#[test]
fn every_query_has_its_command() {
    assert_eq!(Query::ApplicationInformation.expected_commands(), [0xa301, 0xa201]);
    assert_eq!(Query::LegacyRealData.expected_commands(), [0xa303, 0xa203]);
    assert_eq!(Query::PerformanceDataMode.expected_commands(), [0xa305, 0xa205]);
    assert_eq!(Query::PowerLimit { percent: 3 }.expected_commands(), [0xa305, 0xa205]);
    assert_eq!(Query::RealDataNew { package: 3 }.expected_commands(), [0xa311, 0xa211]);
    assert_eq!(Query::PowerLimit { percent: 3 }.kind(), MessageKind::Command);
}

#[test]
fn timestamps_saturate_or_are_refused() {
    assert_eq!(unix_timestamp(None), Err(InverterError::ClockBeforeEpoch));
    assert_eq!(unix_timestamp(Some(0)), Ok(0));
    assert_eq!(unix_timestamp(Some(4_294_967_295)), Ok(u32::MAX));
    assert_eq!(unix_timestamp(Some(4_294_967_296)), Ok(u32::MAX));
    assert_eq!(unix_timestamp(Some(u64::MAX)), Ok(u32::MAX));

    assert_eq!(unix_timestamp_i32(None), Err(InverterError::ClockBeforeEpoch));
    assert_eq!(unix_timestamp_i32(Some(2_147_483_647)), Ok(i32::MAX));
    assert_eq!(
        unix_timestamp_i32(Some(2_147_483_648)),
        Err(InverterError::TimestampOutOfRange)
    );

    assert_eq!(wrap_timestamp(2_147_483_647), i32::MAX);
    assert_eq!(wrap_timestamp(2_147_483_648), i32::MIN);
    assert_eq!(wrap_timestamp(u32::MAX), -1);
}

#[test]
fn requests_carry_time_and_offset() {
    assert_eq!(
        build_application_info_request(TIME, u32::MAX),
        APPInfoDataResDTO {
            time_ymd_hms: TIME.as_bytes().to_vec(),
            offset: 28_800,
            time: u32::MAX,
        }
    );
    assert_eq!(
        build_legacy_request(TIME.to_string(), u32::MAX),
        RealDataResDTO { ymd_hms: TIME.to_string(), offset: 28_800, time: -1 }
    );
    assert_eq!(
        build_real_data_new_request(4, TIME, 7),
        RealDataNewResDTO {
            time_ymd_hms: TIME.as_bytes().to_vec(),
            offset: 28_800,
            time: 7,
            cp: 4,
        }
    );
}

#[test]
fn every_query_becomes_its_message() {
    let at = |query: Query, seconds: Option<u64>| message_at(query, TIME.to_string(), seconds);
    assert_eq!(
        at(Query::ApplicationInformation, Some(5)),
        Ok(Message::ApplicationInformation(build_application_info_request(TIME, 5)))
    );
    assert_eq!(
        at(Query::LegacyRealData, Some(u64::MAX)),
        Ok(Message::LegacyRealData(build_legacy_request(TIME.to_string(), u32::MAX)))
    );
    assert_eq!(
        at(Query::RealDataNew { package: 2 }, Some(5)),
        Ok(Message::RealDataNew(build_real_data_new_request(2, TIME, 5)))
    );
    assert_eq!(
        at(Query::PerformanceDataMode, Some(5)),
        Ok(Message::Command(CommandResDTO {
            time: 5,
            action: 33,
            package_nub: 1,
            ..Default::default()
        }))
    );
    assert_eq!(
        at(Query::PowerLimit { percent: 7 }, Some(5)),
        Ok(Message::Command(CommandResDTO {
            time: 5,
            action: 8,
            package_nub: 1,
            tid: 5,
            data: "A:70,B:0,C:0\r".to_string(),
        }))
    );
}

#[test]
fn a_query_may_have_no_message() {
    let at = |query: Query, seconds: Option<u64>| message_at(query, TIME.to_string(), seconds);
    for query in [
        Query::ApplicationInformation,
        Query::PerformanceDataMode,
        Query::PowerLimit { percent: 101 },
        Query::LegacyRealData,
        Query::RealDataNew { package: 0 },
    ] {
        assert_eq!(at(query, None), Err(InverterError::ClockBeforeEpoch));
    }
    assert_eq!(
        at(Query::PowerLimit { percent: 101 }, Some(2_147_483_648)),
        Err(InverterError::TimestampOutOfRange)
    );
    assert_eq!(
        at(Query::PerformanceDataMode, Some(2_147_483_648)),
        Err(InverterError::TimestampOutOfRange)
    );
    assert_eq!(
        at(Query::PowerLimit { percent: 101 }, Some(5)),
        Err(InverterError::PowerLimitOutOfRange)
    );
}

#[test]
fn messages_carry_the_time_of_the_clock() {
    let now = || {
        std::time::SystemTime::now()
            .duration_since(std::time::UNIX_EPOCH)
            .expect("clock is past the epoch")
            .as_secs()
    };
    let before = now();
    let message = build_message(Query::ApplicationInformation).expect("message builds");
    let after = now();
    match message {
        Message::ApplicationInformation(m) => {
            assert!(before <= m.time as u64 && m.time as u64 <= after);
            assert_eq!(m.offset, 28_800);
            let text = String::from_utf8(m.time_ymd_hms).expect("text");
            assert_eq!(text.len(), 19);
            for (place, c) in text.chars().enumerate() {
                match place {
                    4 | 7 => assert_eq!(c, '-'),
                    10 => assert_eq!(c, ' '),
                    13 | 16 => assert_eq!(c, ':'),
                    _ => assert!(c.is_ascii_digit()),
                }
            }
        }
        other => panic!("unexpected message {other:?}"),
    }
    assert_eq!(
        build_message(Query::PowerLimit { percent: 101 }),
        Err(InverterError::PowerLimitOutOfRange)
    );
}

#[test]
fn command_answers_are_judged() {
    let answer = |action: i32, err_code: i32| CommandReqDTO { action, err_code };
    assert_eq!(validate_command_response(&answer(33, 0), 33), Ok(()));
    assert_eq!(validate_command_response(&answer(0, 0), 33), Ok(()));
    assert_eq!(
        validate_command_response(&answer(8, 5), 33),
        Err(InverterError::ActionMismatch { asked: 33, answered: 8 })
    );
    assert_eq!(
        validate_command_response(&answer(0, 5), 33),
        Err(InverterError::CommandFailed { action: 33, code: 5 })
    );
}

#[test]
fn command_outcomes_use_the_action_of_the_query() {
    let answer = CommandReqDTO { action: 8, err_code: 0 };
    assert_eq!(command_outcome(Query::PowerLimit { percent: 1 }, Ok(answer)), Ok(()));
    assert_eq!(
        command_outcome(Query::PerformanceDataMode, Ok(answer)),
        Err(InverterError::ActionMismatch { asked: 33, answered: 8 })
    );
    assert_eq!(
        command_outcome(Query::PerformanceDataMode, Err(InverterError::HeaderUnread)),
        Err(InverterError::HeaderUnread)
    );
}
