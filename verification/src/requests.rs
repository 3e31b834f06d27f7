//! What can be asked of an inverter, and the messages that ask it.

use crate::clock::{
    clock_shows, local_clock_shows, read_clock, read_local_clock, timestamp_of, unix_timestamp,
    unix_timestamp_i32, wrap_timestamp, wrapped_timestamp,
};
use crate::error::{InverterError, MessageKind};
use crate::protos::{
    APPInfoDataResDTO, CommandReqDTO, CommandResDTO, RealDataNewResDTO, RealDataResDTO,
};
use crate::text::{decimal, decimal_value, law_decimal_reads_back, push_decimal};
use vstd::prelude::*;
use vstd::utf8::encode_utf8;

verus! {

pub const APP_INFO_COMMAND: u16 = 0xa301;

pub const LEGACY_REAL_DATA_COMMAND: u16 = 0xa303;

pub const COMMAND_RES_COMMAND: u16 = 0xa305;

pub const REAL_DATA_NEW_COMMAND: u16 = 0xa311;

/// Action number of a power limit.
pub const ACTION_LIMIT_POWER: i32 = 8;

/// Action number of the performance data mode.
pub const ACTION_PERFORMANCE_DATA_MODE: i32 = 33;

/// Seconds by which the time zone of the protocol is ahead of UTC.
pub const TIME_OFFSET: i32 = 28_800;

/// One question to the inverter.
#[derive(Clone, Copy, Debug, PartialEq, Eq, Structural)]
pub enum Query {
    /// Which firmware runs, and does it encrypt?
    ApplicationInformation,
    /// Switch the performance data mode on.
    PerformanceDataMode,
    /// Limit the power.
    PowerLimit { percent: u8 },
    /// Send telemetry in the legacy format.
    LegacyRealData,
    /// Send one page of telemetry in the new format.
    RealDataNew { package: i32 },
}

/// A request message.
#[derive(Clone, Debug, PartialEq, Eq)]
pub enum Message {
    ApplicationInformation(APPInfoDataResDTO),
    Command(CommandResDTO),
    LegacyRealData(RealDataResDTO),
    RealDataNew(RealDataNewResDTO),
}

/// The command that answers a request: the same low byte behind `a2`.
pub open spec fn answering_command(request_command: u16) -> u16 {
    (0xa200 + request_command % 256) as u16
}

impl Query {
    /// The command under which the query is sent.
    pub open spec fn command_code(self) -> u16 {
        match self {
            Query::ApplicationInformation => APP_INFO_COMMAND,
            Query::PerformanceDataMode => COMMAND_RES_COMMAND,
            Query::PowerLimit { .. } => COMMAND_RES_COMMAND,
            Query::LegacyRealData => LEGACY_REAL_DATA_COMMAND,
            Query::RealDataNew { .. } => REAL_DATA_NEW_COMMAND,
        }
    }

    /// The messages that carry the query and its answer.
    pub open spec fn message_kind(self) -> MessageKind {
        match self {
            Query::ApplicationInformation => MessageKind::ApplicationInformation,
            Query::PerformanceDataMode => MessageKind::Command,
            Query::PowerLimit { .. } => MessageKind::Command,
            Query::LegacyRealData => MessageKind::LegacyRealData,
            Query::RealDataNew { .. } => MessageKind::RealDataNew,
        }
    }

    /// The action number of a query that is a command.
    pub open spec fn action_number(self) -> i32
        recommends
            self.message_kind() == MessageKind::Command,
    {
        if self is PerformanceDataMode {
            ACTION_PERFORMANCE_DATA_MODE
        } else {
            ACTION_LIMIT_POWER
        }
    }

    /// The command under which the query is sent.
    pub fn command(&self) -> (command: u16)
        ensures
            command == self.command_code(),
    {
        match self {
            Query::ApplicationInformation => APP_INFO_COMMAND,
            Query::PerformanceDataMode => COMMAND_RES_COMMAND,
            Query::PowerLimit { .. } => COMMAND_RES_COMMAND,
            Query::LegacyRealData => LEGACY_REAL_DATA_COMMAND,
            Query::RealDataNew { .. } => REAL_DATA_NEW_COMMAND,
        }
    }

    /// The messages that carry the query and its answer.
    pub fn kind(&self) -> (kind: MessageKind)
        ensures
            kind == self.message_kind(),
    {
        match self {
            Query::ApplicationInformation => MessageKind::ApplicationInformation,
            Query::PerformanceDataMode => MessageKind::Command,
            Query::PowerLimit { .. } => MessageKind::Command,
            Query::LegacyRealData => MessageKind::LegacyRealData,
            Query::RealDataNew { .. } => MessageKind::RealDataNew,
        }
    }

    /// The commands that an answer may carry: that of the query itself, or the
    /// one that answers it.
    pub fn expected_commands(&self) -> (commands: [u16; 2])
        ensures
            commands@ == seq![self.command_code(), answering_command(self.command_code())],
    {
        let command = self.command();
        [command, response_command(command)]
    }
}

/// The command that answers a request.
pub fn response_command(request_command: u16) -> (command: u16)
    ensures
        command == answering_command(request_command),
        command / 256 == 0xa2,
        command % 256 == request_command % 256,
{
    assert((request_command & 0x00ff) | 0xa200 == 0xa200 + request_command % 256) by (bit_vector);
    (request_command & 0x00ff) | 0xa200
}

/// The text that limits the power to `percent`.
pub open spec fn power_limit_data(percent: u8) -> Seq<char> {
    "A:"@ + decimal((percent * 10) as nat) + ",B:0,C:0\r"@
}

/// Whether `message` asks `query` at a local time and a timestamp.
pub open spec fn asks(query: Query, message: Message, local_time: Seq<char>, timestamp: u32) -> bool {
    match query {
        Query::ApplicationInformation => {
            message matches Message::ApplicationInformation(m) && m.time_ymd_hms@ == encode_utf8(
                local_time,
            ) && m.offset == TIME_OFFSET && m.time == timestamp
        },
        Query::PerformanceDataMode => {
            message matches Message::Command(m) && m.time == timestamp && m.action
                == ACTION_PERFORMANCE_DATA_MODE && m.package_nub == 1 && m.tid == 0 && m.data@
                == Seq::<char>::empty()
        },
        Query::PowerLimit { percent } => {
            message matches Message::Command(m) && percent <= 100 && m.time == timestamp && m.action
                == ACTION_LIMIT_POWER && m.package_nub == 1 && m.tid == timestamp && m.data@
                == power_limit_data(percent)
        },
        Query::LegacyRealData => {
            message matches Message::LegacyRealData(m) && m.ymd_hms@ == local_time && m.offset
                == TIME_OFFSET && m.time == wrapped_timestamp(timestamp)
        },
        Query::RealDataNew { package } => {
            message matches Message::RealDataNew(m) && m.time_ymd_hms@ == encode_utf8(local_time)
                && m.offset == TIME_OFFSET && m.time == wrapped_timestamp(timestamp) && m.cp
                == package
        },
    }
}

/// Why there is no message for `query` while the clock stands `seconds` after
/// the Unix epoch; nothing where there is one.
pub open spec fn cannot_ask(query: Query, seconds: Option<u64>) -> Option<InverterError> {
    if seconds is None {
        Some(InverterError::ClockBeforeEpoch)
    } else if query.message_kind() == MessageKind::Command && seconds->0 > i32::MAX {
        Some(InverterError::TimestampOutOfRange)
    } else {
        match query {
            Query::PowerLimit { percent } if percent > 100 => Some(
                InverterError::PowerLimitOutOfRange,
            ),
            _ => None,
        }
    }
}

/// The request for application information.
pub fn build_application_info_request(local_time: &str, timestamp: u32) -> (m: APPInfoDataResDTO)
    ensures
        m.time_ymd_hms@ == encode_utf8(local_time@),
        m.offset == TIME_OFFSET,
        m.time == timestamp,
{
    APPInfoDataResDTO {
        time_ymd_hms: local_time.as_bytes_vec(),
        offset: TIME_OFFSET,
        time: timestamp,
    }
}

/// The request for telemetry in the legacy format.
pub fn build_legacy_request(local_time: String, timestamp: u32) -> (m: RealDataResDTO)
    ensures
        m.ymd_hms@ == local_time@,
        m.offset == TIME_OFFSET,
        m.time == wrapped_timestamp(timestamp),
{
    RealDataResDTO { ymd_hms: local_time, offset: TIME_OFFSET, time: wrap_timestamp(timestamp) }
}

/// The request for one page of telemetry in the new format.
pub fn build_real_data_new_request(package: i32, local_time: &str, timestamp: u32) -> (m:
    RealDataNewResDTO)
    ensures
        m.time_ymd_hms@ == encode_utf8(local_time@),
        m.offset == TIME_OFFSET,
        m.time == wrapped_timestamp(timestamp),
        m.cp == package,
{
    RealDataNewResDTO {
        time_ymd_hms: local_time.as_bytes_vec(),
        offset: TIME_OFFSET,
        time: wrap_timestamp(timestamp),
        cp: package,
    }
}

/// The command that limits the power; there is none above one hundred percent.
pub fn build_power_limit_request(percent: u8, timestamp: i32) -> (r: Result<
    CommandResDTO,
    InverterError,
>)
    ensures
        r is Ok <==> percent <= 100,
        r matches Err(e) ==> e == InverterError::PowerLimitOutOfRange,
        r matches Ok(m) ==> m.time == timestamp && m.action == ACTION_LIMIT_POWER && m.package_nub
            == 1 && m.tid == timestamp && m.data@ == power_limit_data(percent),
        r matches Ok(m) ==> m.action == 8 && m.data@ == "A:"@ + decimal((percent * 10) as nat)
            + ",B:0,C:0\r"@,
{
    if percent > 100 {
        return Err(InverterError::PowerLimitOutOfRange);
    }
    let mut data = String::from_str("A:");
    push_decimal(&mut data, percent as u64 * 10);
    data.append(",B:0,C:0\r");
    Ok(
        CommandResDTO {
            time: timestamp,
            action: ACTION_LIMIT_POWER,
            package_nub: 1,
            tid: timestamp as i64,
            data,
        },
    )
}

/// The command that switches the performance data mode on.
pub fn build_performance_data_mode_request(timestamp: i32) -> (r: Result<
    CommandResDTO,
    InverterError,
>)
    ensures
        r matches Ok(m) && m.time == timestamp && m.action == ACTION_PERFORMANCE_DATA_MODE
            && m.package_nub == 1 && m.tid == 0 && m.data@ == Seq::<char>::empty(),
        r matches Ok(m) ==> m.action == 33,
{
    Ok(
        CommandResDTO {
            time: timestamp,
            action: ACTION_PERFORMANCE_DATA_MODE,
            package_nub: 1,
            ..CommandResDTO::default()
        },
    )
}

/// What [`message_at`] owes.
pub open spec fn is_message_at(
    query: Query,
    r: Result<Message, InverterError>,
    local_time: Seq<char>,
    seconds: Option<u64>,
) -> bool {
    match cannot_ask(query, seconds) {
        Some(e) => r == Err::<Message, _>(e),
        None => r matches Ok(m) && asks(query, m, local_time, timestamp_of(seconds)->Ok_0),
    }
}

/// The message for a query at a local time, while the clock stands `seconds`
/// after the Unix epoch.
pub fn message_at(query: Query, local_time: String, seconds: Option<u64>) -> (r: Result<
    Message,
    InverterError,
>)
    ensures
        is_message_at(query, r, local_time@, seconds),
{
    match query {
        Query::ApplicationInformation => {
            let timestamp = unix_timestamp(seconds)?;
            Ok(
                Message::ApplicationInformation(
                    build_application_info_request(local_time.as_str(), timestamp),
                ),
            )
        },
        Query::PerformanceDataMode => {
            let timestamp = unix_timestamp_i32(seconds)?;
            match build_performance_data_mode_request(timestamp) {
                Err(e) => Err(e),
                Ok(m) => Ok(Message::Command(m)),
            }
        },
        Query::PowerLimit { percent } => {
            let timestamp = unix_timestamp_i32(seconds)?;
            match build_power_limit_request(percent, timestamp) {
                Err(e) => Err(e),
                Ok(m) => Ok(Message::Command(m)),
            }
        },
        Query::LegacyRealData => {
            let timestamp = unix_timestamp(seconds)?;
            Ok(Message::LegacyRealData(build_legacy_request(local_time, timestamp)))
        },
        Query::RealDataNew { package } => {
            let timestamp = unix_timestamp(seconds)?;
            Ok(
                Message::RealDataNew(
                    build_real_data_new_request(package, local_time.as_str(), timestamp),
                ),
            )
        },
    }
}

/// The message for a query now: it carries the time that the clock shows. The
/// local time is read only where the message has a place for it.
pub fn build_message(query: Query) -> (r: Result<Message, InverterError>)
    ensures
        exists|seconds: Option<u64>, local_time: String|
            #![trigger clock_shows(seconds), is_message_at(query, r, local_time@, seconds)]
            {
                &&& clock_shows(seconds)
                &&& seconds is Some && query.message_kind() != MessageKind::Command
                    ==> local_clock_shows(local_time)
                &&& is_message_at(query, r, local_time@, seconds)
            },
{
    let seconds = read_clock();
    let local_time = if seconds.is_none() || query.kind() == MessageKind::Command {
        String::new()
    } else {
        read_local_clock()
    };
    message_at(query, local_time, seconds)
}

/// What an answer says of the command with number `action`. An answer may
/// leave its action out.
pub open spec fn command_answer_verdict(answer: CommandReqDTO, action: i32) -> Result<
    (),
    InverterError,
> {
    if answer.action != 0 && answer.action != action {
        Err(InverterError::ActionMismatch { asked: action, answered: answer.action })
    } else if answer.err_code != 0 {
        Err(InverterError::CommandFailed { action, code: answer.err_code })
    } else {
        Ok(())
    }
}

/// Checks the answer to a command.
pub fn validate_command_response(response: &CommandReqDTO, action: i32) -> (r: Result<
    (),
    InverterError,
>)
    ensures
        r == command_answer_verdict(*response, action),
        r is Ok <==> (response.action == 0 || response.action == action) && response.err_code == 0,
{
    if response.action != 0 && response.action != action {
        return Err(
            InverterError::ActionMismatch { asked: action, answered: response.action },
        );
    }
    if response.err_code != 0 {
        return Err(InverterError::CommandFailed { action, code: response.err_code });
    }
    Ok(())
}

/// Tells how a command went. The update goes on either way.
pub fn command_outcome(query: Query, outcome: Result<CommandReqDTO, InverterError>) -> (r: Result<
    (),
    InverterError,
>)
    requires
        query.message_kind() == MessageKind::Command,
    ensures
        r == (match outcome {
            Err(e) => Err(e),
            Ok(answer) => command_answer_verdict(answer, query.action_number()),
        }),
{
    let answer = outcome?;
    match query {
        Query::PerformanceDataMode => {
            validate_command_response(&answer, ACTION_PERFORMANCE_DATA_MODE)
        },
        _ => validate_command_response(&answer, ACTION_LIMIT_POWER),
    }
}

/// The text of a power limit is `A:`, ten times the percentage as a decimal
/// number, and a fixed end.
pub proof fn law_power_limit_is_sent_in_tenths(percent: u8)
    ensures
        ({
            let data = power_limit_data(percent);
            &&& data.len() > 11
            &&& data[0] == 'A' && data[1] == ':'
            &&& decimal_value(data.subrange(2, data.len() - 9)) == percent * 10
            &&& data.skip(data.len() - 9) == seq![',', 'B', ':', '0', ',', 'C', ':', '0', '\r']
        }),
{
    reveal_strlit("A:");
    reveal_strlit(",B:0,C:0\r");
    law_decimal_reads_back((percent * 10) as nat);
    let data = power_limit_data(percent);
    assert(data.subrange(2, data.len() - 9) =~= decimal((percent * 10) as nat));
    assert(data.skip(data.len() - 9) =~= seq![',', 'B', ':', '0', ',', 'C', ':', '0', '\r']);
}

/// Two different limits never give the same text.
pub proof fn law_power_limits_are_told_apart(p: u8, q: u8)
    requires
        power_limit_data(p) == power_limit_data(q),
    ensures
        p == q,
{
    law_power_limit_is_sent_in_tenths(p);
    law_power_limit_is_sent_in_tenths(q);
}

/// The command of an answer has the low byte of the request behind `a2`.
pub proof fn law_answers_keep_the_low_byte(request_command: u16)
    ensures
        answering_command(request_command) / 256 == 0xa2,
        answering_command(request_command) % 256 == request_command % 256,
{
}

/// Each query goes under its own command, and is carried by the messages of its
/// own kind.
pub proof fn law_queries_have_their_commands(query: Query)
    ensures
        query is ApplicationInformation ==> query.command_code() == 0xa301 && query.message_kind()
            == MessageKind::ApplicationInformation,
        query is LegacyRealData ==> query.command_code() == 0xa303 && query.message_kind()
            == MessageKind::LegacyRealData,
        query is PerformanceDataMode ==> query.command_code() == 0xa305 && query.message_kind()
            == MessageKind::Command && query.action_number() == 33,
        query is PowerLimit ==> query.command_code() == 0xa305 && query.message_kind()
            == MessageKind::Command && query.action_number() == 8,
        query is RealDataNew ==> query.command_code() == 0xa311 && query.message_kind()
            == MessageKind::RealDataNew,
{
}

/// A message for a query carries the time, and of a query what it asks: the
/// number of the page, or the limit in tenths of a percent. Time fields hold
/// the seconds of the clock, up to the last that they can hold.
pub proof fn law_message_says_what_is_asked(
    query: Query,
    r: Result<Message, InverterError>,
    local_time: Seq<char>,
    seconds: u64,
)
    requires
        is_message_at(query, r, local_time, Some(seconds)),
    ensures
        ({
            let last: int = if seconds <= 4_294_967_295 {
                seconds as int
            } else {
                4_294_967_295
            };
            let signed: int = if last <= 2_147_483_647 {
                last
            } else {
                last - 4_294_967_296
            };
            match query {
                Query::ApplicationInformation => {
                    r matches Ok(Message::ApplicationInformation(m)) && m.time_ymd_hms@
                        == encode_utf8(local_time) && m.offset == 28_800 && m.time == last
                },
                Query::LegacyRealData => {
                    r matches Ok(Message::LegacyRealData(m)) && m.ymd_hms@ == local_time && m.offset
                        == 28_800 && m.time == signed
                },
                Query::RealDataNew { package } => {
                    r matches Ok(Message::RealDataNew(m)) && m.time_ymd_hms@ == encode_utf8(
                        local_time,
                    ) && m.offset == 28_800 && m.time == signed && m.cp == package
                },
                Query::PerformanceDataMode => {
                    &&& seconds <= 2_147_483_647 ==> (r matches Ok(Message::Command(m)) && m.time
                        == seconds && m.action == 33 && m.package_nub == 1 && m.tid == 0
                        && m.data@.len() == 0)
                    &&& seconds > 2_147_483_647 ==> r == Err::<Message, _>(
                        InverterError::TimestampOutOfRange,
                    )
                },
                Query::PowerLimit { percent } => {
                    &&& seconds <= 2_147_483_647 && percent <= 100 ==> (r matches Ok(
                        Message::Command(m),
                    ) && m.time == seconds && m.action == 8 && m.package_nub == 1 && m.tid
                        == seconds && m.data@ == "A:"@ + decimal((percent * 10) as nat)
                        + ",B:0,C:0\r"@)
                    &&& seconds > 2_147_483_647 ==> r == Err::<Message, _>(
                        InverterError::TimestampOutOfRange,
                    )
                    &&& seconds <= 2_147_483_647 && percent > 100 ==> r == Err::<Message, _>(
                        InverterError::PowerLimitOutOfRange,
                    )
                },
            }
        }),
{
}

/// A clock before the Unix epoch leaves every query without a message.
pub proof fn law_no_message_before_the_epoch(
    query: Query,
    r: Result<Message, InverterError>,
    local_time: Seq<char>,
)
    requires
        is_message_at(query, r, local_time, None),
    ensures
        r == Err::<Message, _>(InverterError::ClockBeforeEpoch),
{
}

/// A command went well exactly where its answer reports no error and either
/// names no action or the one that was asked for; an answer to another action
/// is refused as such, whatever error it reports.
pub proof fn law_command_answers_are_judged(answer: CommandReqDTO, action: i32)
    ensures
        (answer.action == 0 || answer.action == action) && answer.err_code == 0
            ==> command_answer_verdict(answer, action) == Ok::<(), InverterError>(()),
        answer.action != 0 && answer.action != action ==> command_answer_verdict(answer, action)
            == Err::<(), _>(
            InverterError::ActionMismatch { asked: action, answered: answer.action },
        ),
        (answer.action == 0 || answer.action == action) && answer.err_code != 0
            ==> command_answer_verdict(answer, action) == Err::<(), _>(
            InverterError::CommandFailed { action, code: answer.err_code },
        ),
{
}

} // verus!
