//! Everything that can go wrong in an exchange with an inverter.

use crate::crypto::CryptoError;
use crate::text::{decimal, hex4, push_decimal, push_hex4, push_signed_decimal, signed_decimal};
use vstd::prelude::*;

verus! {

/// A number of a telemetry response that the legacy data model holds in 32 bits.
#[derive(Clone, Copy, Debug, PartialEq, Eq, Structural)]
pub enum Quantity {
    DtuPower,
    DtuDailyEnergy,
    SgsCount,
    PvCount,
    InverterIndex,
}

impl Quantity {
    /// The name of the quantity.
    pub open spec fn label(self) -> Seq<char> {
        match self {
            Quantity::DtuPower => "dtu_power"@,
            Quantity::DtuDailyEnergy => "dtu_daily_energy"@,
            Quantity::SgsCount => "SGS count"@,
            Quantity::PvCount => "PV count"@,
            Quantity::InverterIndex => "inverter index"@,
        }
    }

    /// The name of the quantity as a string.
    pub fn name(&self) -> (s: &'static str)
        ensures
            s@ == self.label(),
    {
        match self {
            Quantity::DtuPower => "dtu_power",
            Quantity::DtuDailyEnergy => "dtu_daily_energy",
            Quantity::SgsCount => "SGS count",
            Quantity::PvCount => "PV count",
            Quantity::InverterIndex => "inverter index",
        }
    }
}

/// A step of the connection to an inverter that the network did not carry out.
#[derive(Clone, Copy, Debug, PartialEq, Eq, Structural)]
pub enum NetworkFailure {
    Resolve,
    NoAddress,
    Connect,
    WriteTimeout,
    ReadTimeout,
    Write,
}

/// The four pairs of request and response messages.
#[derive(Clone, Copy, Debug, PartialEq, Eq, Structural)]
pub enum MessageKind {
    ApplicationInformation,
    Command,
    LegacyRealData,
    RealDataNew,
}

/// Why an exchange with an inverter failed.
#[derive(Clone, Copy, Debug, PartialEq, Eq, Structural)]
pub enum InverterError {
    /// A payload could not be encrypted or decrypted.
    Crypto(CryptoError),
    /// The system clock shows a time before the Unix epoch.
    ClockBeforeEpoch,
    /// The system clock is past what a signed 32-bit timestamp holds.
    TimestampOutOfRange,
    /// A power limit above one hundred percent was asked for.
    PowerLimitOutOfRange,
    /// An encrypted request has to be built without a random string.
    RequestWithoutEncRand,
    /// The length of a request does not fit the address space.
    RequestLengthOverflow,
    /// The length of a request does not fit the length field of a frame.
    RequestTooLarge { length: usize },
    /// The stream ended within the header of a frame.
    HeaderUnread,
    /// A frame does not start with the two letters of the protocol.
    InvalidMagic,
    /// A frame answers another command.
    UnexpectedCommand { command: u16 },
    /// A frame answers another request.
    UnexpectedSequence { sequence: u16, expected: u16 },
    /// A frame declares a length shorter than its own header.
    InvalidFrameLength { length: usize },
    /// The stream ended within the payload of a frame.
    PayloadUnread,
    /// The stream ended within the authentication tag of a frame.
    TagUnread,
    /// The payload of a frame does not have the declared checksum.
    CrcMismatch { calculated: u16, received: u16 },
    /// An encrypted response arrived while no random string is known.
    ResponseWithoutEncRand,
    /// Telemetry is wanted from a device of which nothing is known.
    CapabilitiesUnknown,
    /// A reply is of another kind than the one that was asked for.
    UnexpectedReply,
    /// Application information came without a section on the DTU.
    MissingDtuInfo,
    /// A device that encrypts sent a random string of the wrong length.
    InvalidEncRand { length: usize },
    /// Neither the telemetry nor the application information names the DTU.
    MissingSerialNumber,
    /// A command response answers another action.
    ActionMismatch { asked: i32, answered: i32 },
    /// The device reports that a command failed.
    CommandFailed { action: i32, code: i32 },
    /// A telemetry response holds no inverter.
    NoSgsTelemetry,
    /// A telemetry number does not fit the legacy data model.
    OutOfRange { quantity: Quantity, value: u64 },
    /// The network did not carry the exchange.
    Network(NetworkFailure),
    /// A request message could not be serialized.
    Serialize(MessageKind),
    /// A response payload is not a message of its kind.
    Parse(MessageKind),
}

impl InverterError {
    /// The text of the error.
    pub open spec fn message(self) -> Seq<char> {
        match self {
            InverterError::Crypto(e) => e.message(),
            InverterError::ClockBeforeEpoch => "system clock is before Unix epoch"@,
            InverterError::TimestampOutOfRange => {
                "Unix timestamp does not fit into Hoymiles int32 field"@
            },
            InverterError::PowerLimitOutOfRange => "power limit must be between 0 and 100 percent"@,
            InverterError::RequestWithoutEncRand => "encrypted request has no enc_rand"@,
            InverterError::RequestLengthOverflow => "request length overflow"@,
            InverterError::RequestTooLarge { length } => {
                "request frame is too large: "@ + decimal(length as nat) + " bytes"@
            },
            InverterError::HeaderUnread => "unable to read inverter frame header"@,
            InverterError::InvalidMagic => "invalid Hoymiles frame header"@,
            InverterError::UnexpectedCommand { command } => {
                "unexpected Hoymiles response command 0x"@ + hex4(command)
            },
            InverterError::UnexpectedSequence { sequence, expected } => {
                "unexpected Hoymiles response sequence "@ + decimal(sequence as nat)
                    + ", expected "@ + decimal(expected as nat)
            },
            InverterError::InvalidFrameLength { length } => {
                "invalid Hoymiles frame length "@ + decimal(length as nat)
            },
            InverterError::PayloadUnread => "unable to read complete inverter frame payload"@,
            InverterError::TagUnread => "unable to read complete GCM authentication tag"@,
            InverterError::CrcMismatch { calculated, received } => {
                "Hoymiles CRC mismatch: calculated 0x"@ + hex4(calculated) + ", received 0x"@
                    + hex4(received)
            },
            InverterError::ResponseWithoutEncRand => "encrypted response has no enc_rand"@,
            InverterError::CapabilitiesUnknown => "inverter capabilities are not initialized"@,
            InverterError::UnexpectedReply => "reply does not answer the request"@,
            InverterError::MissingDtuInfo => "Application Information response has no DTU information"@,
            InverterError::InvalidEncRand { length } => {
                "encrypted inverter returned invalid enc_rand length "@ + decimal(length as nat)
            },
            InverterError::MissingSerialNumber => {
                "legacy telemetry did not contain a DTU serial number"@
            },
            InverterError::ActionMismatch { asked, answered } => {
                "Hoymiles command response action mismatch: expected "@ + signed_decimal(
                    asked as int,
                ) + ", received "@ + signed_decimal(answered as int)
            },
            InverterError::CommandFailed { action, code } => {
                "Hoymiles command action "@ + signed_decimal(action as int)
                    + " failed with error code "@ + signed_decimal(code as int)
            },
            InverterError::NoSgsTelemetry => "RealDataNew response contains no SGS telemetry"@,
            InverterError::OutOfRange { quantity, value } => {
                quantity.label() + " does not fit into the legacy data model: "@ + decimal(
                    value as nat,
                )
            },
            InverterError::Network(NetworkFailure::Resolve) => "unable to resolve inverter address"@,
            InverterError::Network(NetworkFailure::NoAddress) => "inverter address did not resolve"@,
            InverterError::Network(NetworkFailure::Connect) => "unable to connect to inverter"@,
            InverterError::Network(NetworkFailure::WriteTimeout) => {
                "unable to set inverter write timeout"@
            },
            InverterError::Network(NetworkFailure::ReadTimeout) => {
                "unable to set inverter read timeout"@
            },
            InverterError::Network(NetworkFailure::Write) => "unable to write inverter request"@,
            InverterError::Serialize(MessageKind::ApplicationInformation) => {
                "unable to serialize Application Information request"@
            },
            InverterError::Serialize(MessageKind::Command) => {
                "unable to serialize Hoymiles command request"@
            },
            InverterError::Serialize(MessageKind::LegacyRealData) => {
                "unable to serialize legacy RealData request"@
            },
            InverterError::Serialize(MessageKind::RealDataNew) => {
                "unable to serialize RealDataNew request"@
            },
            InverterError::Parse(MessageKind::ApplicationInformation) => {
                "invalid Application Information protobuf"@
            },
            InverterError::Parse(MessageKind::Command) => "invalid Hoymiles command response protobuf"@,
            InverterError::Parse(MessageKind::LegacyRealData) => "invalid legacy RealData protobuf"@,
            InverterError::Parse(MessageKind::RealDataNew) => "invalid RealDataNew protobuf"@,
        }
    }

    /// Renders the error as text.
    pub fn to_string(&self) -> (s: String)
        ensures
            s@ == self.message(),
    {
        let mut s = String::new();
        match self {
            InverterError::Crypto(e) => {
                return e.to_string();
            },
            InverterError::ClockBeforeEpoch => s.append("system clock is before Unix epoch"),
            InverterError::TimestampOutOfRange => s.append(
                "Unix timestamp does not fit into Hoymiles int32 field",
            ),
            InverterError::PowerLimitOutOfRange => s.append(
                "power limit must be between 0 and 100 percent",
            ),
            InverterError::RequestWithoutEncRand => s.append("encrypted request has no enc_rand"),
            InverterError::RequestLengthOverflow => s.append("request length overflow"),
            InverterError::RequestTooLarge { length } => {
                s.append("request frame is too large: ");
                push_decimal(&mut s, *length as u64);
                s.append(" bytes");
            },
            InverterError::HeaderUnread => s.append("unable to read inverter frame header"),
            InverterError::InvalidMagic => s.append("invalid Hoymiles frame header"),
            InverterError::UnexpectedCommand { command } => {
                s.append("unexpected Hoymiles response command 0x");
                push_hex4(&mut s, *command);
            },
            InverterError::UnexpectedSequence { sequence, expected } => {
                s.append("unexpected Hoymiles response sequence ");
                push_decimal(&mut s, *sequence as u64);
                s.append(", expected ");
                push_decimal(&mut s, *expected as u64);
            },
            InverterError::InvalidFrameLength { length } => {
                s.append("invalid Hoymiles frame length ");
                push_decimal(&mut s, *length as u64);
            },
            InverterError::PayloadUnread => s.append("unable to read complete inverter frame payload"),
            InverterError::TagUnread => s.append("unable to read complete GCM authentication tag"),
            InverterError::CrcMismatch { calculated, received } => {
                s.append("Hoymiles CRC mismatch: calculated 0x");
                push_hex4(&mut s, *calculated);
                s.append(", received 0x");
                push_hex4(&mut s, *received);
            },
            InverterError::ResponseWithoutEncRand => s.append("encrypted response has no enc_rand"),
            InverterError::CapabilitiesUnknown => s.append(
                "inverter capabilities are not initialized",
            ),
            InverterError::UnexpectedReply => s.append("reply does not answer the request"),
            InverterError::MissingDtuInfo => s.append(
                "Application Information response has no DTU information",
            ),
            InverterError::InvalidEncRand { length } => {
                s.append("encrypted inverter returned invalid enc_rand length ");
                push_decimal(&mut s, *length as u64);
            },
            InverterError::MissingSerialNumber => s.append(
                "legacy telemetry did not contain a DTU serial number",
            ),
            InverterError::ActionMismatch { asked, answered } => {
                s.append("Hoymiles command response action mismatch: expected ");
                push_signed_decimal(&mut s, *asked as i64);
                s.append(", received ");
                push_signed_decimal(&mut s, *answered as i64);
            },
            InverterError::CommandFailed { action, code } => {
                s.append("Hoymiles command action ");
                push_signed_decimal(&mut s, *action as i64);
                s.append(" failed with error code ");
                push_signed_decimal(&mut s, *code as i64);
            },
            InverterError::NoSgsTelemetry => s.append("RealDataNew response contains no SGS telemetry"),
            InverterError::OutOfRange { quantity, value } => {
                s.append(quantity.name());
                s.append(" does not fit into the legacy data model: ");
                push_decimal(&mut s, *value);
            },
            InverterError::Network(failure) => s.append(network_failure_str(*failure)),
            InverterError::Serialize(kind) => s.append(serialize_failure_str(*kind)),
            InverterError::Parse(kind) => s.append(parse_failure_str(*kind)),
        }
        assert(s@ == self.message());
        s
    }
}

fn network_failure_str(failure: NetworkFailure) -> (s: &'static str)
    ensures
        s@ == InverterError::Network(failure).message(),
{
    match failure {
        NetworkFailure::Resolve => "unable to resolve inverter address",
        NetworkFailure::NoAddress => "inverter address did not resolve",
        NetworkFailure::Connect => "unable to connect to inverter",
        NetworkFailure::WriteTimeout => "unable to set inverter write timeout",
        NetworkFailure::ReadTimeout => "unable to set inverter read timeout",
        NetworkFailure::Write => "unable to write inverter request",
    }
}

fn serialize_failure_str(kind: MessageKind) -> (s: &'static str)
    ensures
        s@ == InverterError::Serialize(kind).message(),
{
    match kind {
        MessageKind::ApplicationInformation => {
            "unable to serialize Application Information request"
        },
        MessageKind::Command => "unable to serialize Hoymiles command request",
        MessageKind::LegacyRealData => "unable to serialize legacy RealData request",
        MessageKind::RealDataNew => "unable to serialize RealDataNew request",
    }
}

fn parse_failure_str(kind: MessageKind) -> (s: &'static str)
    ensures
        s@ == InverterError::Parse(kind).message(),
{
    match kind {
        MessageKind::ApplicationInformation => "invalid Application Information protobuf",
        MessageKind::Command => "invalid Hoymiles command response protobuf",
        MessageKind::LegacyRealData => "invalid legacy RealData protobuf",
        MessageKind::RealDataNew => "invalid RealDataNew protobuf",
    }
}

/// Whether the cipher refused a payload: the one failure that asks for fresh
/// application information.
pub fn is_authentication_failure(error: &InverterError) -> (b: bool)
    ensures
        b == (*error == InverterError::Crypto(CryptoError::AuthenticationFailed)),
{
    matches!(error, InverterError::Crypto(CryptoError::AuthenticationFailed))
}

/// The text of an error on a request or a frame names the numbers that it is
/// about, each in its place.
pub proof fn law_frame_errors_name_their_numbers(e: InverterError)
    ensures
        e matches InverterError::Crypto(c) ==> e.message() == c.message(),
        e matches InverterError::RequestTooLarge { length } ==> e.message()
            == "request frame is too large: "@ + decimal(length as nat) + " bytes"@,
        e matches InverterError::UnexpectedCommand { command } ==> e.message()
            == "unexpected Hoymiles response command 0x"@ + hex4(command),
        e matches InverterError::UnexpectedSequence { sequence, expected } ==> e.message()
            == "unexpected Hoymiles response sequence "@ + decimal(sequence as nat) + ", expected "@
            + decimal(expected as nat),
        e matches InverterError::InvalidFrameLength { length } ==> e.message()
            == "invalid Hoymiles frame length "@ + decimal(length as nat),
        e matches InverterError::CrcMismatch { calculated, received } ==> e.message()
            == "Hoymiles CRC mismatch: calculated 0x"@ + hex4(calculated) + ", received 0x"@ + hex4(
            received,
        ),
{
}

/// The text of an error on an answer names the numbers that it is about, each
/// in its place.
pub proof fn law_answer_errors_name_their_numbers(e: InverterError)
    ensures
        e matches InverterError::InvalidEncRand { length } ==> e.message()
            == "encrypted inverter returned invalid enc_rand length "@ + decimal(length as nat),
        e matches InverterError::ActionMismatch { asked, answered } ==> e.message()
            == "Hoymiles command response action mismatch: expected "@ + signed_decimal(
            asked as int,
        ) + ", received "@ + signed_decimal(answered as int),
        e matches InverterError::CommandFailed { action, code } ==> e.message()
            == "Hoymiles command action "@ + signed_decimal(action as int)
            + " failed with error code "@ + signed_decimal(code as int),
        e matches InverterError::OutOfRange { quantity: Quantity::DtuPower, value } ==> e.message()
            == "dtu_power"@ + " does not fit into the legacy data model: "@ + decimal(value as nat),
        e matches InverterError::OutOfRange { quantity: Quantity::DtuDailyEnergy, value }
            ==> e.message() == "dtu_daily_energy"@ + " does not fit into the legacy data model: "@
            + decimal(value as nat),
        e matches InverterError::OutOfRange { quantity: Quantity::SgsCount, value } ==> e.message()
            == "SGS count"@ + " does not fit into the legacy data model: "@ + decimal(value as nat),
        e matches InverterError::OutOfRange { quantity: Quantity::PvCount, value } ==> e.message()
            == "PV count"@ + " does not fit into the legacy data model: "@ + decimal(value as nat),
        e matches InverterError::OutOfRange { quantity: Quantity::InverterIndex, value }
            ==> e.message() == "inverter index"@ + " does not fit into the legacy data model: "@
            + decimal(value as nat),
{
}

} // verus!
