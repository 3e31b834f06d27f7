use hms2mqtt::crypto::CryptoError;
use hms2mqtt::error::{
    is_authentication_failure, InverterError, MessageKind, NetworkFailure, Quantity,
};

#[test]
fn errors_have_these_texts() {
    let texts = [
        (
            InverterError::Crypto(CryptoError::AuthenticationFailed),
            "AES-GCM authentication failed",
        ),
        (InverterError::ClockBeforeEpoch, "system clock is before Unix epoch"),
        (
            InverterError::TimestampOutOfRange,
            "Unix timestamp does not fit into Hoymiles int32 field",
        ),
        (
            InverterError::PowerLimitOutOfRange,
            "power limit must be between 0 and 100 percent",
        ),
        (InverterError::RequestWithoutEncRand, "encrypted request has no enc_rand"),
        (InverterError::RequestLengthOverflow, "request length overflow"),
        (
            InverterError::RequestTooLarge { length: 65536 },
            "request frame is too large: 65536 bytes",
        ),
        (InverterError::HeaderUnread, "unable to read inverter frame header"),
        (InverterError::InvalidMagic, "invalid Hoymiles frame header"),
        (
            InverterError::UnexpectedCommand { command: 0x0a0f },
            "unexpected Hoymiles response command 0x0a0f",
        ),
        (
            InverterError::UnexpectedSequence { sequence: 10, expected: 9 },
            "unexpected Hoymiles response sequence 10, expected 9",
        ),
        (
            InverterError::InvalidFrameLength { length: 9 },
            "invalid Hoymiles frame length 9",
        ),
        (
            InverterError::PayloadUnread,
            "unable to read complete inverter frame payload",
        ),
        (
            InverterError::TagUnread,
            "unable to read complete GCM authentication tag",
        ),
        (
            InverterError::CrcMismatch { calculated: 0x4b37, received: 0x00ff },
            "Hoymiles CRC mismatch: calculated 0x4b37, received 0x00ff",
        ),
        (InverterError::ResponseWithoutEncRand, "encrypted response has no enc_rand"),
        (
            InverterError::CapabilitiesUnknown,
            "inverter capabilities are not initialized",
        ),
        (InverterError::UnexpectedReply, "reply does not answer the request"),
        (
            InverterError::MissingDtuInfo,
            "Application Information response has no DTU information",
        ),
        (
            InverterError::InvalidEncRand { length: 0 },
            "encrypted inverter returned invalid enc_rand length 0",
        ),
        (
            InverterError::MissingSerialNumber,
            "legacy telemetry did not contain a DTU serial number",
        ),
        (
            InverterError::ActionMismatch { asked: 33, answered: -2147483648 },
            "Hoymiles command response action mismatch: expected 33, received -2147483648",
        ),
        (
            InverterError::CommandFailed { action: 8, code: -1 },
            "Hoymiles command action 8 failed with error code -1",
        ),
        (
            InverterError::NoSgsTelemetry,
            "RealDataNew response contains no SGS telemetry",
        ),
        (
            InverterError::OutOfRange { quantity: Quantity::DtuPower, value: u64::MAX },
            "dtu_power does not fit into the legacy data model: 18446744073709551615",
        ),
        (
            InverterError::OutOfRange { quantity: Quantity::DtuDailyEnergy, value: 2147483648 },
            "dtu_daily_energy does not fit into the legacy data model: 2147483648",
        ),
        (
            InverterError::OutOfRange { quantity: Quantity::SgsCount, value: 2147483648 },
            "SGS count does not fit into the legacy data model: 2147483648",
        ),
        (
            InverterError::OutOfRange { quantity: Quantity::PvCount, value: 2147483648 },
            "PV count does not fit into the legacy data model: 2147483648",
        ),
        (
            InverterError::Network(NetworkFailure::Resolve),
            "unable to resolve inverter address",
        ),
        (
            InverterError::Network(NetworkFailure::NoAddress),
            "inverter address did not resolve",
        ),
        (
            InverterError::Network(NetworkFailure::Connect),
            "unable to connect to inverter",
        ),
        (
            InverterError::Network(NetworkFailure::WriteTimeout),
            "unable to set inverter write timeout",
        ),
        (
            InverterError::Network(NetworkFailure::ReadTimeout),
            "unable to set inverter read timeout",
        ),
        (
            InverterError::Network(NetworkFailure::Write),
            "unable to write inverter request",
        ),
        (
            InverterError::Serialize(MessageKind::ApplicationInformation),
            "unable to serialize Application Information request",
        ),
        (
            InverterError::Serialize(MessageKind::Command),
            "unable to serialize Hoymiles command request",
        ),
        (
            InverterError::Serialize(MessageKind::LegacyRealData),
            "unable to serialize legacy RealData request",
        ),
        (
            InverterError::Parse(MessageKind::ApplicationInformation),
            "invalid Application Information protobuf",
        ),
        (
            InverterError::Parse(MessageKind::Command),
            "invalid Hoymiles command response protobuf",
        ),
        (
            InverterError::Parse(MessageKind::LegacyRealData),
            "invalid legacy RealData protobuf",
        ),
        (
            InverterError::Parse(MessageKind::RealDataNew),
            "invalid RealDataNew protobuf",
        ),
    ];
    for (error, text) in texts {
        assert_eq!(error.to_string(), text);
    }
}

#[test]
fn only_a_refused_tag_is_a_failure_to_authenticate() {
    assert!(is_authentication_failure(&InverterError::Crypto(
        CryptoError::AuthenticationFailed
    )));
    assert!(!is_authentication_failure(&InverterError::Crypto(CryptoError::InvalidKey)));
    assert!(!is_authentication_failure(&InverterError::Crypto(
        CryptoError::InvalidEncRandLength { actual: 16 }
    )));
    assert!(!is_authentication_failure(&InverterError::HeaderUnread));
}
