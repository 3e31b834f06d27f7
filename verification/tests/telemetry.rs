use hms2mqtt::capabilities::{read_capabilities, Capabilities};
use hms2mqtt::error::{InverterError, Quantity};
use hms2mqtt::protos::{
    APPDtuInfoMO, APPInfoDataReqDTO, HMSStateResponse, InverterState, PortState, PvMO,
    RealDataNewReqDTO, SGSMO,
};
use hms2mqtt::telemetry::{
    accept_legacy, checked_u64_to_i32, checked_usize_to_i32, map_real_data_new, merge_page,
};

fn known_device(dtu_serial_number: &str) -> Capabilities {
    Capabilities {
        encrypted: true,
        enc_rand: Some(vec![0x42_u8; 16]),
        dtu_serial_number: dtu_serial_number.to_string(),
        firmware_version: 1,
    }
}

fn one_inverter(serial_number: i64) -> RealDataNewReqDTO {
    RealDataNewReqDTO {
        sgs_data: vec![SGSMO { serial_number, ..Default::default() }],
        ..Default::default()
    }
}

#[test]
fn maps_real_data_new_sgs_and_multiple_pv_ports() {
    let mut response = RealDataNewReqDTO {
        device_serial_number: "414392375232".to_string(),
        timestamp: 1_789_712_893,
        dtu_power: 1_285,
        dtu_daily_energy: 52,
        ..Default::default()
    };
    response.sgs_data.push(SGSMO {
        serial_number: 22_069_995_065_906,
        firmware_version: 1,
        voltage: 2_366,
        frequency: 4_999,
        active_power: 1_285,
        current: 54,
        power_factor: 1_000,
        temperature: 183,
        warning_number: 2,
        modulation_index_signal: 7_405_661,
        ..Default::default()
    });
    response.pv_data.extend([
        PvMO {
            serial_number: 22_069_995_065_906,
            port_number: 1,
            voltage: 430,
            current: 162,
            power: 698,
            energy_total: 1_295_701,
            energy_daily: 27,
            ..Default::default()
        },
        PvMO {
            serial_number: 22_069_995_065_906,
            port_number: 2,
            voltage: 421,
            current: 156,
            power: 658,
            energy_total: 1_312_058,
            energy_daily: 25,
            ..Default::default()
        },
    ]);

    let capabilities = Capabilities {
        encrypted: true,
        enc_rand: Some(vec![0x42_u8; 16]),
        dtu_serial_number: String::new(),
        firmware_version: 1,
    };
    let mapped = map_real_data_new(&response, &capabilities).expect("telemetry maps");

    assert_eq!(mapped.dtu_sn, "414392375232");
    assert_eq!(mapped.pv_current_power, 1_285);
    assert_eq!(mapped.pv_daily_yield, 52);
    assert_eq!(mapped.inverter_state.len(), 1);
    assert_eq!(mapped.inverter_state[0].grid_current, 54);
    assert_eq!(mapped.inverter_state[0].power_factor, 1_000);
    assert_eq!(mapped.port_state.len(), 2);
    assert_eq!(mapped.port_state[1].pv_port, 2);
    assert_eq!(mapped.port_state[1].pv_energy_total, 1_312_058);
}

#[test]
fn maps_every_field() {
    let response = RealDataNewReqDTO {
        device_serial_number: "device".to_string(),
        timestamp: -5,
        ap: 3,
        cp: 2,
        dtu_power: 2_147_483_647,
        dtu_daily_energy: 0,
        sgs_data: vec![
            SGSMO {
                serial_number: 1,
                firmware_version: 2,
                voltage: 3,
                frequency: 4,
                active_power: 5,
                current: 6,
                power_factor: 7,
                temperature: -8,
                warning_number: 9,
                modulation_index_signal: 10,
            },
            SGSMO { serial_number: 11, ..Default::default() },
        ],
        pv_data: vec![PvMO {
            serial_number: 12,
            port_number: 13,
            voltage: 14,
            current: 15,
            power: 16,
            energy_total: 17,
            energy_daily: 18,
        }],
    };
    assert_eq!(
        map_real_data_new(&response, &known_device("known")),
        Ok(HMSStateResponse {
            dtu_sn: "known".to_string(),
            time: -5,
            pv_current_power: 2_147_483_647,
            pv_daily_yield: 0,
            device_nub: 2,
            pv_nub: 1,
            inverter_state: vec![
                InverterState {
                    inv_id: 1,
                    port_id: 1,
                    grid_voltage: 3,
                    grid_freq: 4,
                    pv_current_power: 5,
                    temperature: -8,
                    grid_current: 6,
                    power_factor: 7,
                    warning_number: 9,
                    modulation_index_signal: 10,
                    firmware_version: 2,
                },
                InverterState { inv_id: 11, port_id: 2, ..Default::default() },
            ],
            port_state: vec![PortState {
                pv_sn: 12,
                pv_port: 13,
                pv_vol: 14,
                pv_cur: 15,
                pv_power: 16,
                pv_energy_total: 17,
                pv_daily_yield: 18,
            }],
        })
    );
}

#[test]
fn the_serial_number_falls_back_to_that_of_the_first_inverter() {
    let mapped = map_real_data_new(&one_inverter(22_069_995_065_906), &known_device(""))
        .expect("telemetry maps");
    assert_eq!(mapped.dtu_sn, "22069995065906");

    let negative = map_real_data_new(&one_inverter(i64::MIN), &known_device("")).expect("maps");
    assert_eq!(negative.dtu_sn, "-9223372036854775808");

    let zero = map_real_data_new(&one_inverter(0), &known_device("")).expect("maps");
    assert_eq!(zero.dtu_sn, "0");
}

#[test]
fn telemetry_without_inverters_is_refused() {
    let response = RealDataNewReqDTO { dtu_power: u64::MAX, ..Default::default() };
    assert_eq!(
        map_real_data_new(&response, &known_device("known")),
        Err(InverterError::NoSgsTelemetry)
    );
}

#[test]
fn telemetry_that_does_not_fit_is_refused() {
    let mut response = one_inverter(1);
    response.dtu_daily_energy = 2_147_483_648;
    assert_eq!(
        map_real_data_new(&response, &known_device("known")),
        Err(InverterError::OutOfRange {
            quantity: Quantity::DtuDailyEnergy,
            value: 2_147_483_648
        })
    );
    response.dtu_power = u64::MAX;
    assert_eq!(
        map_real_data_new(&response, &known_device("known")),
        Err(InverterError::OutOfRange { quantity: Quantity::DtuPower, value: u64::MAX })
    );
}

#[test]
fn numbers_are_narrowed_up_to_the_last_one_that_fits() {
    assert_eq!(checked_u64_to_i32(0, Quantity::DtuPower), Ok(0));
    assert_eq!(checked_u64_to_i32(2_147_483_647, Quantity::DtuPower), Ok(i32::MAX));
    assert_eq!(checked_usize_to_i32(2_147_483_647, Quantity::PvCount), Ok(i32::MAX));
    assert_eq!(
        checked_usize_to_i32(2_147_483_648, Quantity::SgsCount),
        Err(InverterError::OutOfRange { quantity: Quantity::SgsCount, value: 2_147_483_648 })
    );
    assert_eq!(
        checked_usize_to_i32(2_147_483_648, Quantity::InverterIndex)
            .expect_err("out of range")
            .to_string(),
        "inverter index does not fit into the legacy data model: 2147483648"
    );
}

fn pages() -> [RealDataNewReqDTO; 3] {
    [
        RealDataNewReqDTO {
            device_serial_number: "first".to_string(),
            timestamp: 10,
            ap: 3,
            dtu_power: 100,
            sgs_data: vec![SGSMO { serial_number: 1, ..Default::default() }],
            pv_data: vec![PvMO { port_number: 1, ..Default::default() }],
            ..Default::default()
        },
        RealDataNewReqDTO {
            cp: 1,
            dtu_daily_energy: 7,
            pv_data: vec![PvMO { port_number: 2, ..Default::default() }],
            ..Default::default()
        },
        RealDataNewReqDTO {
            device_serial_number: "third".to_string(),
            timestamp: 30,
            cp: 2,
            dtu_power: 300,
            sgs_data: vec![SGSMO { serial_number: 3, ..Default::default() }],
            ..Default::default()
        },
    ]
}

#[test]
fn pages_are_merged_field_by_field() {
    let [first, second, third] = pages();
    assert_eq!(
        merge_page(merge_page(first, second), third),
        RealDataNewReqDTO {
            device_serial_number: "third".to_string(),
            timestamp: 30,
            ap: 3,
            cp: 2,
            dtu_power: 300,
            dtu_daily_energy: 7,
            sgs_data: vec![
                SGSMO { serial_number: 1, ..Default::default() },
                SGSMO { serial_number: 3, ..Default::default() },
            ],
            pv_data: vec![
                PvMO { port_number: 1, ..Default::default() },
                PvMO { port_number: 2, ..Default::default() },
            ],
        }
    );
}

#[test]
fn merging_is_associative_and_blank_pages_add_nothing() {
    let [first, second, third] = pages();
    assert_eq!(
        merge_page(merge_page(first.clone(), second.clone()), third.clone()),
        merge_page(first.clone(), merge_page(second, third))
    );
    assert_eq!(merge_page(first.clone(), RealDataNewReqDTO::default()), first);
    assert_eq!(merge_page(RealDataNewReqDTO::default(), first.clone()), first);
}

#[test]
fn legacy_telemetry_needs_a_serial_number_from_somewhere() {
    let named = HMSStateResponse { dtu_sn: "dtu".to_string(), time: 3, ..Default::default() };
    let unnamed = HMSStateResponse { time: 3, ..Default::default() };
    assert_eq!(accept_legacy(named.clone(), &known_device("")), Ok(named.clone()));
    assert_eq!(accept_legacy(named.clone(), &known_device("known")), Ok(named));
    assert_eq!(accept_legacy(unnamed.clone(), &known_device("known")), Ok(unnamed.clone()));
    assert_eq!(
        accept_legacy(unnamed, &known_device("")),
        Err(InverterError::MissingSerialNumber)
    );
}

fn information(dfs: i64, enc_rand: Vec<u8>) -> APPInfoDataReqDTO {
    APPInfoDataReqDTO {
        dtu_serial_number: "serial".to_string(),
        dtu_info: Some(APPDtuInfoMO { dfs, enc_rand, dtu_sw_version: 4711 }),
    }
}

#[test]
fn bit_25_says_whether_a_device_encrypts() {
    let plain = read_capabilities(&information(!(1 << 25), vec![1; 16])).expect("reads");
    assert!(!plain.encrypted);
    assert_eq!(plain.enc_rand, None);
    assert_eq!(plain.dtu_serial_number, "serial");
    assert_eq!(plain.firmware_version, 4711);

    let encrypted = read_capabilities(&information(1 << 25, vec![1; 16])).expect("reads");
    assert!(encrypted.encrypted);
    assert_eq!(encrypted.enc_rand, Some(vec![1; 16]));

    let all_flags = read_capabilities(&information(-1, vec![2; 16])).expect("reads");
    assert!(all_flags.encrypted);
}

#[test]
fn capabilities_need_a_valid_random_string_where_the_device_encrypts() {
    assert_eq!(
        read_capabilities(&information(1 << 25, vec![1; 15])).expect_err("too short"),
        InverterError::InvalidEncRand { length: 15 }
    );
    assert!(read_capabilities(&information(0, vec![1; 15])).is_ok());
    assert_eq!(
        read_capabilities(&APPInfoDataReqDTO::default()).expect_err("no section on the DTU"),
        InverterError::MissingDtuInfo
    );
}
