//! The messages of the protocol, with the fields that this library reads or
//! fills. A field that a message leaves out has the value that `default` gives.

use vstd::prelude::*;

verus! {

/// What a device says of its DTU.
#[derive(Clone, Debug, PartialEq, Eq)]
pub struct APPDtuInfoMO {
    /// Feature flags.
    pub dfs: i64,
    /// Random string from which keys and nonces are derived.
    pub enc_rand: Vec<u8>,
    pub dtu_sw_version: i32,
}

/// Application information, as the device answers it.
#[derive(Clone, Debug, PartialEq, Eq)]
pub struct APPInfoDataReqDTO {
    pub dtu_serial_number: String,
    pub dtu_info: Option<APPDtuInfoMO>,
}

/// Request for application information.
#[derive(Clone, Debug, PartialEq, Eq)]
pub struct APPInfoDataResDTO {
    pub time_ymd_hms: Vec<u8>,
    pub offset: i32,
    pub time: u32,
}

/// A command to the device.
#[derive(Clone, Debug, PartialEq, Eq)]
pub struct CommandResDTO {
    pub time: i32,
    pub action: i32,
    pub package_nub: i32,
    pub tid: i64,
    pub data: String,
}

/// The answer to a command.
#[derive(Clone, Copy, Debug, PartialEq, Eq)]
pub struct CommandReqDTO {
    pub action: i32,
    pub err_code: i32,
}

/// Request for telemetry in the legacy format.
#[derive(Clone, Debug, PartialEq, Eq)]
pub struct RealDataResDTO {
    pub ymd_hms: String,
    pub offset: i32,
    pub time: i32,
}

/// Request for one page of telemetry in the new format.
#[derive(Clone, Debug, PartialEq, Eq)]
pub struct RealDataNewResDTO {
    pub time_ymd_hms: Vec<u8>,
    pub offset: i32,
    pub time: i32,
    /// Number of the page.
    pub cp: i32,
}

/// The grid side of an inverter, in the new format.
#[derive(Clone, Copy, Debug, PartialEq, Eq)]
pub struct SGSMO {
    pub serial_number: i64,
    pub firmware_version: i32,
    pub voltage: i32,
    pub frequency: i32,
    pub active_power: i32,
    pub current: i32,
    pub power_factor: i32,
    pub temperature: i32,
    pub warning_number: i32,
    pub modulation_index_signal: i32,
}

/// A panel input of an inverter, in the new format.
#[derive(Clone, Copy, Debug, PartialEq, Eq)]
pub struct PvMO {
    pub serial_number: i64,
    pub port_number: i32,
    pub voltage: i32,
    pub current: i32,
    pub power: i32,
    pub energy_total: i32,
    pub energy_daily: i32,
}

/// One page of telemetry in the new format.
#[derive(Clone, Debug, PartialEq, Eq)]
pub struct RealDataNewReqDTO {
    pub device_serial_number: String,
    pub timestamp: i32,
    /// Number of pages.
    pub ap: i32,
    /// Number of this page.
    pub cp: i32,
    pub dtu_power: u64,
    pub dtu_daily_energy: u64,
    pub sgs_data: Vec<SGSMO>,
    pub pv_data: Vec<PvMO>,
}

/// The grid side of an inverter, in the legacy format.
#[derive(Clone, Copy, Debug, PartialEq, Eq)]
pub struct InverterState {
    pub inv_id: i64,
    pub port_id: i32,
    pub grid_voltage: i32,
    pub grid_freq: i32,
    pub pv_current_power: i32,
    pub temperature: i32,
    pub grid_current: i32,
    pub power_factor: i32,
    pub warning_number: i32,
    pub modulation_index_signal: i32,
    pub firmware_version: i32,
}

/// A panel input of an inverter, in the legacy format.
#[derive(Clone, Copy, Debug, PartialEq, Eq)]
pub struct PortState {
    pub pv_sn: i64,
    pub pv_port: i32,
    pub pv_vol: i32,
    pub pv_cur: i32,
    pub pv_power: i32,
    pub pv_energy_total: i32,
    pub pv_daily_yield: i32,
}

/// Telemetry in the legacy format, to which all telemetry is brought.
#[derive(Clone, Debug, PartialEq, Eq)]
pub struct HMSStateResponse {
    pub dtu_sn: String,
    pub time: i32,
    pub pv_current_power: i32,
    pub pv_daily_yield: i32,
    pub device_nub: i32,
    pub pv_nub: i32,
    pub inverter_state: Vec<InverterState>,
    pub port_state: Vec<PortState>,
}

/// The contents of a [`RealDataNewReqDTO`].
#[verifier::ext_equal]
pub struct Page {
    pub device_serial_number: Seq<char>,
    pub timestamp: i32,
    pub ap: i32,
    pub cp: i32,
    pub dtu_power: u64,
    pub dtu_daily_energy: u64,
    pub sgs_data: Seq<SGSMO>,
    pub pv_data: Seq<PvMO>,
}

impl View for RealDataNewReqDTO {
    type V = Page;

    open spec fn view(&self) -> Page {
        Page {
            device_serial_number: self.device_serial_number@,
            timestamp: self.timestamp,
            ap: self.ap,
            cp: self.cp,
            dtu_power: self.dtu_power,
            dtu_daily_energy: self.dtu_daily_energy,
            sgs_data: self.sgs_data@,
            pv_data: self.pv_data@,
        }
    }
}

/// The contents of a [`HMSStateResponse`].
#[verifier::ext_equal]
pub struct Telemetry {
    pub dtu_sn: Seq<char>,
    pub time: i32,
    pub pv_current_power: i32,
    pub pv_daily_yield: i32,
    pub device_nub: i32,
    pub pv_nub: i32,
    pub inverter_state: Seq<InverterState>,
    pub port_state: Seq<PortState>,
}

impl View for HMSStateResponse {
    type V = Telemetry;

    open spec fn view(&self) -> Telemetry {
        Telemetry {
            dtu_sn: self.dtu_sn@,
            time: self.time,
            pv_current_power: self.pv_current_power,
            pv_daily_yield: self.pv_daily_yield,
            device_nub: self.device_nub,
            pv_nub: self.pv_nub,
            inverter_state: self.inverter_state@,
            port_state: self.port_state@,
        }
    }
}

/// The contents of an [`APPDtuInfoMO`].
#[verifier::ext_equal]
pub struct DtuInfo {
    pub dfs: i64,
    pub enc_rand: Seq<u8>,
    pub dtu_sw_version: i32,
}

/// The contents of an [`APPInfoDataReqDTO`].
#[verifier::ext_equal]
pub struct ApplicationInfo {
    pub dtu_serial_number: Seq<char>,
    pub dtu_info: Option<DtuInfo>,
}

impl View for APPDtuInfoMO {
    type V = DtuInfo;

    open spec fn view(&self) -> DtuInfo {
        DtuInfo {
            dfs: self.dfs,
            enc_rand: self.enc_rand@,
            dtu_sw_version: self.dtu_sw_version,
        }
    }
}

impl View for APPInfoDataReqDTO {
    type V = ApplicationInfo;

    open spec fn view(&self) -> ApplicationInfo {
        ApplicationInfo {
            dtu_serial_number: self.dtu_serial_number@,
            dtu_info: match self.dtu_info {
                Some(info) => Some(info@),
                None => None,
            },
        }
    }
}

impl Default for APPDtuInfoMO {
    fn default() -> (m: Self)
        ensures
            m@ == (DtuInfo { dfs: 0, enc_rand: Seq::empty(), dtu_sw_version: 0 }),
    {
        APPDtuInfoMO { dfs: 0, enc_rand: Vec::new(), dtu_sw_version: 0 }
    }
}

impl Default for APPInfoDataReqDTO {
    fn default() -> (m: Self)
        ensures
            m@ == (ApplicationInfo { dtu_serial_number: Seq::empty(), dtu_info: None }),
    {
        APPInfoDataReqDTO { dtu_serial_number: String::new(), dtu_info: None }
    }
}

impl Default for CommandResDTO {
    fn default() -> (m: Self)
        ensures
            m.time == 0,
            m.action == 0,
            m.package_nub == 0,
            m.tid == 0,
            m.data@ == Seq::<char>::empty(),
    {
        CommandResDTO { time: 0, action: 0, package_nub: 0, tid: 0, data: String::new() }
    }
}

impl Default for CommandReqDTO {
    fn default() -> (m: Self)
        ensures
            m == (CommandReqDTO { action: 0, err_code: 0 }),
    {
        CommandReqDTO { action: 0, err_code: 0 }
    }
}

impl Default for SGSMO {
    fn default() -> (m: Self)
        ensures
            m == (SGSMO {
                serial_number: 0,
                firmware_version: 0,
                voltage: 0,
                frequency: 0,
                active_power: 0,
                current: 0,
                power_factor: 0,
                temperature: 0,
                warning_number: 0,
                modulation_index_signal: 0,
            }),
    {
        SGSMO {
            serial_number: 0,
            firmware_version: 0,
            voltage: 0,
            frequency: 0,
            active_power: 0,
            current: 0,
            power_factor: 0,
            temperature: 0,
            warning_number: 0,
            modulation_index_signal: 0,
        }
    }
}

impl Default for PvMO {
    fn default() -> (m: Self)
        ensures
            m == (PvMO {
                serial_number: 0,
                port_number: 0,
                voltage: 0,
                current: 0,
                power: 0,
                energy_total: 0,
                energy_daily: 0,
            }),
    {
        PvMO {
            serial_number: 0,
            port_number: 0,
            voltage: 0,
            current: 0,
            power: 0,
            energy_total: 0,
            energy_daily: 0,
        }
    }
}

impl Default for RealDataNewReqDTO {
    fn default() -> (m: Self)
        ensures
            m@ == (Page {
                device_serial_number: Seq::empty(),
                timestamp: 0,
                ap: 0,
                cp: 0,
                dtu_power: 0,
                dtu_daily_energy: 0,
                sgs_data: Seq::empty(),
                pv_data: Seq::empty(),
            }),
    {
        RealDataNewReqDTO {
            device_serial_number: String::new(),
            timestamp: 0,
            ap: 0,
            cp: 0,
            dtu_power: 0,
            dtu_daily_energy: 0,
            sgs_data: Vec::new(),
            pv_data: Vec::new(),
        }
    }
}

impl Default for InverterState {
    fn default() -> (m: Self)
        ensures
            m == (InverterState {
                inv_id: 0,
                port_id: 0,
                grid_voltage: 0,
                grid_freq: 0,
                pv_current_power: 0,
                temperature: 0,
                grid_current: 0,
                power_factor: 0,
                warning_number: 0,
                modulation_index_signal: 0,
                firmware_version: 0,
            }),
    {
        InverterState {
            inv_id: 0,
            port_id: 0,
            grid_voltage: 0,
            grid_freq: 0,
            pv_current_power: 0,
            temperature: 0,
            grid_current: 0,
            power_factor: 0,
            warning_number: 0,
            modulation_index_signal: 0,
            firmware_version: 0,
        }
    }
}

impl Default for PortState {
    fn default() -> (m: Self)
        ensures
            m == (PortState {
                pv_sn: 0,
                pv_port: 0,
                pv_vol: 0,
                pv_cur: 0,
                pv_power: 0,
                pv_energy_total: 0,
                pv_daily_yield: 0,
            }),
    {
        PortState {
            pv_sn: 0,
            pv_port: 0,
            pv_vol: 0,
            pv_cur: 0,
            pv_power: 0,
            pv_energy_total: 0,
            pv_daily_yield: 0,
        }
    }
}

impl Default for HMSStateResponse {
    fn default() -> (m: Self)
        ensures
            m@ == (Telemetry {
                dtu_sn: Seq::empty(),
                time: 0,
                pv_current_power: 0,
                pv_daily_yield: 0,
                device_nub: 0,
                pv_nub: 0,
                inverter_state: Seq::empty(),
                port_state: Seq::empty(),
            }),
    {
        HMSStateResponse {
            dtu_sn: String::new(),
            time: 0,
            pv_current_power: 0,
            pv_daily_yield: 0,
            device_nub: 0,
            pv_nub: 0,
            inverter_state: Vec::new(),
            port_state: Vec::new(),
        }
    }
}

/// The model of telemetry holds every field as it is.
pub proof fn law_telemetry_holds_every_field(m: HMSStateResponse)
    ensures
        m@.dtu_sn == m.dtu_sn@,
        m@.time == m.time,
        m@.pv_current_power == m.pv_current_power,
        m@.pv_daily_yield == m.pv_daily_yield,
        m@.device_nub == m.device_nub,
        m@.pv_nub == m.pv_nub,
        m@.inverter_state == m.inverter_state@,
        m@.port_state == m.port_state@,
{
}

/// The model of a page holds every field as it is.
pub proof fn law_page_holds_every_field(m: RealDataNewReqDTO)
    ensures
        m@.device_serial_number == m.device_serial_number@,
        m@.timestamp == m.timestamp,
        m@.ap == m.ap,
        m@.cp == m.cp,
        m@.dtu_power == m.dtu_power,
        m@.dtu_daily_energy == m.dtu_daily_energy,
        m@.sgs_data == m.sgs_data@,
        m@.pv_data == m.pv_data@,
{
}

/// The model of application information holds every field as it is.
pub proof fn law_application_info_holds_every_field(m: APPInfoDataReqDTO)
    ensures
        m@.dtu_serial_number == m.dtu_serial_number@,
        m@.dtu_info is Some <==> m.dtu_info is Some,
        m.dtu_info matches Some(dtu) ==> {
            &&& m@.dtu_info->0.dfs == dtu.dfs
            &&& m@.dtu_info->0.enc_rand == dtu.enc_rand@
            &&& m@.dtu_info->0.dtu_sw_version == dtu.dtu_sw_version
        },
{
}

} // verus!
