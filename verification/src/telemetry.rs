//! Telemetry: pages of the new format, and their way into the legacy format.

use crate::capabilities::{Capabilities, Device};
use crate::error::{InverterError, Quantity};
use crate::protos::{
    HMSStateResponse, InverterState, Page, PortState, PvMO, RealDataNewReqDTO, Telemetry, SGSMO,
};
use crate::text::{signed_decimal, signed_decimal_string};
use vstd::prelude::*;

verus! {

/// A number in 32 bits.
pub open spec fn narrowed(value: nat, quantity: Quantity) -> Result<i32, InverterError> {
    if value <= i32::MAX {
        Ok(value as i32)
    } else {
        Err(InverterError::OutOfRange { quantity, value: value as u64 })
    }
}

/// What a later page says, or the value so far where the page leaves it out.
pub open spec fn later_i32(so_far: i32, page: i32) -> i32 {
    if page != 0 {
        page
    } else {
        so_far
    }
}

/// What a later page says, or the value so far where the page leaves it out.
pub open spec fn later_u64(so_far: u64, page: u64) -> u64 {
    if page != 0 {
        page
    } else {
        so_far
    }
}

/// Two pages as one: lists are put one behind the other; of single values the
/// later page has the last word, unless it leaves them out.
pub open spec fn merged(so_far: Page, page: Page) -> Page {
    Page {
        device_serial_number: if page.device_serial_number.len() > 0 {
            page.device_serial_number
        } else {
            so_far.device_serial_number
        },
        timestamp: later_i32(so_far.timestamp, page.timestamp),
        ap: later_i32(so_far.ap, page.ap),
        cp: later_i32(so_far.cp, page.cp),
        dtu_power: later_u64(so_far.dtu_power, page.dtu_power),
        dtu_daily_energy: later_u64(so_far.dtu_daily_energy, page.dtu_daily_energy),
        sgs_data: so_far.sgs_data + page.sgs_data,
        pv_data: so_far.pv_data + page.pv_data,
    }
}

/// A page that says nothing.
pub open spec fn blank_page() -> Page {
    Page {
        device_serial_number: Seq::empty(),
        timestamp: 0,
        ap: 0,
        cp: 0,
        dtu_power: 0,
        dtu_daily_energy: 0,
        sgs_data: Seq::empty(),
        pv_data: Seq::empty(),
    }
}

/// The serial number under which telemetry is reported: that of the
/// application information, else that of the telemetry, else that of the first
/// inverter.
pub open spec fn reported_serial_number(page: Page, device: Device) -> Seq<char> {
    if device.dtu_serial_number.len() > 0 {
        device.dtu_serial_number
    } else if page.device_serial_number.len() > 0 {
        page.device_serial_number
    } else {
        signed_decimal(page.sgs_data[0].serial_number as int)
    }
}

/// The legacy form of the inverter at place `index`, counted from zero.
pub open spec fn inverter_state_of(sgs: SGSMO, index: int) -> InverterState {
    InverterState {
        inv_id: sgs.serial_number,
        port_id: (index + 1) as i32,
        grid_voltage: sgs.voltage,
        grid_freq: sgs.frequency,
        pv_current_power: sgs.active_power,
        temperature: sgs.temperature,
        grid_current: sgs.current,
        power_factor: sgs.power_factor,
        warning_number: sgs.warning_number,
        modulation_index_signal: sgs.modulation_index_signal,
        firmware_version: sgs.firmware_version,
    }
}

/// The legacy form of a panel input.
pub open spec fn port_state_of(pv: PvMO) -> PortState {
    PortState {
        pv_sn: pv.serial_number,
        pv_port: pv.port_number,
        pv_vol: pv.voltage,
        pv_cur: pv.current,
        pv_power: pv.power,
        pv_energy_total: pv.energy_total,
        pv_daily_yield: pv.energy_daily,
    }
}

/// The legacy form of all pages together.
pub open spec fn mapped(page: Page, device: Device) -> Result<Telemetry, InverterError> {
    if page.sgs_data.len() == 0 {
        Err(InverterError::NoSgsTelemetry)
    } else {
        match (
            narrowed(page.dtu_power as nat, Quantity::DtuPower),
            narrowed(page.dtu_daily_energy as nat, Quantity::DtuDailyEnergy),
            narrowed(page.sgs_data.len(), Quantity::SgsCount),
            narrowed(page.pv_data.len(), Quantity::PvCount),
        ) {
            (Err(e), _, _, _) => Err(e),
            (_, Err(e), _, _) => Err(e),
            (_, _, Err(e), _) => Err(e),
            (_, _, _, Err(e)) => Err(e),
            (Ok(power), Ok(energy), Ok(inverters), Ok(ports)) => Ok(
                Telemetry {
                    dtu_sn: reported_serial_number(page, device),
                    time: page.timestamp,
                    pv_current_power: power,
                    pv_daily_yield: energy,
                    device_nub: inverters,
                    pv_nub: ports,
                    inverter_state: page.sgs_data.map(
                        |i: int, sgs: SGSMO| inverter_state_of(sgs, i),
                    ),
                    port_state: page.pv_data.map_values(|pv: PvMO| port_state_of(pv)),
                },
            ),
        }
    }
}

/// Legacy telemetry as it is accepted: somebody must name the DTU.
pub open spec fn accepted(response: Telemetry, device: Device) -> Result<Telemetry, InverterError> {
    if response.dtu_sn.len() == 0 && device.dtu_serial_number.len() == 0 {
        Err(InverterError::MissingSerialNumber)
    } else {
        Ok(response)
    }
}

/// A telemetry result by its contents.
pub open spec fn telemetry_view(r: Result<HMSStateResponse, InverterError>) -> Result<
    Telemetry,
    InverterError,
> {
    match r {
        Ok(t) => Ok(t@),
        Err(e) => Err(e),
    }
}

/// Brings a number into 32 bits.
pub fn checked_u64_to_i32(value: u64, quantity: Quantity) -> (r: Result<i32, InverterError>)
    ensures
        r == narrowed(value as nat, quantity),
        r is Ok <==> value <= 2_147_483_647,
        r matches Ok(v) ==> v == value,
        r matches Err(e) ==> e == (InverterError::OutOfRange { quantity, value: value as u64 }),
{
    if value <= i32::MAX as u64 {
        Ok(value as i32)
    } else {
        Err(InverterError::OutOfRange { quantity, value })
    }
}

/// Brings a length into 32 bits.
pub fn checked_usize_to_i32(value: usize, quantity: Quantity) -> (r: Result<i32, InverterError>)
    ensures
        r == narrowed(value as nat, quantity),
        r is Ok <==> value <= 2_147_483_647,
        r matches Ok(v) ==> v == value,
        r matches Err(e) ==> e == (InverterError::OutOfRange { quantity, value: value as u64 }),
{
    checked_u64_to_i32(value as u64, quantity)
}

/// Adds one more page to what has been collected.
pub fn merge_page(so_far: RealDataNewReqDTO, page: RealDataNewReqDTO) -> (m: RealDataNewReqDTO)
    ensures
        m@ == merged(so_far@, page@),
        m.device_serial_number@ == if page.device_serial_number@.len() > 0 {
            page.device_serial_number@
        } else {
            so_far.device_serial_number@
        },
        m.timestamp == if page.timestamp != 0 {
            page.timestamp
        } else {
            so_far.timestamp
        },
        m.ap == if page.ap != 0 {
            page.ap
        } else {
            so_far.ap
        },
        m.cp == if page.cp != 0 {
            page.cp
        } else {
            so_far.cp
        },
        m.dtu_power == if page.dtu_power != 0 {
            page.dtu_power
        } else {
            so_far.dtu_power
        },
        m.dtu_daily_energy == if page.dtu_daily_energy != 0 {
            page.dtu_daily_energy
        } else {
            so_far.dtu_daily_energy
        },
        m.sgs_data@ == so_far.sgs_data@ + page.sgs_data@,
        m.pv_data@ == so_far.pv_data@ + page.pv_data@,
{
    let mut so_far = so_far;
    let mut page = page;
    so_far.sgs_data.append(&mut page.sgs_data);
    so_far.pv_data.append(&mut page.pv_data);
    if !page.device_serial_number.as_str().is_empty() {
        so_far.device_serial_number = page.device_serial_number;
    }
    if page.timestamp != 0 {
        so_far.timestamp = page.timestamp;
    }
    if page.ap != 0 {
        so_far.ap = page.ap;
    }
    if page.cp != 0 {
        so_far.cp = page.cp;
    }
    if page.dtu_power != 0 {
        so_far.dtu_power = page.dtu_power;
    }
    if page.dtu_daily_energy != 0 {
        so_far.dtu_daily_energy = page.dtu_daily_energy;
    }
    so_far
}

/// Brings the collected pages into the legacy format.
pub fn map_real_data_new(response: &RealDataNewReqDTO, capabilities: &Capabilities) -> (r: Result<
    HMSStateResponse,
    InverterError,
>)
    ensures
        telemetry_view(r) == mapped(response@, capabilities@),
        r is Ok <==> 0 < response.sgs_data@.len() <= 2_147_483_647 && response.pv_data@.len()
            <= 2_147_483_647 && response.dtu_power <= 2_147_483_647 && response.dtu_daily_energy
            <= 2_147_483_647,
        r matches Ok(t) ==> {
            &&& capabilities.dtu_serial_number@.len() > 0 ==> t.dtu_sn@
                == capabilities.dtu_serial_number@
            &&& t.time == response.timestamp
            &&& t.pv_current_power == response.dtu_power
            &&& t.pv_daily_yield == response.dtu_daily_energy
            &&& t.device_nub == response.sgs_data@.len()
            &&& t.pv_nub == response.pv_data@.len()
            &&& t.inverter_state@.len() == response.sgs_data@.len()
            &&& t.port_state@.len() == response.pv_data@.len()
        },
{
    if response.sgs_data.is_empty() {
        return Err(InverterError::NoSgsTelemetry);
    }
    let dtu_sn: String = if !capabilities.dtu_serial_number.as_str().is_empty() {
        capabilities.dtu_serial_number.clone()
    } else if !response.device_serial_number.as_str().is_empty() {
        response.device_serial_number.clone()
    } else {
        signed_decimal_string(response.sgs_data[0].serial_number)
    };
    let pv_current_power = checked_u64_to_i32(response.dtu_power, Quantity::DtuPower)?;
    let pv_daily_yield = checked_u64_to_i32(response.dtu_daily_energy, Quantity::DtuDailyEnergy)?;
    let device_nub = checked_usize_to_i32(response.sgs_data.len(), Quantity::SgsCount)?;
    let pv_nub = checked_usize_to_i32(response.pv_data.len(), Quantity::PvCount)?;

    let ghost inverters = response.sgs_data@.map(|i: int, sgs: SGSMO| inverter_state_of(sgs, i));
    let mut inverter_state: Vec<InverterState> = Vec::new();
    for index in 0..response.sgs_data.len()
        invariant
            response.sgs_data@.len() <= i32::MAX,
            inverters == response.sgs_data@.map(|i: int, sgs: SGSMO| inverter_state_of(sgs, i)),
            inverter_state@ == inverters.take(index as int),
    {
        let sgs = response.sgs_data[index];
        let port_id = checked_usize_to_i32(index + 1, Quantity::InverterIndex)?;
        inverter_state.push(
            InverterState {
                inv_id: sgs.serial_number,
                port_id,
                grid_voltage: sgs.voltage,
                grid_freq: sgs.frequency,
                pv_current_power: sgs.active_power,
                temperature: sgs.temperature,
                grid_current: sgs.current,
                power_factor: sgs.power_factor,
                warning_number: sgs.warning_number,
                modulation_index_signal: sgs.modulation_index_signal,
                firmware_version: sgs.firmware_version,
            },
        );
        assert(inverter_state@ == inverters.take(index + 1));
    }
    assert(inverter_state@ == inverters);

    let ghost ports = response.pv_data@.map_values(|pv: PvMO| port_state_of(pv));
    let mut port_state: Vec<PortState> = Vec::new();
    for index in 0..response.pv_data.len()
        invariant
            ports == response.pv_data@.map_values(|pv: PvMO| port_state_of(pv)),
            port_state@ == ports.take(index as int),
    {
        let pv = response.pv_data[index];
        port_state.push(
            PortState {
                pv_sn: pv.serial_number,
                pv_port: pv.port_number,
                pv_vol: pv.voltage,
                pv_cur: pv.current,
                pv_power: pv.power,
                pv_energy_total: pv.energy_total,
                pv_daily_yield: pv.energy_daily,
            },
        );
        assert(port_state@ == ports.take(index + 1));
    }
    assert(port_state@ == ports);

    Ok(
        HMSStateResponse {
            dtu_sn,
            time: response.timestamp,
            pv_current_power,
            pv_daily_yield,
            device_nub,
            pv_nub,
            inverter_state,
            port_state,
        },
    )
}

/// Accepts legacy telemetry that names its DTU, or whose DTU is known.
pub fn accept_legacy(response: HMSStateResponse, capabilities: &Capabilities) -> (r: Result<
    HMSStateResponse,
    InverterError,
>)
    ensures
        telemetry_view(r) == accepted(response@, capabilities@),
        r is Ok <==> response.dtu_sn@.len() > 0 || capabilities.dtu_serial_number@.len() > 0,
        r matches Ok(t) ==> t == response,
        r matches Err(e) ==> e == InverterError::MissingSerialNumber,
{
    if response.dtu_sn.as_str().is_empty() && capabilities.dtu_serial_number.as_str().is_empty() {
        return Err(InverterError::MissingSerialNumber);
    }
    Ok(response)
}

/// A page that says nothing adds nothing, before or behind another one.
pub proof fn law_blank_page_adds_nothing(page: Page)
    ensures
        merged(page, blank_page()) == page,
        merged(blank_page(), page) == page,
{
    assert(merged(page, blank_page()) =~= page);
    assert(merged(blank_page(), page) =~= page);
}

/// In which groups neighbouring pages are put together does not matter.
pub proof fn law_merging_is_associative(a: Page, b: Page, c: Page)
    ensures
        merged(merged(a, b), c) == merged(a, merged(b, c)),
{
    assert(merged(merged(a, b), c) =~= merged(a, merged(b, c)));
}

/// The legacy form keeps every inverter and every panel input, in order and
/// with all its readings; inverters are numbered from one; the two counts are
/// those of the lists.
pub proof fn law_mapping_keeps_every_entry(page: Page, device: Device)
    requires
        mapped(page, device) is Ok,
    ensures
        ({
            let t = mapped(page, device)->Ok_0;
            &&& t.device_nub == t.inverter_state.len() == page.sgs_data.len()
            &&& t.pv_nub == t.port_state.len() == page.pv_data.len()
            &&& forall|i: int|
                0 <= i < page.sgs_data.len() ==> t.inverter_state[i] == inverter_state_of(
                    #[trigger] page.sgs_data[i],
                    i,
                )
            &&& forall|i: int|
                0 <= i < page.sgs_data.len() ==> (#[trigger] t.inverter_state[i]).port_id == i + 1
            &&& forall|i: int|
                0 <= i < page.pv_data.len() ==> t.port_state[i] == port_state_of(
                    #[trigger] page.pv_data[i],
                )
        }),
{
}

/// Of every single value a later page that states it has the last word, and one
/// that leaves it out changes nothing: values are never added up or mixed.
pub proof fn law_later_page_has_the_last_word(a: Page, b: Page)
    ensures
        b.device_serial_number.len() > 0 ==> merged(a, b).device_serial_number
            == b.device_serial_number,
        b.device_serial_number.len() == 0 ==> merged(a, b).device_serial_number
            == a.device_serial_number,
        b.timestamp != 0 ==> merged(a, b).timestamp == b.timestamp,
        b.timestamp == 0 ==> merged(a, b).timestamp == a.timestamp,
        b.ap != 0 ==> merged(a, b).ap == b.ap,
        b.ap == 0 ==> merged(a, b).ap == a.ap,
        b.cp != 0 ==> merged(a, b).cp == b.cp,
        b.cp == 0 ==> merged(a, b).cp == a.cp,
        b.dtu_power != 0 ==> merged(a, b).dtu_power == b.dtu_power,
        b.dtu_power == 0 ==> merged(a, b).dtu_power == a.dtu_power,
        b.dtu_daily_energy != 0 ==> merged(a, b).dtu_daily_energy == b.dtu_daily_energy,
        b.dtu_daily_energy == 0 ==> merged(a, b).dtu_daily_energy == a.dtu_daily_energy,
{
}

/// Merging loses, adds and moves no entry: those of the first page come first,
/// those of the second behind them, each list in its order.
pub proof fn law_merging_keeps_every_entry(a: Page, b: Page)
    ensures
        merged(a, b).sgs_data.len() == a.sgs_data.len() + b.sgs_data.len(),
        forall|i: int|
            0 <= i < a.sgs_data.len() ==> #[trigger] merged(a, b).sgs_data[i] == a.sgs_data[i],
        forall|i: int|
            0 <= i < b.sgs_data.len() ==> merged(a, b).sgs_data[a.sgs_data.len() + i]
                == #[trigger] b.sgs_data[i],
        merged(a, b).pv_data.len() == a.pv_data.len() + b.pv_data.len(),
        forall|i: int|
            0 <= i < a.pv_data.len() ==> #[trigger] merged(a, b).pv_data[i] == a.pv_data[i],
        forall|i: int|
            0 <= i < b.pv_data.len() ==> merged(a, b).pv_data[a.pv_data.len() + i]
                == #[trigger] b.pv_data[i],
{
}

/// A number is brought into 32 bits unchanged or not at all.
pub proof fn law_narrowing_keeps_the_number(value: nat, quantity: Quantity)
    ensures
        value <= 2_147_483_647 ==> narrowed(value, quantity) is Ok && narrowed(value, quantity)->Ok_0
            == value,
        value > 2_147_483_647 ==> narrowed(value, quantity) == Err::<i32, _>(
            InverterError::OutOfRange { quantity, value: value as u64 },
        ),
{
}

/// Which telemetry has a legacy form: there is an inverter, and neither total
/// and neither count is past 32 bits. Else the first of these that fails is the
/// reason.
pub proof fn law_what_has_a_legacy_form(page: Page, device: Device)
    ensures
        page.sgs_data.len() == 0 ==> mapped(page, device) == Err::<Telemetry, _>(
            InverterError::NoSgsTelemetry,
        ),
        page.sgs_data.len() > 0 && page.dtu_power > 2_147_483_647 ==> mapped(page, device) == Err::<
            Telemetry,
            _,
        >(InverterError::OutOfRange { quantity: Quantity::DtuPower, value: page.dtu_power }),
        page.sgs_data.len() > 0 && page.dtu_power <= 2_147_483_647 && page.dtu_daily_energy
            > 2_147_483_647 ==> mapped(page, device) == Err::<Telemetry, _>(
            InverterError::OutOfRange {
                quantity: Quantity::DtuDailyEnergy,
                value: page.dtu_daily_energy,
            },
        ),
        page.sgs_data.len() > 2_147_483_647 && page.dtu_power <= 2_147_483_647
            && page.dtu_daily_energy <= 2_147_483_647 ==> mapped(page, device) == Err::<
            Telemetry,
            _,
        >(
            InverterError::OutOfRange {
                quantity: Quantity::SgsCount,
                value: page.sgs_data.len() as u64,
            },
        ),
        0 < page.sgs_data.len() <= 2_147_483_647 && page.pv_data.len() > 2_147_483_647
            && page.dtu_power <= 2_147_483_647 && page.dtu_daily_energy <= 2_147_483_647 ==> mapped(
            page,
            device,
        ) == Err::<Telemetry, _>(
            InverterError::OutOfRange {
                quantity: Quantity::PvCount,
                value: page.pv_data.len() as u64,
            },
        ),
        0 < page.sgs_data.len() <= 2_147_483_647 && page.pv_data.len() <= 2_147_483_647
            && page.dtu_power <= 2_147_483_647 && page.dtu_daily_energy <= 2_147_483_647 ==> mapped(
            page,
            device,
        ) is Ok,
{
}

/// The legacy form reports power, daily energy, time and counts as they are, and
/// the serial number that is known best.
pub proof fn law_legacy_form_keeps_the_totals(page: Page, device: Device)
    requires
        mapped(page, device) is Ok,
    ensures
        ({
            let t = mapped(page, device)->Ok_0;
            &&& t.time == page.timestamp
            &&& t.pv_current_power == page.dtu_power
            &&& t.pv_daily_yield == page.dtu_daily_energy
            &&& t.device_nub == page.sgs_data.len()
            &&& t.pv_nub == page.pv_data.len()
            &&& device.dtu_serial_number.len() > 0 ==> t.dtu_sn == device.dtu_serial_number
            &&& device.dtu_serial_number.len() == 0 && page.device_serial_number.len() > 0
                ==> t.dtu_sn == page.device_serial_number
            &&& device.dtu_serial_number.len() == 0 && page.device_serial_number.len() == 0
                ==> t.dtu_sn == signed_decimal(page.sgs_data[0].serial_number as int)
        }),
{
}

/// The legacy form carries each reading of each inverter in the field of its
/// own, and numbers the inverters from one.
pub proof fn law_legacy_form_keeps_inverter_readings(page: Page, device: Device, i: int)
    requires
        mapped(page, device) is Ok,
        0 <= i < page.sgs_data.len(),
    ensures
        ({
            let sgs = page.sgs_data[i];
            let inverter = mapped(page, device)->Ok_0.inverter_state[i];
            &&& mapped(page, device)->Ok_0.inverter_state.len() == page.sgs_data.len()
            &&& inverter.inv_id == sgs.serial_number
            &&& inverter.port_id == i + 1
            &&& inverter.grid_voltage == sgs.voltage
            &&& inverter.grid_freq == sgs.frequency
            &&& inverter.pv_current_power == sgs.active_power
            &&& inverter.temperature == sgs.temperature
            &&& inverter.grid_current == sgs.current
            &&& inverter.power_factor == sgs.power_factor
            &&& inverter.warning_number == sgs.warning_number
            &&& inverter.modulation_index_signal == sgs.modulation_index_signal
            &&& inverter.firmware_version == sgs.firmware_version
        }),
{
}

/// The legacy form carries each reading of each panel input in the field of its
/// own.
pub proof fn law_legacy_form_keeps_panel_readings(page: Page, device: Device, i: int)
    requires
        mapped(page, device) is Ok,
        0 <= i < page.pv_data.len(),
    ensures
        ({
            let pv = page.pv_data[i];
            let port = mapped(page, device)->Ok_0.port_state[i];
            &&& mapped(page, device)->Ok_0.port_state.len() == page.pv_data.len()
            &&& port.pv_sn == pv.serial_number
            &&& port.pv_port == pv.port_number
            &&& port.pv_vol == pv.voltage
            &&& port.pv_cur == pv.current
            &&& port.pv_power == pv.power
            &&& port.pv_energy_total == pv.energy_total
            &&& port.pv_daily_yield == pv.energy_daily
        }),
{
}

/// Legacy telemetry is accepted exactly where it or the device names the DTU,
/// and what is accepted is what came in, in every field.
pub proof fn law_legacy_telemetry_is_kept_as_it_is(response: Telemetry, device: Device)
    ensures
        response.dtu_sn.len() > 0 || device.dtu_serial_number.len() > 0 ==> accepted(
            response,
            device,
        ) == Ok::<_, InverterError>(response),
        response.dtu_sn.len() == 0 && device.dtu_serial_number.len() == 0 ==> accepted(
            response,
            device,
        ) == Err::<Telemetry, _>(InverterError::MissingSerialNumber),
{
}

/// A telemetry result is modelled by its telemetry or by its error.
pub proof fn law_telemetry_results_are_kept(r: Result<HMSStateResponse, InverterError>)
    ensures
        r matches Ok(t) ==> telemetry_view(r) == Ok::<_, InverterError>(t@),
        r matches Err(e) ==> telemetry_view(r) == Err::<Telemetry, _>(e),
{
}

} // verus!
