//! What is known of a device once it has sent its application information.

use crate::bytes::copy_bytes;
use crate::crypto::ENC_RAND_LENGTH;
use crate::error::InverterError;
use crate::protos::{APPInfoDataReqDTO, ApplicationInfo};
use vstd::prelude::*;

verus! {

/// The feature flag of a device that encrypts: bit 25.
pub const ENCRYPTION_FLAG: i64 = 0x200_0000;

/// What a device can do and what it is called.
#[derive(Clone, Debug)]
pub struct Capabilities {
    pub encrypted: bool,
    pub enc_rand: Option<Vec<u8>>,
    pub dtu_serial_number: String,
    pub firmware_version: i32,
}

/// The contents of [`Capabilities`].
#[verifier::ext_equal]
pub struct Device {
    pub encrypted: bool,
    pub enc_rand: Option<Seq<u8>>,
    pub dtu_serial_number: Seq<char>,
    pub firmware_version: i32,
}

impl Device {
    /// A device has a random string, of the right length, exactly where it
    /// encrypts.
    pub open spec fn wf(self) -> bool {
        &&& self.encrypted <==> self.enc_rand is Some
        &&& self.enc_rand matches Some(rand) ==> rand.len() == ENC_RAND_LENGTH
    }
}

impl View for Capabilities {
    type V = Device;

    open spec fn view(&self) -> Device {
        Device {
            encrypted: self.encrypted,
            enc_rand: match self.enc_rand {
                Some(rand) => Some(rand@),
                None => None,
            },
            dtu_serial_number: self.dtu_serial_number@,
            firmware_version: self.firmware_version,
        }
    }
}

/// The device that an application information describes.
pub open spec fn described(info: ApplicationInfo) -> Result<Device, InverterError> {
    match info.dtu_info {
        None => Err(InverterError::MissingDtuInfo),
        Some(dtu) => {
            let encrypted = dtu.dfs & ENCRYPTION_FLAG != 0;
            if encrypted && dtu.enc_rand.len() != ENC_RAND_LENGTH {
                Err(InverterError::InvalidEncRand { length: dtu.enc_rand.len() as usize })
            } else {
                Ok(
                    Device {
                        encrypted,
                        enc_rand: if encrypted {
                            Some(dtu.enc_rand)
                        } else {
                            None
                        },
                        dtu_serial_number: info.dtu_serial_number,
                        firmware_version: dtu.dtu_sw_version,
                    },
                )
            }
        },
    }
}

/// Reads the capabilities out of an application information.
pub fn read_capabilities(info: &APPInfoDataReqDTO) -> (r: Result<Capabilities, InverterError>)
    ensures
        match r {
            Ok(c) => described(info@) == Ok::<_, InverterError>(c@) && c@.wf(),
            Err(e) => described(info@) == Err::<Device, _>(e),
        },
        r matches Ok(c) ==> {
            &&& info.dtu_info is Some
            &&& c.encrypted == ((info.dtu_info->0.dfs >> 25i64) & 1 == 1)
            &&& c.encrypted ==> (c.enc_rand matches Some(rand) && rand@
                == info.dtu_info->0.enc_rand@ && rand@.len() == 16)
            &&& !c.encrypted ==> c.enc_rand is None
            &&& c.dtu_serial_number@ == info.dtu_serial_number@
            &&& c.firmware_version == info.dtu_info->0.dtu_sw_version
        },
{
    let dtu = match &info.dtu_info {
        None => {
            return Err(InverterError::MissingDtuInfo);
        },
        Some(dtu) => dtu,
    };
    let dfs: i64 = dtu.dfs;
    assert((((dfs >> 25i64) & 1) != 0) == (dfs & 0x200_0000 != 0)) by (bit_vector);
    assert((((dfs >> 25i64) & 1) != 0) == ((dfs >> 25i64) & 1 == 1)) by (bit_vector);
    let encrypted = ((dfs >> 25i64) & 1) != 0;
    let enc_rand = if encrypted {
        if dtu.enc_rand.len() != ENC_RAND_LENGTH {
            return Err(InverterError::InvalidEncRand { length: dtu.enc_rand.len() });
        }
        Some(copy_bytes(&dtu.enc_rand))
    } else {
        None
    };
    Ok(
        Capabilities {
            encrypted,
            enc_rand,
            dtu_serial_number: info.dtu_serial_number.clone(),
            firmware_version: dtu.dtu_sw_version,
        },
    )
}

/// Bit 25 of the feature flags alone says whether a device encrypts. Where it
/// does, its random string is the one it sent and has sixteen bytes; where it
/// does not, none is kept. Serial number and firmware version are those of the
/// information. Nothing else is refused.
pub proof fn law_device_is_what_it_says(info: ApplicationInfo)
    ensures
        info.dtu_info is None ==> described(info) == Err::<Device, _>(
            InverterError::MissingDtuInfo,
        ),
        info.dtu_info matches Some(dtu) ==> (dtu.dfs >> 25i64) & 1 == 1 && dtu.enc_rand.len() != 16
            ==> described(info) == Err::<Device, _>(
            InverterError::InvalidEncRand { length: dtu.enc_rand.len() as usize },
        ),
        info.dtu_info matches Some(dtu) ==> (dtu.dfs >> 25i64) & 1 != 1 || dtu.enc_rand.len() == 16
            ==> (described(info) matches Ok(device) && {
            &&& device.encrypted <==> (dtu.dfs >> 25i64) & 1 == 1
            &&& device.encrypted ==> device.enc_rand == Some(dtu.enc_rand)
            &&& !device.encrypted ==> device.enc_rand is None
            &&& device.dtu_serial_number == info.dtu_serial_number
            &&& device.firmware_version == dtu.dtu_sw_version
        }),
{
    if let Some(dtu) = info.dtu_info {
        let dfs = dtu.dfs;
        assert(((dfs >> 25i64) & 1 == 1) == (dfs & 0x200_0000 != 0)) by (bit_vector);
    }
}

/// The model of capabilities holds every field as it is.
pub proof fn law_device_holds_every_field(c: Capabilities)
    ensures
        c@.encrypted == c.encrypted,
        c.enc_rand is None ==> c@.enc_rand is None,
        c.enc_rand matches Some(rand) ==> c@.enc_rand == Some(rand@),
        c@.dtu_serial_number == c.dtu_serial_number@,
        c@.firmware_version == c.firmware_version,
{
}

} // verus!
