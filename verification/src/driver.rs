//! Driver descriptors: which backend controls a device and how it scans.

use vstd::prelude::*;

use crate::errors::FPrintError;

verus! {

/// How the devices of a driver take a finger: pressed flat on a full
/// surface, or swiped over a smaller one.
#[derive(Debug, Clone, Copy, PartialEq, Eq, Structural)]
pub enum ScanType {
    /// The reader surface covers the whole finger.
    Press,
    /// The reader requires swiping the finger over a smaller area.
    Swipe,
}

impl ScanType {
    /// The scan type a raw native code denotes, if any: 0 is press,
    /// 1 is swipe.
    pub open spec fn decode_spec(value: u32) -> Option<ScanType> {
        if value == 0 {
            Some(ScanType::Press)
        } else if value == 1 {
            Some(ScanType::Swipe)
        } else {
            None
        }
    }

    /// Decodes a raw scan-type code, rejecting every unknown value.
    pub fn try_from(value: u32) -> (r: Result<ScanType, FPrintError>)
        ensures
            ScanType::decode_spec(value) matches Some(s) ==> r == Ok::<ScanType, FPrintError>(s),
            ScanType::decode_spec(value) is None ==> r == Err::<ScanType, FPrintError>(
                FPrintError::InvalidEnumValue(value),
            ),
    {
        if value == 0 {
            Ok(ScanType::Press)
        } else if value == 1 {
            Ok(ScanType::Swipe)
        } else {
            Err(FPrintError::InvalidEnumValue(value))
        }
    }
}

/// Mathematical image of a driver descriptor.
#[verifier::ext_equal]
pub struct DriverView {
    pub name: Seq<char>,
    pub full_name: Seq<char>,
    pub driver_id: u16,
    pub scan_type: u32,
}

/// The backend controlling a device: its names, its id code, and the raw
/// scan-type code of the hardware it drives.
#[derive(Debug)]
pub struct Driver {
    name: String,
    full_name: String,
    driver_id: u16,
    scan_type: u32,
}

impl View for Driver {
    type V = DriverView;

    closed spec fn view(&self) -> DriverView {
        DriverView {
            name: self.name@,
            full_name: self.full_name@,
            driver_id: self.driver_id,
            scan_type: self.scan_type,
        }
    }
}

impl Clone for Driver {
    /// An identical descriptor; drivers are plain descriptions and may be
    /// shared freely.
    fn clone(&self) -> (r: Self)
        ensures
            r == *self,
    {
        Driver {
            name: self.name.clone(),
            full_name: self.full_name.clone(),
            driver_id: self.driver_id,
            scan_type: self.scan_type,
        }
    }
}

impl Driver {
    /// Wraps the description the native layer reports for a driver.
    pub fn new(name: String, full_name: String, driver_id: u16, scan_type: u32) -> (r: Driver)
        ensures
            r@ == (DriverView { name: name@, full_name: full_name@, driver_id, scan_type }),
    {
        Driver { name, full_name, driver_id, scan_type }
    }

    /// The short name of the driver.
    pub fn get_name(&self) -> (r: String)
        ensures
            r@ == self@.name,
    {
        self.name.clone()
    }

    /// The descriptive name of the driver.
    pub fn get_full_name(&self) -> (r: String)
        ensures
            r@ == self@.full_name,
    {
        self.full_name.clone()
    }

    /// The id code of the driver.
    pub fn get_driver_id(&self) -> (r: u16)
        ensures
            r == self@.driver_id,
    {
        self.driver_id
    }

    /// Decodes the scan type of the devices this driver controls,
    /// rejecting a code the taxonomy does not know.
    pub fn get_scan_type(&self) -> (r: Result<ScanType, FPrintError>)
        ensures
            ScanType::decode_spec(self@.scan_type) matches Some(s) ==> r == Ok::<
                ScanType,
                FPrintError,
            >(s),
            ScanType::decode_spec(self@.scan_type) is None ==> r == Err::<ScanType, FPrintError>(
                FPrintError::InvalidEnumValue(self@.scan_type),
            ),
    {
        ScanType::try_from(self.scan_type)
    }
}

} // verus!
