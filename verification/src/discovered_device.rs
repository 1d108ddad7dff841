//! The snapshot a hardware scan returns: a null-terminated array of
//! discovered-device entries.
//!
//! The native discovery call hands back a variable-length array whose end
//! is marked by the first null entry; the handle itself cannot report the
//! length, so the true element count is found by scanning for the
//! terminator.  The wrapper exposes the snapshot as a bounds-checked,
//! restartable forward sequence.

use vstd::prelude::*;
use vstd::slice::slice_index_get;

use crate::device::Device;
use crate::device::DeviceView;
use crate::driver::Driver;
use crate::driver::DriverView;
use crate::print_data::PrintData;

verus! {

/// Mathematical image of a discovered-device entry.
#[verifier::ext_equal]
pub struct DiscoveredDevView {
    pub driver: DriverView,
    pub devtype: u32,
}

/// One hardware candidate found by a discovery scan, not yet opened.
///
/// An entry is a view into the snapshot that found it and stays
/// meaningful only as long as that snapshot; the hardware itself may
/// already have been unplugged, which surfaces from operation calls
/// after `open`, never from `open` itself.
#[derive(Debug)]
pub struct DiscoveredDev {
    driver: Driver,
    devtype: u32,
}

impl View for DiscoveredDev {
    type V = DiscoveredDevView;

    closed spec fn view(&self) -> DiscoveredDevView {
        DiscoveredDevView { driver: self.driver@, devtype: self.devtype }
    }
}

impl Clone for DiscoveredDev {
    /// An identical entry; entries are borrowed descriptions of the
    /// snapshot and carry no resource of their own.
    fn clone(&self) -> (r: Self)
        ensures
            r == *self,
    {
        DiscoveredDev { driver: self.driver.clone(), devtype: self.devtype }
    }
}

impl DiscoveredDev {
    /// Wraps the description the native layer reports for one discovered
    /// device.
    pub fn new(driver: Driver, devtype: u32) -> (r: DiscoveredDev)
        ensures
            r@ == (DiscoveredDevView { driver: driver@, devtype }),
    {
        DiscoveredDev { driver, devtype }
    }

    /// The driver that would control this device.
    pub fn get_driver(&self) -> (r: Driver)
        ensures
            r@ == self@.driver,
    {
        self.driver.clone()
    }

    /// The devtype of this device.
    pub fn get_devtype(&self) -> (r: u32)
        ensures
            r == self@.devtype,
    {
        self.devtype
    }

    /// Whether a stored print appears compatible with this device: it
    /// must come from the same driver and device type.
    pub fn supports_print_data(&self, data: &PrintData) -> (r: bool)
        ensures
            r == (self@.driver.driver_id == data@.driver_id && self@.devtype == data@.devtype),
    {
        self.driver.get_driver_id() == data.get_driver_id() && self.devtype == data.get_devtype()
    }

    /// Opens this candidate into an exclusive device session, taking the
    /// capabilities the native open call revealed.  A fresh session has
    /// no enrollment in progress.
    pub fn open(
        &self,
        nr_enroll_stages: i32,
        imaging: bool,
        identification: bool,
        img_width: i32,
        img_height: i32,
    ) -> (r: Device)
        requires
            nr_enroll_stages >= 1,
            img_width >= -1,
            img_height >= -1,
        ensures
            r.wf(),
            r@ == (DeviceView {
                driver: self@.driver,
                devtype: self@.devtype,
                nr_enroll_stages,
                imaging,
                identification,
                img_width,
                img_height,
                enroll_stage: 0,
            }),
    {
        Device::new(
            self.get_driver(),
            self.devtype,
            nr_enroll_stages,
            imaging,
            identification,
            img_width,
            img_height,
        )
    }
}

/// The number of entries before the first null slot: the true element
/// count of a null-terminated array.  A snapshot without a terminator is
/// all entries.
pub open spec fn terminator_scan(slots: Seq<Option<DiscoveredDev>>) -> int
    decreases slots.len(),
{
    if slots.len() == 0 {
        0
    } else if slots[0] is None {
        0
    } else {
        1 + terminator_scan(slots.skip(1))
    }
}

/// Law: the terminator scan is exactly the length of the entry prefix.
/// Every index below it holds an entry, the scan never exceeds the
/// array, and where it stops short of the end, a null slot sits; so the
/// forward sequence over the snapshot yields exactly this many entries
/// however often it is restarted.
pub proof fn lemma_terminator_scan(slots: Seq<Option<DiscoveredDev>>)
    ensures
        0 <= terminator_scan(slots) <= slots.len(),
        forall|i: int| 0 <= i < terminator_scan(slots) ==> slots[i] is Some,
        terminator_scan(slots) < slots.len() ==> slots[terminator_scan(slots)] is None,
    decreases slots.len(),
{
    if slots.len() > 0 && slots[0] is Some {
        lemma_terminator_scan(slots.skip(1));
        assert forall|i: int| 0 <= i < terminator_scan(slots) implies slots[i] is Some by {
            if i > 0 {
                assert(slots.skip(1)[i - 1] is Some);
            }
        }
    }
}

/// Law: a prefix of entries closed off by a null slot (or by the end of
/// the array) pins the terminator scan to the prefix length.
pub proof fn lemma_terminator_scan_value(slots: Seq<Option<DiscoveredDev>>, i: int)
    requires
        0 <= i <= slots.len(),
        forall|j: int| 0 <= j < i ==> slots[j] is Some,
        i < slots.len() ==> slots[i] is None,
    ensures
        terminator_scan(slots) == i,
    decreases i,
{
    if i == 0 {
    } else {
        assert(slots[0] is Some);
        lemma_terminator_scan_value(slots.skip(1), i - 1);
    }
}

/// Mathematical image of a discovery snapshot: its raw slots and the
/// position of its forward sequence.
#[verifier::ext_equal]
pub struct DiscoveredDevicesView {
    pub slots: Seq<Option<DiscoveredDev>>,
    pub pos: int,
}

/// A snapshot of the hardware present at scan time, exclusively owned by
/// the caller who requested discovery.  Destroying it releases the whole
/// native array, entries included.
pub struct DiscoveredDevices {
    slots: Vec<Option<DiscoveredDev>>,
    pos: usize,
}

impl View for DiscoveredDevices {
    type V = DiscoveredDevicesView;

    closed spec fn view(&self) -> DiscoveredDevicesView {
        DiscoveredDevicesView { slots: self.slots@, pos: self.pos as int }
    }
}

impl Default for DiscoveredDevices {
    /// The same snapshot `new` builds: no slots at all.
    fn default() -> (r: DiscoveredDevices)
        ensures
            r@.slots == Seq::<Option<DiscoveredDev>>::empty(),
            r@.pos == 0,
    {
        DiscoveredDevices::new()
    }
}

impl DiscoveredDevices {
    /// An empty snapshot, standing for an absent native array.
    pub fn new() -> (r: DiscoveredDevices)
        ensures
            r@.slots == Seq::<Option<DiscoveredDev>>::empty(),
            r@.pos == 0,
    {
        let r = DiscoveredDevices { slots: Vec::new(), pos: 0 };
        proof {
            assert(r@.slots =~= Seq::<Option<DiscoveredDev>>::empty());
        }
        r
    }

    /// Wraps the raw slots of a native discovery array, terminator
    /// included; the forward sequence starts at the front.
    pub fn with_devices(slots: Vec<Option<DiscoveredDev>>) -> (r: DiscoveredDevices)
        ensures
            r@.slots == slots@,
            r@.pos == 0,
    {
        DiscoveredDevices { slots, pos: 0 }
    }

    /// The true element count of the snapshot, found by scanning for the
    /// first null slot rather than by measuring the handle.
    pub fn count(&self) -> (r: usize)
        ensures
            r == terminator_scan(self@.slots),
    {
        let mut i: usize = 0;
        while i < self.slots.len()
            invariant
                0 <= i <= self@.slots.len(),
                forall|j: int| 0 <= j < i ==> self@.slots[j] is Some,
            decreases self@.slots.len() - i,
        {
            if slice_index_get(self.slots.as_slice(), i).is_none() {
                proof {
                    lemma_terminator_scan_value(self@.slots, i as int);
                }
                return i;
            }
            i += 1;
        }
        proof {
            lemma_terminator_scan_value(self@.slots, i as int);
        }
        i
    }

    /// Bounds-checked access: the entry at `index`, or nothing at the
    /// terminator and beyond.  Asking past the end is not an error and
    /// never reads out of bounds.
    pub fn get(&self, index: usize) -> (r: Option<DiscoveredDev>)
        ensures
            index < terminator_scan(self@.slots) ==> (r matches Some(d) && self@.slots[index as int]
                == Some(d)),
            index >= terminator_scan(self@.slots) ==> r is None,
    {
        let c = self.count();
        if index >= c {
            return None;
        }
        proof {
            lemma_terminator_scan(self@.slots);
        }
        match slice_index_get(self.slots.as_slice(), index) {
            Some(d) => Some(d.clone()),
            None => None,
        }
    }

    /// The next entry of the forward sequence, or nothing once the
    /// terminator is reached; yielding an entry advances the sequence by
    /// one.
    pub fn next(&mut self) -> (r: Option<DiscoveredDev>)
        ensures
            final(self)@.slots == old(self)@.slots,
            old(self)@.pos < terminator_scan(old(self)@.slots) ==> (r matches Some(d) && old(
                self,
            )@.slots[old(self)@.pos] == Some(d) && final(self)@.pos == old(self)@.pos + 1),
            old(self)@.pos >= terminator_scan(old(self)@.slots) ==> r is None && final(self)@.pos
                == old(self)@.pos,
    {
        let c = self.count();
        if self.pos >= c {
            return None;
        }
        proof {
            lemma_terminator_scan(self@.slots);
        }
        match slice_index_get(self.slots.as_slice(), self.pos) {
            Some(d) => {
                let r = d.clone();
                self.pos = self.pos + 1;
                Some(r)
            },
            None => None,
        }
    }

    /// Rewinds the forward sequence to the front; the same snapshot then
    /// yields the same entries again.
    pub fn restart(&mut self)
        ensures
            final(self)@.slots == old(self)@.slots,
            final(self)@.pos == 0,
    {
        self.pos = 0;
    }
}

} // verus!
