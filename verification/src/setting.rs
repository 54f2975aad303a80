//! The shared volume setting: a process-wide, lock-protected cell holding the
//! current volume, written by the configuration sink and read by the playback
//! trigger.
//!
//! The cell comes in two layers. [`VolumeCell`] is the plain single-owner
//! cell with exact value semantics: a write stores exactly the given volume
//! and a read returns exactly the stored one. [`SharedSetting`] protects a
//! [`VolumeCell`] with a verified reader-writer lock whose invariant says
//! that every value ever stored is well formed, so readers always observe a
//! complete, in-range volume and never a torn one.

use vstd::prelude::*;
use vstd::rwlock::{RwLock, RwLockPredicate};
use crate::volume::{Volume, clamped_permille, DEFAULT_VOLUME};

verus! {

/// The raw cell holding the current volume. The storage is never exposed;
/// only the read and write operations below touch it.
#[derive(Clone, Copy, PartialEq, Eq, Structural, Debug)]
pub struct VolumeCell {
    value: Volume,
}

impl VolumeCell {
    /// The volume the cell currently holds.
    pub closed spec fn stored(self) -> Volume {
        self.value
    }

    /// The cell as it stands after a write of `v`.
    pub closed spec fn written(self, v: Volume) -> VolumeCell {
        VolumeCell { value: v }
    }

    /// The cell's invariant: the stored value is always in range.
    pub open spec fn wf(self) -> bool {
        self.stored().wf()
    }

    /// A fresh cell holding `initial`.
    pub fn new(initial: Volume) -> (c: VolumeCell)
        requires
            initial.wf(),
        ensures
            c.wf(),
            c.stored() == initial,
    {
        VolumeCell { value: initial }
    }

    /// The current value, exactly as stored.
    pub fn read(&self) -> (v: Volume)
        ensures
            v == self.stored(),
    {
        self.value
    }

    /// Store `v`, which the caller has already clamped to the unit interval.
    pub fn write(&mut self, v: Volume)
        requires
            v.wf(),
        ensures
            *final(self) == old(self).written(v),
            final(self).stored() == v,
            final(self).wf(),
    {
        self.value = v;
    }
}

/// A value written to the cell is exactly what a subsequent read with no
/// intervening write observes.
pub proof fn law_write_then_read(c: VolumeCell, v: Volume)
    requires
        v.wf(),
    ensures
        c.written(v).stored() == v,
{
}

/// The lock invariant of [`SharedSetting`]: only well-formed cells may be
/// stored, so every reader observes an in-range volume.
pub struct InRangeCell {}

impl RwLockPredicate<VolumeCell> for InRangeCell {
    open spec fn inv(self, c: VolumeCell) -> bool {
        c.wf()
    }
}

/// The process-wide shared setting: a [`VolumeCell`] behind a verified
/// reader-writer lock. Reads and writes are serialized by mutual exclusion,
/// so readers observe either the value before a write or the value after it,
/// never a partial one, and every observed value satisfies the range
/// invariant.
pub struct SharedSetting {
    cell: RwLock<VolumeCell, InRangeCell>,
}

impl SharedSetting {
    /// A fresh setting holding `initial`.
    pub fn new(initial: Volume) -> (s: SharedSetting)
        requires
            initial.wf(),
    {
        SharedSetting { cell: RwLock::new(VolumeCell::new(initial), Ghost(InRangeCell {})) }
    }

    /// A fresh setting holding the process-start default.
    pub fn starting_at_default() -> (s: SharedSetting) {
        SharedSetting::new(Volume::default())
    }

    /// The current volume, observed under a short-lived shared lock. The
    /// lock's invariant guarantees the observed value is complete and in
    /// range, whatever other threads are doing.
    pub fn read(&self) -> (v: Volume)
        ensures
            v.wf(),
    {
        let handle = self.cell.acquire_read();
        let v = handle.borrow().read();
        handle.release_read();
        v
    }

    /// Store `v`, already clamped by the caller, under the exclusive lock.
    pub fn write(&self, v: Volume)
        requires
            v.wf(),
    {
        let (mut c, handle) = self.cell.acquire_write();
        c.write(v);
        handle.release_write(c);
    }

    /// The configuration sink's apply operation: clamp an arbitrary
    /// submitted value to the unit interval, store the result, and hand it
    /// back for display.
    pub fn apply(&self, raw_permille: i64) -> (stored: Volume)
        ensures
            stored.wf(),
            stored.as_permille() == clamped_permille(raw_permille as int),
    {
        let v = Volume::clamped(raw_permille);
        self.write(v);
        v
    }
}

/// Recovery rule for a read through an exclusive-access primitive that can
/// fail: a value that was observed is returned as it stands; when the
/// primitive could not be acquired, the safe process-start default is
/// substituted rather than the failure propagating. The lock inside
/// [`SharedSetting`] is verified never to fail, so there the fallback branch
/// is vacuous; the rule is kept for hosts that read through a poisonable
/// lock.
pub fn read_or_default(observed: Option<Volume>) -> (v: Volume)
    requires
        (observed matches Some(x) ==> x.wf()),
    ensures
        v.wf(),
        (observed matches Some(x) ==> v == x),
        observed is None ==> v.as_permille() == DEFAULT_VOLUME,
{
    match observed {
        Some(x) => x,
        None => Volume::default(),
    }
}

/// Recovery rule for a write through an exclusive-access primitive that can
/// fail: on a successful acquisition the value is stored; otherwise the
/// write is a no-op - the cell keeps its old value - and the caller surfaces
/// a "could not save" signal from the returned flag.
pub fn write_or_keep(cell: &mut VolumeCell, acquired: bool, v: Volume) -> (saved: bool)
    requires
        old(cell).wf(),
        v.wf(),
    ensures
        saved == acquired,
        acquired ==> final(cell).stored() == v,
        !acquired ==> *final(cell) == *old(cell),
        final(cell).wf(),
{
    if acquired {
        cell.write(v);
        true
    } else {
        false
    }
}

} // verus!
