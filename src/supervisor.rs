//! The decisions of the camera-process supervisor, for the preview and for
//! still captures. Spawning, killing and waiting for subprocesses happen around these calls;
//! each call says which recorded subprocess must be stopped before the next
//! one may be spawned.

use vstd::prelude::*;
use crate::lease::{DeviceLease, LeaseError, LeaseMode, LeaseView, free_lease, lease_wf};

verus! {

/// A held lease with no subprocess recorded yet.
pub open spec fn held_empty(mode: LeaseMode) -> LeaseView {
    LeaseView { mode, child: None }
}

/// Taking the camera over for `mode`: refused while a capture holds it;
/// otherwise the recorded subprocess is handed back to be stopped and the
/// lease is held for `mode` with nothing recorded.
pub open spec fn take_over_spec(v: LeaseView, mode: LeaseMode) -> (
    Result<Option<u32>, LeaseError>,
    LeaseView,
) {
    if v.mode == LeaseMode::Capturing {
        (Err(LeaseError::Busy), v)
    } else {
        (Ok(v.child), held_empty(mode))
    }
}

/// Unless a capture holds the camera, hands back whatever subprocess holds
/// it and takes the lease for `mode`. The caller kills and waits for the
/// returned subprocess before it spawns the next one.
fn take_over(lease: &mut DeviceLease, mode: LeaseMode) -> (r: Result<Option<u32>, LeaseError>)
    requires
        mode != LeaseMode::Free,
    ensures
        (r, final(lease)@) == take_over_spec(old(lease)@, mode),
{
    match lease.mode() {
        LeaseMode::Capturing => Err(LeaseError::Busy),
        _ => {
            let previous = lease.release();
            let _ = lease.acquire(mode);
            Ok(previous)
        },
    }
}

/// First half of starting the preview: a forced restart, refused while a
/// capture holds the camera. Returns the subprocess to stop first; the lease
/// is then held for preview with nothing recorded.
pub fn begin_preview(lease: &mut DeviceLease) -> (r: Result<Option<u32>, LeaseError>)
    ensures
        (r, final(lease)@) == take_over_spec(old(lease)@, LeaseMode::Preview),
{
    take_over(lease, LeaseMode::Preview)
}

/// Second half of starting the preview, given the outcome of the spawn: the
/// new subprocess is recorded, or the lease is freed and the launch failure
/// is returned.
pub fn finish_preview(lease: &mut DeviceLease, spawned: Result<u32, String>) -> (r: Result<(), String>)
    requires
        old(lease)@ == held_empty(LeaseMode::Preview),
    ensures
        match spawned {
            Ok(c) => r is Ok && final(lease)@ == (LeaseView { mode: LeaseMode::Preview, child: Some(c) }),
            Err(e) => r == Err::<(), String>(e) && final(lease)@ == free_lease(),
        },
{
    match spawned {
        Ok(c) => {
            let _ = lease.attach(c);
            Ok(())
        },
        Err(e) => {
            let _ = lease.release();
            Err(e)
        },
    }
}

/// Stops the preview: if the lease is held for preview it is freed and its
/// subprocess returned to be stopped; otherwise nothing changes.
pub fn stop_preview(lease: &mut DeviceLease) -> (r: Option<u32>)
    ensures
        old(lease)@.mode == LeaseMode::Preview ==> r == old(lease)@.child && final(lease)@
            == free_lease(),
        old(lease)@.mode != LeaseMode::Preview ==> r is None && final(lease)@ == old(lease)@,
{
    match lease.mode() {
        LeaseMode::Preview => lease.release(),
        _ => None,
    }
}

/// Takes the camera for a still capture, refused while another capture holds
/// it: returns the preview subprocess to stop, and holds the lease for
/// capturing. The still command runs under this lease, so no preview can be
/// spawned beside it.
pub fn begin_capture(lease: &mut DeviceLease) -> (r: Result<Option<u32>, LeaseError>)
    ensures
        (r, final(lease)@) == take_over_spec(old(lease)@, LeaseMode::Capturing),
{
    take_over(lease, LeaseMode::Capturing)
}

/// Ends a capture: a lease held for capturing is freed; otherwise nothing
/// changes.
pub fn end_capture(lease: &mut DeviceLease)
    ensures
        old(lease)@.mode == LeaseMode::Capturing ==> final(lease)@ == free_lease(),
        old(lease)@.mode != LeaseMode::Capturing ==> final(lease)@ == old(lease)@,
{
    match lease.mode() {
        LeaseMode::Capturing => {
            let _ = lease.release();
        },
        _ => {},
    }
}

/// One subprocess at a time: taking the camera over always hands back the
/// subprocess recorded so far, to be stopped before the next is spawned, and
/// leaves none recorded; once a capture holds the camera, neither a preview
/// nor a second capture can take it until the capture releases it.
pub proof fn lemma_exclusive_camera(v: LeaseView, mode: LeaseMode)
    requires
        lease_wf(v),
        mode != LeaseMode::Free,
    ensures
        lease_wf(take_over_spec(v, mode).1),
        take_over_spec(v, mode).0 is Ok ==> take_over_spec(v, mode).0 == Ok::<
            Option<u32>,
            LeaseError,
        >(v.child) && take_over_spec(v, mode).1.child is None,
        take_over_spec(v, LeaseMode::Capturing).0 is Ok ==> take_over_spec(
            take_over_spec(v, LeaseMode::Capturing).1,
            mode,
        ).0 is Err,
        take_over_spec(free_lease(), mode).0 is Ok,
{
}

} // verus!
