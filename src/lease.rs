//! Exclusive ownership of the camera: the device lease, and the decisions of
//! the supervisor that starts and stops the camera subprocess under it.

use vstd::prelude::*;

verus! {

/// What the camera is held for.
#[derive(Clone, Copy, Debug, PartialEq, Eq, Structural)]
pub enum LeaseMode {
    Free,
    Preview,
    Capturing,
}

/// Why a lease operation was refused.
#[derive(Clone, Copy, Debug, PartialEq, Eq, Structural)]
pub enum LeaseError {
    /// The lease is already held.
    Busy,
    /// `Free` is not something the lease can be acquired for.
    InvalidMode,
    /// The lease is not held, or already records a subprocess.
    NoSlot,
}

/// The state of a lease: its mode and the subprocess, by id, that owns the
/// hardware.
pub struct LeaseView {
    pub mode: LeaseMode,
    pub child: Option<u32>,
}

/// Only a held lease records a subprocess.
pub open spec fn lease_wf(v: LeaseView) -> bool {
    v.child is Some ==> v.mode != LeaseMode::Free
}

/// Acquiring `v` for `mode`: the outcome and the state after it.
pub open spec fn acquire_spec(v: LeaseView, mode: LeaseMode) -> (Result<(), LeaseError>, LeaseView) {
    if mode == LeaseMode::Free {
        (Err(LeaseError::InvalidMode), v)
    } else if v.mode != LeaseMode::Free {
        (Err(LeaseError::Busy), v)
    } else {
        (Ok(()), LeaseView { mode, child: None })
    }
}

/// Recording `child` on `v`: the outcome and the state after it.
pub open spec fn attach_spec(v: LeaseView, child: u32) -> (Result<(), LeaseError>, LeaseView) {
    if v.mode == LeaseMode::Free || v.child is Some {
        (Err(LeaseError::NoSlot), v)
    } else {
        (Ok(()), LeaseView { mode: v.mode, child: Some(child) })
    }
}

/// The state after a release.
pub open spec fn free_lease() -> LeaseView {
    LeaseView { mode: LeaseMode::Free, child: None }
}

/// The lease on the single camera.
pub struct DeviceLease {
    mode: LeaseMode,
    child: Option<u32>,
}

impl View for DeviceLease {
    type V = LeaseView;

    closed spec fn view(&self) -> LeaseView {
        LeaseView { mode: self.mode, child: self.child }
    }
}

impl DeviceLease {
    /// A free lease with no subprocess.
    pub fn new() -> (r: DeviceLease)
        ensures
            r@ == free_lease(),
    {
        DeviceLease { mode: LeaseMode::Free, child: None }
    }

    pub fn mode(&self) -> (r: LeaseMode)
        ensures
            r == self@.mode,
    {
        self.mode
    }

    pub fn child(&self) -> (r: Option<u32>)
        ensures
            r == self@.child,
    {
        self.child
    }

    /// Takes the lease for `mode`. Succeeds exactly when the lease is free and
    /// `mode` is not `Free`; otherwise nothing changes.
    pub fn acquire(&mut self, mode: LeaseMode) -> (r: Result<(), LeaseError>)
        ensures
            (r, final(self)@) == acquire_spec(old(self)@, mode),
    {
        match mode {
            LeaseMode::Free => Err(LeaseError::InvalidMode),
            _ => match self.mode {
                LeaseMode::Free => {
                    self.mode = mode;
                    self.child = None;
                    Ok(())
                },
                _ => Err(LeaseError::Busy),
            },
        }
    }

    /// Records `child` as the subprocess owning the camera. Succeeds exactly
    /// when the lease is held and records no subprocess yet.
    pub fn attach(&mut self, child: u32) -> (r: Result<(), LeaseError>)
        ensures
            (r, final(self)@) == attach_spec(old(self)@, child),
    {
        match self.mode {
            LeaseMode::Free => Err(LeaseError::NoSlot),
            _ => match self.child {
                Some(_) => Err(LeaseError::NoSlot),
                None => {
                    self.child = Some(child);
                    Ok(())
                },
            },
        }
    }

    /// Frees the lease; returns the recorded subprocess, which the caller must
    /// kill and wait for.
    pub fn release(&mut self) -> (r: Option<u32>)
        ensures
            r == old(self)@.child,
            final(self)@ == free_lease(),
    {
        let c = self.child;
        self.mode = LeaseMode::Free;
        self.child = None;
        c
    }
}

/// Every lease operation keeps a subprocess recorded only while the lease is
/// held; while one is recorded no second one can be recorded and the lease
/// cannot be taken again, so the only way to another owner is a release, which
/// hands the recorded one back to be stopped.
pub proof fn lemma_single_owner(v: LeaseView, mode: LeaseMode, c: u32, d: u32)
    requires
        lease_wf(v),
    ensures
        lease_wf(acquire_spec(v, mode).1),
        lease_wf(attach_spec(v, c).1),
        lease_wf(free_lease()),
        attach_spec(v, c).0 is Ok ==> attach_spec(attach_spec(v, c).1, d) == (
        Err::<(), LeaseError>(LeaseError::NoSlot), attach_spec(v, c).1),
        v.child is Some ==> attach_spec(v, d).0 is Err && acquire_spec(v, mode).0 is Err,
{
}

} // verus!
