//! The single-slot broadcast of the latest frame to any number of viewers.
//! Each viewer remembers the version it last saw; a publish replaces the slot
//! and raises the version, so a slow viewer skips straight to the newest frame.

use vstd::prelude::*;

verus! {

/// What a hub holds: the latest frame, if any, and how many were published.
pub struct HubView {
    pub frame: Option<Seq<u8>>,
    pub version: nat,
}

/// What a viewer that last saw version `seen` receives next from hub `h`, with
/// the version it then has seen; `None` while nothing newer was published.
pub open spec fn next_for(h: HubView, seen: nat) -> Option<(nat, Seq<u8>)> {
    if h.version > seen && h.frame is Some {
        Some((h.version, h.frame->Some_0))
    } else {
        None
    }
}

/// The hub after `frame` is published on `h`.
pub open spec fn published(h: HubView, frame: Seq<u8>) -> HubView {
    HubView { frame: Some(frame), version: h.version + 1 }
}

/// The latest published frame and the count of publishes.
pub struct FrameHub {
    slot: Option<Vec<u8>>,
    version: u64,
}

impl View for FrameHub {
    type V = HubView;

    closed spec fn view(&self) -> HubView {
        HubView {
            frame: match self.slot {
                Some(f) => Some(f@),
                None => None,
            },
            version: self.version as nat,
        }
    }
}

impl FrameHub {
    /// Holds a frame exactly when at least one was published.
    pub closed spec fn wf(&self) -> bool {
        self.slot is Some <==> self.version > 0
    }

    /// A hub that has published nothing.
    pub fn new() -> (r: FrameHub)
        ensures
            r.wf(),
            r@ == (HubView { frame: None, version: 0 }),
    {
        FrameHub { slot: None, version: 0 }
    }

    /// Replaces the slot with `frame`; every viewer that has not seen the new
    /// version will receive it.
    pub fn publish(&mut self, frame: Vec<u8>)
        requires
            old(self).wf(),
            old(self)@.version < u64::MAX,
        ensures
            final(self).wf(),
            final(self)@ == published(old(self)@, frame@),
    {
        self.slot = Some(frame);
        self.version = self.version + 1;
    }

    /// A viewer connecting now: the version it has seen, so that it first
    /// receives the frame of the next publish, never an older one.
    pub fn subscribe(&self) -> (r: u64)
        ensures
            r == self@.version,
    {
        self.version
    }

    /// What a viewer that last saw `seen` receives now: the latest frame with
    /// its version, or `None` if nothing newer was published.
    pub fn next_frame(&self, seen: u64) -> (r: Option<(u64, Vec<u8>)>)
        ensures
            match r {
                Some((v, f)) => next_for(self@, seen as nat) == Some((v as nat, f@)),
                None => next_for(self@, seen as nat) is None,
            },
    {
        if self.version > seen {
            match &self.slot {
                Some(f) => {
                    let copy = f.clone();
                    assert(copy@ =~= f@);
                    Some((self.version, copy))
                },
                None => None,
            }
        } else {
            None
        }
    }
}

/// Viewers that have not yet seen the latest publish all receive the same
/// bytes, those of that publish; a viewer that connected after `h.version`
/// publishes receives nothing until the next publish, and then exactly its
/// frame.
pub proof fn lemma_broadcast(h: HubView, frame: Seq<u8>, seen1: nat, seen2: nat)
    requires
        seen1 <= h.version,
        seen2 <= h.version,
    ensures
        next_for(h, h.version) is None,
        next_for(published(h, frame), seen1) == Some((h.version + 1, frame)),
        next_for(published(h, frame), seen1) == next_for(published(h, frame), seen2),
{
}

} // verus!
