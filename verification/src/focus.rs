//! The focus arbiter: a single process-wide slot recording which logical
//! input consumer owns pointer and keyboard input this frame.
//!
//! Exactly one [`Focus`] value holds at a time. A consumer's claim is granted
//! when the slot is free, when the consumer already holds it, or when the
//! consumer strictly outranks the holder by priority. The pointer-over-panel
//! claim is special: it is granted implicitly only while no other consumer
//! holds the slot, and is dropped the instant the pointer leaves the panels
//! unless another consumer has already taken over. A consumer releases only
//! its own claim, never another's.

use vstd::prelude::*;

verus! {

/// The logical input consumers that can own the slot. `Idle` is the free
/// slot; the others are the consumers, in no particular order.
#[derive(Clone, Copy, PartialEq, Eq, Structural, Debug)]
pub enum Focus {
    /// Nobody owns input this frame.
    Idle,
    /// The fly camera is looking; pointer motion steers it.
    Camera,
    /// The pointer hovers a panel; widgets consume clicks and keys.
    Gui,
    /// A transform manipulation session is running.
    Transform,
    /// The quick-command search overlay is open.
    QuickSearch,
}

/// Contention rank of each consumer. Camera outranks everything; the free
/// slot outranks nothing.
pub open spec fn priority(f: Focus) -> int {
    match f {
        Focus::Idle => 0,
        Focus::Gui => 1,
        Focus::Transform => 1,
        Focus::QuickSearch => 1,
        Focus::Camera => 2,
    }
}

/// Whether a claim by `claimant` is granted while `holder` owns the slot:
/// the slot is free, the claim is an idempotent re-claim, or the claimant
/// outranks the holder.
pub open spec fn claim_granted(holder: Focus, claimant: Focus) -> bool {
    ||| holder == Focus::Idle
    ||| holder == claimant
    ||| priority(claimant) > priority(holder)
}

/// The slot after a claim: the claimant if granted, the old holder if not.
pub open spec fn claim_spec(holder: Focus, claimant: Focus) -> Focus {
    if claim_granted(holder, claimant) {
        claimant
    } else {
        holder
    }
}

/// The slot after a consumer releases: free if that consumer held it,
/// untouched if another did.
pub open spec fn release_spec(holder: Focus, consumer: Focus) -> Focus {
    if holder == consumer {
        Focus::Idle
    } else {
        holder
    }
}

/// The slot after the implicit pointer-over-panel update: hovering claims the
/// free slot; leaving the panels releases only the hover claim itself.
pub open spec fn gui_hover_spec(holder: Focus, over_ui: bool) -> Focus {
    if over_ui && holder == Focus::Idle {
        Focus::Gui
    } else if !over_ui && holder == Focus::Gui {
        Focus::Idle
    } else {
        holder
    }
}

/// The process-wide slot itself.
#[derive(Clone, Copy, PartialEq, Eq, Structural, Debug)]
pub struct FocusSlot {
    pub current: Focus,
}

impl FocusSlot {
    /// A fresh slot, free at startup.
    pub fn new() -> (r: FocusSlot)
        ensures
            r.current == Focus::Idle,
    {
        FocusSlot { current: Focus::Idle }
    }

    /// Whether a claim by `claimant` would be granted now, without claiming.
    pub fn would_grant(&self, claimant: Focus) -> (b: bool)
        requires
            claimant != Focus::Idle,
        ensures
            b == claim_granted(self.current, claimant),
    {
        self.current == Focus::Idle || self.current == claimant || priority_of(claimant)
            > priority_of(self.current)
    }

    /// Try to claim the slot for `claimant`; report whether it was granted.
    pub fn try_claim(&mut self, claimant: Focus) -> (granted: bool)
        requires
            claimant != Focus::Idle,
        ensures
            granted == claim_granted(old(self).current, claimant),
            final(self).current == claim_spec(old(self).current, claimant),
    {
        let granted: bool = self.current == Focus::Idle || self.current == claimant
            || priority_of(claimant) > priority_of(self.current);
        if granted {
            self.current = claimant;
        }
        granted
    }

    /// Release the slot on behalf of `consumer`; a consumer never clears a
    /// claim it does not hold.
    pub fn release(&mut self, consumer: Focus) -> (released: bool)
        ensures
            released == (old(self).current == consumer),
            final(self).current == release_spec(old(self).current, consumer),
    {
        if self.current == consumer {
            self.current = Focus::Idle;
            true
        } else {
            false
        }
    }

    /// The implicit per-frame hover claim and release for the panels.
    pub fn gui_hover(&mut self, over_ui: bool)
        ensures
            final(self).current == gui_hover_spec(old(self).current, over_ui),
    {
        if over_ui && self.current == Focus::Idle {
            self.current = Focus::Gui;
        } else if !over_ui && self.current == Focus::Gui {
            self.current = Focus::Idle;
        }
    }
}

/// Exec counterpart of [`priority`].
fn priority_of(f: Focus) -> (r: u8)
    ensures
        r == priority(f),
{
    match f {
        Focus::Idle => 0,
        Focus::Gui => 1,
        Focus::Transform => 1,
        Focus::QuickSearch => 1,
        Focus::Camera => 2,
    }
}

/// While `Camera` holds the slot, a `Transform` claim in the same frame is
/// rejected and the slot stays with `Camera`; while `Transform` holds it, the
/// implicit hover claim is rejected until `Transform` itself releases.
pub proof fn lemma_focus_priority()
    ensures
        !claim_granted(Focus::Camera, Focus::Transform),
        claim_spec(Focus::Camera, Focus::Transform) == Focus::Camera,
        gui_hover_spec(Focus::Transform, true) == Focus::Transform,
        gui_hover_spec(release_spec(Focus::Transform, Focus::Transform), true) == Focus::Gui,
{
}

} // verus!
