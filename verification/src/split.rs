//! The cut: the horizontal offset that divides the two images.

use vstd::prelude::*;

verus! {

/// The offset that a pointer position of `pointer_x` leaves behind: its
/// absolute value, held to what an unsigned 32-bit offset can be.
pub open spec fn stored_offset(pointer_x: int) -> nat {
    let magnitude = if pointer_x < 0 {
        -pointer_x
    } else {
        pointer_x
    };
    if magnitude > u32::MAX {
        u32::MAX as nat
    } else {
        magnitude as nat
    }
}

/// The cut that is drawn for a stored offset on an image `width` pixels wide:
/// the smaller of the two.
pub open spec fn clamped(stored: nat, width: nat) -> nat {
    if stored > width {
        width
    } else {
        stored
    }
}

/// The current cut offset, as the pointer last set it.
///
/// The offset is stored as it comes and may lie beyond the image's right edge.
/// It is brought into the image only when a frame is drawn, by `clamped_cut`.
#[derive(Clone, Copy, Debug, PartialEq, Eq, Structural)]
pub struct SplitState {
    cut_at: u32,
}

impl View for SplitState {
    type V = nat;

    /// The stored offset.
    closed spec fn view(&self) -> nat {
        self.cut_at as nat
    }
}

impl SplitState {
    /// A cut stored at `cut_at`.
    pub fn new(cut_at: u32) -> (state: SplitState)
        ensures
            state@ == cut_at,
    {
        SplitState { cut_at }
    }

    /// The cut with which a viewer starts: the middle of an image `width`
    /// pixels wide.
    pub fn centered(width: u32) -> (state: SplitState)
        ensures
            state@ == width / 2,
    {
        SplitState { cut_at: width / 2 }
    }

    /// The stored offset.
    pub fn cut_at(&self) -> (cut: u32)
        ensures
            cut == self@,
    {
        self.cut_at
    }

    /// Takes a pointer position, in whole pixels, and stores its absolute
    /// value. The image's width plays no part here.
    pub fn update(&mut self, pointer_x: i64)
        ensures
            final(self)@ == stored_offset(pointer_x as int),
    {
        let limit: i64 = 0xffff_ffff;
        if pointer_x >= 0 {
            if pointer_x > limit {
                self.cut_at = u32::MAX;
            } else {
                self.cut_at = pointer_x as u32;
            }
        } else {
            if pointer_x < -limit {
                self.cut_at = u32::MAX;
            } else {
                self.cut_at = (-pointer_x) as u32;
            }
        }
    }

    /// The cut to draw on an image `width` pixels wide: the stored offset, or
    /// `width` where the offset lies beyond it.
    pub fn clamped_cut(&self, width: u32) -> (cut: u32)
        ensures
            cut == clamped(self@, width as nat),
            cut <= width,
    {
        if self.cut_at > width {
            width
        } else {
            self.cut_at
        }
    }
}

/// The clamped cut never leaves the image: it lies between 0 and `width`.
pub proof fn lemma_clamped_in_range(stored: nat, width: nat)
    ensures
        0 <= clamped(stored, width) <= width,
{
}

/// The clamped cut does not decrease when the stored offset grows.
pub proof fn lemma_clamped_monotonic(smaller: nat, larger: nat, width: nat)
    requires
        smaller <= larger,
    ensures
        clamped(smaller, width) <= clamped(larger, width),
{
}

} // verus!
