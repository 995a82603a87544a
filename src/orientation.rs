//! The screen orientation, flipped by an outside notification.
use vstd::prelude::*;

verus! {

/// Whether the screen is in portrait orientation.
#[derive(Clone, Copy, Debug, PartialEq, Eq, Structural)]
pub struct Orientation {
    portrait: bool,
}

impl View for Orientation {
    type V = bool;

    closed spec fn view(&self) -> bool {
        self.portrait
    }
}

impl Orientation {
    /// Landscape orientation.
    pub fn new() -> (r: Orientation)
        ensures
            r@ == false,
    {
        Orientation { portrait: false }
    }

    /// Flips the orientation.
    pub fn toggle(&mut self)
        ensures
            final(self)@ == !old(self)@,
    {
        self.portrait = !self.portrait;
    }

    /// Flips the orientation once per notification received.
    pub fn toggle_times(&mut self, n: usize)
        ensures
            final(self)@ == (old(self)@ != (n % 2 == 1)),
    {
        let mut i: usize = 0;
        while i < n
            invariant
                i <= n,
                self@ == (old(self)@ != (i % 2 == 1)),
            decreases n - i,
        {
            self.toggle();
            i += 1;
        }
    }

    /// Whether the orientation is portrait.
    pub fn snapshot(&self) -> (r: bool)
        ensures
            r == self@,
    {
        self.portrait
    }
}

impl Default for Orientation {
    fn default() -> (r: Orientation)
        ensures
            r@ == false,
    {
        Orientation::new()
    }
}

} // verus!
