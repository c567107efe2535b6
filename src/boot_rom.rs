use vstd::prelude::*;

verus! {

/// The scroll-in of the boot logo: `current_y` moves by `speed` toward `target_y` each frame.
#[derive(Debug, Clone, Copy, PartialEq, Eq, Structural)]
pub struct BootAnimation {
    pub current_y: u8,
    pub target_y: u8,
    pub speed: u8,
    pub is_complete: bool,
    pub is_active: bool,
}

impl BootAnimation {
    /// The state of one frame of the animation.
    pub open spec fn next(self) -> BootAnimation {
        if !self.is_active {
            self
        } else if self.current_y > self.target_y {
            BootAnimation {
                current_y: if self.current_y >= self.speed { (self.current_y - self.speed) as u8 } else { 0 },
                ..self
            }
        } else {
            BootAnimation { is_complete: true, ..self }
        }
    }

    pub open spec fn new_spec() -> BootAnimation {
        BootAnimation { current_y: 80, target_y: 0, speed: 1, is_complete: false, is_active: false }
    }

    /// An idle animation at y = 80, heading for y = 0 one line per frame.
    pub fn new() -> (r: BootAnimation)
        ensures
            r == Self::new_spec(),
    {
        BootAnimation { current_y: 80, target_y: 0, speed: 1, is_complete: false, is_active: false }
    }

    pub fn start(&mut self)
        ensures
            final(self).is_active,
            final(self).current_y == old(self).current_y && final(self).target_y == old(self).target_y,
            final(self).speed == old(self).speed && final(self).is_complete == old(self).is_complete,
    {
        self.is_active = true;
    }

    /// Advances one frame and returns the new y. An inactive animation does not move; once
    /// y has reached the target the animation is marked complete.
    pub fn update(&mut self) -> (r: u8)
        ensures
            *final(self) == old(self).next(),
            r == final(self).current_y,
    {
        if !self.is_active {
            return self.current_y;
        }
        if self.current_y > self.target_y {
            self.current_y = self.current_y.saturating_sub(self.speed);
        } else {
            self.is_complete = true;
        }
        self.current_y
    }

    pub fn is_complete(&self) -> (r: bool)
        ensures
            r == self.is_complete,
    {
        self.is_complete
    }
}

} // verus!
