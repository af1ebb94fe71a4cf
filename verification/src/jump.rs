//! Who says whether the jump button is down.

use vstd::prelude::*;

verus! {

/// A source of jump presses: the keyboard, a touch screen, a script.
pub trait JumpDetector {
    /// Whether jump counts as pressed now.
    fn is_jump_pressed(&mut self) -> bool;

    /// Called early, to find out whether jump is already held when play starts, so that the
    /// press does not count until the button has been let go.
    fn check_for_early_jump(&mut self) {
    }
}

/// The jump button as the player's device reports it, with a press that began before play
/// left out of account until the button is let go.
pub struct JumpKeyDetector<R: Fn() -> bool> {
    read: R,
    wait_for_next_press: bool,
}

impl<R: Fn() -> bool> JumpKeyDetector<R> {
    /// The button can be read at any time.
    #[verifier::type_invariant]
    spec fn readable(self) -> bool {
        self.read.requires(())
    }

    /// What reads the button.
    pub closed spec fn reader(self) -> R {
        self.read
    }

    /// The button was down when play began and has not been up since.
    pub closed spec fn waits(self) -> bool {
        self.wait_for_next_press
    }

    /// A detector that reads the button with `read` and waits for nothing.
    pub fn new(read: R) -> (r: Self)
        requires
            read.requires(()),
        ensures
            r.reader() == read,
            !r.waits(),
    {
        JumpKeyDetector { read, wait_for_next_press: false }
    }

    /// Whether the detector leaves presses out of account until the button is let go.
    pub fn is_waiting(&self) -> (r: bool)
        ensures
            r == self.waits(),
    {
        self.wait_for_next_press
    }
}

impl<R: Fn() -> bool> JumpDetector for JumpKeyDetector<R> {
    /// The button is read once. While waiting for the next press nothing counts as pressed,
    /// and the wait ends when the button is found up.
    fn is_jump_pressed(&mut self) -> (pressed: bool)
        ensures
            final(self).reader() == old(self).reader(),
            exists|down: bool|
                {
                    &&& #[trigger] old(self).reader().ensures((), down)
                    &&& pressed == (down && !old(self).waits())
                    &&& final(self).waits() == (down && old(self).waits())
                },
    {
        proof {
            use_type_invariant(&*self);
        }
        let jump_pressed = (self.read)();
        assert(old(self).reader().ensures((), jump_pressed));
        if self.wait_for_next_press {
            if !jump_pressed {
                self.wait_for_next_press = false;
            }
            return false;
        }
        jump_pressed
    }

    /// After this the detector waits for the next press exactly where the button is down now.
    fn check_for_early_jump(&mut self)
        ensures
            final(self).reader() == old(self).reader(),
            old(self).reader().ensures((), final(self).waits()),
    {
        if self.is_jump_pressed() {
            proof {
                use_type_invariant(&*self);
            }
            self.wait_for_next_press = true;
        }
    }
}

} // verus!
