//! The jump button, and presses that began too early.

use std::cell::Cell;
use std::rc::Rc;
use surface_landing::jump::{JumpDetector, JumpKeyDetector};

/// A button that the test holds down and lets go.
fn button() -> (Rc<Cell<bool>>, impl Fn() -> bool) {
    let down = Rc::new(Cell::new(false));
    let wire = down.clone();
    (down, move || wire.get())
}

/// A detector that leaves the early check as the trait has it.
struct Always;

impl JumpDetector for Always {
    fn is_jump_pressed(&mut self) -> bool {
        true
    }
}

#[test]
fn press_counts_while_the_button_is_down() {
    let (down, read) = button();
    let mut detector = JumpKeyDetector::new(read);
    assert!(!detector.is_waiting());
    assert!(!detector.is_jump_pressed());
    down.set(true);
    assert!(detector.is_jump_pressed());
    assert!(detector.is_jump_pressed());
    down.set(false);
    assert!(!detector.is_jump_pressed());
    assert!(!detector.is_waiting());
}

#[test]
fn press_held_from_the_start_does_not_count() {
    let (down, read) = button();
    down.set(true);
    let mut detector = JumpKeyDetector::new(read);
    detector.check_for_early_jump();
    assert!(detector.is_waiting());
    assert!(!detector.is_jump_pressed());
    assert!(!detector.is_jump_pressed());
    assert!(detector.is_waiting());
    // Once the button has been up, the next press counts.
    down.set(false);
    assert!(!detector.is_jump_pressed());
    assert!(!detector.is_waiting());
    down.set(true);
    assert!(detector.is_jump_pressed());
}

#[test]
fn early_check_with_the_button_up_waits_for_nothing() {
    let (down, read) = button();
    let mut detector = JumpKeyDetector::new(read);
    detector.check_for_early_jump();
    assert!(!detector.is_waiting());
    down.set(true);
    assert!(detector.is_jump_pressed());
}

#[test]
fn early_check_while_waiting_goes_by_the_button() {
    let (down, read) = button();
    down.set(true);
    let mut detector = JumpKeyDetector::new(read);
    detector.check_for_early_jump();
    detector.check_for_early_jump();
    assert!(detector.is_waiting());
    down.set(false);
    detector.check_for_early_jump();
    assert!(!detector.is_waiting());
}

#[test]
fn early_check_does_nothing_unless_a_detector_says_otherwise() {
    let mut always: Box<dyn JumpDetector> = Box::new(Always);
    always.check_for_early_jump();
    assert!(always.is_jump_pressed());
}
