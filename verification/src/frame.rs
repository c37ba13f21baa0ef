//! The frame loop's default event policy.
//!
//! When the root component leaves an event unhandled, the loop falls back
//! to this fixed policy: Tab moves focus forward, Shift-Tab backward, and
//! `q` or Control-C quits.  The loop itself lives with the program that
//! owns the terminal; the decision is taken here.

use vstd::prelude::*;

use crate::event::Event;
use crate::event::KeyCode;
use crate::event::KeyModifiers;

verus! {

/// What the frame loop's default handling does with an unclaimed event.
#[derive(Debug, Clone, Copy, PartialEq, Eq, Structural)]
pub enum DefaultAction {
    /// Move focus to the next focusable component.
    FocusNext,
    /// Move focus to the previous focusable component.
    FocusPrev,
    /// Leave the frame loop at the next loop head.
    Quit,
    /// Do nothing.
    Idle,
}

/// The default policy as a function of the event.
pub open spec fn spec_default_action(event: Event) -> DefaultAction {
    match event {
        Event::Key(key) => {
            if key.code == KeyCode::Tab {
                if key.modifiers.bits & 0x01 == 0x01 {
                    DefaultAction::FocusPrev
                } else {
                    DefaultAction::FocusNext
                }
            } else if key.code == KeyCode::Char('q') {
                DefaultAction::Quit
            } else if key.code == KeyCode::Char('c') && key.modifiers.bits & 0x02 == 0x02 {
                DefaultAction::Quit
            } else {
                DefaultAction::Idle
            }
        },
        _ => DefaultAction::Idle,
    }
}

/// Decide what the default handling does with an event the root component
/// ignored: Tab cycles focus forward, Shift-Tab backward, and `q` or
/// Control-C quits; everything else is left alone.  The policy consumes
/// `q` unconditionally, so a program that wants to type `q` must claim it
/// before the default handling runs.
pub fn default_event_action(event: &Event) -> (r: DefaultAction)
    ensures
        r == spec_default_action(*event),
{
    match event {
        Event::Key(key) => {
            if key.code == KeyCode::Tab {
                if key.modifiers.contains(KeyModifiers::shift()) {
                    DefaultAction::FocusPrev
                } else {
                    DefaultAction::FocusNext
                }
            } else if key.code == KeyCode::Char('q') {
                DefaultAction::Quit
            } else {
                match key.code {
                    KeyCode::Char(c) => {
                        if c == 'c' && key.modifiers.contains(KeyModifiers::control()) {
                            DefaultAction::Quit
                        } else {
                            DefaultAction::Idle
                        }
                    },
                    _ => DefaultAction::Idle,
                }
            }
        },
        _ => DefaultAction::Idle,
    }
}

} // verus!
