//! The toggle controller: from slot and event to the outside work to do.
//!
//! The controller never spawns or signals a process itself. A transition is
//! made in steps: [`ToggleController::on_event`] inspects and empties the slot
//! and answers with a [`Directive`]; the caller carries the directive out; and
//! where the directive was to spawn, [`ToggleController::spawn_finished`]
//! takes the outcome back. The caller keeps exclusive access to the slot from
//! the first step to the last.

use vstd::prelude::*;
use crate::event::Event;
use crate::platform::Platform;
use crate::slot::ProcessSlot;
use crate::toggle::{label_for, MenuLabel, ToggleState};

verus! {

/// The exit code the application ends with after a quit.
pub const EXIT_CODE: i32 = 0;

/// The outside work that an event asks for.
#[derive(Debug, PartialEq, Eq)]
pub enum Directive<H> {
    /// Start the keep-awake process, then report the outcome to
    /// [`ToggleController::spawn_finished`].
    Spawn,
    /// Ask the process behind `handle` to stop, then show `label`. A request
    /// that cannot be delivered is let go: the label is shown all the same.
    Terminate { handle: H, label: MenuLabel },
    /// Kill the process behind `kill`, if there is one, then end the
    /// application with `code`. A kill that fails is worth a log line, since
    /// nothing can clean up after the exit.
    Exit { kill: Option<H>, code: i32 },
}

/// The program to run and the arguments to hand it, one by one and as they
/// stand: no shell reads them.
#[derive(Clone, Debug)]
pub struct Invocation {
    pub program: &'static str,
    pub args: Vec<&'static str>,
}

/// Whether an invocation is the one that keeps the machine awake:
/// `caffeinate -d`.
pub open spec fn is_keep_awake(invocation: Invocation) -> bool {
    &&& invocation.program@ == "caffeinate"@
    &&& invocation.args@.len() == 1
    &&& invocation.args@[0]@ == "-d"@
}

/// The directive that answers `event` when the slot holds `held`.
pub open spec fn directive_for<H>(held: Option<H>, event: Event) -> Directive<H> {
    match event {
        Event::Activate => match held {
            None => Directive::Spawn,
            Some(handle) => Directive::Terminate {
                handle,
                label: label_for(ToggleState::Disabled),
            },
        },
        Event::Quit => Directive::Exit { kill: held, code: EXIT_CODE },
    }
}

/// What the slot holds once a spawn has ended with `outcome`.
pub open spec fn slot_after_spawn<H, E>(outcome: Result<H, E>) -> Option<H> {
    match outcome {
        Ok(handle) => Some(handle),
        Err(_) => None,
    }
}

/// What a spawn that ended with `outcome` means for the menu: the label to
/// show, or the error and no label.
pub open spec fn label_after_spawn<H, E>(outcome: Result<H, E>) -> Result<MenuLabel, E> {
    match outcome {
        Ok(_) => Ok(label_for(ToggleState::Enabled)),
        Err(error) => Err(error),
    }
}

/// The number of kill requests a directive holds.
pub open spec fn kill_requests<H>(directive: Directive<H>) -> nat {
    match directive {
        Directive::Exit { kill: Some(_), .. } => 1,
        _ => 0,
    }
}

/// The number of terminate requests a directive holds.
pub open spec fn terminate_requests<H>(directive: Directive<H>) -> nat {
    match directive {
        Directive::Terminate { .. } => 1,
        _ => 0,
    }
}

/// The toggle state machine. One exists only for a platform that has the
/// keep-awake process.
#[derive(Clone, Copy, Debug)]
pub struct ToggleController {
    platform: Platform,
}

impl ToggleController {
    /// The platform the controller was made for.
    pub closed spec fn platform(&self) -> Platform {
        self.platform
    }

    /// A controller for `platform`, or `None` where the platform has no
    /// keep-awake process.
    pub fn for_platform(platform: Platform) -> (controller: Option<ToggleController>)
        ensures
            controller is Some <==> platform == Platform::MacOS,
            controller matches Some(made) ==> made.platform() == platform,
    {
        if platform.keeps_awake() {
            Some(ToggleController { platform })
        } else {
            None
        }
    }

    /// The event the application opens with: keeping awake is switched on at
    /// launch.
    pub fn startup_event(&self) -> (event: Event)
        ensures
            event == Event::Activate,
    {
        Event::Activate
    }

    /// How to start the keep-awake process.
    pub fn invocation(&self) -> (invocation: Invocation)
        ensures
            is_keep_awake(invocation),
    {
        let mut args: Vec<&'static str> = Vec::new();
        args.push("-d");
        Invocation { program: "caffeinate", args }
    }

    /// First step of a transition. Takes whatever the slot holds and says
    /// what is to be done with it.
    ///
    /// An activation on an empty slot asks for a spawn. An activation on an
    /// occupied slot hands the handle over for a terminate request, with the
    /// label of the disabled state. A quit hands the handle over, if there is
    /// one, for a kill, with the exit code. The slot is empty afterwards in
    /// every case.
    pub fn on_event<H>(&self, slot: &mut ProcessSlot<H>, event: Event) -> (directive: Directive<H>)
        ensures
            directive == directive_for(old(slot)@, event),
            final(slot)@ is None,
    {
        let held = slot.take();
        match event {
            Event::Activate => match held {
                None => Directive::Spawn,
                Some(handle) => Directive::Terminate {
                    handle,
                    label: ToggleState::Disabled.label(),
                },
            },
            Event::Quit => Directive::Exit { kill: held, code: EXIT_CODE },
        }
    }

    /// Last step of an activation that asked for a spawn. A started process
    /// goes into the slot and the label of the enabled state is returned. A
    /// failed spawn leaves the slot empty and returns the error in place of a
    /// label: nothing is to be shown.
    pub fn spawn_finished<H, E>(&self, slot: &mut ProcessSlot<H>, outcome: Result<H, E>) -> (shown:
        Result<MenuLabel, E>)
        requires
            old(slot)@ is None,
        ensures
            final(slot)@ == slot_after_spawn(outcome),
            shown == label_after_spawn(outcome),
    {
        match outcome {
            Ok(handle) => {
                slot.populate(handle);
                Ok(ToggleState::Enabled.label())
            },
            Err(error) => Err(error),
        }
    }
}

} // verus!
