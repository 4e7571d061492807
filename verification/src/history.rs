//! Runs of events, and what holds of the slot after any of them.
//!
//! A run is a sequence of steps taken one after the other, as the store
//! serialises them: each step is an event together with what the process
//! backend answers to the work the event asks for. The functions here replay a
//! run through the controller's own rules; the proof functions state what
//! holds of every run.

use vstd::prelude::*;
use crate::controller::{
    directive_for, kill_requests, label_after_spawn, slot_after_spawn, terminate_requests,
    Directive, EXIT_CODE,
};
use crate::event::Event;
use crate::slot::state_of;
use crate::toggle::{label_for, MenuLabel, ToggleState};

verus! {

/// One event, with the backend's answers: `spawn` to a spawn, should the
/// event ask for one, and `signal` to a terminate or kill request, should it
/// ask for one of those.
pub struct Step<H, E> {
    pub event: Event,
    pub spawn: Result<H, E>,
    pub signal: Result<(), E>,
}

/// What the slot holds after one step taken with `held` in it.
pub open spec fn slot_after_step<H, E>(held: Option<H>, step: Step<H, E>) -> Option<H> {
    match directive_for(held, step.event) {
        Directive::Spawn => slot_after_spawn(step.spawn),
        Directive::Terminate { .. } => None,
        Directive::Exit { .. } => None,
    }
}

/// The label the menu shows after one step, `shown` being the one before.
pub open spec fn label_after_step<H, E>(shown: MenuLabel, held: Option<H>, step: Step<H, E>) -> MenuLabel {
    match directive_for(held, step.event) {
        Directive::Spawn => match label_after_spawn(step.spawn) {
            Ok(label) => label,
            Err(_) => shown,
        },
        Directive::Terminate { label, .. } => label,
        Directive::Exit { .. } => shown,
    }
}

/// Whether the outside work of a step succeeded: the spawn or the signal it
/// asked for. A step that asks for nothing succeeds.
pub open spec fn succeeded<H, E>(held: Option<H>, step: Step<H, E>) -> bool {
    match directive_for(held, step.event) {
        Directive::Spawn => step.spawn is Ok,
        Directive::Terminate { .. } => step.signal is Ok,
        Directive::Exit { kill, .. } => kill is Some ==> step.signal is Ok,
    }
}

/// Whether a step changed what the slot holds from nothing to something or
/// back.
pub open spec fn flipped<H, E>(held: Option<H>, step: Step<H, E>) -> bool {
    (held is Some) != (slot_after_step(held, step) is Some)
}

/// The number of handles that came into being in a step.
pub open spec fn started<H, E>(held: Option<H>, step: Step<H, E>) -> nat {
    if directive_for(held, step.event) is Spawn && step.spawn is Ok {
        1
    } else {
        0
    }
}

/// The number of handles given up in a step, to a terminate or a kill.
pub open spec fn given_up<H, E>(held: Option<H>, step: Step<H, E>) -> nat {
    terminate_requests(directive_for(held, step.event)) + kill_requests(
        directive_for(held, step.event),
    )
}

/// 1 for an occupied slot, 0 for an empty one.
pub open spec fn occupancy<H>(held: Option<H>) -> nat {
    if held is Some {
        1
    } else {
        0
    }
}

/// What the slot holds after a whole run that began with `held` in it.
pub open spec fn slot_after<H, E>(held: Option<H>, run: Seq<Step<H, E>>) -> Option<H>
    decreases run.len(),
{
    if run.len() == 0 {
        held
    } else {
        slot_after_step(slot_after(held, run.drop_last()), run.last())
    }
}

/// The label the menu shows after a whole run.
pub open spec fn label_after<H, E>(shown: MenuLabel, held: Option<H>, run: Seq<Step<H, E>>) -> MenuLabel
    decreases run.len(),
{
    if run.len() == 0 {
        shown
    } else {
        label_after_step(
            label_after(shown, held, run.drop_last()),
            slot_after(held, run.drop_last()),
            run.last(),
        )
    }
}

/// The number of steps of a run whose outside work succeeded.
pub open spec fn successes<H, E>(held: Option<H>, run: Seq<Step<H, E>>) -> nat
    decreases run.len(),
{
    if run.len() == 0 {
        0
    } else {
        successes(held, run.drop_last()) + if succeeded(
            slot_after(held, run.drop_last()),
            run.last(),
        ) {
            1nat
        } else {
            0nat
        }
    }
}

/// The number of steps of a run that flipped the slot.
pub open spec fn flips<H, E>(held: Option<H>, run: Seq<Step<H, E>>) -> nat
    decreases run.len(),
{
    if run.len() == 0 {
        0
    } else {
        flips(held, run.drop_last()) + if flipped(slot_after(held, run.drop_last()), run.last()) {
            1nat
        } else {
            0nat
        }
    }
}

/// The number of handles alive after a run: the one held at its start, plus
/// those started, minus those given up.
pub open spec fn live_handles<H, E>(held: Option<H>, run: Seq<Step<H, E>>) -> int
    decreases run.len(),
{
    if run.len() == 0 {
        occupancy(held) as int
    } else {
        live_handles(held, run.drop_last()) + started(
            slot_after(held, run.drop_last()),
            run.last(),
        ) - given_up(slot_after(held, run.drop_last()), run.last())
    }
}

/// Every step of the run is an activation.
pub open spec fn only_activations<H, E>(run: Seq<Step<H, E>>) -> bool {
    forall|i: int| 0 <= i < run.len() ==> (#[trigger] run[i]).event == Event::Activate
}

/// No terminate request of the run fails: wherever a step finds the slot
/// occupied, its signal is delivered.
pub open spec fn every_terminate_delivered<H, E>(held: Option<H>, run: Seq<Step<H, E>>) -> bool {
    forall|i: int|
        0 <= i < run.len() && slot_after(held, #[trigger] run.take(i)) is Some ==> run[i].signal is Ok
}

/// After any run of activations that began with an empty slot, the slot is
/// occupied exactly if an odd number of them flipped it. Every activation
/// flips it but one whose spawn fails.
pub proof fn occupied_iff_odd_flips<H, E>(run: Seq<Step<H, E>>)
    requires
        only_activations(run),
    ensures
        slot_after(None::<H>, run) is Some <==> flips(None::<H>, run) % 2 == 1,
        forall|held: Option<H>, step: Step<H, E>|
            step.event == Event::Activate ==> (#[trigger] flipped(held, step) <==> !(held is None
                && step.spawn is Err)),
    decreases run.len(),
{
    if run.len() > 0 {
        occupied_iff_odd_flips(run.drop_last());
    }
}

/// After any run of activations that began with an empty slot and in which
/// no terminate request failed, the slot is occupied after an odd number of
/// successful activations and empty after an even number.
pub proof fn occupied_iff_odd_successes<H, E>(run: Seq<Step<H, E>>)
    requires
        only_activations(run),
        every_terminate_delivered(None::<H>, run),
    ensures
        slot_after(None::<H>, run) is Some <==> successes(None::<H>, run) % 2 == 1,
    decreases run.len(),
{
    if run.len() > 0 {
        let before = run.drop_last();
        assert forall|i: int| 0 <= i < before.len() && slot_after(
            None::<H>,
            #[trigger] before.take(i),
        ) is Some implies before[i].signal is Ok by {
            assert(before.take(i) == run.take(i));
        }
        occupied_iff_odd_successes(before);
        assert(run.take(run.len() - 1) == before);
    }
}

/// However a run goes, the number of live handles is that of the slot's
/// occupancy: never more than one, and none outside the slot. A spawn is
/// asked for only where no handle is alive.
pub proof fn at_most_one_live_handle<H, E>(held: Option<H>, run: Seq<Step<H, E>>)
    ensures
        live_handles(held, run) == occupancy(slot_after(held, run)),
        0 <= live_handles(held, run) <= 1,
        forall|event: Event|
            #[trigger] directive_for(slot_after(held, run), event) is Spawn ==> live_handles(
                held,
                run,
            ) == 0,
    decreases run.len(),
{
    if run.len() > 0 {
        at_most_one_live_handle(held, run.drop_last());
    }
}

/// A quit empties the slot whatever it held, asks for exactly one kill if a
/// handle was held and for none otherwise, never for a terminate or a spawn,
/// and ends the application with the exit code.
pub proof fn quit_kills_what_was_held<H, E>(held: Option<H>, step: Step<H, E>)
    requires
        step.event == Event::Quit,
    ensures
        slot_after_step(held, step) is None,
        directive_for(held, step.event) == (Directive::Exit { kill: held, code: EXIT_CODE }),
        kill_requests(directive_for(held, step.event)) == occupancy(held),
        terminate_requests(directive_for(held, step.event)) == 0,
        started(held, step) == 0,
{
}

/// An activation whose spawn fails leaves the toggle disabled and the menu
/// as it was: no label is asked for.
pub proof fn failed_spawn_changes_nothing<H, E>(shown: MenuLabel, step: Step<H, E>)
    requires
        step.event == Event::Activate,
        step.spawn is Err,
    ensures
        state_of(slot_after_step(None::<H>, step)) == ToggleState::Disabled,
        label_after_spawn(step.spawn) is Err,
        label_after_step(shown, None::<H>, step) == shown,
{
}

/// Through any run of activations the label keeps telling the state: if it
/// did so at the start, it does so at the end.
pub proof fn label_follows_state<H, E>(shown: MenuLabel, held: Option<H>, run: Seq<Step<H, E>>)
    requires
        only_activations(run),
        shown == label_for(state_of(held)),
    ensures
        label_after(shown, held, run) == label_for(state_of(slot_after(held, run))),
    decreases run.len(),
{
    if run.len() > 0 {
        label_follows_state(shown, held, run.drop_last());
    }
}

} // verus!
