//! The events the menu delivers, and the ids its entries carry.

use vstd::prelude::*;

verus! {

/// What the user asked for by clicking a menu entry.
#[derive(Clone, Copy, Debug, PartialEq, Eq, Structural)]
pub enum Event {
    /// The toggle entry was clicked.
    Activate,
    /// The quit entry was clicked.
    Quit,
}

/// The id of the menu entry that delivers an event.
pub open spec fn menu_id_of(event: Event) -> Seq<char> {
    match event {
        Event::Activate => "action"@,
        Event::Quit => "quit"@,
    }
}

/// The event behind a menu entry id, if the id is one of the two.
pub open spec fn event_of_menu_id(id: Seq<char>) -> Option<Event> {
    if id == menu_id_of(Event::Activate) {
        Some(Event::Activate)
    } else if id == menu_id_of(Event::Quit) {
        Some(Event::Quit)
    } else {
        None
    }
}

impl Event {
    /// The id to give the menu entry that delivers this event.
    pub fn menu_id(self) -> (id: &'static str)
        ensures
            id@ == menu_id_of(self),
            event_of_menu_id(id@) == Some(self),
    {
        proof {
            menu_ids_differ();
        }
        match self {
            Event::Activate => "action",
            Event::Quit => "quit",
        }
    }

    /// Reads a menu entry id back into the event it delivers. An id of
    /// neither entry gives `None`.
    pub fn from_menu_id(id: &str) -> (event: Option<Event>)
        ensures
            event == event_of_menu_id(id@),
    {
        let clicked = id.to_owned();
        if clicked == Event::Activate.menu_id().to_owned() {
            Some(Event::Activate)
        } else if clicked == Event::Quit.menu_id().to_owned() {
            Some(Event::Quit)
        } else {
            None
        }
    }
}

/// The two entries carry different ids.
pub proof fn menu_ids_differ()
    ensures
        menu_id_of(Event::Activate) != menu_id_of(Event::Quit),
{
    reveal_strlit("action");
    reveal_strlit("quit");
    assert("action"@.len() != "quit"@.len());
}

} // verus!
