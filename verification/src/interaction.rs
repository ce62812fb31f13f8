//! Proximity detection: which entities are currently in range of an
//! interactor, driven by collision sensor begin/end events.

use vstd::prelude::*;

use crate::world::{EntityState, World};

verus! {

/// Something the player can interact with: `interact` toggles a boolean
/// affordance state (for a door, open versus closed).
pub trait Interaction {
    /// The boolean state that `interact` toggles.
    spec fn interaction_state(&self) -> bool;

    /// Toggle the state.
    fn interact(&mut self)
        ensures
            final(self).interaction_state() == !old(self).interaction_state(),
    ;
}

/// Marker carried by the entity that probes for nearby interactive objects
/// (the player's sensor volume).
#[derive(Clone, Copy, PartialEq, Eq, Structural)]
pub struct Interactor;

/// Marker carried by an entity while it is within range of an interactor.
#[derive(Clone, Copy, PartialEq, Eq, Structural)]
pub struct Interactive;

/// The single on-screen prompt element whose content names the interaction
/// currently on offer (empty when nothing is in range).
pub struct InteractiveText {
    pub value: String,
}

/// A sensor overlap notification from the physics engine, naming an
/// unordered pair of entities and whether a sensor collider was involved.
#[derive(Clone, Copy, PartialEq, Eq, Structural)]
pub enum ProximityEvent {
    Begin { a: u64, b: u64, sensor: bool },
    End { a: u64, b: u64, sensor: bool },
}

pub open spec fn event_names(ev: ProximityEvent, id: u64) -> bool {
    match ev {
        ProximityEvent::Begin { a, b, .. } => a == id || b == id,
        ProximityEvent::End { a, b, .. } => a == id || b == id,
    }
}

/// How a begin event touches one entity: an entity it names gains the
/// interactable marker, unless it is an interactor or already carries it.
pub open spec fn entity_begin_mark(e: EntityState, a: u64, b: u64) -> EntityState {
    if (a == e.id || b == e.id) && e.interactor is None && e.interactive is None {
        EntityState { interactive: Some(Interactive), interactive_added: true, ..e }
    } else {
        e
    }
}

/// How an end event touches one entity: an entity it names loses the
/// interactable marker, unless it is an interactor; absent markers are
/// tolerated as no-ops.
pub open spec fn entity_end_mark(e: EntityState, a: u64, b: u64) -> EntityState {
    if (a == e.id || b == e.id) && e.interactor is None {
        EntityState { interactive: None, interactive_added: false, ..e }
    } else {
        e
    }
}

/// One proximity event applied to one entity.
pub open spec fn entity_after_event(e: EntityState, ev: ProximityEvent) -> EntityState {
    match ev {
        ProximityEvent::Begin { a, b, .. } => entity_begin_mark(e, a, b),
        ProximityEvent::End { a, b, .. } => entity_end_mark(e, a, b),
    }
}

/// A sequence of proximity events applied to one entity, in order.
pub open spec fn entity_after_events(e: EntityState, evs: Seq<ProximityEvent>) -> EntityState
    decreases evs.len(),
{
    if evs.len() == 0 {
        e
    } else {
        entity_after_event(entity_after_events(e, evs.drop_last()), evs.last())
    }
}

pub open spec fn any_end_event(evs: Seq<ProximityEvent>) -> bool {
    exists|i: int| 0 <= i < evs.len() && evs[i] is End
}

/// The prompt text after the proximity events of one step: any overlap
/// ending clears it, unconditionally; nothing else in this phase writes it.
pub open spec fn prompt_after_events(prompt: Seq<char>, evs: Seq<ProximityEvent>) -> Seq<char> {
    if any_end_event(evs) {
        Seq::<char>::empty()
    } else {
        prompt
    }
}

impl World {
    /// Add the interactable marker to every named entity that is not an
    /// interactor; already-marked entities are left unchanged.
    pub fn add_interactive_to_object(&mut self, a: u64, b: u64)
        ensures
            final(self).entities@.len() == old(self).entities@.len(),
            forall|i: int|
                0 <= i < old(self).entities@.len() ==> final(self).entities@[i]
                    == entity_begin_mark(old(self).entities@[i], a, b),
            final(self).prompt == old(self).prompt,
            final(self).my_gamepad == old(self).my_gamepad,
    {
        let mut i: usize = 0;
        while i < self.entities.len()
            invariant
                0 <= i <= self.entities@.len(),
                self.entities@.len() == old(self).entities@.len(),
                forall|j: int|
                    0 <= j < i ==> self.entities@[j] == entity_begin_mark(
                        old(self).entities@[j],
                        a,
                        b,
                    ),
                forall|j: int| i <= j < self.entities@.len() ==> self.entities@[j] == old(
                    self,
                ).entities@[j],
                self.prompt == old(self).prompt,
                self.my_gamepad == old(self).my_gamepad,
            decreases self.entities@.len() - i,
        {
            let e = self.entities[i];
            if (e.id == a || e.id == b) && e.interactor.is_none() && e.interactive.is_none() {
                self.entities[i] = EntityState {
                    interactive: Some(Interactive),
                    interactive_added: true,
                    ..e
                };
            }
            i = i + 1;
        }
    }

    /// Remove the interactable marker from every named entity that is not
    /// an interactor; a missing marker is a no-op.
    pub fn remove_interactive_from_object(&mut self, a: u64, b: u64)
        ensures
            final(self).entities@.len() == old(self).entities@.len(),
            forall|i: int|
                0 <= i < old(self).entities@.len() ==> final(self).entities@[i]
                    == entity_end_mark(old(self).entities@[i], a, b),
            final(self).prompt == old(self).prompt,
            final(self).my_gamepad == old(self).my_gamepad,
    {
        let mut i: usize = 0;
        while i < self.entities.len()
            invariant
                0 <= i <= self.entities@.len(),
                self.entities@.len() == old(self).entities@.len(),
                forall|j: int|
                    0 <= j < i ==> self.entities@[j] == entity_end_mark(
                        old(self).entities@[j],
                        a,
                        b,
                    ),
                forall|j: int| i <= j < self.entities@.len() ==> self.entities@[j] == old(
                    self,
                ).entities@[j],
                self.prompt == old(self).prompt,
                self.my_gamepad == old(self).my_gamepad,
            decreases self.entities@.len() - i,
        {
            let e = self.entities[i];
            if (e.id == a || e.id == b) && e.interactor.is_none() {
                self.entities[i] = EntityState {
                    interactive: None,
                    interactive_added: false,
                    ..e
                };
            }
            i = i + 1;
        }
    }

    /// Clear the interaction prompt.
    pub fn remove_interactive_text(&mut self)
        ensures
            final(self).entities == old(self).entities,
            final(self).prompt.value@ == Seq::<char>::empty(),
            final(self).my_gamepad == old(self).my_gamepad,
    {
        self.prompt.value = String::new();
    }

    /// React to this step's sensor overlap events, in order: a beginning
    /// overlap marks the named non-interactor entities as interactable, an
    /// ending overlap unmarks them and clears the prompt.
    pub fn handle_interactive_collisions(&mut self, events: &Vec<ProximityEvent>)
        ensures
            final(self).entities@.len() == old(self).entities@.len(),
            forall|i: int|
                0 <= i < old(self).entities@.len() ==> final(self).entities@[i]
                    == entity_after_events(old(self).entities@[i], events@),
            final(self).prompt.value@ == prompt_after_events(old(self).prompt.value@, events@),
            final(self).my_gamepad == old(self).my_gamepad,
    {
        proof {
            assert(events@.take(0) =~= Seq::<ProximityEvent>::empty());
        }
        let mut k: usize = 0;
        while k < events.len()
            invariant
                0 <= k <= events@.len(),
                self.entities@.len() == old(self).entities@.len(),
                forall|i: int|
                    0 <= i < old(self).entities@.len() ==> self.entities@[i]
                        == entity_after_events(old(self).entities@[i], events@.take(k as int)),
                self.prompt.value@ == prompt_after_events(
                    old(self).prompt.value@,
                    events@.take(k as int),
                ),
                self.my_gamepad == old(self).my_gamepad,
            decreases events@.len() - k,
        {
            proof {
                assert(events@.take(k as int + 1).drop_last() =~= events@.take(k as int));
                assert(events@.take(k as int + 1).last() == events@[k as int]);
            }
            let ghost entities_mid = self.entities@;
            match events[k] {
                ProximityEvent::Begin { a, b, .. } => {
                    self.add_interactive_to_object(a, b);
                    proof {
                        lemma_no_end_extends(events@, k as int);
                    }
                },
                ProximityEvent::End { a, b, .. } => {
                    self.remove_interactive_from_object(a, b);
                    self.remove_interactive_text();
                    proof {
                        assert(any_end_event(events@.take(k as int + 1)));
                    }
                },
            }
            k = k + 1;
        }
        proof {
            assert(events@.take(events@.len() as int) =~= events@);
        }
    }
}

/// The proximity events of a step leave an entity's id, interactor marker
/// and door untouched: they only move the interactable marker.
pub proof fn lemma_events_preserve_shape(e: EntityState, evs: Seq<ProximityEvent>)
    ensures
        entity_after_events(e, evs).id == e.id,
        entity_after_events(e, evs).interactor == e.interactor,
        entity_after_events(e, evs).door == e.door,
    decreases evs.len(),
{
    if evs.len() > 0 {
        lemma_events_preserve_shape(e, evs.drop_last());
    }
}

/// Marking is idempotent: a beginning overlap adds nothing to an entity
/// that is already marked, so no double-add can occur.
pub proof fn lemma_begin_mark_idempotent(e: EntityState, a: u64, b: u64)
    ensures
        entity_begin_mark(entity_begin_mark(e, a, b), a, b) == entity_begin_mark(e, a, b),
{
}

/// Whether the most recent event in `evs` naming the entity `id` was a
/// begin event; with no event naming it, the prior marker presence `init`
/// stands.
pub open spec fn latest_event_marks(evs: Seq<ProximityEvent>, id: u64, init: bool) -> bool
    decreases evs.len(),
{
    if evs.len() == 0 {
        init
    } else if event_names(evs.last(), id) {
        evs.last() is Begin
    } else {
        latest_event_marks(evs.drop_last(), id, init)
    }
}

/// For any sequence of proximity events, a non-interactor entity carries
/// the interactable marker afterwards exactly when the most recent event
/// naming it was a begin event.
pub proof fn lemma_marker_tracks_latest_event(e: EntityState, evs: Seq<ProximityEvent>)
    requires
        e.interactor is None,
    ensures
        (entity_after_events(e, evs).interactive is Some) == latest_event_marks(
            evs,
            e.id,
            e.interactive is Some,
        ),
    decreases evs.len(),
{
    if evs.len() > 0 {
        lemma_marker_tracks_latest_event(e, evs.drop_last());
        lemma_events_preserve_shape(e, evs.drop_last());
    }
}

/// An interactor entity is never marked interactable: proximity events
/// leave it entirely unchanged.
pub proof fn lemma_interactor_never_marked(e: EntityState, evs: Seq<ProximityEvent>)
    requires
        e.interactor is Some,
    ensures
        entity_after_events(e, evs) == e,
    decreases evs.len(),
{
    if evs.len() > 0 {
        lemma_interactor_never_marked(e, evs.drop_last());
    }
}

/// Extending a sequence of events by a begin event introduces no end event.
proof fn lemma_no_end_extends(evs: Seq<ProximityEvent>, k: int)
    requires
        0 <= k < evs.len(),
        evs[k] is Begin,
    ensures
        any_end_event(evs.take(k + 1)) == any_end_event(evs.take(k)),
{
    let tk1 = evs.take(k + 1);
    let tk = evs.take(k);
    if any_end_event(tk1) {
        let i = choose|i: int| 0 <= i < tk1.len() && (#[trigger] tk1[i]) is End;
        assert(i < k);
        assert(tk[i] is End);
    }
    if any_end_event(tk) {
        let i = choose|i: int| 0 <= i < tk.len() && (#[trigger] tk[i]) is End;
        assert(tk1[i] is End);
    }
}

} // verus!
