//! The interaction world: every entity the mechanism cares about, the prompt
//! element, and the active-gamepad binding, advanced one simulation step at
//! a time.

use vstd::prelude::*;

use crate::door::{
    entity_after_sync, entity_after_toggle, prompt_after_text, spec_colliders_for,
    spec_interact_edge, spec_sprite_for, Door, OPEN_DOOR_SPRITE,
};
use crate::gamepad::{binding_after, gamepad_detection, GamepadConnection, MyGamepad};
use crate::interaction::{
    entity_after_events, lemma_events_preserve_shape, prompt_after_events, Interactive,
    InteractiveText, Interactor, ProximityEvent,
};
use crate::level::LevelField;

verus! {

/// A door entity's domain state together with its presentation: the sprite
/// frame shown, the blocking colliders owned, and the change-detection flag
/// the presentation sync is gated on.
#[derive(Clone, Copy)]
pub struct DoorState {
    pub door: Door,
    pub sprite_index: usize,
    pub blocking_colliders: usize,
    /// Set when the door spawns or its state flips; cleared once the
    /// presentation sync has observed the new state.
    pub changed: bool,
}

/// One entity as this mechanism sees it: its id, the markers it carries, and
/// its door state if it is a door.
#[derive(Clone, Copy)]
pub struct EntityState {
    pub id: u64,
    pub interactor: Option<Interactor>,
    pub interactive: Option<Interactive>,
    /// Set when the interactable marker is added; cleared at the end of the
    /// step, so that "just became interactable" is observable within it.
    pub interactive_added: bool,
    pub door: Option<DoorState>,
}

/// The inputs one simulation step reacts to: the physics engine's sensor
/// overlap events, gamepad hot-plug events, and the interact input edges.
pub struct Frame {
    pub proximity: Vec<ProximityEvent>,
    pub connections: Vec<GamepadConnection>,
    pub input: InteractInput,
}

/// The interact input edges of one step: whether the interact key was just
/// pressed, and the ids of the gamepads whose action button was.
pub struct InteractInput {
    pub keyboard_just_pressed: bool,
    pub gamepad_buttons_just_pressed: Vec<usize>,
}

/// The state the interaction mechanism owns.
pub struct World {
    pub entities: Vec<EntityState>,
    pub prompt: InteractiveText,
    pub my_gamepad: Option<MyGamepad>,
}

impl EntityState {
    /// A door's presentation agrees with its state: the open or closed
    /// sprite frame, and a blocking collider exactly while closed.
    pub open spec fn presentation_ok(self) -> bool {
        self.door matches Some(d) ==> {
            &&& d.sprite_index == spec_sprite_for(d.door.spec_is_open())
            &&& d.blocking_colliders == spec_colliders_for(d.door.spec_is_open())
        }
    }

    /// Every state an entity can reach between steps: a door owns at most
    /// one blocking collider, and its presentation is either in sync or
    /// still flagged for the sync to pick up.
    pub open spec fn wf(self) -> bool {
        self.door matches Some(d) ==> {
            &&& d.blocking_colliders <= 1
            &&& (d.changed || self.presentation_ok())
        }
    }

    /// Fully settled: nothing is pending for the next step's change
    /// detection, and the presentation agrees with the state.
    pub open spec fn settled(self) -> bool {
        &&& !self.interactive_added
        &&& self.presentation_ok()
        &&& (self.door matches Some(d) ==> !d.changed)
    }
}

impl World {
    /// Entity ids are unique, and every entity is well-formed.
    pub open spec fn wf(self) -> bool {
        &&& forall|i: int, j: int|
            0 <= i < j < self.entities@.len() ==> self.entities@[i].id != self.entities@[j].id
        &&& forall|i: int| 0 <= i < self.entities@.len() ==> (#[trigger] self.entities@[i]).wf()
    }

    /// Every entity is settled: what a completed step leaves behind.
    pub open spec fn settled(self) -> bool {
        forall|i: int| 0 <= i < self.entities@.len() ==> (#[trigger] self.entities@[i]).settled()
    }

    /// Whether some entity carries this id.
    pub open spec fn has_entity(self, id: u64) -> bool {
        exists|i: int| 0 <= i < self.entities@.len() && (#[trigger] self.entities@[i]).id == id
    }

    /// An empty world: no entities, no prompt, no gamepad bound.
    pub fn new() -> (world: World)
        ensures
            world.entities@.len() == 0,
            world.prompt.value@ == Seq::<char>::empty(),
            world.my_gamepad is None,
            world.wf(),
            world.settled(),
    {
        World {
            entities: Vec::new(),
            prompt: InteractiveText { value: String::new() },
            my_gamepad: None,
        }
    }

    /// Attach the player's interaction probe as a new entity.
    pub fn add_interactor(&mut self, id: u64)
        requires
            !old(self).has_entity(id),
        ensures
            final(self).entities@ == old(self).entities@.push(spec_interactor_entity(id)),
            final(self).prompt == old(self).prompt,
            final(self).my_gamepad == old(self).my_gamepad,
            old(self).wf() ==> final(self).wf(),
    {
        self.entities.push(EntityState {
            id,
            interactor: Some(Interactor),
            interactive: None,
            interactive_added: false,
            door: None,
        });
    }

    /// Spawn a plain object entity (no door, no markers yet).
    pub fn spawn_object(&mut self, id: u64)
        requires
            !old(self).has_entity(id),
        ensures
            final(self).entities@ == old(self).entities@.push(spec_object_entity(id)),
            final(self).prompt == old(self).prompt,
            final(self).my_gamepad == old(self).my_gamepad,
            old(self).wf() ==> final(self).wf(),
    {
        self.entities.push(EntityState {
            id,
            interactor: None,
            interactive: None,
            interactive_added: false,
            door: None,
        });
    }

    /// Spawn a door entity from its authored level fields.  It comes up
    /// showing the sprite sheet's default frame and owning no collider yet,
    /// but flagged as changed, so the first step syncs its presentation.
    pub fn spawn_door(&mut self, id: u64, fields: &Vec<LevelField>)
        requires
            !old(self).has_entity(id),
        ensures
            final(self).entities@ == old(self).entities@.push(spec_door_entity(id, fields@)),
            final(self).prompt == old(self).prompt,
            final(self).my_gamepad == old(self).my_gamepad,
            old(self).wf() ==> final(self).wf(),
    {
        let door = Door::from_level_fields(fields);
        self.entities.push(EntityState {
            id,
            interactor: None,
            interactive: None,
            interactive_added: false,
            door: Some(DoorState {
                door,
                sprite_index: OPEN_DOOR_SPRITE,
                blocking_colliders: 0,
                changed: true,
            }),
        });
    }
}

/// The entity `add_interactor` creates.
pub open spec fn spec_interactor_entity(id: u64) -> EntityState {
    EntityState {
        id,
        interactor: Some(Interactor),
        interactive: None,
        interactive_added: false,
        door: None,
    }
}

/// The entity `spawn_object` creates.
pub open spec fn spec_object_entity(id: u64) -> EntityState {
    EntityState { id, interactor: None, interactive: None, interactive_added: false, door: None }
}

/// An entity once the step's change detection expires: "just added" marks
/// do not survive into the next step.
pub open spec fn entity_expire_added(e: EntityState) -> EntityState {
    EntityState { interactive_added: false, ..e }
}

/// One entity across one whole step: the proximity events mark or unmark
/// it, an accepted interact edge toggles it if it is a marked door, the
/// presentation sync settles it, and the change-detection marks expire.
pub open spec fn entity_after_step(
    e: EntityState,
    evs: Seq<ProximityEvent>,
    edge: bool,
) -> EntityState {
    entity_expire_added(entity_after_sync(entity_after_toggle(entity_after_events(e, evs), edge)))
}

/// All entities midway through a step, after proximity marking and the
/// toggle but before the presentation sync: the state the prompt sync sees.
pub open spec fn entities_mid(
    entities: Seq<EntityState>,
    evs: Seq<ProximityEvent>,
    edge: bool,
) -> Seq<EntityState> {
    entities.map_values(|e: EntityState| entity_after_toggle(entity_after_events(e, evs), edge))
}

/// The prompt across one whole step: any ending overlap clears it, then
/// every candidate door writes the prompt matching its state, in order.
pub open spec fn prompt_after_step(
    entities: Seq<EntityState>,
    prompt: Seq<char>,
    evs: Seq<ProximityEvent>,
    edge: bool,
) -> Seq<char> {
    prompt_after_text(entities_mid(entities, evs, edge), prompt_after_events(prompt, evs))
}

/// The entity `spawn_door` creates.
pub open spec fn spec_door_entity(id: u64, fields: Seq<LevelField>) -> EntityState {
    EntityState {
        id,
        interactor: None,
        interactive: None,
        interactive_added: false,
        door: Some(DoorState {
            door: crate::door::spec_door_from_fields(fields),
            sprite_index: OPEN_DOOR_SPRITE,
            blocking_colliders: 0,
            changed: true,
        }),
    }
}

/// One whole step keeps an entity's identity and kind, keeps a well-formed
/// entity well-formed, and leaves it settled: presentation in sync with its
/// state and no change-detection marks pending.
pub proof fn lemma_entity_step_shape(e: EntityState, evs: Seq<ProximityEvent>, edge: bool)
    ensures
        entity_after_step(e, evs, edge).id == e.id,
        entity_after_step(e, evs, edge).interactor == e.interactor,
        (entity_after_step(e, evs, edge).door is Some) == (e.door is Some),
        e.wf() ==> entity_after_step(e, evs, edge).wf(),
        e.wf() ==> entity_after_step(e, evs, edge).settled(),
{
    lemma_events_preserve_shape(e, evs);
}

impl World {
    /// Expire this step's change detection: next step, nothing counts as
    /// "just became interactable" until a new overlap begins.
    pub fn expire_added_markers(&mut self)
        ensures
            final(self).entities@.len() == old(self).entities@.len(),
            forall|i: int|
                0 <= i < old(self).entities@.len() ==> final(self).entities@[i]
                    == entity_expire_added(old(self).entities@[i]),
            final(self).prompt == old(self).prompt,
            final(self).my_gamepad == old(self).my_gamepad,
    {
        let mut i: usize = 0;
        while i < self.entities.len()
            invariant
                0 <= i <= self.entities@.len(),
                self.entities@.len() == old(self).entities@.len(),
                forall|j: int|
                    0 <= j < i ==> self.entities@[j] == entity_expire_added(
                        old(self).entities@[j],
                    ),
                forall|j: int| i <= j < self.entities@.len() ==> self.entities@[j] == old(
                    self,
                ).entities@[j],
                self.prompt == old(self).prompt,
                self.my_gamepad == old(self).my_gamepad,
            decreases self.entities@.len() - i,
        {
            let e = self.entities[i];
            self.entities[i] = EntityState { interactive_added: false, ..e };
            i = i + 1;
        }
    }

    /// Advance the world by one simulation step, reacting to this frame's
    /// events in the order the mechanism requires: proximity marking first,
    /// then the gamepad binding, then the interact toggle, then the prompt
    /// and presentation sync, and finally the change-detection expiry.
    pub fn step(&mut self, frame: &Frame)
        ensures
            final(self).entities@.len() == old(self).entities@.len(),
            final(self).my_gamepad == binding_after(old(self).my_gamepad, frame.connections@),
            forall|i: int|
                0 <= i < old(self).entities@.len() ==> final(self).entities@[i]
                    == entity_after_step(
                    old(self).entities@[i],
                    frame.proximity@,
                    spec_interact_edge(
                        frame.input,
                        binding_after(old(self).my_gamepad, frame.connections@),
                    ),
                ),
            final(self).prompt.value@ == prompt_after_step(
                old(self).entities@,
                old(self).prompt.value@,
                frame.proximity@,
                spec_interact_edge(
                    frame.input,
                    binding_after(old(self).my_gamepad, frame.connections@),
                ),
            ),
            old(self).wf() ==> final(self).wf(),
            old(self).wf() ==> final(self).settled(),
    {
        let ghost orig = *self;
        let ghost evs = frame.proximity@;
        let ghost edge = spec_interact_edge(
            frame.input,
            binding_after(old(self).my_gamepad, frame.connections@),
        );
        self.handle_interactive_collisions(&frame.proximity);
        gamepad_detection(&mut self.my_gamepad, &frame.connections);
        self.door_interaction(&frame.input);
        proof {
            assert(self.entities@ =~= entities_mid(orig.entities@, evs, edge));
        }
        self.door_interaction_text();
        self.update_changed_doors();
        self.expire_added_markers();
        proof {
            if orig.wf() {
                assert forall|i: int, j: int|
                    0 <= i < j < self.entities@.len() implies self.entities@[i].id
                    != self.entities@[j].id by {
                    lemma_entity_step_shape(orig.entities@[i], evs, edge);
                    lemma_entity_step_shape(orig.entities@[j], evs, edge);
                }
                assert forall|i: int| 0 <= i < self.entities@.len() implies (
                #[trigger] self.entities@[i]).wf() && self.entities@[i].settled() by {
                    lemma_entity_step_shape(orig.entities@[i], evs, edge);
                }
            }
        }
    }

    /// The first entity carrying this id, if any (with unique ids, the only
    /// one).
    fn find(&self, id: u64) -> (found: Option<EntityState>)
        ensures
            found == find_entity(self.entities@, id),
    {
        proof {
            assert(self.entities@.skip(0) =~= self.entities@);
        }
        let mut i: usize = 0;
        while i < self.entities.len()
            invariant
                0 <= i <= self.entities@.len(),
                find_entity(self.entities@, id) == find_entity(
                    self.entities@.skip(i as int),
                    id,
                ),
            decreases self.entities@.len() - i,
        {
            proof {
                assert(self.entities@.skip(i as int).first() == self.entities@[i as int]);
                assert(self.entities@.skip(i as int).drop_first() =~= self.entities@.skip(
                    i as int + 1,
                ));
            }
            let e = self.entities[i];
            if e.id == id {
                return Some(e);
            }
            i = i + 1;
        }
        proof {
            assert(self.entities@.skip(self.entities@.len() as int) =~= Seq::<
                EntityState,
            >::empty());
        }
        None
    }

    /// The door state of the entity with this id, if it is a door.
    pub open spec fn spec_door_state(self, id: u64) -> Option<DoorState> {
        match find_entity(self.entities@, id) {
            Some(e) => e.door,
            None => None,
        }
    }

    /// Whether the door with this id is open: `None` when no such door
    /// exists.
    pub fn door_is_open(&self, id: u64) -> (open: Option<bool>)
        ensures
            open == match self.spec_door_state(id) {
                Some(d) => Some(d.door.is_open),
                None => None::<bool>,
            },
    {
        match self.find(id) {
            Some(e) => match e.door {
                Some(d) => Some(d.door.is_open()),
                None => None,
            },
            None => None,
        }
    }

    /// The sprite frame the door with this id is showing.
    pub fn sprite_index(&self, id: u64) -> (index: Option<usize>)
        ensures
            index == match self.spec_door_state(id) {
                Some(d) => Some(d.sprite_index),
                None => None::<usize>,
            },
    {
        match self.find(id) {
            Some(e) => match e.door {
                Some(d) => Some(d.sprite_index),
                None => None,
            },
            None => None,
        }
    }

    /// How many blocking collider children the door with this id owns.
    pub fn blocking_collider_count(&self, id: u64) -> (count: Option<usize>)
        ensures
            count == match self.spec_door_state(id) {
                Some(d) => Some(d.blocking_colliders),
                None => None::<usize>,
            },
    {
        match self.find(id) {
            Some(e) => match e.door {
                Some(d) => Some(d.blocking_colliders),
                None => None,
            },
            None => None,
        }
    }

    /// Whether the entity with this id currently carries the interactable
    /// marker.
    pub fn is_interactive(&self, id: u64) -> (marked: bool)
        ensures
            marked == match find_entity(self.entities@, id) {
                Some(e) => e.interactive is Some,
                None => false,
            },
    {
        match self.find(id) {
            Some(e) => e.interactive.is_some(),
            None => false,
        }
    }

    /// The current text of the interaction prompt.
    pub fn prompt_text(&self) -> (text: String)
        ensures
            text@ == self.prompt.value@,
    {
        self.prompt.value.clone()
    }

    /// The id of the gamepad currently bound as the player's own.
    pub fn active_gamepad(&self) -> (pad: Option<usize>)
        ensures
            pad == match self.my_gamepad {
                Some(my_gamepad) => Some(my_gamepad.0),
                None => None::<usize>,
            },
    {
        match &self.my_gamepad {
            Some(my_gamepad) => Some(my_gamepad.0),
            None => None,
        }
    }
}

/// The first entity in the sequence carrying this id.
pub open spec fn find_entity(entities: Seq<EntityState>, id: u64) -> Option<EntityState>
    decreases entities.len(),
{
    if entities.len() == 0 {
        None
    } else if entities.first().id == id {
        Some(entities.first())
    } else {
        find_entity(entities.drop_first(), id)
    }
}

/// A door's state flips across a step exactly when an interact edge was
/// accepted while the door was marked interactable once this step's
/// proximity events had been handled; it never flips otherwise, and never
/// more than once per step.
pub proof fn lemma_toggle_gated(e: EntityState, evs: Seq<ProximityEvent>, edge: bool)
    ensures
        crate::door::entity_door_open(entity_after_step(e, evs, edge)) == if edge
            && entity_after_events(e, evs).interactive is Some && e.door is Some {
            !crate::door::entity_door_open(e)
        } else {
            crate::door::entity_door_open(e)
        },
{
    lemma_events_preserve_shape(e, evs);
}

/// In a settled world every door's presentation is faithful: the closed
/// sprite frame is shown exactly while the door is closed, the open frame
/// exactly while it is open, and the door owns exactly one blocking
/// collider while closed and none while open.  A step leaves every
/// well-formed world settled, so this holds between any two steps.
pub proof fn lemma_settled_presentation(w: World)
    requires
        w.settled(),
    ensures
        forall|i: int|
            0 <= i < w.entities@.len() ==> ((#[trigger] w.entities@[i]).door matches Some(d)
                ==> {
                &&& (d.sprite_index == crate::door::CLOSED_DOOR_SPRITE <==> !d.door.is_open)
                &&& (d.sprite_index == OPEN_DOOR_SPRITE <==> d.door.is_open)
                &&& d.blocking_colliders == spec_colliders_for(d.door.is_open)
            }),
{
}

/// A text sync pass over entities none of which drives the prompt leaves
/// the prompt as it was.
proof fn lemma_no_candidate_keeps_prompt(entities: Seq<EntityState>, base: Seq<char>)
    requires
        forall|i: int|
            0 <= i < entities.len() ==> !crate::door::prompt_candidate(#[trigger] entities[i]),
    ensures
        prompt_after_text(entities, base) == base,
    decreases entities.len(),
{
    if entities.len() > 0 {
        lemma_no_candidate_keeps_prompt(entities.drop_last(), base);
    }
}

/// A step that brings no events and no input edge changes nothing in a
/// settled world: every system reacting to the frame is gated on change
/// detection, so re-observing the same state performs no action.
pub proof fn lemma_quiet_step(w: World)
    requires
        w.settled(),
    ensures
        forall|i: int|
            0 <= i < w.entities@.len() ==> entity_after_step(
                #[trigger] w.entities@[i],
                Seq::<ProximityEvent>::empty(),
                false,
            ) == w.entities@[i],
        prompt_after_step(
            w.entities@,
            w.prompt.value@,
            Seq::<ProximityEvent>::empty(),
            false,
        ) == w.prompt.value@,
{
    let evs = Seq::<ProximityEvent>::empty();
    let mid = entities_mid(w.entities@, evs, false);
    assert(mid =~= w.entities@);
    lemma_no_candidate_keeps_prompt(mid, w.prompt.value@);
}

} // verus!
