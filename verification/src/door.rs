//! The door: a two-state (open/closed) interactive object seeded from level
//! data, whose sprite frame and blocking collider follow its state.

use vstd::prelude::*;

use crate::gamepad::MyGamepad;
use crate::interaction::Interaction;
use crate::level::{FieldValue, LevelField};
use crate::world::{DoorState, EntityState, InteractInput, World};

verus! {

/// Sprite frame shown for a closed door.
pub const CLOSED_DOOR_SPRITE: usize = 0;

/// Sprite frame shown for an open door.
pub const OPEN_DOOR_SPRITE: usize = 1;

/// A door is either open or closed; `interact` flips the state.
#[derive(Clone, Copy)]
pub struct Door {
    pub is_open: bool,
}

impl Door {
    /// The door's state, for use in specifications.
    pub open spec fn spec_is_open(&self) -> bool {
        self.is_open
    }

    pub fn new(is_open: bool) -> (door: Door)
        ensures
            door.spec_is_open() == is_open,
    {
        Door { is_open }
    }

    #[verifier::when_used_as_spec(spec_is_open)]
    pub fn is_open(&self) -> (open: bool)
        ensures
            open == self.spec_is_open(),
    {
        self.is_open
    }

    /// The door seeded from a level entity's named fields: the first field
    /// named `is_open` decides the state if it holds a boolean; a missing
    /// field, or one of the wrong type, falls back to a closed door.
    pub fn from_level_fields(fields: &Vec<LevelField>) -> (door: Door)
        ensures
            door == spec_door_from_fields(fields@),
    {
        let key = String::from_str("is_open");
        proof {
            assert(fields@.skip(0) =~= fields@);
        }
        let mut i: usize = 0;
        while i < fields.len()
            invariant
                0 <= i <= fields@.len(),
                key@ == "is_open"@,
                spec_door_from_fields(fields@) == spec_door_from_fields(fields@.skip(i as int)),
            decreases fields@.len() - i,
        {
            proof {
                assert(fields@.skip(i as int).first() == fields@[i as int]);
                assert(fields@.skip(i as int).drop_first() =~= fields@.skip(i as int + 1));
            }
            if fields[i].identifier == key {
                match &fields[i].value {
                    FieldValue::Bool(is_open) => {
                        return Door { is_open: *is_open };
                    },
                    _ => {
                        return Door { is_open: false };
                    },
                }
            }
            i = i + 1;
        }
        proof {
            assert(fields@.skip(fields@.len() as int) =~= Seq::<LevelField>::empty());
        }
        Door { is_open: false }
    }
}

impl Default for Door {
    /// A door is closed unless level data says otherwise.
    fn default() -> (door: Door)
        ensures
            !door.spec_is_open(),
    {
        Door { is_open: false }
    }
}

impl Interaction for Door {
    open spec fn interaction_state(&self) -> bool {
        self.spec_is_open()
    }

    fn interact(&mut self) {
        self.is_open = !self.is_open;
    }
}

/// The state a door takes from a sequence of level fields: decided by the
/// first field named `is_open`, closed when there is none.
pub open spec fn spec_door_from_fields(fields: Seq<LevelField>) -> Door
    decreases fields.len(),
{
    if fields.len() == 0 {
        Door { is_open: false }
    } else if fields.first().identifier@ == "is_open"@ {
        match fields.first().value {
            FieldValue::Bool(is_open) => Door { is_open },
            _ => Door { is_open: false },
        }
    } else {
        spec_door_from_fields(fields.drop_first())
    }
}

/// The sprite frame matching a door state.
pub open spec fn spec_sprite_for(open: bool) -> usize {
    if open {
        OPEN_DOOR_SPRITE
    } else {
        CLOSED_DOOR_SPRITE
    }
}

/// How many blocking colliders a door in the given state owns once its
/// presentation is in sync: a closed door blocks movement, an open one
/// does not.
pub open spec fn spec_colliders_for(open: bool) -> usize {
    if open {
        0
    } else {
        1
    }
}

/// The prompt shown while a door is interactable.
pub open spec fn spec_door_prompt(open: bool) -> Seq<char> {
    if open {
        "[E] Close"@
    } else {
        "[E] Open"@
    }
}

/// Whether the gamepad action button fired for the bound pad: only the
/// active gamepad's button counts, and none while no pad is bound.
pub open spec fn spec_button_edge(input: InteractInput, binding: Option<MyGamepad>) -> bool {
    match binding {
        Some(my_gamepad) => input.gamepad_buttons_just_pressed@.contains(my_gamepad.0),
        None => false,
    }
}

/// Whether an interact edge fired this step: the interact key, or the bound
/// gamepad's action button.
pub open spec fn spec_interact_edge(input: InteractInput, binding: Option<MyGamepad>) -> bool {
    input.keyboard_just_pressed || spec_button_edge(input, binding)
}

/// How an accepted interact edge touches one entity: a door currently
/// marked interactable flips its state and is flagged for the presentation
/// sync; everything else is untouched.
pub open spec fn entity_after_toggle(e: EntityState, edge: bool) -> EntityState {
    match e.door {
        Some(d) => {
            if edge && e.interactive is Some {
                EntityState {
                    door: Some(
                        DoorState { door: Door { is_open: !d.door.is_open }, changed: true, ..d },
                    ),
                    ..e
                }
            } else {
                e
            }
        },
        None => e,
    }
}

/// Whether this entity drives the prompt this step: a door that just became
/// interactable, or an interactable door whose state just changed.
pub open spec fn prompt_candidate(e: EntityState) -> bool {
    match e.door {
        Some(d) => e.interactive_added || (d.changed && e.interactive is Some),
        None => false,
    }
}

/// A door entity's open state (false for anything that is not a door).
pub open spec fn entity_door_open(e: EntityState) -> bool {
    match e.door {
        Some(d) => d.door.is_open,
        None => false,
    }
}

/// The prompt after the text sync walked the entities in order: each
/// candidate door writes the prompt matching its state, so the last
/// candidate wins; with no candidate the prompt keeps its prior text.
pub open spec fn prompt_after_text(entities: Seq<EntityState>, base: Seq<char>) -> Seq<char>
    decreases entities.len(),
{
    if entities.len() == 0 {
        base
    } else if prompt_candidate(entities.last()) {
        spec_door_prompt(entity_door_open(entities.last()))
    } else {
        prompt_after_text(entities.drop_last(), base)
    }
}

/// How the presentation sync touches one entity: a door flagged as changed
/// gets the sprite frame for its state, loses its blocking colliders while
/// open, gains one while closed and unblocked, and is unflagged; doors not
/// flagged, and non-doors, are untouched.
pub open spec fn entity_after_sync(e: EntityState) -> EntityState {
    match e.door {
        Some(d) => {
            if d.changed {
                EntityState {
                    door: Some(
                        DoorState {
                            door: d.door,
                            sprite_index: spec_sprite_for(d.door.is_open),
                            blocking_colliders: if d.door.is_open {
                                0
                            } else if d.blocking_colliders == 0 {
                                1
                            } else {
                                d.blocking_colliders
                            },
                            changed: false,
                        },
                    ),
                    ..e
                }
            } else {
                e
            }
        },
        None => e,
    }
}

/// Whether the bound gamepad's action button was just pressed.
pub fn interact_button_just_pressed(
    input: &InteractInput,
    my_gamepad: &Option<MyGamepad>,
) -> (pressed: bool)
    ensures
        pressed == spec_button_edge(*input, *my_gamepad),
{
    match my_gamepad {
        Some(bound) => {
            let buttons = &input.gamepad_buttons_just_pressed;
            let mut i: usize = 0;
            while i < buttons.len()
                invariant
                    0 <= i <= buttons@.len(),
                    *my_gamepad == Some(*bound),
                    buttons == &input.gamepad_buttons_just_pressed,
                    forall|j: int| 0 <= j < i ==> buttons@[j] != bound.0,
                decreases buttons@.len() - i,
            {
                if buttons[i] == bound.0 {
                    proof {
                        assert(buttons@.contains(bound.0)) by {
                            assert(buttons@[i as int] == bound.0);
                        }
                    }
                    return true;
                }
                i = i + 1;
            }
            proof {
                assert(!buttons@.contains(bound.0));
            }
            false
        },
        None => false,
    }
}

/// Whether an interact edge fired this step.
pub fn interact_input_just_pressed(
    input: &InteractInput,
    my_gamepad: &Option<MyGamepad>,
) -> (pressed: bool)
    ensures
        pressed == spec_interact_edge(*input, *my_gamepad),
{
    let button = interact_button_just_pressed(input, my_gamepad);
    button || input.keyboard_just_pressed
}

/// Show a closed door's sprite frame.
pub fn set_closed_door_sprite(door_state: &mut DoorState)
    ensures
        *final(door_state) == (DoorState { sprite_index: CLOSED_DOOR_SPRITE, ..*old(door_state) }),
{
    door_state.sprite_index = CLOSED_DOOR_SPRITE;
}

/// Show an open door's sprite frame.
pub fn set_open_door_sprite(door_state: &mut DoorState)
    ensures
        *final(door_state) == (DoorState { sprite_index: OPEN_DOOR_SPRITE, ..*old(door_state) }),
{
    door_state.sprite_index = OPEN_DOOR_SPRITE;
}

/// Give the door a blocking collider child if it has none.
pub fn add_blocking_collider(door_state: &mut DoorState)
    ensures
        *final(door_state) == (DoorState {
            blocking_colliders: if old(door_state).blocking_colliders == 0 {
                1
            } else {
                old(door_state).blocking_colliders
            },
            ..*old(door_state)
        }),
{
    if door_state.blocking_colliders == 0 {
        door_state.blocking_colliders = 1;
    }
}

/// Despawn all of the door's blocking collider children.
pub fn remove_blocking_collider(door_state: &mut DoorState)
    ensures
        *final(door_state) == (DoorState { blocking_colliders: 0, ..*old(door_state) }),
{
    door_state.blocking_colliders = 0;
}

impl World {
    /// On an interact edge, toggle every entity that is both a door and
    /// currently marked interactable: a broadcast to all marked doors, not
    /// a nearest-target pick.  Without an edge, nothing changes.
    pub fn door_interaction(&mut self, input: &InteractInput)
        ensures
            final(self).entities@.len() == old(self).entities@.len(),
            forall|i: int|
                0 <= i < old(self).entities@.len() ==> final(self).entities@[i]
                    == entity_after_toggle(
                    old(self).entities@[i],
                    spec_interact_edge(*input, old(self).my_gamepad),
                ),
            final(self).prompt == old(self).prompt,
            final(self).my_gamepad == old(self).my_gamepad,
    {
        let pressed = interact_input_just_pressed(input, &self.my_gamepad);
        if !pressed {
            proof {
                assert(forall|i: int|
                    0 <= i < self.entities@.len() ==> self.entities@[i] == entity_after_toggle(
                        self.entities@[i],
                        false,
                    ));
            }
            return ;
        }
        let mut i: usize = 0;
        while i < self.entities.len()
            invariant
                0 <= i <= self.entities@.len(),
                self.entities@.len() == old(self).entities@.len(),
                forall|j: int|
                    0 <= j < i ==> self.entities@[j] == entity_after_toggle(
                        old(self).entities@[j],
                        true,
                    ),
                forall|j: int| i <= j < self.entities@.len() ==> self.entities@[j] == old(
                    self,
                ).entities@[j],
                self.prompt == old(self).prompt,
                self.my_gamepad == old(self).my_gamepad,
            decreases self.entities@.len() - i,
        {
            let e = self.entities[i];
            if e.interactive.is_some() {
                match e.door {
                    Some(d) => {
                        let mut door = d.door;
                        door.interact();
                        self.entities[i] = EntityState {
                            door: Some(DoorState { door, changed: true, ..d }),
                            ..e
                        };
                    },
                    None => {},
                }
            }
            i = i + 1;
        }
    }

    /// Drive the prompt: every door that just became interactable, or that
    /// changed state while interactable, writes the prompt matching its
    /// state, in entity order.
    pub fn door_interaction_text(&mut self)
        ensures
            final(self).entities == old(self).entities,
            final(self).prompt.value@ == prompt_after_text(
                old(self).entities@,
                old(self).prompt.value@,
            ),
            final(self).my_gamepad == old(self).my_gamepad,
    {
        proof {
            assert(self.entities@.take(0) =~= Seq::<EntityState>::empty());
        }
        let mut i: usize = 0;
        while i < self.entities.len()
            invariant
                0 <= i <= self.entities@.len(),
                self.entities == old(self).entities,
                self.prompt.value@ == prompt_after_text(
                    self.entities@.take(i as int),
                    old(self).prompt.value@,
                ),
                self.my_gamepad == old(self).my_gamepad,
            decreases self.entities@.len() - i,
        {
            proof {
                assert(self.entities@.take(i as int + 1).drop_last() =~= self.entities@.take(
                    i as int,
                ));
                assert(self.entities@.take(i as int + 1).last() == self.entities@[i as int]);
            }
            let e = self.entities[i];
            match e.door {
                Some(d) => {
                    if e.interactive_added || (d.changed && e.interactive.is_some()) {
                        if d.door.is_open() {
                            self.prompt.value = String::from_str("[E] Close");
                        } else {
                            self.prompt.value = String::from_str("[E] Open");
                        }
                    }
                },
                None => {},
            }
            i = i + 1;
        }
        proof {
            assert(self.entities@.take(self.entities@.len() as int) =~= self.entities@);
        }
    }

    /// Sync every changed door's presentation with its state: the open
    /// frame and no blocking collider for an open door, the closed frame
    /// and one blocking collider for a closed one.  Doors whose state was
    /// not observed to change are left alone.
    pub fn update_changed_doors(&mut self)
        ensures
            final(self).entities@.len() == old(self).entities@.len(),
            forall|i: int|
                0 <= i < old(self).entities@.len() ==> final(self).entities@[i]
                    == entity_after_sync(old(self).entities@[i]),
            final(self).prompt == old(self).prompt,
            final(self).my_gamepad == old(self).my_gamepad,
    {
        let mut i: usize = 0;
        while i < self.entities.len()
            invariant
                0 <= i <= self.entities@.len(),
                self.entities@.len() == old(self).entities@.len(),
                forall|j: int|
                    0 <= j < i ==> self.entities@[j] == entity_after_sync(old(self).entities@[j]),
                forall|j: int| i <= j < self.entities@.len() ==> self.entities@[j] == old(
                    self,
                ).entities@[j],
                self.prompt == old(self).prompt,
                self.my_gamepad == old(self).my_gamepad,
            decreases self.entities@.len() - i,
        {
            let e = self.entities[i];
            match e.door {
                Some(d) => {
                    if d.changed {
                        let mut door_state = d;
                        if door_state.door.is_open() {
                            set_open_door_sprite(&mut door_state);
                            remove_blocking_collider(&mut door_state);
                        } else {
                            set_closed_door_sprite(&mut door_state);
                            add_blocking_collider(&mut door_state);
                        }
                        door_state.changed = false;
                        self.entities[i] = EntityState { door: Some(door_state), ..e };
                    }
                },
                None => {},
            }
            i = i + 1;
        }
    }
}

} // verus!
