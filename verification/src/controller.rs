//! Keyboard control: which way the pressed keys turn and move the viewer.

use vstd::prelude::*;

verus! {

/// A key of the keyboard. The keys that the default mapping uses have names;
/// any other key goes by the code the window system gives it.
#[derive(Clone, Copy, PartialEq, Eq, Debug, Structural)]
pub enum Key {
    A,
    D,
    E,
    Q,
    S,
    W,
    Left,
    Right,
    Up,
    Down,
    Other(u32),
}

/// Which key does what.
#[derive(Clone, Copy, PartialEq, Eq, Debug, Structural)]
pub struct KeyMappings {
    pub move_left: Key,
    pub move_right: Key,
    pub move_forward: Key,
    pub move_back: Key,
    pub move_up: Key,
    pub move_down: Key,
    pub look_left: Key,
    pub look_right: Key,
    pub look_up: Key,
    pub look_down: Key,
}

/// A direction by its steps along each axis, each of which is -1, 0 or 1.
#[derive(Clone, Copy, PartialEq, Eq, Debug, Structural)]
pub struct Steps {
    pub x: i32,
    pub y: i32,
    pub z: i32,
}

/// What the keys ask of the viewer: to turn by `look` about the x and y
/// axes, and to move by `forward` along the line of sight, by `right` across
/// it and by `up` along the vertical.
#[derive(Clone, Copy, PartialEq, Eq, Debug, Structural)]
pub struct Motion {
    pub look: Steps,
    pub forward: i32,
    pub right: i32,
    pub up: i32,
}

/// The keyboard control of a viewer, as far as the keys decide.
#[derive(Clone, Copy, PartialEq, Eq, Debug, Structural)]
pub struct KeyboardMovementController {
    pub keys: KeyMappings,
}

/// The mapping that moves with W, A, S, D, E and Q and looks with the arrow
/// keys.
pub open spec fn default_mappings() -> KeyMappings {
    KeyMappings {
        move_left: Key::A,
        move_right: Key::D,
        move_forward: Key::W,
        move_back: Key::S,
        move_up: Key::E,
        move_down: Key::Q,
        look_left: Key::Left,
        look_right: Key::Right,
        look_up: Key::Up,
        look_down: Key::Down,
    }
}

/// Whether `key` is among the keys held down.
pub open spec fn pressed(keys: Seq<Option<Key>>, key: Key) -> bool {
    keys.contains(Some(key))
}

/// Whether any key is held down.
pub open spec fn any_pressed(keys: Seq<Option<Key>>) -> bool {
    exists|i: int| 0 <= i < keys.len() && (#[trigger] keys[i]) is Some
}

/// One step forth where the first key is down, one back where the second
/// is, none where both or neither are.
pub open spec fn step(keys: Seq<Option<Key>>, forth: Key, back: Key) -> int {
    (if pressed(keys, forth) {
        1int
    } else {
        0int
    }) - (if pressed(keys, back) {
        1int
    } else {
        0int
    })
}

/// What the keys held down ask of the viewer under a mapping.
pub open spec fn motion_of(mappings: KeyMappings, keys: Seq<Option<Key>>) -> Motion {
    Motion {
        look: Steps {
            x: step(keys, mappings.look_up, mappings.look_down) as i32,
            y: step(keys, mappings.look_right, mappings.look_left) as i32,
            z: 0,
        },
        forward: step(keys, mappings.move_forward, mappings.move_back) as i32,
        right: step(keys, mappings.move_right, mappings.move_left) as i32,
        up: step(keys, mappings.move_up, mappings.move_down) as i32,
    }
}

fn is_pressed(keys: &Vec<Option<Key>>, key: Key) -> (down: bool)
    ensures
        down == pressed(keys@, key),
{
    let mut index: usize = 0;
    while index < keys.len()
        invariant
            index <= keys.len(),
            forall|i: int| 0 <= i < index ==> keys[i] != Some(key),
        decreases keys.len() - index,
    {
        match keys[index] {
            Some(held) => {
                if held == key {
                    assert(keys@[index as int] == Some(key));
                    return true;
                }
            },
            None => {},
        }
        index += 1;
    }
    false
}

fn step_of(keys: &Vec<Option<Key>>, forth: Key, back: Key) -> (steps: i32)
    ensures
        steps == step(keys@, forth, back),
{
    let mut steps: i32 = 0;
    if is_pressed(keys, forth) {
        steps += 1;
    }
    if is_pressed(keys, back) {
        steps -= 1;
    }
    steps
}

impl KeyboardMovementController {
    /// A controller with the default mapping.
    pub fn new() -> (controller: Self)
        ensures
            controller.keys == default_mappings(),
    {
        Self { keys: KeyMappings::default() }
    }

    /// What the keys held down ask of the viewer in the horizontal plane and
    /// along the vertical. With no key down nothing is asked and the viewer
    /// is left as it is.
    pub fn move_in_plane_xz(&self, keys: &Vec<Option<Key>>) -> (motion: Option<Motion>)
        ensures
            motion == if any_pressed(keys@) {
                Some(motion_of(self.keys, keys@))
            } else {
                None
            },
    {
        let mut index: usize = 0;
        let mut found = false;
        while index < keys.len() && !found
            invariant
                index <= keys.len(),
                found ==> any_pressed(keys@),
                !found ==> forall|i: int| 0 <= i < index ==> (#[trigger] keys[i]) is None,
            decreases keys.len() - index,
        {
            if keys[index].is_some() {
                found = true;
            }
            index += 1;
        }
        if !found {
            return None;
        }
        Some(
            Motion {
                look: Steps {
                    x: step_of(keys, self.keys.look_up, self.keys.look_down),
                    y: step_of(keys, self.keys.look_right, self.keys.look_left),
                    z: 0,
                },
                forward: step_of(keys, self.keys.move_forward, self.keys.move_back),
                right: step_of(keys, self.keys.move_right, self.keys.move_left),
                up: step_of(keys, self.keys.move_up, self.keys.move_down),
            },
        )
    }
}

impl Default for KeyMappings {
    fn default() -> (mappings: Self)
        ensures
            mappings == default_mappings(),
    {
        Self {
            move_left: Key::A,
            move_right: Key::D,
            move_forward: Key::W,
            move_back: Key::S,
            move_up: Key::E,
            move_down: Key::Q,
            look_left: Key::Left,
            look_right: Key::Right,
            look_up: Key::Up,
            look_down: Key::Down,
        }
    }
}

impl Default for KeyboardMovementController {
    fn default() -> (controller: Self)
        ensures
            controller.keys == default_mappings(),
    {
        Self { keys: KeyMappings::default() }
    }
}

} // verus!
