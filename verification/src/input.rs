use vstd::prelude::*;

verus! {

/// The keys that the controls respond to; every other key is `Other`.
#[derive(Clone, Copy, Debug, PartialEq, Eq, Structural)]
pub enum Key {
    KeyW,
    KeyA,
    KeyS,
    KeyD,
    Space,
    ShiftLeft,
    ControlLeft,
    F3,
    Other,
}

/// Which of the movement keys are held down.
#[derive(Clone, Copy, Debug, PartialEq, Eq, Structural)]
pub struct MovementKeys {
    pub forward: bool,
    pub backward: bool,
    pub left: bool,
    pub right: bool,
    pub up: bool,
    pub down: bool,
    pub fast: bool,
}

/// The held keys after `key` went down (`pressed`) or up: W, A, S, D, Space,
/// left Shift and left Control drive forward, left, backward, right, up, down
/// and fast; any other key changes nothing.
pub open spec fn after_key(keys: MovementKeys, key: Key, pressed: bool) -> MovementKeys {
    match key {
        Key::KeyW => MovementKeys { forward: pressed, ..keys },
        Key::KeyA => MovementKeys { left: pressed, ..keys },
        Key::KeyS => MovementKeys { backward: pressed, ..keys },
        Key::KeyD => MovementKeys { right: pressed, ..keys },
        Key::Space => MovementKeys { up: pressed, ..keys },
        Key::ShiftLeft => MovementKeys { down: pressed, ..keys },
        Key::ControlLeft => MovementKeys { fast: pressed, ..keys },
        _ => keys,
    }
}

/// No movement key held.
pub open spec fn no_keys() -> MovementKeys {
    MovementKeys {
        forward: false,
        backward: false,
        left: false,
        right: false,
        up: false,
        down: false,
        fast: false,
    }
}

/// 1 for a held key, 0 otherwise.
pub open spec fn held(b: bool) -> int {
    if b {
        1
    } else {
        0
    }
}

impl MovementKeys {
    /// No key held.
    pub fn new() -> (keys: MovementKeys)
        ensures
            keys == no_keys(),
    {
        MovementKeys {
            forward: false,
            backward: false,
            left: false,
            right: false,
            up: false,
            down: false,
            fast: false,
        }
    }

    /// Records that `key` went down (`pressed`) or up.
    pub fn process_keyboard(&mut self, key: Key, pressed: bool)
        ensures
            *final(self) == after_key(*old(self), key, pressed),
            final(self).forward == if key == Key::KeyW {
                pressed
            } else {
                old(self).forward
            },
            final(self).left == if key == Key::KeyA {
                pressed
            } else {
                old(self).left
            },
            final(self).backward == if key == Key::KeyS {
                pressed
            } else {
                old(self).backward
            },
            final(self).right == if key == Key::KeyD {
                pressed
            } else {
                old(self).right
            },
            final(self).up == if key == Key::Space {
                pressed
            } else {
                old(self).up
            },
            final(self).down == if key == Key::ShiftLeft {
                pressed
            } else {
                old(self).down
            },
            final(self).fast == if key == Key::ControlLeft {
                pressed
            } else {
                old(self).fast
            },
    {
        match key {
            Key::KeyW => self.forward = pressed,
            Key::KeyA => self.left = pressed,
            Key::KeyS => self.backward = pressed,
            Key::KeyD => self.right = pressed,
            Key::Space => self.up = pressed,
            Key::ShiftLeft => self.down = pressed,
            Key::ControlLeft => self.fast = pressed,
            _ => {},
        }
    }

    /// Direction of travel along the view's forward axis: 1 forward, -1
    /// backward, 0 when both or neither key is held.
    pub fn forward_axis(&self) -> (a: i8)
        ensures
            a == held(self.forward) - held(self.backward),
    {
        (if self.forward { 1i8 } else { 0i8 }) - (if self.backward { 1i8 } else { 0i8 })
    }

    /// Direction of travel along the view's right axis: 1 right, -1 left.
    pub fn right_axis(&self) -> (a: i8)
        ensures
            a == held(self.right) - held(self.left),
    {
        (if self.right { 1i8 } else { 0i8 }) - (if self.left { 1i8 } else { 0i8 })
    }

    /// Direction of travel along the vertical axis: 1 up, -1 down.
    pub fn up_axis(&self) -> (a: i8)
        ensures
            a == held(self.up) - held(self.down),
    {
        (if self.up { 1i8 } else { 0i8 }) - (if self.down { 1i8 } else { 0i8 })
    }

    /// How many times the base speed the camera moves: 3 with the fast key
    /// held, 1 without.
    pub fn speed_factor(&self) -> (f: u8)
        ensures
            f == if self.fast {
                3u8
            } else {
                1u8
            },
    {
        if self.fast {
            3
        } else {
            1
        }
    }
}

/// The keyboard state of the application: the held movement keys and whether
/// grid lines are drawn.
#[derive(Clone, Copy, Debug, PartialEq, Eq, Structural)]
pub struct Controls {
    pub keys: MovementKeys,
    pub grid_lines: bool,
}

impl Controls {
    /// No key held, grid lines off.
    pub fn new() -> (c: Controls)
        ensures
            c.keys == no_keys(),
            !c.grid_lines,
    {
        Controls { keys: MovementKeys::new(), grid_lines: false }
    }

    /// The controls after a keyboard event: the movement keys follow
    /// `after_key`, and a press (not a release) of F3 switches grid lines on
    /// or off.
    pub open spec fn after_input(self, key: Key, pressed: bool) -> Controls {
        Controls {
            keys: after_key(self.keys, key, pressed),
            grid_lines: if key == Key::F3 && pressed {
                !self.grid_lines
            } else {
                self.grid_lines
            },
        }
    }

    /// Handles a keyboard event.
    pub fn key_input(&mut self, key: Key, pressed: bool)
        ensures
            *final(self) == old(self).after_input(key, pressed),
            final(self).keys.forward == if key == Key::KeyW {
                pressed
            } else {
                old(self).keys.forward
            },
            final(self).keys.left == if key == Key::KeyA {
                pressed
            } else {
                old(self).keys.left
            },
            final(self).keys.backward == if key == Key::KeyS {
                pressed
            } else {
                old(self).keys.backward
            },
            final(self).keys.right == if key == Key::KeyD {
                pressed
            } else {
                old(self).keys.right
            },
            final(self).keys.up == if key == Key::Space {
                pressed
            } else {
                old(self).keys.up
            },
            final(self).keys.down == if key == Key::ShiftLeft {
                pressed
            } else {
                old(self).keys.down
            },
            final(self).keys.fast == if key == Key::ControlLeft {
                pressed
            } else {
                old(self).keys.fast
            },
            final(self).grid_lines == (old(self).grid_lines != (key == Key::F3 && pressed)),
    {
        self.keys.process_keyboard(key, pressed);
        if key == Key::F3 && pressed {
            self.grid_lines = !self.grid_lines;
        }
    }
}

/// For one key, the last event decides whether it is held: a press then a
/// release leaves the key up, whatever came before.
pub proof fn lemma_last_event_wins(keys: MovementKeys, key: Key, first: bool, second: bool)
    ensures
        after_key(after_key(keys, key, first), key, second) == after_key(keys, key, second),
{
}

/// Events for two different keys do not interfere: their order does not
/// matter.
pub proof fn lemma_distinct_keys_commute(keys: MovementKeys, a: Key, pa: bool, b: Key, pb: bool)
    requires
        a != b,
    ensures
        after_key(after_key(keys, a, pa), b, pb) == after_key(after_key(keys, b, pb), a, pa),
{
}

/// A press and release of a key that was up leaves every movement key as it
/// was.
pub proof fn lemma_press_release_restores(keys: MovementKeys, key: Key)
    requires
        after_key(keys, key, false) == keys,
    ensures
        after_key(after_key(keys, key, true), key, false) == keys,
{
}

/// F3 and keys without a binding never change the held movement keys.
pub proof fn lemma_unbound_keys_do_not_move(keys: MovementKeys, pressed: bool)
    ensures
        after_key(keys, Key::F3, pressed) == keys,
        after_key(keys, Key::Other, pressed) == keys,
{
}

/// Pressing F3 twice brings grid lines back to where they were; releasing
/// F3 never switches them.
pub proof fn lemma_grid_toggle(c: Controls)
    ensures
        c.after_input(Key::F3, true).after_input(Key::F3, true) == c,
        c.after_input(Key::F3, false) == c,
        c.after_input(Key::F3, true).grid_lines == !c.grid_lines,
{
}

/// Only F3 switches grid lines.
pub proof fn lemma_only_f3_toggles(c: Controls, key: Key, pressed: bool)
    requires
        key != Key::F3,
    ensures
        c.after_input(key, pressed).grid_lines == c.grid_lines,
{
}

/// A keyboard event sets the movement flag bound to its key to whether the key
/// went down, press or release alike, and leaves every other flag as it was.
pub proof fn lemma_event_sets_bound_flag(keys: MovementKeys, key: Key, pressed: bool)
    ensures
            after_key(keys, key, pressed).forward == if key == Key::KeyW {
                pressed
            } else {
                keys.forward
            },
            after_key(keys, key, pressed).left == if key == Key::KeyA {
                pressed
            } else {
                keys.left
            },
            after_key(keys, key, pressed).backward == if key == Key::KeyS {
                pressed
            } else {
                keys.backward
            },
            after_key(keys, key, pressed).right == if key == Key::KeyD {
                pressed
            } else {
                keys.right
            },
            after_key(keys, key, pressed).up == if key == Key::Space {
                pressed
            } else {
                keys.up
            },
            after_key(keys, key, pressed).down == if key == Key::ShiftLeft {
                pressed
            } else {
                keys.down
            },
            after_key(keys, key, pressed).fast == if key == Key::ControlLeft {
                pressed
            } else {
                keys.fast
            },
{
}

/// Through the controls too, every keyboard event, a release as much as a
/// press, sets the flag bound to its key to whether the key went down; grid
/// lines flip exactly on an F3 press.
pub proof fn lemma_controls_follow_every_event(c: Controls, key: Key, pressed: bool)
    ensures
            c.after_input(key, pressed).keys.forward == if key == Key::KeyW {
                pressed
            } else {
                c.keys.forward
            },
            c.after_input(key, pressed).keys.left == if key == Key::KeyA {
                pressed
            } else {
                c.keys.left
            },
            c.after_input(key, pressed).keys.backward == if key == Key::KeyS {
                pressed
            } else {
                c.keys.backward
            },
            c.after_input(key, pressed).keys.right == if key == Key::KeyD {
                pressed
            } else {
                c.keys.right
            },
            c.after_input(key, pressed).keys.up == if key == Key::Space {
                pressed
            } else {
                c.keys.up
            },
            c.after_input(key, pressed).keys.down == if key == Key::ShiftLeft {
                pressed
            } else {
                c.keys.down
            },
            c.after_input(key, pressed).keys.fast == if key == Key::ControlLeft {
                pressed
            } else {
                c.keys.fast
            },
        c.after_input(key, pressed).grid_lines == (c.grid_lines != (key == Key::F3 && pressed)),
{
}

/// A press followed by a release of a bound key leaves its flag clear, and a
/// release followed by a press leaves it set, whatever the controls were.
pub proof fn lemma_release_after_press_clears(c: Controls, key: Key)
    ensures
        ({
            let after = c.after_input(key, true).after_input(key, false).keys;
            &&& key == Key::KeyW ==> !after.forward
            &&& key == Key::KeyA ==> !after.left
            &&& key == Key::KeyS ==> !after.backward
            &&& key == Key::KeyD ==> !after.right
            &&& key == Key::Space ==> !after.up
            &&& key == Key::ShiftLeft ==> !after.down
            &&& key == Key::ControlLeft ==> !after.fast
        }),
        ({
            let after = c.after_input(key, false).after_input(key, true).keys;
            &&& key == Key::KeyW ==> after.forward
            &&& key == Key::KeyA ==> after.left
            &&& key == Key::KeyS ==> after.backward
            &&& key == Key::KeyD ==> after.right
            &&& key == Key::Space ==> after.up
            &&& key == Key::ShiftLeft ==> after.down
            &&& key == Key::ControlLeft ==> after.fast
        }),
{
}

} // verus!
