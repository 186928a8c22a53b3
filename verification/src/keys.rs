use bevy::input::keyboard::KeyCode;
use bevy::input::Input;
use std::hash::Hash;
use vstd::prelude::*;

verus! {

/// The keys that the program listens to. There is one.
#[derive(Debug, Clone, Copy, PartialEq, Eq, Hash, Structural)]
pub enum Key {
    /// The space bar: toggles playback.
    Space,
}

/// bevy's record of which inputs are down and which went down in the
/// current frame. Its contents are named by `pressed_keys` and
/// `just_pressed_keys`.
#[verifier::external_type_specification]
#[verifier::external_body]
#[verifier::reject_recursive_types(T)]
pub struct ExInput<T: Eq + Hash>(bevy::input::Input<T>);

/// bevy's key codes; carried through, never looked into.
#[verifier::external_type_specification]
#[verifier::external_body]
pub struct ExKeyCode(bevy::input::keyboard::KeyCode);

/// The keys of the program that `keys` holds as pressed.
pub uninterp spec fn pressed_keys(keys: Input<KeyCode>) -> Set<Key>;

/// The keys of the program that `keys` holds as pressed in this frame and
/// not before it.
pub uninterp spec fn just_pressed_keys(keys: Input<KeyCode>) -> Set<Key>;

/// What the per-frame actions can see of the keyboard.
pub struct Keyboard {
    pub pressed: Set<Key>,
    pub just_pressed: Set<Key>,
}

/// The keyboard as `keys` records it.
pub open spec fn recorded(keys: Input<KeyCode>) -> Keyboard {
    Keyboard { pressed: pressed_keys(keys), just_pressed: just_pressed_keys(keys) }
}

impl Keyboard {
    /// The keyboard at the start of the next frame, in which `key` is found
    /// down or up: last frame's presses are forgotten, and `key` counts as
    /// just pressed if it is down now and was not before.
    pub open spec fn frame(self, key: Key, down: bool) -> Keyboard {
        if down {
            Keyboard {
                pressed: self.pressed.insert(key),
                just_pressed: if self.pressed.contains(key) {
                    Set::empty()
                } else {
                    Set::empty().insert(key)
                },
            }
        } else {
            Keyboard { pressed: self.pressed.remove(key), just_pressed: Set::empty() }
        }
    }
}

/// `bevy::input::Input::just_pressed`, asked of the key code of `key`.
///
/// Trusted, not proved. The claim: the answer is whether the key is among
/// those that went down in this frame.
#[verifier::external_body]
pub(crate) fn just_pressed(keys: &Input<KeyCode>, key: Key) -> (fresh: bool)
    ensures
        fresh == just_pressed_keys(*keys).contains(key),
{
    keys.just_pressed(match key {
        Key::Space => KeyCode::Space,
    })
}

/// `bevy::input::Input::press`, with the key code of `key`.
///
/// Trusted, not proved. The claim: the key is pressed afterwards, and it
/// joins the just pressed keys only if it was not pressed already; no other
/// key of the program is touched.
#[verifier::external_body]
fn press(keys: &mut Input<KeyCode>, key: Key)
    ensures
        pressed_keys(*final(keys)) == pressed_keys(*old(keys)).insert(key),
        just_pressed_keys(*final(keys)) == if pressed_keys(*old(keys)).contains(key) {
            just_pressed_keys(*old(keys))
        } else {
            just_pressed_keys(*old(keys)).insert(key)
        },
{
    keys.press(match key {
        Key::Space => KeyCode::Space,
    })
}

/// `bevy::input::Input::release`, with the key code of `key`.
///
/// Trusted, not proved. The claim: the key is not pressed afterwards, and
/// the just pressed keys stay as they are.
#[verifier::external_body]
fn release(keys: &mut Input<KeyCode>, key: Key)
    ensures
        pressed_keys(*final(keys)) == pressed_keys(*old(keys)).remove(key),
        just_pressed_keys(*final(keys)) == just_pressed_keys(*old(keys)),
{
    keys.release(match key {
        Key::Space => KeyCode::Space,
    })
}

/// `bevy::input::Input::clear`.
///
/// Trusted, not proved. The claim: no key is just pressed afterwards, and
/// the pressed keys stay as they are.
#[verifier::external_body]
fn clear(keys: &mut Input<KeyCode>)
    ensures
        pressed_keys(*final(keys)) == pressed_keys(*old(keys)),
        just_pressed_keys(*final(keys)) == Set::<Key>::empty(),
{
    keys.clear()
}

/// Opens a frame for a driver that reads the key itself: forgets the
/// presses of the frame before and records whether `key` is down now.
pub fn key_frame(keys: &mut Input<KeyCode>, key: Key, down: bool)
    ensures
        recorded(*final(keys)) == recorded(*old(keys)).frame(key, down),
{
    clear(keys);
    if down {
        press(keys, key);
    } else {
        release(keys, key);
    }
    assert(just_pressed_keys(*keys) =~= recorded(*old(keys)).frame(key, down).just_pressed);
}

} // verus!
