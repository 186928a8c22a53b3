use crate::keys::{just_pressed, recorded, Key, Keyboard};
use crate::playback::{AeiouMedia, AudioCommand, PlaybackStatus};
use crate::scene::{cameras, lemma_same_population, scene_wf, sprites, Entity, Marker, Sprite};
use bevy::input::keyboard::KeyCode;
use bevy::input::Input;
use vstd::prelude::*;

verus! {

/// The key that toggles playback.
pub const TOGGLE_KEY: Key = Key::Space;

impl Keyboard {
    /// Whether the toggle fires in this frame: the toggle key went down in
    /// it. A key that is merely held does not fire.
    pub open spec fn toggles(self) -> bool {
        self.just_pressed.contains(TOGGLE_KEY)
    }
}

/// In how many of `frames` frames in a row, through all of which the toggle
/// key is held down, the toggle fires.
pub open spec fn toggles_while_held(board: Keyboard, frames: nat) -> nat
    decreases frames,
{
    if frames == 0 {
        0
    } else {
        let next = board.frame(TOGGLE_KEY, true);
        toggles_while_held(next, (frames - 1) as nat) + if next.toggles() {
            1nat
        } else {
            0nat
        }
    }
}

impl Sprite {
    /// The sprite as `set_media` leaves it.
    pub open spec fn shows(self, state: AeiouMedia) -> Sprite {
        if self.is_icon() {
            Sprite { index: state.frame(), ..self }
        } else {
            self
        }
    }
}

impl Entity {
    /// The entity as `set_media` leaves it.
    pub open spec fn shows(self, state: AeiouMedia) -> Entity {
        match self {
            Entity::Sprite(sprite) => Entity::Sprite(sprite.shows(state)),
            Entity::Camera => Entity::Camera,
        }
    }
}

/// Puts `state` on the status icon: every sheet tagged `Media` shows the
/// frame of `state`; nothing else changes.
pub fn set_media(scene: &mut Vec<Entity>, state: AeiouMedia)
    ensures
        final(scene)@ == old(scene)@.map_values(|e: Entity| e.shows(state)),
        scene_wf(old(scene)@) ==> scene_wf(final(scene)@),
        sprites(final(scene)@) == sprites(old(scene)@),
        cameras(final(scene)@) == cameras(old(scene)@),
{
    let ghost before = scene@;
    let count: usize = scene.len();
    let mut i: usize = 0;
    while i < count
        invariant
            i <= count,
            scene@.len() == count,
            before.len() == count,
            forall|j: int| 0 <= j < i ==> scene@[j] == (#[trigger] before[j]).shows(state),
            forall|j: int| i <= j < count ==> scene@[j] == #[trigger] before[j],
        decreases count - i,
    {
        let entity: Entity = scene[i];
        if let Entity::Sprite(sprite) = entity {
            if let Some(Marker::Media) = sprite.marker {
                if sprite.sheet.is_some() {
                    scene.set(i, Entity::Sprite(Sprite { index: state.frame(), ..sprite }));
                }
            }
        }
        i += 1;
    }
    proof {
        let after = before.map_values(|e: Entity| e.shows(state));
        assert(scene@ =~= after);
        if scene_wf(before) {
            assert forall|j: int| 0 <= j < after.len() implies (#[trigger] after[j]).wf() by {
                assert(before[j].wf());
            }
        }
        lemma_same_population(before, after);
    }
}

/// Reacts to the toggle key. In a frame in which the key went down, the
/// command that `status` calls for is returned for the audio engine, and the
/// status icon takes the face that goes with it. In any other frame nothing
/// is returned and the scene stays as it is.
pub fn playpause(keys: &Input<KeyCode>, status: PlaybackStatus, scene: &mut Vec<Entity>) -> (command:
    Option<AudioCommand>)
    ensures
        command == if recorded(*keys).toggles() {
            Some(status.command())
        } else {
            None
        },
        final(scene)@ == if recorded(*keys).toggles() {
            old(scene)@.map_values(|e: Entity| e.shows(status.icon()))
        } else {
            old(scene)@
        },
        scene_wf(old(scene)@) ==> scene_wf(final(scene)@),
        sprites(final(scene)@) == sprites(old(scene)@),
        cameras(final(scene)@) == cameras(old(scene)@),
{
    if just_pressed(keys, TOGGLE_KEY) {
        let (command, icon) = status.toggle();
        set_media(scene, icon);
        Some(command)
    } else {
        None
    }
}

/// Holding the toggle key over any number of frames fires the toggle once,
/// in the frame in which the key went down, and not at all if the key was
/// down before.
pub proof fn lemma_hold_toggles_once(board: Keyboard, frames: nat)
    requires
        frames >= 1,
    ensures
        !board.pressed.contains(TOGGLE_KEY) ==> toggles_while_held(board, frames) == 1,
        board.pressed.contains(TOGGLE_KEY) ==> toggles_while_held(board, frames) == 0,
    decreases frames,
{
    let next = board.frame(TOGGLE_KEY, true);
    if frames > 1 {
        lemma_hold_toggles_once(next, (frames - 1) as nat);
    } else {
        assert(toggles_while_held(next, 0) == 0);
    }
}

} // verus!
