use crate::playback::PlaybackStatus;
use crate::scene::{
    cameras, lemma_same_population, scene_wf, sprites, Entity, Marker, Sprite, Translation, SUBPIXELS,
};
use vstd::prelude::*;

verus! {

/// Width of the track along which the ball moves, in pixels.
pub const TRACK_WIDTH: i128 = 482;

/// Where the track begins, in pixels from the centre of the window.
pub const TRACK_START: i128 = -233;

/// Length of the music track, in the unit of the engine's positions.
pub const TRACK_LENGTH: u64 = 1824;

/// Where the ball stands, in subpixels, when playback is at `position`
/// microseconds: 482 pixels times a hundredth of the fraction of the track
/// that has been played, from 233 pixels left of the centre.
pub open spec fn progress_x(position: u64) -> int {
    TRACK_WIDTH * position + TRACK_START * SUBPIXELS
}

impl Sprite {
    /// The sprite as `update` leaves it when playback reports `position`.
    pub open spec fn progressed(self, position: Option<u64>) -> Sprite {
        match position {
            Some(at) if self.is_ball() => Sprite {
                translation: Translation { x: progress_x(at) as i128, ..self.translation },
                ..self
            },
            _ => self,
        }
    }
}

impl Entity {
    /// The entity as `update` leaves it when playback reports `position`.
    pub open spec fn progressed(self, position: Option<u64>) -> Entity {
        match self {
            Entity::Sprite(sprite) => Entity::Sprite(sprite.progressed(position)),
            Entity::Camera => Entity::Camera,
        }
    }
}

/// Moves the progress ball to where playback stands. Where `status` has a
/// position, every sprite tagged `Ball` gets `progress_x` of it as its
/// horizontal coordinate; where it has none, the scene stays as it is.
/// Nothing else changes, and nothing is spawned.
pub fn update(scene: &mut Vec<Entity>, status: PlaybackStatus)
    ensures
        final(scene)@ == old(scene)@.map_values(|e: Entity| e.progressed(status.spec_position())),
        status.spec_position() is None ==> final(scene)@ == old(scene)@,
        scene_wf(old(scene)@) ==> scene_wf(final(scene)@),
        sprites(final(scene)@) == sprites(old(scene)@),
        cameras(final(scene)@) == cameras(old(scene)@),
{
    let ghost before = scene@;
    let ghost position = status.spec_position();
    if let Some(at) = status.position() {
        let x: i128 = TRACK_WIDTH * (at as i128) + TRACK_START * SUBPIXELS;
        let count: usize = scene.len();
        let mut i: usize = 0;
        while i < count
            invariant
                i <= count,
                scene@.len() == count,
                before.len() == count,
                position == Some(at),
                x == progress_x(at),
                forall|j: int| 0 <= j < i ==> scene@[j] == (#[trigger] before[j]).progressed(position),
                forall|j: int| i <= j < count ==> scene@[j] == #[trigger] before[j],
            decreases count - i,
        {
            let entity: Entity = scene[i];
            if let Entity::Sprite(sprite) = entity {
                if let Some(Marker::Ball) = sprite.marker {
                    let translation: Translation = Translation { x, ..sprite.translation };
                    scene.set(i, Entity::Sprite(Sprite { translation, ..sprite }));
                }
            }
            i += 1;
        }
    }
    proof {
        let after = before.map_values(|e: Entity| e.progressed(position));
        assert(scene@ =~= after);
        if scene_wf(before) {
            assert forall|j: int| 0 <= j < after.len() implies (#[trigger] after[j]).wf() by {
                assert(before[j].wf());
            }
        }
        lemma_same_population(before, after);
    }
}

/// The ball's coordinate is its formula with the divisions cleared: in
/// pixels it is 482 times the position, over 1824 and over 100, less 233,
/// the position counted in millionths and the pixel in subpixels.
pub proof fn lemma_progress_formula(position: u64)
    ensures
        SUBPIXELS == TRACK_LENGTH * 100 * 1_000_000,
        progress_x(position) * (TRACK_LENGTH * 100 * 1_000_000) == (482 * position - 233 * (
        TRACK_LENGTH * 100 * 1_000_000)) * SUBPIXELS,
        i128::MIN <= progress_x(position) <= i128::MAX,
{
}

} // verus!
