use crate::scene::{cameras, lemma_same_population, scene_wf, sprites, Entity, Sprite};
use crate::timer::AeiouTimer;
use vstd::prelude::*;

verus! {

/// Frames of the background animation: the index runs from 0 to 62.
pub const FRAMES: usize = 63;

/// Period of the background animation's timer, in nanoseconds: 100 ms.
pub const FRAME_PERIOD: u64 = 100_000_000;

/// The frame that follows `index` in the background animation.
pub open spec fn next_frame(index: usize) -> usize {
    if index + 1 == FRAMES {
        0
    } else {
        (index + 1) as usize
    }
}

/// The frame reached from `index` after `periods` completed periods.
pub open spec fn frame_after(index: usize, periods: nat) -> usize
    decreases periods,
{
    if periods == 0 {
        index
    } else {
        next_frame(frame_after(index, (periods - 1) as nat))
    }
}

impl Sprite {
    /// The sprite as `bganim` leaves it after `delta` nanoseconds.
    pub open spec fn advanced(self, delta: u64) -> Sprite {
        if self.animated() {
            let timer = self.timer->0;
            Sprite {
                timer: Some(timer.ticked(delta)),
                index: if timer.finishes(delta) {
                    next_frame(self.index)
                } else {
                    self.index
                },
                ..self
            }
        } else {
            self
        }
    }
}

impl Entity {
    /// The entity as `bganim` leaves it after `delta` nanoseconds.
    pub open spec fn advanced(self, delta: u64) -> Entity {
        match self {
            Entity::Sprite(sprite) => Entity::Sprite(sprite.advanced(delta)),
            Entity::Camera => Entity::Camera,
        }
    }
}

/// Advances the background animation by `delta` nanoseconds: on every
/// sprite that carries a timer and shows a sheet the timer is ticked, and
/// where the tick completes a period the sprite moves on by one frame, from
/// frame 62 back to frame 0. Nothing else changes, and nothing is spawned.
pub fn bganim(delta: u64, scene: &mut Vec<Entity>)
    requires
        scene_wf(old(scene)@),
    ensures
        final(scene)@ == old(scene)@.map_values(|e: Entity| e.advanced(delta)),
        scene_wf(final(scene)@),
        sprites(final(scene)@) == sprites(old(scene)@),
        cameras(final(scene)@) == cameras(old(scene)@),
{
    let ghost before = scene@;
    let count: usize = scene.len();
    let mut i: usize = 0;
    while i < count
        invariant
            i <= count,
            scene@.len() == count,
            before.len() == count,
            scene_wf(before),
            forall|j: int| 0 <= j < i ==> scene@[j] == (#[trigger] before[j]).advanced(delta),
            forall|j: int| i <= j < count ==> scene@[j] == #[trigger] before[j],
        decreases count - i,
    {
        let entity: Entity = scene[i];
        assert(before[i as int].wf());
        if let Entity::Sprite(sprite) = entity {
            if let Some(timer) = sprite.timer {
                if sprite.sheet.is_some() {
                    let mut timer: AeiouTimer = timer;
                    let mut index: usize = sprite.index;
                    if timer.tick(delta) {
                        index = index + 1;
                        if index == FRAMES {
                            index = index - FRAMES;
                        }
                    }
                    scene.set(i, Entity::Sprite(Sprite { timer: Some(timer), index, ..sprite }));
                }
            }
        }
        i += 1;
    }
    proof {
        let after = before.map_values(|e: Entity| e.advanced(delta));
        assert(scene@ =~= after);
        assert forall|j: int| 0 <= j < after.len() implies (#[trigger] after[j]).wf() by {
            assert(before[j].wf());
        }
        lemma_same_population(before, after);
    }
}

/// After `periods` completed periods an animation that set out from one of
/// its 63 frames shows the frame that many steps further round the cycle.
pub proof fn lemma_frame_after(index: usize, periods: nat)
    requires
        index < FRAMES,
    ensures
        frame_after(index, periods) == (index + periods) % (FRAMES as int),
    decreases periods,
{
    if periods > 0 {
        lemma_frame_after(index, (periods - 1) as nat);
    }
}

/// An animation that shows one of its 63 frames shows one of them after any
/// number of completed periods, and after 63 of them it shows the frame from
/// which it set out: from frame 0 it is back at frame 0.
pub proof fn lemma_frame_cycle(index: usize, periods: nat)
    requires
        index < FRAMES,
    ensures
        frame_after(index, periods) < FRAMES,
        frame_after(index, FRAMES as nat) == index,
        frame_after(0, FRAMES as nat) == 0,
{
    lemma_frame_after(index, periods);
    lemma_frame_after(index, FRAMES as nat);
    lemma_frame_after(0, FRAMES as nat);
}

} // verus!
