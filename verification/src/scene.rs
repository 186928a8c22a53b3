use crate::animation::{FRAMES, FRAME_PERIOD};
use crate::assets::Texture;
use crate::timer::AeiouTimer;
use vstd::prelude::*;

verus! {

/// Coordinates are whole numbers of this fraction of a pixel, the finest
/// step that the progress ball can take.
pub const SUBPIXELS: i128 = 182_400_000_000;

/// How a sheet is cut into frames: square tiles of `tile` pixels, in
/// `columns` columns and `rows` rows.
#[derive(Debug, Clone, Copy, PartialEq, Eq, Hash, Structural)]
pub struct Grid {
    pub tile: u32,
    pub columns: usize,
    pub rows: usize,
}

/// A place in the window, from its centre, in subpixels; `z` is the depth
/// layer.
#[derive(Debug, Clone, Copy, PartialEq, Eq, Hash, Structural)]
pub struct Translation {
    pub x: i128,
    pub y: i128,
    pub z: i128,
}

/// The tags by which the per-frame actions find their sprites.
#[derive(Debug, Clone, Copy, PartialEq, Eq, Hash, Structural)]
pub enum Marker {
    /// The status icon.
    Media,
    /// The progress ball.
    Ball,
}

/// A sprite: a texture, cut by a grid where it is a sheet, the frame shown,
/// a place, and what else the entity carries.
#[derive(Debug, Clone, Copy, PartialEq, Eq)]
pub struct Sprite {
    pub texture: Texture,
    pub sheet: Option<Grid>,
    pub index: usize,
    pub translation: Translation,
    pub timer: Option<AeiouTimer>,
    pub marker: Option<Marker>,
}

/// What a scene is made of.
#[derive(Debug, Clone, Copy, PartialEq, Eq)]
pub enum Entity {
    Sprite(Sprite),
    Camera,
}

/// `whole` whole pixels, in subpixels.
pub open spec fn pixels(whole: int) -> int {
    whole * SUBPIXELS
}

impl Sprite {
    /// Whether the background ticker acts on this sprite: it carries a timer
    /// and shows a frame of a sheet.
    pub open spec fn animated(self) -> bool {
        self.timer is Some && self.sheet is Some
    }

    /// Whether this sprite is a status icon: a sheet tagged `Media`.
    pub open spec fn is_icon(self) -> bool {
        self.marker == Some(Marker::Media) && self.sheet is Some
    }

    /// Whether this sprite is a progress ball.
    pub open spec fn is_ball(self) -> bool {
        self.marker == Some(Marker::Ball)
    }

    /// The invariant of a sprite: a timer it carries is well formed, an
    /// animated sprite shows one of the 63 frames, a status icon shows one
    /// of its two frames and carries no timer.
    pub open spec fn wf(self) -> bool {
        &&& self.timer matches Some(timer) ==> timer.wf()
        &&& self.animated() ==> self.index < FRAMES
        &&& self.is_icon() ==> self.index < 2 && self.timer is None
    }

    /// Tests the invariant.
    pub fn is_wf(&self) -> (ok: bool)
        ensures
            ok == self.wf(),
    {
        let sheet: bool = self.sheet.is_some();
        let icon: bool = sheet && match self.marker {
            Some(Marker::Media) => true,
            _ => false,
        };
        match self.timer {
            Some(timer) => timer.is_wf() && !icon && (!sheet || self.index < FRAMES),
            None => !icon || self.index < 2,
        }
    }
}

impl Entity {
    /// The invariant of an entity: that of the sprite, where it is one.
    pub open spec fn wf(self) -> bool {
        self matches Entity::Sprite(sprite) ==> sprite.wf()
    }
}

/// The background animation as it is spawned: the 7 by 9 sheet of 498 pixel
/// frames in the centre of the window, at frame 0, with the 100 ms timer.
pub open spec fn background() -> Entity {
    Entity::Sprite(
        Sprite {
            texture: Texture::Atlas,
            sheet: Some(Grid { tile: 498, columns: 7, rows: 9 }),
            index: 0,
            translation: Translation { x: 0, y: 0, z: 0 },
            timer: Some(AeiouTimer { period: FRAME_PERIOD, elapsed: 0 }),
            marker: None,
        },
    )
}

/// The status icon as it is spawned: the sheet of two 64 pixel frames, 166
/// pixels below the centre and one layer above the background, showing the
/// play icon.
pub open spec fn status_icon() -> Entity {
    Entity::Sprite(
        Sprite {
            texture: Texture::KeyAtlas,
            sheet: Some(Grid { tile: 64, columns: 2, rows: 1 }),
            index: 1,
            translation: Translation { x: 0, y: pixels(-166) as i128, z: pixels(1) as i128 },
            timer: None,
            marker: Some(Marker::Media),
        },
    )
}

/// The progress ball as it is spawned: at the left end of the track.
pub open spec fn progress_ball() -> Entity {
    Entity::Sprite(
        Sprite {
            texture: Texture::Ball,
            sheet: None,
            index: 0,
            translation: Translation {
                x: pixels(-164) as i128,
                y: pixels(-233) as i128,
                z: pixels(1) as i128,
            },
            timer: None,
            marker: Some(Marker::Ball),
        },
    )
}

/// The track line as it is spawned: centred, on the ball's height and layer.
pub open spec fn track_line() -> Entity {
    Entity::Sprite(
        Sprite {
            texture: Texture::Line,
            sheet: None,
            index: 0,
            translation: Translation { x: 0, y: pixels(-233) as i128, z: pixels(1) as i128 },
            timer: None,
            marker: None,
        },
    )
}

/// The scene on entering `Play`: four sprites and the camera, in the order
/// in which they are spawned.
pub open spec fn initial_scene() -> Seq<Entity> {
    seq![background(), status_icon(), progress_ball(), track_line(), Entity::Camera]
}

/// The invariant of a scene: every entity in it is well formed.
pub open spec fn scene_wf(scene: Seq<Entity>) -> bool {
    forall|i: int| 0 <= i < scene.len() ==> (#[trigger] scene[i]).wf()
}

/// How many of the entities are sprites.
pub open spec fn sprites(scene: Seq<Entity>) -> nat
    decreases scene.len(),
{
    if scene.len() == 0 {
        0
    } else {
        sprites(scene.drop_last()) + if scene.last() is Sprite {
            1nat
        } else {
            0nat
        }
    }
}

/// How many of the entities are cameras.
pub open spec fn cameras(scene: Seq<Entity>) -> nat
    decreases scene.len(),
{
    if scene.len() == 0 {
        0
    } else {
        cameras(scene.drop_last()) + if scene.last() is Camera {
            1nat
        } else {
            0nat
        }
    }
}

/// Two scenes of one length that hold sprites at the same places hold as
/// many sprites and as many cameras as each other.
pub proof fn lemma_same_population(before: Seq<Entity>, after: Seq<Entity>)
    requires
        before.len() == after.len(),
        forall|i: int| 0 <= i < before.len() ==> (before[i] is Sprite <==> after[i] is Sprite),
    ensures
        sprites(before) == sprites(after),
        cameras(before) == cameras(after),
    decreases before.len(),
{
    if before.len() > 0 {
        lemma_same_population(before.drop_last(), after.drop_last());
    }
}

/// A scene grown by one entity holds one more sprite or one more camera.
pub proof fn lemma_population_push(scene: Seq<Entity>, entity: Entity)
    ensures
        sprites(scene.push(entity)) == sprites(scene) + if entity is Sprite {
            1nat
        } else {
            0nat
        },
        cameras(scene.push(entity)) == cameras(scene) + if entity is Camera {
            1nat
        } else {
            0nat
        },
{
    assert(scene.push(entity).drop_last() =~= scene);
}

/// Tests the invariant of a scene.
pub fn scene_is_wf(scene: &Vec<Entity>) -> (ok: bool)
    ensures
        ok == scene_wf(scene@),
{
    let count: usize = scene.len();
    let mut i: usize = 0;
    while i < count
        invariant
            i <= count,
            scene@.len() == count,
            forall|j: int| 0 <= j < i ==> (#[trigger] scene@[j]).wf(),
        decreases count - i,
    {
        if let Entity::Sprite(sprite) = scene[i] {
            if !sprite.is_wf() {
                assert(!scene@[i as int].wf());
                return false;
            }
        }
        i += 1;
    }
    true
}

/// `whole` pixels as subpixels.
fn px(whole: i32) -> (sub: i128)
    ensures
        sub == pixels(whole as int),
{
    (whole as i128) * SUBPIXELS
}

/// Lays out the scene for entering `Play`: the background animation, the
/// status icon, the progress ball, the track line and the camera, each as
/// `initial_scene` describes it. Nothing else is ever spawned.
pub fn setup() -> (scene: Vec<Entity>)
    ensures
        scene@ == initial_scene(),
        scene_wf(scene@),
        scene@.len() == 5,
        sprites(scene@) == 4,
        cameras(scene@) == 1,
{
    let mut scene: Vec<Entity> = Vec::new();
    proof {
        lemma_population_push(scene@, background());
    }
    scene.push(
        Entity::Sprite(
            Sprite {
                texture: Texture::Atlas,
                sheet: Some(Grid { tile: 498, columns: 7, rows: 9 }),
                index: 0,
                translation: Translation { x: 0, y: 0, z: 0 },
                timer: Some(AeiouTimer::new(FRAME_PERIOD)),
                marker: None,
            },
        ),
    );
    proof {
        lemma_population_push(scene@, status_icon());
    }
    scene.push(
        Entity::Sprite(
            Sprite {
                texture: Texture::KeyAtlas,
                sheet: Some(Grid { tile: 64, columns: 2, rows: 1 }),
                index: 1,
                translation: Translation { x: 0, y: px(-166), z: px(1) },
                timer: None,
                marker: Some(Marker::Media),
            },
        ),
    );
    proof {
        lemma_population_push(scene@, progress_ball());
    }
    scene.push(
        Entity::Sprite(
            Sprite {
                texture: Texture::Ball,
                sheet: None,
                index: 0,
                translation: Translation { x: px(-164), y: px(-233), z: px(1) },
                timer: None,
                marker: Some(Marker::Ball),
            },
        ),
    );
    proof {
        lemma_population_push(scene@, track_line());
    }
    scene.push(
        Entity::Sprite(
            Sprite {
                texture: Texture::Line,
                sheet: None,
                index: 0,
                translation: Translation { x: 0, y: px(-233), z: px(1) },
                timer: None,
                marker: None,
            },
        ),
    );
    proof {
        lemma_population_push(scene@, Entity::Camera);
    }
    scene.push(Entity::Camera);
    assert(scene@ =~= initial_scene());
    scene
}

} // verus!
