use aeiou::playback::PlaybackStatus;
use aeiou::progress::{update, TRACK_LENGTH, TRACK_START, TRACK_WIDTH};
use aeiou::scene::{setup, Entity, SUBPIXELS};

const UNIT: u64 = 1_000_000;

fn ball_x(scene: &[Entity]) -> i128 {
    match scene[2] {
        Entity::Sprite(sprite) => sprite.translation.x,
        Entity::Camera => panic!("the ball is a sprite"),
    }
}

#[test]
fn constants_of_the_track() {
    assert_eq!(TRACK_WIDTH, 482);
    assert_eq!(TRACK_START, -233);
    assert_eq!(TRACK_LENGTH, 1824);
    assert_eq!(SUBPIXELS, 1824 * 100 * 1_000_000);
}

#[test]
fn update_at_half_the_track_matches_the_formula() {
    let mut scene = setup();
    update(&mut scene, PlaybackStatus::Playing { position: 912 * UNIT });
    let x = ball_x(&scene);
    assert_eq!(x, -42_059_616_000_000);
    // 482 * ((912 / 1824) / 100) - 233 is -230.59, that is -23059 / 100.
    assert_eq!(x * 100, -23_059 * SUBPIXELS);
    let pixels = x as f64 / SUBPIXELS as f64;
    let in_double = 482. * ((912. / 1824.) / 100.) - 233.;
    assert!((pixels - in_double).abs() < 1e-9);
    let in_single: f32 = 482. * ((912f32 / 1824.) / 100.) - 233.;
    assert!((pixels as f32 - in_single).abs() < 1e-4);
}

#[test]
fn update_at_the_start_puts_the_ball_at_the_track_start() {
    let mut scene = setup();
    update(&mut scene, PlaybackStatus::Playing { position: 0 });
    assert_eq!(ball_x(&scene), -233 * SUBPIXELS);
}

#[test]
fn update_at_the_end_of_the_track() {
    let mut scene = setup();
    update(&mut scene, PlaybackStatus::Playing { position: 1824 * UNIT });
    // 482 * (1 / 100) - 233 is -228.18.
    assert_eq!(ball_x(&scene) * 100, -22_818 * SUBPIXELS);
}

#[test]
fn update_moves_by_the_smallest_step() {
    let mut scene = setup();
    update(&mut scene, PlaybackStatus::Playing { position: 1 });
    assert_eq!(ball_x(&scene), 482 - 233 * SUBPIXELS);
}

#[test]
fn update_without_a_position_leaves_the_ball() {
    let mut scene = setup();
    let at_start = scene.clone();
    update(&mut scene, PlaybackStatus::Stopped);
    assert_eq!(scene, at_start);
    update(&mut scene, PlaybackStatus::Queued);
    assert_eq!(scene, at_start);
    assert_eq!(ball_x(&scene), -164 * SUBPIXELS);
}

#[test]
fn update_does_not_reset_the_ball_when_playback_stops() {
    let mut scene = setup();
    update(&mut scene, PlaybackStatus::Playing { position: 300 * UNIT });
    let moved = ball_x(&scene);
    assert_eq!(moved, 482 * 300 * UNIT as i128 - 233 * SUBPIXELS);
    update(&mut scene, PlaybackStatus::Stopped);
    assert_eq!(ball_x(&scene), moved);
}

#[test]
fn update_follows_every_status_that_has_a_position() {
    let expected = 482 * 10 * UNIT as i128 - 233 * SUBPIXELS;
    for status in [
        PlaybackStatus::Playing { position: 10 * UNIT },
        PlaybackStatus::Paused { position: 10 * UNIT },
        PlaybackStatus::Pausing { position: 10 * UNIT },
        PlaybackStatus::Stopping { position: 10 * UNIT },
    ] {
        let mut scene = setup();
        update(&mut scene, status);
        assert_eq!(ball_x(&scene), expected);
    }
}

#[test]
fn update_moves_nothing_but_the_ball() {
    let mut scene = setup();
    let before = scene.clone();
    update(&mut scene, PlaybackStatus::Playing { position: 912 * UNIT });
    assert_eq!(scene.len(), 5);
    for at in [0usize, 1, 3, 4] {
        assert_eq!(scene[at], before[at]);
    }
    match (scene[2], before[2]) {
        (Entity::Sprite(now), Entity::Sprite(then)) => {
            assert_eq!(now.translation.y, then.translation.y);
            assert_eq!(now.translation.z, then.translation.z);
            assert_eq!(now.texture, then.texture);
            assert_eq!(now.index, then.index);
            assert_eq!(now.marker, then.marker);
            assert_ne!(now.translation.x, then.translation.x);
        }
        _ => panic!("the ball is a sprite"),
    }
}

#[test]
fn update_moves_every_ball() {
    let mut scene = setup();
    let ball = scene[2];
    scene.push(ball);
    update(&mut scene, PlaybackStatus::Playing { position: 5 });
    assert_eq!(scene[2], scene[5]);
    assert_eq!(ball_x(&scene), 482 * 5 - 233 * SUBPIXELS);
}

#[test]
fn update_takes_the_largest_position() {
    let mut scene = setup();
    update(&mut scene, PlaybackStatus::Playing { position: u64::MAX });
    assert_eq!(ball_x(&scene), 482 * (u64::MAX as i128) - 233 * SUBPIXELS);
}

#[test]
fn update_keeps_the_scene_well_formed() {
    let mut scene = setup();
    update(&mut scene, PlaybackStatus::Playing { position: 77 });
    assert!(aeiou::scene::scene_is_wf(&scene));
}
