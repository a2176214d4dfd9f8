use splash_launcher::scene::{
    dots_scene, flame_phase, highlight_index, line_length, motion_lines, rocket_scene, Bounds,
    Point, Triangle, DOT_RADIUS, DOT_RADIUS_HIGHLIGHT, FLAME_COLOR_EVEN, FLAME_COLOR_ODD,
};

fn p(x: i32, y: i32) -> Point {
    Point { x, y }
}

#[test]
fn flame_phase_sequence_repeats_every_twenty_frames() {
    let expected: Vec<u32> = (0..40u32).map(|f| (f % 20) / 5).collect();
    let got: Vec<u32> = (0..40u32).map(flame_phase).collect();
    assert_eq!(got, expected);
    assert_eq!(&got[0..8], &[0, 0, 0, 0, 0, 1, 1, 1]);
    assert_eq!(flame_phase(19), 3);
    assert_eq!(flame_phase(20), 0);
    assert_eq!(flame_phase(u32::MAX), (u32::MAX / 5) % 4);
}

#[test]
fn highlight_cycles_through_eight_dots_every_eighty_frames() {
    for f in 0..200u32 {
        assert_eq!(highlight_index(f), (f / 10) % 8);
        assert_eq!(highlight_index(f), highlight_index(f + 80));
    }
    assert_eq!(highlight_index(9), 0);
    assert_eq!(highlight_index(10), 1);
    assert_eq!(highlight_index(79), 7);
    assert_eq!(highlight_index(80), 0);
}

#[test]
fn line_length_is_a_sawtooth() {
    let lengths: Vec<i32> = (0..15u32).map(|f| line_length(f, 0)).collect();
    assert_eq!(lengths, vec![0, 2, 5, 7, 10, 12, 15, 17, 20, 22, 25, 20, 15, 10, 5]);
    assert_eq!(line_length(0, 1), 12);
    assert_eq!(line_length(0, 2), 25);
    assert_eq!(line_length(u32::MAX, 3), line_length(u32::MAX % 15, 3));
}

#[test]
fn motion_lines_skip_the_top_arc() {
    let lines = motion_lines(0);
    assert_eq!(lines.len(), 10);
    let slots: Vec<u32> = lines.iter().map(|l| l.slot).collect();
    assert_eq!(slots, (0..10u32).collect::<Vec<u32>>());
    let angles: Vec<u32> = lines.iter().map(|l| l.angle_deg).collect();
    assert_eq!(angles, vec![45, 75, 105, 135, 165, 195, 225, 255, 285, 315]);
    let lengths: Vec<i32> = lines.iter().map(|l| l.length).collect();
    assert_eq!(lengths, vec![0, 12, 25, 0, 12, 25, 0, 12, 25, 0]);
}

#[test]
fn rocket_scene_geometry_at_rest() {
    let s = rocket_scene(0, 800, 600, 0);
    assert_eq!(s.center, p(400, 300));
    assert_eq!(s.body, Bounds { left: 385, top: 275, right: 415, bottom: 340 });
    assert_eq!(s.nose, Triangle { a: p(400, 245), b: p(415, 275), c: p(385, 275) });
    assert_eq!(s.left_fin, Triangle { a: p(385, 320), b: p(370, 340), c: p(385, 340) });
    assert_eq!(s.right_fin, Triangle { a: p(415, 320), b: p(430, 340), c: p(415, 340) });
    assert_eq!(s.porthole, Bounds { left: 394, top: 284, right: 406, bottom: 296 });
    assert_eq!(s.flame, Triangle { a: p(390, 340), b: p(400, 365), c: p(410, 340) });
    assert_eq!(s.flame_color, FLAME_COLOR_EVEN);
    assert_eq!(s.caption, p(330, 390));
    assert_eq!(s.lines, motion_lines(0));
}

#[test]
fn rocket_scene_flame_grows_and_rocket_hovers() {
    let s = rocket_scene(7, 800, 600, 1);
    assert_eq!(s.body, Bounds { left: 385, top: 277, right: 415, bottom: 342 });
    assert_eq!(s.flame, Triangle { a: p(389, 342), b: p(400, 370), c: p(411, 342) });
    assert_eq!(s.flame_color, FLAME_COLOR_ODD);
    assert_eq!(s.caption, p(330, 392));
    let low = rocket_scene(15, 800, 600, -1);
    assert_eq!(low.body.top, 273);
    assert_eq!(low.flame, Triangle { a: p(387, 338), b: p(400, 372), c: p(413, 338) });
    assert_eq!(low.flame_color, FLAME_COLOR_ODD);
}

#[test]
fn rocket_scene_is_the_same_when_built_twice() {
    for f in [0u32, 1, 19, 59, 60, 1234, u32::MAX] {
        let a = rocket_scene(f, 1920, 1080, 1);
        let b = rocket_scene(f, 1920, 1080, 1);
        assert_eq!(format!("{:?}", a), format!("{:?}", b));
    }
}

#[test]
fn rocket_scene_repeats_every_sixty_frames() {
    let a = rocket_scene(13, 1024, 768, 0);
    let b = rocket_scene(73, 1024, 768, 0);
    assert_eq!(format!("{:?}", a), format!("{:?}", b));
}

#[test]
fn rocket_scene_in_an_empty_client_area() {
    let s = rocket_scene(0, 0, 0, 0);
    assert_eq!(s.center, p(0, 0));
    assert_eq!(s.nose.a, p(0, -55));
}

#[test]
fn dots_scene_highlights_one_dot() {
    let s = dots_scene(25, 640, 480);
    assert_eq!(s.center, p(320, 240));
    assert_eq!(s.orbit_radius, 50);
    assert_eq!(s.dots.len(), 8);
    for (i, d) in s.dots.iter().enumerate() {
        assert_eq!(d.slot, i as u32);
        let want = if i == 2 { DOT_RADIUS_HIGHLIGHT } else { DOT_RADIUS };
        assert_eq!(d.radius, want);
    }
    let again = dots_scene(25, 640, 480);
    assert_eq!(s.dots, again.dots);
}
