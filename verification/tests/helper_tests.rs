use dust_manip::compute_dust_search::DustSearchMode;
use dust_manip::compute_shaders::PointU32;
use dust_manip::dust::DustData;
use dust_manip::dust_search_setup::try_build_search_parameters;
use dust_manip::encounter_data::{can_find_setup, find_setup, Battlegroup, Encounterer};
use dust_manip::frame_images::ViewRect;
use dust_manip::manip_data::{manip_setups_core, ManipSetup};
use dust_manip::program_common::FrameTimer;
use dust_manip::rng::{LinearPrecomputedRNG, LinearRNG, RNG};
use dust_manip::server::ScreenshotData;

#[test]
fn sources_say_whether_they_can_be_read() {
    let mut rng = RNG::new(1, false, false, false);
    assert!(rng.has_next());
    assert!(rng.can_skip_by(usize::MAX));
    let sequence = rng.precompute(3);
    let mut cursor = LinearPrecomputedRNG::new(&sequence, 1);
    assert_eq!(cursor.get_position(), 1);
    assert!(cursor.has_next());
    cursor.next_u32();
    cursor.next_u32();
    assert_eq!(cursor.get_position(), 3);
    assert!(!cursor.has_next());
    assert!(cursor.can_skip_by(10));
    assert!(cursor.can_skip_by(usize::MAX - 3));
    assert!(!cursor.can_skip_by(usize::MAX - 2));
    cursor.skip(10);
    assert_eq!(cursor.get_position(), 13);
    assert!(!cursor.has_next());
    let at_end = LinearPrecomputedRNG::new(&sequence, 3);
    assert!(!at_end.has_next());
}

#[test]
fn screenshots_and_views_are_checked() {
    let shot = ScreenshotData { width: 4, height: 3, stride: 16, data: vec![0; 48] };
    assert!(shot.is_well_formed());
    assert!(!ScreenshotData { width: 4, height: 3, stride: 16, data: vec![0; 47] }.is_well_formed());
    assert!(!ScreenshotData { width: 5, height: 3, stride: 16, data: vec![0; 48] }.is_well_formed());
    assert!(!ScreenshotData { width: 1, height: 0x10000, stride: 0x10000, data: vec![] }.is_well_formed());
    assert!(ScreenshotData { width: 0, height: 0, stride: 0, data: vec![] }.is_well_formed());
    assert!(ViewRect::new(0, 0, 4, 3).is_inside(&shot));
    assert!(ViewRect::new(1, 1, 3, 2).is_inside(&shot));
    assert!(!ViewRect::new(1, 1, 4, 2).is_inside(&shot));
    assert!(!ViewRect::new(-1, 0, 2, 2).is_inside(&shot));
    assert!(!ViewRect::new(0, 0, 2, -1).is_inside(&shot));
    assert!(!ViewRect::new(i32::MAX, 0, i32::MAX, 1).is_inside(&shot));
}

fn animation(data: &'static str) -> dust_manip::dust::DustAnimation {
    DustData { data, wide: false, search_mode: DustSearchMode::LastFrame, x: 0, y: 0 }.create_animation()
}

#[test]
fn animations_say_what_they_hold() {
    let mut anim = animation("W*V)}(}X,}|}Y+}}}}*~");
    assert_eq!(anim.get_frame_index(), 0);
    assert_eq!(anim.get_rng_offset_count(), 0);
    assert_eq!(anim.get_values_read(), 26);
    anim.compute_frame_rng_offsets();
    assert_eq!(anim.get_rng_offset_count(), 3);
    anim.update();
    assert_eq!(anim.get_frame_index(), 1);
    assert_eq!(animation("~").get_values_read(), 0);
    assert_eq!(animation(")~").get_values_read(), 2);
}

#[test]
fn parameters_are_built_only_where_they_can_be() {
    let seen = vec![PointU32::new(1, 1)];
    let mut anim = animation("W*V)}(}X,}|}Y+}}}}*~");
    // offsets are not computed yet
    assert!(try_build_search_parameters(&anim, DustSearchMode::LastFrame, 1, seen.clone(), 500_000).is_none());
    anim.compute_frame_rng_offsets();
    let params = try_build_search_parameters(&anim, DustSearchMode::LastFrame, 1, seen.clone(), 500_000).unwrap();
    assert_eq!(params.search_range, 500_000 - 30 - 10_000);
    assert_eq!(params.last_frame_rng_offset, 22);
    // the stream leaves no room
    assert!(try_build_search_parameters(&anim, DustSearchMode::LastFrame, 1, seen.clone(), 10_029).is_none());
    assert!(try_build_search_parameters(&anim, DustSearchMode::LastFrame, 1, seen.clone(), 10_030).is_some());
    // a particle cannot be moved so far to the left
    assert!(try_build_search_parameters(&anim, DustSearchMode::LastFrame, i16::MIN, seen.clone(), 500_000).is_none());
    // offsets that were computed twice do not stand for the frames
    anim.compute_frame_rng_offsets();
    assert!(try_build_search_parameters(&anim, DustSearchMode::LastFrame, 1, seen.clone(), 500_000).is_some());
    // too few frames for the mode
    let mut short = animation(")~");
    short.compute_frame_rng_offsets();
    assert!(try_build_search_parameters(&short, DustSearchMode::SecondToLastFrame, 1, seen.clone(), 500_000).is_none());
    assert!(try_build_search_parameters(&short, DustSearchMode::LastFrameEarly, 1, seen.clone(), 500_000).is_some());
    let mut empty = animation("~");
    empty.compute_frame_rng_offsets();
    assert!(try_build_search_parameters(&empty, DustSearchMode::LastFrame, 1, seen, 500_000).is_none());
}

#[test]
fn the_first_fitting_setup_is_found() {
    let mut rng = RNG::new(12345, false, false, false);
    let sequence = rng.precompute(700);
    let setups = manip_setups_core();
    let core = Encounterer::Core;
    assert!(can_find_setup(&sequence, 100, &setups));
    assert!(can_find_setup(&sequence, 160, &setups));
    assert!(!can_find_setup(&sequence, 161, &setups));
    assert!(!can_find_setup(&sequence, 700, &setups));
    assert!(!can_find_setup(&sequence, usize::MAX, &setups));
    for target in [Battlegroup::Madjick, Battlegroup::KnightKnight, Battlegroup::Whimsalot_Astigmatism, Battlegroup::Froggit] {
        let expected = setups.iter().position(|s| core.get_battlegroup_at_pos(&sequence, 100 + 3 + s.rng_amount) == target);
        assert_eq!(find_setup(&core, &sequence, 100, &setups, target), expected);
    }
    assert_eq!(find_setup(&core, &sequence, 100, &setups, Battlegroup::Froggit), None);
    let here = core.get_battlegroup_at_pos(&sequence, 13);
    assert_eq!(find_setup(&core, &sequence, 10, &vec![ManipSetup::new("now", 0)], here), Some(0));
    assert_eq!(find_setup(&core, &sequence, 10, &vec![], here), None);
    assert!(can_find_setup(&sequence, 696, &vec![ManipSetup::new("now", 0)]));
    assert!(!can_find_setup(&sequence, 697, &vec![ManipSetup::new("now", 0)]));
}

#[test]
fn timers_know_their_rate() {
    assert_eq!(FrameTimer::start_at(5, 30).get_target_fps(), 30);
    assert_eq!(FrameTimer::start_at(5, 0).get_target_fps(), 0);
}
