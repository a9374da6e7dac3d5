use dust_manip::compute_dust_search::{plan_search, DustSearchMode, DustSearchResult};
use dust_manip::compute_shaders::PointU32;
use dust_manip::crash_report::{panic_message, remove_info_from_path};
use dust_manip::dust::DustData;
use dust_manip::dust_search_setup::{build_search_parameters, predicted_position};

fn animation(mode: DustSearchMode) -> dust_manip::dust::DustAnimation {
    let dust = DustData { data: "W*V)}(}X,}|}Y+}}}}*~", wide: false, search_mode: mode, x: 100, y: 50 };
    let mut anim = dust.create_animation();
    anim.compute_frame_rng_offsets();
    anim
}

#[test]
fn parameters_for_the_last_frame() {
    let anim = animation(DustSearchMode::LastFrame);
    let seen = vec![PointU32::new(5, 6)];
    let params = build_search_parameters(&anim, DustSearchMode::LastFrame, 3, seen.clone(), 500_000);
    assert_eq!(params.search_mode, DustSearchMode::LastFrame);
    assert_eq!(params.search_range, 500_000 - 30 - 10_000);
    assert_eq!(params.last_frame_rng_offset, 22);
    assert_eq!(params.initial_rng_skip_amount, 4);
    assert_eq!((params.last_frame_particle_count, params.second_last_frame_particle_count), (2, 0));
    assert_eq!(params.matching_particles, seen);
    assert_eq!(params.initial_particles, vec![PointU32::new(97, 68), PointU32::new(99, 68)]);
    assert!(plan_search(&params).is_ok());
}

#[test]
fn parameters_for_the_second_to_last_frame() {
    let anim = animation(DustSearchMode::SecondToLastFrame);
    let params =
        build_search_parameters(&anim, DustSearchMode::SecondToLastFrameEarly, 1, vec![PointU32::new(0, 0)], 20_030);
    assert_eq!(params.search_range, 10_000);
    assert_eq!(params.last_frame_rng_offset, 22);
    assert_eq!(params.initial_rng_skip_amount, 2);
    assert_eq!((params.last_frame_particle_count, params.second_last_frame_particle_count), (2, 3));
    assert_eq!(
        params.initial_particles,
        vec![
            PointU32::new(99, 68),
            PointU32::new(101, 68),
            PointU32::new(107, 60),
            PointU32::new(109, 60),
            PointU32::new(111, 60),
        ]
    );
    // the offset of the frame before the last follows from the parameters
    assert_eq!(
        params.last_frame_rng_offset - (2 * params.second_last_frame_particle_count + params.initial_rng_skip_amount),
        anim.get_frame_rng_offset(1) as u32
    );
    assert!(plan_search(&params).is_ok());
}

#[test]
fn far_particles_are_brought_into_sixteen_bits() {
    let dust = DustData { data: ")~", wide: false, search_mode: DustSearchMode::LastFrame, x: i32::MAX, y: i32::MIN };
    let mut anim = dust.create_animation();
    anim.compute_frame_rng_offsets();
    let params = build_search_parameters(&anim, DustSearchMode::LastFrame, 2, vec![], 10_002);
    assert_eq!(params.initial_particles, vec![PointU32::new(32765, -32768)]);
    assert_eq!(params.search_range, 0);
}

#[test]
fn position_after_the_battle() {
    let anim = animation(DustSearchMode::LastFrame);
    let one = DustSearchResult { match_count: 1, single_matched_position: 1000 };
    assert_eq!(predicted_position(&anim, &one, 3), Some(1030));
    assert_eq!(predicted_position(&anim, &one, 5), Some(1042));
    let none = DustSearchResult { match_count: 0, single_matched_position: 1000 };
    assert_eq!(predicted_position(&anim, &none, 5), None);
    let many = DustSearchResult { match_count: 2, single_matched_position: 1000 };
    assert_eq!(predicted_position(&anim, &many, 5), None);
}

#[test]
fn user_names_are_taken_out_of_windows_paths() {
    assert_eq!(
        remove_info_from_path("C:\\Users\\alice\\AppData\\report.toml", true),
        "C:\\Users\\<username>\\AppData\\report.toml"
    );
    assert_eq!(remove_info_from_path("D:\\Users\\\\x", true), "D:\\Users\\<username>\\x");
    assert_eq!(remove_info_from_path("C:\\Users\\ä\\b", true), "C:\\Users\\<username>\\b");
    assert_eq!(remove_info_from_path("C:\\Users\\alice", true), "C:\\Users\\alice");
    assert_eq!(remove_info_from_path("C:\\Users\\", true), "C:\\Users\\");
    assert_eq!(remove_info_from_path("c:\\Users\\alice\\x", true), "c:\\Users\\alice\\x");
    assert_eq!(remove_info_from_path("C:\\users\\alice\\x", true), "C:\\users\\alice\\x");
    assert_eq!(remove_info_from_path("C;\\Users\\alice\\x", true), "C;\\Users\\alice\\x");
    assert_eq!(remove_info_from_path("/home/alice/x", true), "/home/alice/x");
    assert_eq!(remove_info_from_path("", true), "");
    assert_eq!(remove_info_from_path("C:\\", true), "C:\\");
    assert_eq!(
        remove_info_from_path("C:\\Users\\alice\\AppData\\report.toml", false),
        "C:\\Users\\alice\\AppData\\report.toml"
    );
}

#[test]
fn failure_messages() {
    assert_eq!(
        panic_message(Some("boom"), "/tmp/r"),
        "A fatal error has occurred in the tool. The error message is below:\n\nboom\n\nFor more details, a report file was placed at: /tmp/r"
    );
    assert_eq!(
        panic_message(None, "(failed to write file)"),
        "A fatal error has occurred in the tool. No error message was able to be retrieved.\n\nFor more details, a report file was placed at: (failed to write file)"
    );
}
