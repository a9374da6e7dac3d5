use dust_manip::config::Config;
use dust_manip::config::ConfigRunnerVersion::{
    Undertale_Linux_v1_001, Undertale_Windows_v1_0, Undertale_Windows_v1_001, Undertale_Windows_v1_08,
};
use dust_manip::encounter_data::{
    fourpix_23_130xp, fourpix_28_madjick_solo, get_debug_search_config, Battlegroup, Encounterer,
};
use dust_manip::frame_images::ViewRect;
use dust_manip::manip_data::{manip_setups_core, ManipSetup};
use dust_manip::program_common::{default_window_size, selectable_programs, FrameTimer, SubProgram};
use dust_manip::rng::RNG;
use dust_manip::run_context::RunContext;

#[test]
fn runner_versions_say_how_the_generator_is_seeded() {
    let rows = [
        (Undertale_Windows_v1_0, true, false, true, 1),
        (Undertale_Windows_v1_001, true, false, false, 1),
        (Undertale_Linux_v1_001, false, false, false, 0),
        (Undertale_Windows_v1_08, false, true, false, 1),
    ];
    for (version, m15, signed, old, offset) in rows {
        assert_eq!(version.rng_15bit(), m15);
        assert_eq!(version.rng_signed(), signed);
        assert_eq!(version.rng_old_poly(), old);
        assert_eq!(version.circle_draw_offset(), offset);
    }
    let config = Config {
        runner_version: Undertale_Linux_v1_001,
        server_port: 1234,
        hotkey_1_name: "a".to_string(),
        hotkey_2_name: "b".to_string(),
        hotkey_3_name: "c".to_string(),
        hotkey_4_name: "d".to_string(),
    };
    assert_eq!(config.server_port, 1234);
}

#[test]
fn run_context_remembers_a_finding() {
    let mut context = RunContext::new();
    assert!(!context.rng_found());
    assert_eq!((context.rng_seed(), context.min_rng_position()), (None, None));
    context.set_min_rng_position(9);
    assert_eq!(context.min_rng_position(), None);
    context.set_rng(77, 1000);
    assert!(context.rng_found());
    assert_eq!((context.rng_seed(), context.min_rng_position()), (Some(77), Some(1000)));
    context.set_min_rng_position(2000);
    assert_eq!((context.rng_seed(), context.min_rng_position()), (Some(77), Some(2000)));
    context.reset();
    assert_eq!((context.rng_seed(), context.min_rng_position()), (None, None));
    assert!(!context.rng_found());
}

#[test]
fn core_setups() {
    let setups = manip_setups_core();
    assert_eq!(setups.len(), 34);
    assert_eq!((setups[0].text, setups[0].rng_amount), ("(nothing)", 0));
    assert_eq!((setups[1].text, setups[1].rng_amount), ("Stick - USE", 104));
    assert_eq!((setups[10].text, setups[10].rng_amount), ("Stick - USE\nStick - INFO", 220));
    assert_eq!((setups[33].text, setups[33].rng_amount), ("Tough Glove - INFO (x2)\nStick - USE (x2)", 536));
    assert_eq!(setups.iter().map(|s| s.rng_amount).sum::<usize>(), 10902);
    let own = ManipSetup::new("x", 3);
    assert_eq!((own.text, own.rng_amount), ("x", 3));
}

#[test]
fn tools_have_names() {
    assert_eq!(SubProgram::NoProgram.get_name(), "None");
    assert_eq!(SubProgram::ProgramSelector.get_name(), "Program Selector");
    assert_eq!(SubProgram::DustManip.get_name(), "Dust Manipulator");
    assert_eq!(SubProgram::NamingSeedSearch.get_name(), "Naming Seed Search");
    assert_eq!(SubProgram::DogiManip.get_name(), "Marriage Manipulator");
    assert_eq!(SubProgram::Error.get_name(), "Error");
    assert_eq!(SubProgram::RNGOverride.get_name(), "RNG Seed Override");
    assert_eq!(
        selectable_programs(),
        vec![SubProgram::NamingSeedSearch, SubProgram::DogiManip, SubProgram::DustManip, SubProgram::RNGOverride]
    );
}

#[test]
fn frames_are_paced() {
    let timer = FrameTimer::start_at(1_000, 30);
    assert_eq!(timer.delay_at(1_000), Some(33_333_333));
    assert_eq!(timer.delay_at(33_334_332), Some(1));
    assert_eq!(timer.delay_at(33_334_333), None);
    assert_eq!(timer.delay_at(u64::MAX), None);
    assert_eq!(timer.delay_at(0), Some(33_334_333));
}

#[test]
fn window_grows_with_the_display() {
    assert_eq!(default_window_size(1920, 1080), (640, 480));
    assert_eq!(default_window_size(2561, 1441), (640, 480));
    assert_eq!(default_window_size(2562, 1922), (1280, 960));
    assert_eq!(default_window_size(3840, 2160), (1280, 960));
    assert_eq!(default_window_size(7680, 4320), (2560, 1920));
    assert_eq!(default_window_size(u32::MAX, u32::MAX), (3200, 2400));
    assert_eq!(default_window_size(0, 0), (640, 480));
}

#[test]
fn battlegroups_have_names() {
    assert_eq!(Battlegroup::Froggit.get_name(), "Froggit");
    assert_eq!(Battlegroup::KnightKnight.get_name(), "Knight Knight");
    assert_eq!(Battlegroup::FinalFroggit_Astigmatism_Whimsalot.get_name(), "Final Froggit,\nAstigmatism,\nWhimsalot");
    assert_eq!(Battlegroup::KnightKnight_Madjick.get_name(), "Knight Knight,\nMadjick");
    assert_eq!(Battlegroup::Whimsalot_FinalFroggit.get_name(), "Whimsalot,\nFinal Froggit");
}

#[test]
fn battlegroups_cycle() {
    let core = Encounterer::Core;
    let mut group = Battlegroup::Madjick;
    let mut seen = vec![group];
    for _ in 0..6 {
        group = core.cycle_random_battlegroups(group);
        assert!(!seen.contains(&group));
        seen.push(group);
    }
    assert_eq!(core.cycle_random_battlegroups(group), Battlegroup::Madjick);
    assert_eq!(group, Battlegroup::FinalFroggit_Astigmatism_Whimsalot);
    assert_eq!(core.cycle_random_battlegroups(Battlegroup::Froggit), Battlegroup::Madjick);
    assert_eq!(core.cycle_random_battlegroups(Battlegroup::Astigmatism), Battlegroup::Madjick);
}

#[test]
fn battlegroups_are_rolled() {
    let mut rng = RNG::new(12345, false, false, false);
    let sequence = rng.precompute(300);
    let table = [
        Battlegroup::Madjick,
        Battlegroup::KnightKnight,
        Battlegroup::FinalFroggit_Astigmatism_Whimsalot,
        Battlegroup::FinalFroggit_Astigmatism_Whimsalot,
        Battlegroup::KnightKnight_Madjick,
        Battlegroup::KnightKnight_Madjick,
        Battlegroup::KnightKnight_Madjick,
        Battlegroup::Whimsalot_Astigmatism,
        Battlegroup::Whimsalot_Astigmatism,
        Battlegroup::Whimsalot_Astigmatism,
        Battlegroup::Whimsalot_FinalFroggit,
        Battlegroup::Whimsalot_FinalFroggit,
        Battlegroup::Whimsalot_FinalFroggit,
        Battlegroup::FinalFroggit_Astigmatism,
        Battlegroup::FinalFroggit_Astigmatism,
    ];
    let mut rolled = [false; 15];
    for position in 0..300 {
        let value = sequence.get_u32(position);
        let roll = f64::floor((value as f64) * 2.3283064365386963e-10 * 15.0) as usize;
        rolled[roll] = true;
        assert_eq!(Encounterer::Core.get_battlegroup_at_pos(&sequence, position), table[roll]);
    }
    assert!(rolled.iter().all(|&r| r));
    assert_eq!(Encounterer::Core.get_battlegroup_at_pos(&sequence, 0), Battlegroup::Whimsalot_Astigmatism);
}

#[test]
fn sampled_pixels_of_the_encounters() {
    let config = fourpix_23_130xp();
    assert_eq!((config.pixel_coord_1_1.x, config.pixel_coord_1_1.y, config.pixel_coord_1_1_size), (266, 318, 2));
    assert_eq!(config.pixel_match_color_2_2, 0xFF21FF00);
    assert_eq!(config.pixel_replace_color_1_1.apply(0xFFFFFFFF), 0xFF000000);
    assert_eq!(config.pixel_replace_color_1_1.apply(0xFF000000), 0xFFFFFFFF);
    let solo = fourpix_28_madjick_solo();
    assert_eq!(solo.pixel_coord_1_2_size, 50);
    assert_eq!(solo.pixel_replace_color_1_2.apply(0xFF494949), 0xFF0000FF);
    assert_eq!(solo.pixel_replace_color_1_2.apply(0xFF000000), 0xFF0000FF);
    assert_eq!(solo.pixel_replace_color_1_2.apply(0xFF000001), 0xFF000000);
    assert_eq!(solo.pixel_replace_color_2_2.apply(0xFF494949), 0xFF21FF00);
    let debug = get_debug_search_config();
    assert_eq!((debug.text_length, debug.text_length_lvup), (20, 21));
    assert_eq!(debug.view_rect, ViewRect { x: 0, y: 0, w: 640, h: 480 });
    assert_eq!(debug.four_pixel_config, config);
}
