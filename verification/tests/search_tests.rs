use dust_manip::compute_dust_search::{DustSearchMode, DustSearchParameters, DustSearchResult};
use dust_manip::compute_naming_search::{NamingSearchParameters, NamingSearchResult};
use dust_manip::compute_shaders::{ComputeError, PointU32};
use dust_manip::compute_snowball_search::{SnowballSearchParameters, SnowballSearchResult};
use dust_manip::{compute_dust_search, compute_naming_search, compute_snowball_search};

fn points(n: usize) -> Vec<PointU32> {
    (0..n).map(|i| PointU32::new(i as i16, -(i as i16))).collect()
}

fn dust_params(matching: usize, initial: usize, last: u32, second: u32) -> DustSearchParameters {
    DustSearchParameters {
        search_mode: DustSearchMode::LastFrame,
        search_range: 1000,
        last_frame_rng_offset: 77,
        initial_rng_skip_amount: 5,
        matching_particles: points(matching),
        initial_particles: points(initial),
        last_frame_particle_count: last,
        second_last_frame_particle_count: second,
    }
}

#[test]
fn dust_search_without_match_points_is_refused() {
    let params = dust_params(0, 4, 4, 0);
    assert_eq!(compute_dust_search::validate(&params), Err(ComputeError::NoMatchPoints));
    assert_eq!(compute_dust_search::plan_search(&params).err(), Some(ComputeError::NoMatchPoints));
}

#[test]
fn dust_search_with_too_many_match_points_is_refused() {
    let params = dust_params(33, 4, 4, 0);
    assert_eq!(compute_dust_search::validate(&params), Err(ComputeError::TooManyMatchPoints));
    assert!(compute_dust_search::plan_search(&params).is_err());
    assert!(compute_dust_search::plan_search(&dust_params(32, 4, 4, 0)).is_ok());
    assert!(compute_dust_search::plan_search(&dust_params(1, 1, 1, 0)).is_ok());
}

#[test]
fn dust_search_checks_initial_particles() {
    assert_eq!(compute_dust_search::validate(&dust_params(3, 0, 0, 0)), Err(ComputeError::NoInitialParticles));
    assert_eq!(
        compute_dust_search::validate(&dust_params(3, 33, 33, 0)),
        Err(ComputeError::TooManyInitialParticles)
    );
    assert_eq!(compute_dust_search::validate(&dust_params(3, 32, 30, 2)), Ok(()));
}

#[test]
fn dust_search_checks_the_frame_counts() {
    assert_eq!(compute_dust_search::validate(&dust_params(3, 10, 4, 5)), Err(ComputeError::FrameCountMismatch));
    assert_eq!(compute_dust_search::validate(&dust_params(3, 10, 4, 6)), Ok(()));
    assert_eq!(
        compute_dust_search::validate(&dust_params(3, 10, u32::MAX, 11)),
        Err(ComputeError::FrameCountMismatch)
    );
}

#[test]
fn dust_search_checks_in_order() {
    assert_eq!(compute_dust_search::validate(&dust_params(0, 0, 1, 1)), Err(ComputeError::NoMatchPoints));
    assert_eq!(compute_dust_search::validate(&dust_params(40, 40, 1, 1)), Err(ComputeError::TooManyMatchPoints));
}

#[test]
fn dust_search_plan_for_the_last_frame() {
    let params = dust_params(2, 3, 3, 0);
    let plan = compute_dust_search::plan_search(&params).unwrap();
    assert_eq!(plan.pipeline, DustSearchMode::LastFrame);
    assert_eq!(plan.match_positions, vec![0, 0, 0, 0, 0xff, 0xff, 1, 0]);
    assert_eq!(plan.initial_particles, vec![0, 0, 0, 0, 0xff, 0xff, 1, 0, 0xfe, 0xff, 2, 0]);
    assert_eq!(plan.return_value_clear, vec![0; 8]);
    assert_eq!(plan.uniform_data, vec![3, 0, 0, 0, 2, 0, 0, 0, 77, 0, 0, 0]);
    assert_eq!((plan.groupcount_x, plan.groupcount_y, plan.groupcount_z), (16, 1, 1));
}

#[test]
fn dust_search_plan_for_the_second_to_last_frame() {
    let mut params = dust_params(2, 3, 2, 1);
    params.search_mode = DustSearchMode::SecondToLastFrameEarly;
    params.search_range = 64;
    let plan = compute_dust_search::plan_search(&params).unwrap();
    assert_eq!(plan.pipeline, DustSearchMode::SecondToLastFrameEarly);
    assert_eq!(
        plan.uniform_data,
        vec![2, 0, 0, 0, 1, 0, 0, 0, 2, 0, 0, 0, 77, 0, 0, 0, 5, 0, 0, 0]
    );
    assert_eq!(plan.groupcount_x, 1);
    assert_eq!(compute_dust_search::uniform_data(&params), plan.uniform_data);
}

#[test]
fn dust_modes_switch_timing() {
    assert_eq!(DustSearchMode::LastFrame.to_early(), DustSearchMode::LastFrameEarly);
    assert_eq!(DustSearchMode::LastFrameEarly.to_early(), DustSearchMode::LastFrameEarly);
    assert_eq!(DustSearchMode::SecondToLastFrame.to_early(), DustSearchMode::SecondToLastFrameEarly);
    assert_eq!(DustSearchMode::SecondToLastFrameEarly.to_early(), DustSearchMode::SecondToLastFrameEarly);
    assert_eq!(DustSearchMode::LastFrameEarly.to_normal(), DustSearchMode::LastFrame);
    assert_eq!(DustSearchMode::LastFrame.to_normal(), DustSearchMode::LastFrame);
    assert_eq!(DustSearchMode::SecondToLastFrameEarly.to_normal(), DustSearchMode::SecondToLastFrame);
    assert_eq!(DustSearchMode::SecondToLastFrame.to_normal(), DustSearchMode::SecondToLastFrame);
}

#[test]
fn dust_kernels() {
    let names = [
        (DustSearchMode::LastFrame, "dust_last_frame.comp"),
        (DustSearchMode::LastFrameEarly, "dust_last_frame_early.comp"),
        (DustSearchMode::SecondToLastFrame, "dust_second_last_frame.comp"),
        (DustSearchMode::SecondToLastFrameEarly, "dust_second_last_frame_early.comp"),
    ];
    for (mode, name) in names {
        let info = mode.pipeline_info();
        assert_eq!(info.shader_name, name);
        assert_eq!(info.num_readonly_storage_buffers, 3);
        assert_eq!(info.num_readwrite_storage_buffers, 1);
        assert_eq!(info.num_uniform_buffers, 1);
        assert_eq!(info.threadcount_x, 64);
    }
}

#[test]
fn dust_buffers() {
    let buffers = compute_dust_search::plan_buffers(1000).unwrap();
    assert_eq!((buffers.return_val_buffer.size(), buffers.return_val_buffer.rounded_size()), (16, 16));
    assert!(buffers.return_val_buffer.allow_write() && !buffers.return_val_buffer.allow_read());
    assert_eq!(buffers.rng_buffer.size(), 4000);
    assert!(buffers.rng_buffer.allow_read() && !buffers.rng_buffer.allow_write());
    assert_eq!(buffers.match_positions_buffer.size(), 128);
    assert_eq!(buffers.initial_particles_buffer.size(), 128);
    assert_eq!(compute_dust_search::plan_buffers(0x3fff_fffd).err(), Some(ComputeError::BufferTooLarge));
    assert!(compute_dust_search::plan_buffers(0x3fff_fffc).is_ok());
}

#[test]
fn dust_result_is_read_and_degraded() {
    let result = compute_dust_search::decode_result(&vec![1, 0, 0, 0, 0x39, 0x30, 0, 0]);
    assert_eq!(result, DustSearchResult { match_count: 1, single_matched_position: 12345 });
    assert_eq!(result.position(), Some(12345));
    let many = compute_dust_search::decode_result(&vec![3, 0, 0, 0, 9, 0, 0, 0, 7, 7]);
    assert_eq!(many.match_count, 3);
    assert_eq!(many.position(), None);
    assert_eq!(compute_dust_search::conclude(Ok(result)), result);
    assert_eq!(
        compute_dust_search::conclude(Err(ComputeError::SearchUnsuccessful)),
        DustSearchResult { match_count: 0, single_matched_position: 0 }
    );
    assert_eq!(compute_dust_search::conclude(Err(ComputeError::NoMatchPoints)).position(), None);
}

fn naming_params(pixels: Vec<bool>) -> NamingSearchParameters {
    NamingSearchParameters {
        rng_15bit: true,
        rng_signed: false,
        rng_old_poly: true,
        search_range: 30_000,
        matching_pixels: pixels,
    }
}

#[test]
fn naming_search_needs_104_pixels() {
    for n in [0usize, 1, 103, 105, 208] {
        assert_eq!(
            compute_naming_search::plan_search(&naming_params(vec![false; n]), 32768).err(),
            Some(ComputeError::WrongPixelCount)
        );
    }
    assert!(compute_naming_search::plan_search(&naming_params(vec![false; 104]), 32768).is_ok());
}

#[test]
fn naming_search_with_no_pixel_set_sends_zero_masks() {
    let plan = compute_naming_search::plan_search(&naming_params(vec![false; 104]), 32768).unwrap();
    let mut expected = vec![5u8, 0, 0, 0];
    expected.extend_from_slice(&30_000u32.to_le_bytes());
    expected.extend_from_slice(&[0; 16]);
    assert_eq!(plan.uniform_data, expected);
    assert_eq!(plan.return_value_clear, vec![0; 12]);
    assert_eq!((plan.groupcount_x, plan.groupcount_y, plan.groupcount_z), (512, 1, 1));
}

#[test]
fn naming_search_packs_the_pixels_into_four_masks() {
    let mut pixels = vec![false; 104];
    pixels[0] = true; // highest bit of the 8-bit mask
    pixels[7] = true; // lowest bit of the 8-bit mask
    pixels[8] = true; // highest bit of the third mask
    pixels[39] = true; // lowest bit of the third mask
    pixels[41] = true; // second highest bit of the second mask
    pixels[103] = true; // lowest bit of the first mask
    let mut params = naming_params(pixels);
    params.rng_15bit = false;
    params.rng_signed = true;
    params.rng_old_poly = false;
    let plan = compute_naming_search::plan_search(&params, 100).unwrap();
    let fields: Vec<u32> = plan
        .uniform_data
        .chunks(4)
        .map(|c| u32::from_le_bytes([c[0], c[1], c[2], c[3]]))
        .collect();
    assert_eq!(fields, vec![2, 30_000, 1, 0x4000_0000, 0x8000_0001, 0x81]);
    assert_eq!(plan.groupcount_x, 2);
    let all = compute_naming_search::plan_search(&naming_params(vec![true; 104]), 65).unwrap();
    let fields: Vec<u32> =
        all.uniform_data.chunks(4).map(|c| u32::from_le_bytes([c[0], c[1], c[2], c[3]])).collect();
    assert_eq!(fields, vec![5, 30_000, u32::MAX, u32::MAX, u32::MAX, 0xff]);
}

#[test]
fn naming_kernel_buffers_and_result() {
    let info = compute_naming_search::pipeline_info();
    assert_eq!(info.shader_name, "naming.comp");
    assert_eq!(
        (info.num_readonly_storage_buffers, info.num_readwrite_storage_buffers, info.num_uniform_buffers),
        (1, 1, 1)
    );
    let buffers = compute_naming_search::plan_buffers(65536).unwrap();
    assert_eq!(buffers.return_val_buffer.size(), 16);
    assert_eq!(buffers.rng_seeds_buffer.size(), 262144);
    let result = compute_naming_search::decode_result(&vec![1, 0, 0, 0, 2, 1, 0, 0, 3, 0, 0, 1]);
    assert_eq!(
        result,
        NamingSearchResult { match_count: 1, single_matched_seed: 258, single_matched_position: 0x0100_0003 }
    );
    assert_eq!(result.matched(), Some((258, 0x0100_0003)));
    let none = compute_naming_search::conclude(Err(ComputeError::WrongPixelCount));
    assert_eq!(none, NamingSearchResult { match_count: 0, single_matched_seed: 0, single_matched_position: 0 });
    assert_eq!(none.matched(), None);
    assert_eq!(compute_naming_search::conclude(Ok(result)), result);
}

#[test]
fn snowball_search_checks_its_points() {
    let none = SnowballSearchParameters { search_range: 10, matching_snowballs: vec![] };
    assert_eq!(compute_snowball_search::plan_search(&none).err(), Some(ComputeError::NoMatchPoints));
    let many = SnowballSearchParameters { search_range: 10, matching_snowballs: points(33) };
    assert_eq!(compute_snowball_search::plan_search(&many).err(), Some(ComputeError::TooManyMatchPoints));
    let most = SnowballSearchParameters { search_range: 10, matching_snowballs: points(32) };
    assert_eq!(compute_snowball_search::plan_search(&most).unwrap().match_positions.len(), 128);
}

#[test]
fn snowball_search_plan_and_result() {
    let params = SnowballSearchParameters {
        search_range: 200_000,
        matching_snowballs: vec![
            PointU32::new(10, 20),
            PointU32::new(30, 40),
            PointU32::new(50, 60),
            PointU32::new(70, 80),
        ],
    };
    let plan = compute_snowball_search::plan_search(&params).unwrap();
    assert_eq!(plan.uniform_data, vec![4, 0, 0, 0]);
    assert_eq!(plan.match_positions, vec![20, 0, 10, 0, 40, 0, 30, 0, 60, 0, 50, 0, 80, 0, 70, 0]);
    assert_eq!(plan.return_value_clear, vec![0; 8]);
    assert_eq!((plan.groupcount_x, plan.groupcount_y, plan.groupcount_z), (3125, 1, 1));
    let found = compute_snowball_search::decode_result(&vec![1, 0, 0, 0, 0x40, 0xe2, 1, 0]);
    assert_eq!(found, SnowballSearchResult { match_count: 1, single_matched_position: 123456 });
    assert_eq!(found.position(), Some(123456));
    assert_eq!(compute_snowball_search::conclude(Ok(found)), found);
    let failed = compute_snowball_search::conclude(Err(ComputeError::ComputePassBegin));
    assert_eq!((failed.match_count, failed.single_matched_position), (0, 0));
    assert_eq!(SnowballSearchResult::new(), failed);
}

#[test]
fn snowball_kernel_and_buffers() {
    let info = compute_snowball_search::pipeline_info();
    assert_eq!(info.shader_name, "snowballs.comp");
    assert_eq!(
        (info.num_readonly_storage_buffers, info.num_readwrite_storage_buffers, info.num_uniform_buffers),
        (2, 1, 1)
    );
    let buffers = compute_snowball_search::plan_buffers(128 * 1000 + 1).unwrap();
    assert_eq!(buffers.snowball_data_buffer.size(), 128001);
    assert_eq!(buffers.snowball_data_buffer.rounded_size(), 128016);
    assert_eq!(buffers.match_positions_buffer.size(), 128);
    assert_eq!(buffers.return_val_buffer.size(), 16);
    assert_eq!(compute_snowball_search::plan_buffers(0xffff_fff1).err(), Some(ComputeError::BufferTooLarge));
}
