use dust_manip::compute_shaders::{
    gpu_buffer_layout, group_count, points_to_bytes, push_u32, read_u32, round_up_power_of_two,
    select_shader_format, u32s_to_bytes, zero_bytes, ComputeError, ComputePipelineInfo, PointU32,
    ShaderFormat,
};

#[test]
fn point_round_trips() {
    let edges = [i16::MIN, -32767, -256, -1, 0, 1, 255, 256, 32766, i16::MAX];
    for &x in &edges {
        for &y in &edges {
            let p = PointU32::new(x, y);
            assert_eq!((p.x(), p.y()), (x, y));
        }
    }
    for x in i16::MIN..=i16::MAX {
        let p = PointU32::new(x, x.wrapping_mul(31).wrapping_add(7));
        assert_eq!(p.x(), x);
        assert_eq!(p.y(), x.wrapping_mul(31).wrapping_add(7));
    }
}

#[test]
fn point_packs_x_above_y() {
    assert_eq!(PointU32::new(1, 2).value(), 0x0001_0002);
    assert_eq!(PointU32::new(-1, 0).value(), 0xffff_0000);
    assert_eq!(PointU32::new(0, -1).value(), 0x0000_ffff);
    assert_eq!(PointU32::new(-2, -3).value(), 0xfffe_fffd);
    assert_eq!(PointU32::new(0x1234, 0x5678).value(), 0x1234_5678);
}

#[test]
fn rounds_up_to_a_power_of_two() {
    assert_eq!(round_up_power_of_two(0, 16), 0);
    assert_eq!(round_up_power_of_two(1, 16), 16);
    assert_eq!(round_up_power_of_two(16, 16), 16);
    assert_eq!(round_up_power_of_two(17, 16), 32);
    assert_eq!(round_up_power_of_two(127, 64), 128);
    assert_eq!(round_up_power_of_two(5, 1), 5);
    assert_eq!(round_up_power_of_two(4097, 4096), 8192);
    assert_eq!(round_up_power_of_two(usize::MAX - 15, 16), usize::MAX - 15);
}

#[test]
fn buffer_layout_rounds_to_sixteen_bytes() {
    let info = gpu_buffer_layout(100, true, false).unwrap();
    assert_eq!(info.size(), 100);
    assert_eq!(info.rounded_size(), 112);
    assert!(info.allow_read());
    assert!(!info.allow_write());
    let exact = gpu_buffer_layout(128, false, true).unwrap();
    assert_eq!((exact.size(), exact.rounded_size()), (128, 128));
    assert!(exact.allow_write());
    let empty = gpu_buffer_layout(0, true, true).unwrap();
    assert_eq!((empty.size(), empty.rounded_size()), (0, 0));
}

#[test]
fn buffer_layout_refuses_sizes_beyond_32_bits() {
    assert_eq!(gpu_buffer_layout(0xffff_fff0, true, false).unwrap().rounded_size(), 0xffff_fff0);
    assert_eq!(gpu_buffer_layout(0xffff_fff1, true, false), Err(ComputeError::BufferTooLarge));
    assert_eq!(gpu_buffer_layout(usize::MAX, true, false), Err(ComputeError::BufferTooLarge));
}

#[test]
fn transfers_are_checked_against_the_size() {
    let info = gpu_buffer_layout(10, true, false).unwrap();
    assert_eq!(info.check_upload(10), Ok(()));
    assert_eq!(info.check_upload(11), Err(ComputeError::UploadTooLarge));
    assert_eq!(info.check_upload(16), Err(ComputeError::UploadTooLarge));
    assert_eq!(info.check_upload_u32(2), Ok(()));
    assert_eq!(info.check_upload_u32(3), Err(ComputeError::UploadTooLarge));
    assert_eq!(info.check_upload_u32(usize::MAX), Err(ComputeError::UploadTooLarge));
    assert_eq!(info.check_download(10), Ok(()));
    assert_eq!(info.check_download(11), Err(ComputeError::DownloadTooLarge));
}

#[test]
fn group_count_rounds_up() {
    assert_eq!(group_count(0), 0);
    assert_eq!(group_count(1), 1);
    assert_eq!(group_count(64), 1);
    assert_eq!(group_count(65), 2);
    assert_eq!(group_count(30_000), 469);
    assert_eq!(group_count(u32::MAX), 67108864);
}

#[test]
fn shader_format_is_chosen_by_priority() {
    assert_eq!(select_shader_format(true, true, true), Ok(ShaderFormat::SpirV));
    assert_eq!(select_shader_format(false, true, true), Ok(ShaderFormat::Msl));
    assert_eq!(select_shader_format(false, false, true), Ok(ShaderFormat::Dxil));
    assert_eq!(select_shader_format(true, false, false), Ok(ShaderFormat::SpirV));
    assert_eq!(select_shader_format(false, false, false), Err(ComputeError::UnknownShaderFormat));
}

#[test]
fn shader_paths_and_entry_points() {
    assert_eq!(ShaderFormat::SpirV.shader_path("naming.comp"), "./compiled_shaders/spirv/naming.comp.spv");
    assert_eq!(ShaderFormat::Msl.shader_path("snowballs.comp"), "./compiled_shaders/msl/snowballs.comp.msl");
    assert_eq!(ShaderFormat::Dxil.shader_path("x"), "./compiled_shaders/dxil/x.dxil");
    assert_eq!(ShaderFormat::SpirV.entrypoint(), "main");
    assert_eq!(ShaderFormat::Msl.entrypoint(), "main0");
    assert_eq!(ShaderFormat::Dxil.entrypoint(), "main");
}

#[test]
fn pipeline_defaults() {
    let info = ComputePipelineInfo::default();
    assert_eq!(info.shader_name, "");
    assert_eq!(
        (info.num_readwrite_storage_buffers, info.num_readonly_storage_buffers, info.num_uniform_buffers),
        (0, 0, 0)
    );
    assert_eq!((info.threadcount_x, info.threadcount_y, info.threadcount_z), (64, 1, 1));
    let named = ComputePipelineInfo::with_buffers("k", 3, 1, 2);
    assert_eq!(named.shader_name, "k");
    assert_eq!(named.num_readonly_storage_buffers, 3);
    assert_eq!(named.num_readwrite_storage_buffers, 1);
    assert_eq!(named.num_uniform_buffers, 2);
    assert_eq!((named.threadcount_x, named.threadcount_y, named.threadcount_z), (64, 1, 1));
}

#[test]
fn words_are_written_lowest_byte_first() {
    let mut out = vec![9u8];
    push_u32(&mut out, 0x0403_0201);
    assert_eq!(out, vec![9, 1, 2, 3, 4]);
    assert_eq!(u32s_to_bytes(&vec![1, 0xffff_fffe]), vec![1, 0, 0, 0, 0xfe, 0xff, 0xff, 0xff]);
    assert_eq!(u32s_to_bytes(&vec![]), Vec::<u8>::new());
    assert_eq!(read_u32(&out, 1), 0x0403_0201);
    for &v in &[0u32, 1, 0x8000_0000, u32::MAX, 0x1234_5678] {
        assert_eq!(u32s_to_bytes(&vec![v]), v.to_le_bytes().to_vec());
        assert_eq!(read_u32(&v.to_le_bytes().to_vec(), 0), v);
    }
}

#[test]
fn points_are_uploaded_as_their_words() {
    let bytes = points_to_bytes(&vec![PointU32::new(1, 2), PointU32::new(-1, -2)]);
    assert_eq!(bytes, vec![2, 0, 1, 0, 0xfe, 0xff, 0xff, 0xff]);
    assert_eq!(zero_bytes(3), vec![0, 0, 0]);
    assert_eq!(zero_bytes(0), Vec::<u8>::new());
}

#[test]
fn every_error_has_its_message() {
    let all = [
        (ComputeError::DeviceCreation, "Failed to create GPU device"),
        (ComputeError::UnknownShaderFormat, "Unknown shader format"),
        (ComputeError::ShaderFileRead, "Failed to read compiled shader file"),
        (ComputeError::PipelineCreation, "Failed to create compute pipeline"),
        (ComputeError::CommandBufferAcquire, "Failed to acquire GPU command buffer"),
        (ComputeError::CommandBufferSubmit, "Failed to submit command buffer and acquire fence"),
        (ComputeError::BufferTooLarge, "Buffer size is larger than maximum 32-bit integer"),
        (ComputeError::BufferCreation, "Failed to create GPU buffer"),
        (ComputeError::CopyPassBegin, "Failed to begin copy pass"),
        (ComputeError::UploadTooLarge, "Too much data being uploaded to buffer"),
        (ComputeError::TransferBufferCreation, "Failed to create transfer buffer"),
        (ComputeError::TransferBufferMap, "Failed to map GPU transfer buffer to application address space"),
        (ComputeError::DownloadTooLarge, "Too much data being downloaded from buffer"),
        (ComputeError::ComputePassBegin, "Failed to begin compute pass"),
        (ComputeError::PreloadUnsuccessful, "Preload command buffer was unsuccessful"),
        (ComputeError::SearchUnsuccessful, "Search command buffer was unsuccessful"),
        (ComputeError::NoMatchPoints, "No match points"),
        (ComputeError::TooManyMatchPoints, "Too many match points (max is 32)"),
        (ComputeError::NoInitialParticles, "No initial particles"),
        (ComputeError::TooManyInitialParticles, "Too many initial particles (max is 32)"),
        (ComputeError::FrameCountMismatch, "Frame particle counts don't sum to total"),
        (ComputeError::WrongPixelCount, "Expected 104 matching pixels"),
    ];
    for (error, text) in all {
        assert_eq!(error.message(), text);
    }
}
