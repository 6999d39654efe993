use vk_particles::device::{select_queue, find_queue_family, DeviceQueues, QueueChoice, QueueFamily};
use vk_particles::error::SetupError;
use vk_particles::layout::{buffer_size, decode_records, encode_records, ParticleRecord, RECORD_SIZE};
use vk_particles::memory::{find_memory_type, plan_particle_buffer, MemoryTypeTable, ParticleBufferPlan};
use vk_particles::surface::{choose_extent, plan_swapchain, Extent, SurfaceCapabilities, SurfaceFormat, SwapchainPlan, PRESENT_MODE_FIFO};

fn fam(flags: u32, presents: bool) -> QueueFamily {
    QueueFamily { flags, presents }
}

#[test]
fn memory_type_first_match_wins() {
    let table = MemoryTypeTable { property_flags: vec![0x1, 0x6, 0x7, 0x6] };
    assert_eq!(find_memory_type(0b1111, 0x6, &table), Some(1));
    assert_eq!(find_memory_type(0b1101, 0x6, &table), Some(2));
    assert_eq!(find_memory_type(0b0001, 0x6, &table), None);
    assert_eq!(find_memory_type(0b1111, 0x1, &table), Some(0));
}

#[test]
fn memory_type_empty_table() {
    let table = MemoryTypeTable { property_flags: vec![] };
    assert_eq!(find_memory_type(u32::MAX, 0, &table), None);
}

#[test]
fn particle_buffer_plan_for_ten_thousand() {
    let table = MemoryTypeTable { property_flags: vec![0x1, 0x6] };
    assert_eq!(
        plan_particle_buffer(10000, 0b11, &table),
        Ok(ParticleBufferPlan { size: 160000, memory_type: 1 })
    );
}

#[test]
fn particle_buffer_plan_without_host_memory() {
    let table = MemoryTypeTable { property_flags: vec![0x1, 0x2, 0x4] };
    assert_eq!(plan_particle_buffer(10, 0b111, &table), Err(SetupError::NoMemoryType));
}

#[test]
fn buffer_size_is_sixteen_bytes_per_record() {
    assert_eq!(RECORD_SIZE, 16);
    assert_eq!(buffer_size(1), 16);
    assert_eq!(buffer_size(10000), 160000);
    assert_eq!(buffer_size(u32::MAX), 16 * u32::MAX as u64);
}

#[test]
fn records_encode_little_endian() {
    let recs = vec![ParticleRecord { pos_x: 0x3f80_0000, pos_y: 0x0102_0304, vel_x: 0, vel_y: 0xffff_ffff }];
    let bytes = encode_records(&recs);
    assert_eq!(
        bytes,
        vec![0, 0, 0x80, 0x3f, 4, 3, 2, 1, 0, 0, 0, 0, 0xff, 0xff, 0xff, 0xff]
    );
}

#[test]
fn records_round_trip() {
    let recs = vec![
        ParticleRecord { pos_x: 1.0f32.to_bits(), pos_y: (-1.0f32).to_bits(), vel_x: 0.05f32.to_bits(), vel_y: (-0.1f32).to_bits() },
        ParticleRecord { pos_x: 7, pos_y: 8, vel_x: 9, vel_y: 10 },
    ];
    let bytes = encode_records(&recs);
    assert_eq!(bytes.len(), 32);
    assert_eq!(decode_records(&bytes), recs);
}

#[test]
fn decode_ignores_partial_tail() {
    let mut bytes = encode_records(&vec![ParticleRecord { pos_x: 1, pos_y: 2, vel_x: 3, vel_y: 4 }]);
    bytes.extend_from_slice(&[9, 9, 9]);
    assert_eq!(decode_records(&bytes), vec![ParticleRecord { pos_x: 1, pos_y: 2, vel_x: 3, vel_y: 4 }]);
    assert_eq!(decode_records(&vec![]), vec![]);
}

#[test]
fn queue_family_needs_graphics_compute_and_present() {
    assert_eq!(find_queue_family(&vec![fam(0x1, true), fam(0x3, false), fam(0x7, true)]), Some(2));
    assert_eq!(find_queue_family(&vec![fam(0x2, true)]), None);
}

#[test]
fn first_suitable_device_is_chosen() {
    let devices = vec![
        DeviceQueues { families: vec![fam(0x1, true)] },
        DeviceQueues { families: vec![fam(0x4, true), fam(0x3, true), fam(0x3, true)] },
        DeviceQueues { families: vec![fam(0x3, true)] },
    ];
    assert_eq!(select_queue(&devices), Ok(QueueChoice { device: 1, family: 1 }));
}

#[test]
fn no_suitable_device() {
    let devices = vec![DeviceQueues { families: vec![fam(0x3, false)] }];
    assert_eq!(select_queue(&devices), Err(SetupError::NoSuitableDevice));
    assert_eq!(select_queue(&vec![]), Err(SetupError::NoSuitableDevice));
}

#[test]
fn extent_from_surface_or_window() {
    let fixed = Extent { width: 1024, height: 768 };
    assert_eq!(choose_extent(fixed, 800, 600), fixed);
    let open = Extent { width: u32::MAX, height: u32::MAX };
    assert_eq!(choose_extent(open, 800, 600), Extent { width: 800, height: 600 });
}

#[test]
fn swapchain_plan_takes_first_format() {
    let caps = SurfaceCapabilities { min_image_count: 2, current_extent: Extent { width: u32::MAX, height: u32::MAX } };
    let formats = vec![SurfaceFormat { format: 50, color_space: 0 }, SurfaceFormat { format: 44, color_space: 0 }];
    assert_eq!(
        plan_swapchain(caps, &formats, 800, 600),
        Ok(SwapchainPlan {
            extent: Extent { width: 800, height: 600 },
            format: SurfaceFormat { format: 50, color_space: 0 },
            image_count: 3,
            present_mode: PRESENT_MODE_FIFO,
        })
    );
}

#[test]
fn swapchain_plan_without_formats() {
    let caps = SurfaceCapabilities { min_image_count: 2, current_extent: Extent { width: 800, height: 600 } };
    assert_eq!(plan_swapchain(caps, &vec![], 800, 600), Err(SetupError::NoSurfaceFormat));
}

#[test]
fn setup_error_messages() {
    assert_eq!(SetupError::NoMemoryType.message(), "Failed to find memory type");
    assert_eq!(SetupError::NoSuitableDevice.message(), "No suitable GPU found");
    assert!(!SetupError::NoSurfaceFormat.message().is_empty());
}
