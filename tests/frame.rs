use vk_particles::commands::{
    dispatch_group_count, frame_commands, Command, ACCESS_SHADER_WRITE, ACCESS_VERTEX_ATTRIBUTE_READ,
    STAGE_COMPUTE_SHADER, STAGE_VERTEX_INPUT,
};
use vk_particles::scheduler::{Action, Event, FrameScheduler, Phase};
use vk_particles::teardown::{particle_teardown, presentation_teardown, teardown_order, Resource};

fn run(s: &mut FrameScheduler, events: &[Event]) -> Vec<Action> {
    events.iter().map(|e| s.step(*e)).collect()
}

#[test]
fn one_particle_needs_one_group() {
    assert_eq!(dispatch_group_count(1), 1);
}

#[test]
fn group_count_rounds_up() {
    assert_eq!(dispatch_group_count(0), 0);
    assert_eq!(dispatch_group_count(256), 1);
    assert_eq!(dispatch_group_count(257), 2);
    assert_eq!(dispatch_group_count(10000), 40);
    assert_eq!(dispatch_group_count(u32::MAX), 16_777_216);
}

#[test]
fn ten_thousand_particles_frame() {
    let cmds = frame_commands(10000, 2);
    assert_eq!(
        cmds,
        vec![
            Command::BindComputePipeline,
            Command::BindDescriptorSet,
            Command::Dispatch { groups: 40 },
            Command::BufferBarrier {
                src_stage: STAGE_COMPUTE_SHADER,
                dst_stage: STAGE_VERTEX_INPUT,
                src_access: ACCESS_SHADER_WRITE,
                dst_access: ACCESS_VERTEX_ATTRIBUTE_READ,
            },
            Command::BeginRenderPass { framebuffer: 2 },
            Command::BindGraphicsPipeline,
            Command::BindVertexBuffer,
            Command::Draw { vertex_count: 10000 },
            Command::EndRenderPass,
        ]
    );
}

#[test]
fn barrier_sits_between_dispatch_and_draw() {
    let cmds = frame_commands(1, 0);
    let dispatch = cmds.iter().position(|c| matches!(c, Command::Dispatch { .. })).unwrap();
    let barrier = cmds.iter().position(|c| matches!(c, Command::BufferBarrier { .. })).unwrap();
    let draw = cmds.iter().position(|c| matches!(c, Command::Draw { .. })).unwrap();
    assert!(dispatch < barrier && barrier < draw);
    assert_eq!(cmds[dispatch], Command::Dispatch { groups: 1 });
}

#[test]
fn full_frame_cycle() {
    let mut s = FrameScheduler::new(3);
    let actions = run(
        &mut s,
        &[
            Event::RedrawRequested,
            Event::FenceSignaled,
            Event::ImageAcquired { index: 1 },
            Event::Recorded,
            Event::Submitted,
            Event::Presented,
        ],
    );
    assert_eq!(
        actions,
        vec![
            Action::WaitFence,
            Action::AcquireImage,
            Action::Record { image: 1 },
            Action::Submit { image: 1 },
            Action::Present { image: 1 },
            Action::Nothing,
        ]
    );
    assert_eq!(s.phase, Phase::Idle);
    assert!(s.fence_pending);
}

#[test]
fn next_frame_waits_for_fence_before_recording() {
    let mut s = FrameScheduler::new(2);
    run(
        &mut s,
        &[
            Event::RedrawRequested,
            Event::FenceSignaled,
            Event::ImageAcquired { index: 0 },
            Event::Recorded,
            Event::Submitted,
            Event::Presented,
        ],
    );
    // an image before the fence was waited on is not recorded
    assert_eq!(s.step(Event::ImageAcquired { index: 0 }), Action::Nothing);
    assert_eq!(s.step(Event::RedrawRequested), Action::WaitFence);
    assert_eq!(s.step(Event::ImageAcquired { index: 0 }), Action::Nothing);
    assert!(s.fence_pending);
    assert_eq!(s.step(Event::FenceSignaled), Action::AcquireImage);
    assert!(!s.fence_pending);
    assert_eq!(s.step(Event::ImageAcquired { index: 0 }), Action::Record { image: 0 });
}

#[test]
fn close_between_submit_and_present() {
    let mut s = FrameScheduler::new(2);
    run(
        &mut s,
        &[Event::RedrawRequested, Event::FenceSignaled, Event::ImageAcquired { index: 1 }, Event::Recorded, Event::Submitted],
    );
    assert_eq!(s.step(Event::CloseRequested), Action::WaitDeviceIdle);
    assert_eq!(s.step(Event::Presented), Action::Nothing);
    assert_eq!(s.step(Event::RedrawRequested), Action::Nothing);
    assert_eq!(s.step(Event::DeviceIdle), Action::Teardown);
    assert_eq!(s.phase, Phase::Closed);
    assert_eq!(s.step(Event::RedrawRequested), Action::Nothing);
}

#[test]
fn image_index_out_of_range_aborts() {
    let mut s = FrameScheduler::new(2);
    run(&mut s, &[Event::RedrawRequested, Event::FenceSignaled]);
    assert_eq!(s.step(Event::ImageAcquired { index: 2 }), Action::Abort);
    assert_eq!(s.phase, Phase::Closed);
}

#[test]
fn frame_failure_aborts() {
    let mut s = FrameScheduler::new(2);
    run(&mut s, &[Event::RedrawRequested, Event::FenceSignaled]);
    assert_eq!(s.step(Event::Failed), Action::Abort);
}

#[test]
fn teardown_order_is_documented_order() {
    assert_eq!(
        particle_teardown(),
        vec![
            Resource::ComputePipeline,
            Resource::ComputePipelineLayout,
            Resource::DescriptorPool,
            Resource::DescriptorSetLayout,
            Resource::ParticleBuffer,
            Resource::ParticleMemory,
        ]
    );
    assert_eq!(
        presentation_teardown(),
        vec![
            Resource::GraphicsPipeline,
            Resource::GraphicsPipelineLayout,
            Resource::Framebuffers,
            Resource::RenderPass,
            Resource::ImageViews,
            Resource::Swapchain,
        ]
    );
    let all = teardown_order();
    assert_eq!(all.len(), 19);
    assert_eq!(all[0], Resource::ImageAvailableSemaphore);
    assert_eq!(all[18], Resource::Instance);
    let pos = |r: Resource| all.iter().position(|x| *x == r).unwrap();
    assert!(pos(Resource::ParticleBuffer) < pos(Resource::ParticleMemory));
    assert!(pos(Resource::Framebuffers) < pos(Resource::ImageViews));
    assert!(pos(Resource::ImageViews) < pos(Resource::Swapchain));
    assert!(pos(Resource::Swapchain) < pos(Resource::Surface));
    assert!(pos(Resource::Device) < pos(Resource::Instance));
}

#[test]
fn teardown_repeated_cycles_destroy_each_once() {
    for _ in 0..3 {
        let all = teardown_order();
        for (i, a) in all.iter().enumerate() {
            for b in all.iter().skip(i + 1) {
                assert_ne!(a, b);
            }
        }
    }
}
