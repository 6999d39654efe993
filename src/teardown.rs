//! The order in which the GPU objects are destroyed at shutdown. An object is
//! destroyed before every object it depends on, and each object exactly once.
use vstd::prelude::*;

verus! {

/// A GPU object, or a group of them of one kind (one per swapchain image).
#[derive(Debug, Clone, Copy, PartialEq, Eq, Structural)]
pub enum Resource {
    ImageAvailableSemaphore,
    RenderFinishedSemaphore,
    InFlightFence,
    CommandPool,
    ComputePipeline,
    ComputePipelineLayout,
    DescriptorPool,
    DescriptorSetLayout,
    ParticleBuffer,
    ParticleMemory,
    GraphicsPipeline,
    GraphicsPipelineLayout,
    Framebuffers,
    RenderPass,
    ImageViews,
    Swapchain,
    Device,
    Surface,
    Instance,
}

/// Objects created from the logical device.
pub open spec fn is_device_object(r: Resource) -> bool {
    !(r is Device || r is Surface || r is Instance)
}

/// `a` must be destroyed before `b`: `b` is referenced by `a`, or `a` was
/// created from `b`.
pub open spec fn must_precede(a: Resource, b: Resource) -> bool {
    ||| a == Resource::ComputePipeline && b == Resource::ComputePipelineLayout
    ||| a == Resource::ComputePipelineLayout && b == Resource::DescriptorSetLayout
    ||| a == Resource::DescriptorPool && b == Resource::DescriptorSetLayout
    ||| a == Resource::DescriptorPool && b == Resource::ParticleBuffer
    ||| a == Resource::ParticleBuffer && b == Resource::ParticleMemory
    ||| a == Resource::GraphicsPipeline && b == Resource::GraphicsPipelineLayout
    ||| a == Resource::GraphicsPipeline && b == Resource::RenderPass
    ||| a == Resource::Framebuffers && b == Resource::RenderPass
    ||| a == Resource::Framebuffers && b == Resource::ImageViews
    ||| a == Resource::ImageViews && b == Resource::Swapchain
    ||| a == Resource::Swapchain && b == Resource::Surface
    ||| is_device_object(a) && b == Resource::Device
    ||| a == Resource::Device && b == Resource::Instance
    ||| a == Resource::Surface && b == Resource::Instance
}

/// The place of each object in the teardown order.
pub open spec fn rank(r: Resource) -> int {
    match r {
        Resource::ImageAvailableSemaphore => 0,
        Resource::RenderFinishedSemaphore => 1,
        Resource::InFlightFence => 2,
        Resource::CommandPool => 3,
        Resource::ComputePipeline => 4,
        Resource::ComputePipelineLayout => 5,
        Resource::DescriptorPool => 6,
        Resource::DescriptorSetLayout => 7,
        Resource::ParticleBuffer => 8,
        Resource::ParticleMemory => 9,
        Resource::GraphicsPipeline => 10,
        Resource::GraphicsPipelineLayout => 11,
        Resource::Framebuffers => 12,
        Resource::RenderPass => 13,
        Resource::ImageViews => 14,
        Resource::Swapchain => 15,
        Resource::Device => 16,
        Resource::Surface => 17,
        Resource::Instance => 18,
    }
}

pub open spec fn frame_objects_spec() -> Seq<Resource> {
    seq![Resource::ImageAvailableSemaphore, Resource::RenderFinishedSemaphore, Resource::InFlightFence, Resource::CommandPool]
}

pub open spec fn particle_teardown_spec() -> Seq<Resource> {
    seq![
        Resource::ComputePipeline,
        Resource::ComputePipelineLayout,
        Resource::DescriptorPool,
        Resource::DescriptorSetLayout,
        Resource::ParticleBuffer,
        Resource::ParticleMemory,
    ]
}

pub open spec fn presentation_teardown_spec() -> Seq<Resource> {
    seq![
        Resource::GraphicsPipeline,
        Resource::GraphicsPipelineLayout,
        Resource::Framebuffers,
        Resource::RenderPass,
        Resource::ImageViews,
        Resource::Swapchain,
    ]
}

pub open spec fn context_teardown_spec() -> Seq<Resource> {
    seq![Resource::Device, Resource::Surface, Resource::Instance]
}

/// The whole shutdown: frame synchronization objects and command pool, the
/// particle resources, the presentation resources, the context.
pub open spec fn teardown_spec() -> Seq<Resource> {
    frame_objects_spec() + particle_teardown_spec() + presentation_teardown_spec() + context_teardown_spec()
}

/// The semaphores, the fence and the command pool, in teardown order.
pub fn frame_objects_teardown() -> (r: Vec<Resource>)
    ensures
        r@ == frame_objects_spec(),
{
    let r = vec![Resource::ImageAvailableSemaphore, Resource::RenderFinishedSemaphore, Resource::InFlightFence, Resource::CommandPool];
    assert(r@ =~= frame_objects_spec());
    r
}

/// The compute stage and the particle buffer, in teardown order.
pub fn particle_teardown() -> (r: Vec<Resource>)
    ensures
        r@ == particle_teardown_spec(),
{
    let r = vec![
        Resource::ComputePipeline,
        Resource::ComputePipelineLayout,
        Resource::DescriptorPool,
        Resource::DescriptorSetLayout,
        Resource::ParticleBuffer,
        Resource::ParticleMemory,
    ];
    assert(r@ =~= particle_teardown_spec());
    r
}

/// The graphics stage and the swapchain objects, in teardown order.
pub fn presentation_teardown() -> (r: Vec<Resource>)
    ensures
        r@ == presentation_teardown_spec(),
{
    let r = vec![
        Resource::GraphicsPipeline,
        Resource::GraphicsPipelineLayout,
        Resource::Framebuffers,
        Resource::RenderPass,
        Resource::ImageViews,
        Resource::Swapchain,
    ];
    assert(r@ =~= presentation_teardown_spec());
    r
}

/// The device, the surface and the instance, in teardown order.
pub fn context_teardown() -> (r: Vec<Resource>)
    ensures
        r@ == context_teardown_spec(),
{
    let r = vec![Resource::Device, Resource::Surface, Resource::Instance];
    assert(r@ =~= context_teardown_spec());
    r
}

/// Every object, in the order it is destroyed at shutdown.
pub fn teardown_order() -> (r: Vec<Resource>)
    ensures
        r@ == teardown_spec(),
{
    let mut r = frame_objects_teardown();
    let mut particles = particle_teardown();
    let mut presentation = presentation_teardown();
    let mut context = context_teardown();
    r.append(&mut particles);
    r.append(&mut presentation);
    r.append(&mut context);
    r
}

proof fn lemma_rank_of_position()
    ensures
        teardown_spec().len() == 19,
        forall|i: int| 0 <= i < 19 ==> rank(#[trigger] teardown_spec()[i]) == i,
        forall|r: Resource| #[trigger] teardown_spec()[rank(r)] == r,
{
    let t = teardown_spec();
    assert(t =~= seq![
        Resource::ImageAvailableSemaphore,
        Resource::RenderFinishedSemaphore,
        Resource::InFlightFence,
        Resource::CommandPool,
        Resource::ComputePipeline,
        Resource::ComputePipelineLayout,
        Resource::DescriptorPool,
        Resource::DescriptorSetLayout,
        Resource::ParticleBuffer,
        Resource::ParticleMemory,
        Resource::GraphicsPipeline,
        Resource::GraphicsPipelineLayout,
        Resource::Framebuffers,
        Resource::RenderPass,
        Resource::ImageViews,
        Resource::Swapchain,
        Resource::Device,
        Resource::Surface,
        Resource::Instance,
    ]);
}

/// Shutdown destroys every object exactly once, and each before everything it
/// depends on; so a full start-up and shutdown can be repeated any number of
/// times.
pub proof fn lemma_teardown_order_sound()
    ensures
        teardown_spec().no_duplicates(),
        forall|r: Resource| teardown_spec().contains(r),
        forall|i: int, j: int|
            0 <= i < teardown_spec().len() && 0 <= j < teardown_spec().len()
                && must_precede(#[trigger] teardown_spec()[i], #[trigger] teardown_spec()[j]) ==> i < j,
{
    lemma_rank_of_position();
    let t = teardown_spec();
    assert forall|r: Resource| t.contains(r) by {
        assert(t[rank(r)] == r);
        assert(0 <= rank(r) < 19);
    }
    assert forall|i: int, j: int| 0 <= i < t.len() && 0 <= j < t.len() && must_precede(#[trigger] t[i], #[trigger] t[j]) implies i < j by {
        assert(rank(t[i]) == i);
        assert(rank(t[j]) == j);
    }
    assert forall|i: int, j: int| 0 <= i < t.len() && 0 <= j < t.len() && i != j implies t[i] != t[j] by {
        assert(rank(t[i]) == i);
        assert(rank(t[j]) == j);
    }
}

} // verus!
