//! The order in which the renderer's resources are destroyed.
use vstd::prelude::*;

verus! {

/// One step of giving up resources.
#[derive(Clone, Copy, Debug, PartialEq, Eq, Structural)]
pub enum TeardownStep {
    /// Waits until the device has finished all work handed to it.
    DeviceWaitIdle,
    FreeCommandBuffers,
    DestroyFramebuffers,
    DestroyRenderPass,
    DestroyImageViews,
    DestroySwapchain,
    DestroyDescriptorPool,
    DestroyUniformBuffers,
    FreeUniformMemory,
    DestroyDescriptorSetLayout,
    DestroyPipeline,
    DestroyPipelineLayout,
    DestroyCommandPool,
    DestroySurface,
    DestroyVertexBuffer,
    DestroyIndexBuffer,
    FreeVertexMemory,
    FreeIndexMemory,
    DestroyRenderFinishedSemaphores,
    DestroyImageAvailableSemaphores,
    DestroyFences,
    DestroyDevice,
    DestroyInstance,
}

/// What destroys the swapchain and everything made for it, last made
/// first.
pub open spec fn cleanup_steps() -> Seq<TeardownStep> {
    seq![
        TeardownStep::FreeCommandBuffers,
        TeardownStep::DestroyFramebuffers,
        TeardownStep::DestroyRenderPass,
        TeardownStep::DestroyImageViews,
        TeardownStep::DestroySwapchain,
    ]
}

/// What gives up the swapchain for a new one: wait for the device, then
/// destroy.
pub open spec fn recreate_steps() -> Seq<TeardownStep> {
    seq![TeardownStep::DeviceWaitIdle] + cleanup_steps()
}

/// What destroys everything but the swapchain and what was made for it.
pub open spec fn remaining_steps() -> Seq<TeardownStep> {
    seq![
        TeardownStep::DestroyDescriptorPool,
        TeardownStep::DestroyUniformBuffers,
        TeardownStep::FreeUniformMemory,
        TeardownStep::DestroyDescriptorSetLayout,
        TeardownStep::DestroyPipeline,
        TeardownStep::DestroyPipelineLayout,
        TeardownStep::DestroyCommandPool,
        TeardownStep::DestroySurface,
        TeardownStep::DestroyVertexBuffer,
        TeardownStep::DestroyIndexBuffer,
        TeardownStep::FreeVertexMemory,
        TeardownStep::FreeIndexMemory,
        TeardownStep::DestroyRenderFinishedSemaphores,
        TeardownStep::DestroyImageAvailableSemaphores,
        TeardownStep::DestroyFences,
        TeardownStep::DestroyDevice,
        TeardownStep::DestroyInstance,
    ]
}

/// What ends the renderer: wait for the device, destroy the swapchain
/// and what was made for it if they exist, then everything else.
pub open spec fn teardown_steps(live: bool) -> Seq<TeardownStep> {
    let first = seq![TeardownStep::DeviceWaitIdle];
    if live {
        first + cleanup_steps() + remaining_steps()
    } else {
        first + remaining_steps()
    }
}

/// The step destroys or frees something.
pub open spec fn destroys(step: TeardownStep) -> bool {
    step != TeardownStep::DeviceWaitIdle
}

/// Nothing is destroyed before the device has been waited for: the wait
/// comes first and everything after it destroys.
pub proof fn lemma_wait_before_destroy(live: bool)
    ensures
        recreate_steps()[0] == TeardownStep::DeviceWaitIdle,
        forall|i: int| 1 <= i < recreate_steps().len() ==> destroys(#[trigger] recreate_steps()[i]),
        teardown_steps(live)[0] == TeardownStep::DeviceWaitIdle,
        forall|i: int|
            1 <= i < teardown_steps(live).len() ==> destroys(#[trigger] teardown_steps(live)[i]),
{
}

/// Nothing is destroyed twice, and the device and the instance go last.
pub proof fn lemma_teardown_order(live: bool)
    ensures
        teardown_steps(live).no_duplicates(),
        teardown_steps(live).last() == TeardownStep::DestroyInstance,
        teardown_steps(live)[teardown_steps(live).len() - 2] == TeardownStep::DestroyDevice,
        live ==> recreate_steps().is_prefix_of(teardown_steps(live)),
{
    let steps = teardown_steps(live);
    assert(steps.len() == if live { 23int } else { 18int });
    assert forall|i: int, j: int| 0 <= i < steps.len() && 0 <= j < steps.len() && i != j implies steps[i]
        != steps[j] by {
        lemma_step_position(live, i);
        lemma_step_position(live, j);
    }
    if live {
        assert(recreate_steps() =~= steps.subrange(0, 6));
    }
}

/// The place of each step in the order of construction, counted from the
/// end.
pub open spec fn rank(step: TeardownStep) -> int {
    match step {
        TeardownStep::DeviceWaitIdle => 0,
        TeardownStep::FreeCommandBuffers => 1,
        TeardownStep::DestroyFramebuffers => 2,
        TeardownStep::DestroyRenderPass => 3,
        TeardownStep::DestroyImageViews => 4,
        TeardownStep::DestroySwapchain => 5,
        TeardownStep::DestroyDescriptorPool => 6,
        TeardownStep::DestroyUniformBuffers => 7,
        TeardownStep::FreeUniformMemory => 8,
        TeardownStep::DestroyDescriptorSetLayout => 9,
        TeardownStep::DestroyPipeline => 10,
        TeardownStep::DestroyPipelineLayout => 11,
        TeardownStep::DestroyCommandPool => 12,
        TeardownStep::DestroySurface => 13,
        TeardownStep::DestroyVertexBuffer => 14,
        TeardownStep::DestroyIndexBuffer => 15,
        TeardownStep::FreeVertexMemory => 16,
        TeardownStep::FreeIndexMemory => 17,
        TeardownStep::DestroyRenderFinishedSemaphores => 18,
        TeardownStep::DestroyImageAvailableSemaphores => 19,
        TeardownStep::DestroyFences => 20,
        TeardownStep::DestroyDevice => 21,
        TeardownStep::DestroyInstance => 22,
    }
}

proof fn lemma_step_position(live: bool, i: int)
    requires
        0 <= i < teardown_steps(live).len(),
    ensures
        rank(teardown_steps(live)[i]) == if live || i == 0 {
            i
        } else {
            i + 5
        },
{
}

} // verus!
