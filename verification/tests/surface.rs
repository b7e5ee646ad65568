//! Tests of the surface resource state machine and the device decisions.

use wayland_color_test::device::{
    check_surface_formats, eotf_code, fill_buffer_size, select_physical_device,
    select_queue_family, Error, SurfaceFormat, COLOR_SPACE_PASS_THROUGH,
    FORMAT_R16G16B16A16_SFLOAT,
};
use wayland_color_test::cmm::{NamedTransferFunction, TransferFunction};
use wayland_color_test::surface::{VulkanSubmission, VulkanSurface, VulkanSwapchain};

fn submission(id: u64, buffers: Vec<u64>) -> VulkanSubmission {
    VulkanSubmission {
        release_fence: id * 10 + 1,
        acquire_semaphore: id * 10 + 2,
        release_semaphore: id * 10 + 3,
        owns_release_semaphore: true,
        command_buffer: id * 10 + 4,
        fill_buffers: buffers,
    }
}

#[test]
fn gc_collects_only_the_completed_prefix() {
    let mut s = VulkanSurface::new();
    s.push_submission(submission(1, vec![100, 101]));
    s.push_submission(submission(2, vec![102]));
    s.push_submission(submission(3, vec![103]));
    // The second fence has not signaled: only the first entry may go,
    // even though the third is complete.
    let acts = s.gc(false, &vec![true, false, true], &vec![]);
    assert_eq!(s.submissions.len(), 2);
    assert_eq!(s.fill_buffers, vec![100, 101]);
    assert_eq!(acts.free_command_buffers, vec![14]);
    assert_eq!(acts.destroy_semaphores, vec![12, 13]);
    assert_eq!(acts.destroy_fences, vec![11]);
}

#[test]
fn forced_gc_drains_everything_and_returns_buffers_once() {
    let mut s = VulkanSurface::new();
    s.fill_buffers.push(99);
    s.push_submission(submission(1, vec![100, 101]));
    s.push_submission(submission(2, vec![102]));
    s.complete_present(71);
    let acts = s.gc(true, &vec![false, false], &vec![false]);
    assert_eq!(s.submissions.len(), 0);
    assert_eq!(s.presents.len(), 0);
    // Every buffer returned exactly once, pool order preserved.
    assert_eq!(s.fill_buffers, vec![99, 100, 101, 102]);
    // The second submission's release semaphore went to the
    // presentation, so the submission pass does not destroy it.
    assert_eq!(acts.destroy_semaphores, vec![12, 13, 22, 23]);
    assert_eq!(acts.destroy_fences, vec![11, 21, 71]);
    assert_eq!(acts.free_command_buffers, vec![14, 24]);
}

#[test]
fn present_takes_over_the_release_semaphore() {
    let mut s = VulkanSurface::new();
    s.push_submission(submission(5, vec![]));
    assert!(s.submissions[0].owns_release_semaphore);
    s.complete_present(900);
    assert!(!s.submissions[0].owns_release_semaphore);
    assert_eq!(s.presents.len(), 1);
    assert_eq!(s.presents[0].release_semaphore, 53);
    assert_eq!(s.presents[0].release_fence, 900);
}

#[test]
fn buffer_pool_reuses_newest_first() {
    let mut s = VulkanSurface::new();
    assert_eq!(s.take_fill_buffer(), None);
    s.fill_buffers.push(7);
    s.fill_buffers.push(8);
    assert_eq!(s.take_fill_buffer(), Some(8));
    assert_eq!(s.take_fill_buffer(), Some(7));
    assert_eq!(s.take_fill_buffer(), None);
}

fn swapchain(handle: u64, w: u32, h: u32) -> VulkanSwapchain {
    VulkanSwapchain {
        swapchain: handle,
        images: vec![1, 2, 3],
        image_views: vec![4, 5, 6],
        width: w,
        height: h,
    }
}

#[test]
fn swapchain_is_recreated_only_when_stale() {
    let mut s = VulkanSurface::new();
    // No swapchain yet: recreate without waiting for idle.
    let plan = s.ensure_swapchain(800, 600).expect("recreate");
    assert!(!plan.0);
    assert!(plan.1.is_none());
    s.install_swapchain(swapchain(40, 800, 600));
    // Same extent: keep.
    assert!(s.ensure_swapchain(800, 600).is_none());
    // New extent: recreate, wait for idle, hand back the old swapchain.
    let plan = s.ensure_swapchain(1024, 768).expect("recreate");
    assert!(plan.0);
    assert_eq!(plan.1.map(|sc| sc.swapchain), Some(40));
    s.install_swapchain(swapchain(41, 1024, 768));
    // A suboptimal present marks it stale even at the same extent.
    s.note_suboptimal(false);
    assert!(s.ensure_swapchain(1024, 768).is_none());
    s.note_suboptimal(true);
    assert!(s.ensure_swapchain(1024, 768).is_some());
    s.install_swapchain(swapchain(42, 1024, 768));
    assert!(!s.suboptimal);
}

#[test]
fn teardown_drains_swapchain_and_pool() {
    let mut s = VulkanSurface::new();
    s.install_swapchain(swapchain(40, 800, 600));
    s.fill_buffers.push(7);
    let (sc, bufs) = s.drain_for_teardown();
    assert_eq!(sc.map(|sc| sc.swapchain), Some(40));
    assert_eq!(bufs, vec![7]);
    assert!(s.swapchain.is_none());
    assert!(s.fill_buffers.is_empty());
}

#[test]
fn device_selection_picks_the_first_graphics_queue() {
    assert_eq!(select_physical_device(0), Err(Error::NoPhysicalDevices));
    assert_eq!(select_physical_device(3), Ok(0));
    assert_eq!(select_queue_family(&vec![2, 4, 5, 1]), Ok(2));
    assert_eq!(select_queue_family(&vec![2, 8]), Err(Error::NoQueues));
    assert_eq!(select_queue_family(&vec![]), Err(Error::NoQueues));
}

#[test]
fn surface_must_support_the_f16_pass_through_format() {
    let good = SurfaceFormat {
        format: FORMAT_R16G16B16A16_SFLOAT,
        color_space: COLOR_SPACE_PASS_THROUGH,
    };
    let other = SurfaceFormat { format: 44, color_space: 0 };
    assert_eq!(check_surface_formats(&vec![other, good]), Ok(()));
    assert_eq!(check_surface_formats(&vec![other]), Err(Error::F16NotSupported));
    assert_eq!(check_surface_formats(&vec![]), Err(Error::F16NotSupported));
}

#[test]
fn parameter_block_is_padded_to_sixteen_bytes() {
    assert_eq!(fill_buffer_size(), 176);
}

#[test]
fn transfer_function_selectors_match_the_shader() {
    let named = [
        (NamedTransferFunction::Srgb, 4),
        (NamedTransferFunction::Linear, 1),
        (NamedTransferFunction::St2084Pq, 2),
        (NamedTransferFunction::Bt1886, 3),
        (NamedTransferFunction::Gamma22, 4),
        (NamedTransferFunction::Gamma28, 5),
        (NamedTransferFunction::St240, 6),
        (NamedTransferFunction::ExtSrgb, 4),
        (NamedTransferFunction::Log100, 8),
        (NamedTransferFunction::Log316, 9),
        (NamedTransferFunction::St428, 10),
    ];
    for (tf, code) in named {
        assert_eq!(eotf_code(TransferFunction::Named(tf)), code);
    }
    assert_eq!(eotf_code(TransferFunction::Pow), 11);
}
