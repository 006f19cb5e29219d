use xrshell::errors::StartupError;
use xrshell::swapchain::{
    plan_swapchain, CheckoutError, SwapchainManager, SwapchainPlan, ViewConfig,
};

fn view(w: u32, h: u32) -> ViewConfig {
    ViewConfig {
        recommended_width: w,
        max_width: 2 * w,
        recommended_height: h,
        max_height: 2 * h,
        recommended_sample_count: 1,
        max_sample_count: 4,
    }
}

#[test]
fn plan_takes_recommended_resolution_with_two_layers() {
    let views = vec![view(1832, 1920), view(1832, 1920)];
    let plan = plan_swapchain(&views).unwrap();
    assert_eq!(
        plan,
        SwapchainPlan {
            width: 1832,
            height: 1920,
            sample_count: 1,
            face_count: 1,
            array_size: 2,
            mip_count: 1,
            view_array_layer_count: 2,
        }
    );
}

#[test]
fn plan_rejects_differing_views() {
    let views = vec![view(1832, 1920), view(1831, 1920)];
    assert_eq!(plan_swapchain(&views), Err(StartupError::ViewMismatch));
}

#[test]
fn plan_rejects_wrong_view_count() {
    assert_eq!(plan_swapchain(&vec![view(8, 8)]), Err(StartupError::ViewMismatch));
    assert_eq!(
        plan_swapchain(&vec![view(8, 8), view(8, 8), view(8, 8)]),
        Err(StartupError::ViewMismatch)
    );
    assert_eq!(plan_swapchain(&Vec::new()), Err(StartupError::ViewMismatch));
}

#[test]
fn checkout_cycle_is_reproducible_across_frames() {
    // A mocked compositor handing out a fixed rotation of indices yields the
    // same sequence of successful cycles every time.
    let rotation = [0u32, 1, 2, 0, 1, 2];
    let mut first_run = Vec::new();
    let mut second_run = Vec::new();
    for run in [&mut first_run, &mut second_run] {
        let mut m = SwapchainManager::new(3);
        for &index in rotation.iter() {
            assert_eq!(m.acquire(index), Ok(()));
            let waited = m.wait().unwrap();
            assert_eq!(waited, index);
            let released = m.release().unwrap();
            run.push(released);
        }
    }
    assert_eq!(first_run, rotation.to_vec());
    assert_eq!(second_run, rotation.to_vec());
}

#[test]
fn wait_before_acquire_is_rejected() {
    let mut m = SwapchainManager::new(2);
    assert_eq!(m.wait(), Err(CheckoutError::NothingAcquired));
}

#[test]
fn release_before_wait_is_rejected() {
    let mut m = SwapchainManager::new(2);
    assert_eq!(m.acquire(0), Ok(()));
    assert_eq!(m.release(), Err(CheckoutError::NothingWritable));
    // The rejected call changed nothing: the cycle still completes.
    assert_eq!(m.wait(), Ok(0));
    assert_eq!(m.release(), Ok(0));
}

#[test]
fn double_acquire_is_rejected() {
    let mut m = SwapchainManager::new(2);
    assert_eq!(m.acquire(0), Ok(()));
    assert_eq!(m.acquire(1), Err(CheckoutError::AlreadyCheckedOut));
}

#[test]
fn out_of_range_index_is_rejected() {
    let mut m = SwapchainManager::new(2);
    assert_eq!(m.acquire(2), Err(CheckoutError::IndexOutOfRange));
    // Still available afterwards.
    assert_eq!(m.acquire(1), Ok(()));
}

#[test]
fn abandon_resets_a_dropped_frame() {
    let mut m = SwapchainManager::new(2);
    assert_eq!(m.acquire(0), Ok(()));
    m.abandon();
    assert_eq!(m.acquire(1), Ok(()));
}
