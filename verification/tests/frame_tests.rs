use xrshell::frame::{projection_layer_views, FrameCall, FrameLoop, LayerView};

/// Drives one frame to completion: every demanded call "succeeds" except
/// those whose position in the issued-call sequence is listed in `fail_at`.
/// Returns the calls in the order they were demanded, with their outcomes.
fn drive(should_render: bool, fail_at: &[usize]) -> Vec<(FrameCall, bool)> {
    let mut m = FrameLoop::start(should_render);
    let mut calls = Vec::new();
    while let Some(c) = m.next_call() {
        let ok = !fail_at.contains(&calls.len());
        calls.push((c, ok));
        m.record(ok);
    }
    assert!(m.finished());
    calls
}

fn begins(calls: &[(FrameCall, bool)]) -> usize {
    calls.iter().filter(|(c, _)| matches!(c, FrameCall::Begin)).count()
}

fn ends(calls: &[(FrameCall, bool)]) -> usize {
    calls.iter().filter(|(c, _)| matches!(c, FrameCall::End { .. })).count()
}

#[test]
fn skipped_frame_still_pairs_begin_with_empty_end() {
    let calls = drive(false, &[]);
    let only_calls: Vec<FrameCall> = calls.iter().map(|(c, _)| *c).collect();
    assert_eq!(only_calls, vec![FrameCall::Begin, FrameCall::End { layers: 0 }]);
}

#[test]
fn rendered_frame_issues_the_canonical_sequence() {
    let calls = drive(true, &[]);
    let only_calls: Vec<FrameCall> = calls.iter().map(|(c, _)| *c).collect();
    assert_eq!(
        only_calls,
        vec![
            FrameCall::Begin,
            FrameCall::Acquire,
            FrameCall::WaitImage,
            FrameCall::PrepareRender,
            FrameCall::LocateViews,
            FrameCall::LoadViewTransforms,
            FrameCall::Submit,
            FrameCall::ReleaseImage,
            FrameCall::End { layers: 2 },
        ]
    );
    // Command recording comes strictly before the pose query and upload,
    // and there is exactly one submission.
    let prepare = only_calls.iter().position(|c| matches!(c, FrameCall::PrepareRender)).unwrap();
    let load = only_calls
        .iter()
        .position(|c| matches!(c, FrameCall::LoadViewTransforms))
        .unwrap();
    assert!(prepare < load);
    let submits = only_calls.iter().filter(|c| matches!(c, FrameCall::Submit)).count();
    assert_eq!(submits, 1);
}

#[test]
fn two_frame_scenario_skip_then_render() {
    // Frame one: the compositor advises not to render; frame two renders
    // fully. The first frame pairs begin with an empty end; the second
    // records commands before the poses are loaded, submits once, and ends
    // with exactly two projection layers.
    let frame_one: Vec<FrameCall> = drive(false, &[]).iter().map(|(c, _)| *c).collect();
    assert_eq!(frame_one, vec![FrameCall::Begin, FrameCall::End { layers: 0 }]);
    let frame_two: Vec<FrameCall> = drive(true, &[]).iter().map(|(c, _)| *c).collect();
    assert_eq!(frame_two.first(), Some(&FrameCall::Begin));
    assert_eq!(frame_two.last(), Some(&FrameCall::End { layers: 2 }));
}

#[test]
fn prepare_failure_still_ends_with_zero_layers() {
    // Index 3 is the prepare-render call on the render path.
    let calls = drive(true, &[3]);
    assert_eq!(calls[3].0, FrameCall::PrepareRender);
    assert!(!calls[3].1);
    assert_eq!(calls.last().unwrap().0, FrameCall::End { layers: 0 });
    assert_eq!(begins(&calls), 1);
    assert_eq!(ends(&calls), 1);
}

#[test]
fn submit_failure_still_ends_with_zero_layers() {
    let calls = drive(true, &[6]);
    assert_eq!(calls[6].0, FrameCall::Submit);
    assert_eq!(calls.last().unwrap().0, FrameCall::End { layers: 0 });
    assert_eq!(begins(&calls), 1);
    assert_eq!(ends(&calls), 1);
}

#[test]
fn wait_image_timeout_still_ends_with_zero_layers() {
    let calls = drive(true, &[2]);
    assert_eq!(calls[2].0, FrameCall::WaitImage);
    assert_eq!(calls.last().unwrap().0, FrameCall::End { layers: 0 });
    assert_eq!(begins(&calls), 1);
    assert_eq!(ends(&calls), 1);
}

#[test]
fn every_single_failure_point_keeps_begin_end_paired() {
    // Whichever render step fails, the frame still issues exactly one begin
    // and one end call.
    for fail in 1..=8 {
        let calls = drive(true, &[fail]);
        assert_eq!(begins(&calls), 1, "failure at {fail}");
        assert_eq!(ends(&calls), 1, "failure at {fail}");
    }
    for fail in [0, 1] {
        let calls = drive(false, &[fail]);
        assert_eq!(begins(&calls), 1, "failure at {fail}");
        if fail == 0 {
            // The begin call itself failed: the frame never opened.
            assert_eq!(ends(&calls), 0);
        } else {
            assert_eq!(ends(&calls), 1);
        }
    }
}

#[test]
fn begin_failure_aborts_without_end() {
    let calls = drive(true, &[0]);
    let only_calls: Vec<FrameCall> = calls.iter().map(|(c, _)| *c).collect();
    assert_eq!(only_calls, vec![FrameCall::Begin]);
}

#[test]
fn projection_layers_one_per_eye_full_rect() {
    let layers = projection_layer_views(1832, 1920);
    assert_eq!(
        layers,
        vec![
            LayerView {
                image_array_index: 0,
                rect_x: 0,
                rect_y: 0,
                rect_width: 1832,
                rect_height: 1920,
            },
            LayerView {
                image_array_index: 1,
                rect_x: 0,
                rect_y: 0,
                rect_width: 1832,
                rect_height: 1920,
            },
        ]
    );
}
