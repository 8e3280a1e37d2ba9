use foamshot::barrier::CaptureBarrier;

#[test]
fn releases_after_all_completions_and_resets() {
    let mut b = CaptureBarrier::new(3);
    assert!(!b.try_release());
    b.on_capture_complete();
    assert!(!b.try_release());
    b.on_capture_complete();
    assert!(!b.try_release());
    b.on_capture_complete();
    assert!(b.try_release());
    assert_eq!(b.copy_ready, 0);
    assert_eq!(b.outputs_total, 3);
}

#[test]
fn fewer_completions_never_release() {
    let mut b = CaptureBarrier::new(4);
    for _ in 0..3 {
        b.on_capture_complete();
        assert!(!b.try_release());
    }
    assert_eq!(b.copy_ready, 3);
}

#[test]
fn completion_order_is_irrelevant() {
    // Whatever permutation the per-output completions arrive in, the round
    // releases after the last one with the counter reset.
    for order in [[0usize, 1, 2], [2, 1, 0], [1, 2, 0]] {
        let mut b = CaptureBarrier::new(3);
        for (k, _output_id) in order.iter().enumerate() {
            b.on_capture_complete();
            let released = b.try_release();
            assert_eq!(released, k == 2);
        }
        assert_eq!(b.copy_ready, 0);
    }
}

#[test]
fn reusable_across_rounds() {
    let mut b = CaptureBarrier::new(2);
    for _round in 0..3 {
        b.on_capture_complete();
        assert!(!b.try_release());
        b.on_capture_complete();
        assert!(b.try_release());
        assert_eq!(b.copy_ready, 0);
    }
}

#[test]
fn zero_outputs_release_immediately() {
    let mut b = CaptureBarrier::new(0);
    assert!(b.try_release());
    assert_eq!(b.copy_ready, 0);
}
