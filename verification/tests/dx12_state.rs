use hudhook::dx12_state::{
    classify_present_queues, find_queue_pointer, on_swap_chain_created, pending_context_matches,
    present_queue_count, present_result_resets, validate_active_context, ActiveContext,
    ContextObservation, ContextVerdict, Dx12HookState, InitState, InitializationContext, PresentQueueCapture,
    QueueEntry, StaleReason, SwapChainCreated, DXGI_ERROR_DEVICE_REMOVED, DXGI_ERROR_DEVICE_RESET,
};

#[test]
fn capture_goes_from_swap_chain_to_queue_to_done() {
    let mut c = InitializationContext::Empty;
    c.insert_command_queue(7, true);
    assert_eq!(c, InitializationContext::Empty);
    c.insert_swap_chain(1);
    assert_eq!(c, InitializationContext::WithSwapChain(1));
    c.insert_swap_chain(2);
    assert_eq!(c, InitializationContext::WithSwapChain(1));
    assert_eq!(c.pending_swap_chain(), Some(1));
    c.insert_command_queue(7, false);
    assert_eq!(c.get(), None);
    c.insert_command_queue(8, true);
    assert_eq!(c.get(), Some((1, 8)));
    assert_eq!(c.pending_swap_chain(), None);
    c.done();
    assert_eq!(c, InitializationContext::Done);
    // A done context takes no more changes.
    c.insert_swap_chain(3);
    c.set_complete(3, 4);
    c.insert_command_queue(5, true);
    assert_eq!(c, InitializationContext::Done);
}

#[test]
fn set_complete_overrides_any_context_but_done() {
    let mut c = InitializationContext::WithSwapChain(1);
    c.set_complete(2, 3);
    assert_eq!(c, InitializationContext::Complete(2, 3));
}

#[test]
fn init_state_flags() {
    let mut s = InitState::new();
    assert!(!s.is_done());
    s.context_mut().set_complete(1, 2);
    assert_eq!(s.context(), InitializationContext::Complete(1, 2));
    s.mark_done();
    assert!(s.is_done());
    assert_eq!(s.context(), InitializationContext::Done);
    s.reset();
    assert!(!s.is_done());
    assert_eq!(s.context(), InitializationContext::Empty);
}

#[test]
fn queue_pointer_is_found_by_value() {
    assert_eq!(find_queue_pointer(&[1, 2, 3, 2], 2), Some(1));
    assert_eq!(find_queue_pointer(&[1, 2, 3], 9), None);
    assert_eq!(find_queue_pointer(&[], 9), None);
}

#[test]
fn present_queues_must_be_one_direct_queue() {
    let q = QueueEntry::Direct(5);
    assert_eq!(classify_present_queues(false, &[], None), PresentQueueCapture::Missing);
    assert_eq!(classify_present_queues(true, &[q, q], None), PresentQueueCapture::Valid);
    assert_eq!(classify_present_queues(true, &[q, q], Some(&[1, 1])), PresentQueueCapture::Valid);
    assert_eq!(classify_present_queues(true, &[q, q], Some(&[1, 2])), PresentQueueCapture::Invalid);
    assert_eq!(
        classify_present_queues(true, &[q, QueueEntry::Direct(6)], None),
        PresentQueueCapture::Invalid
    );
    assert_eq!(classify_present_queues(true, &[QueueEntry::Null], None), PresentQueueCapture::Invalid);
    assert_eq!(classify_present_queues(true, &[QueueEntry::NotDirect], None), PresentQueueCapture::Invalid);
    assert_eq!(classify_present_queues(true, &[], None), PresentQueueCapture::Invalid);
    assert_eq!(present_queue_count(false, 3, Some(2)), 0);
    assert_eq!(present_queue_count(true, 3, Some(2)), 3);
    assert_eq!(present_queue_count(true, 0, Some(2)), 2);
    assert_eq!(present_queue_count(true, 0, None), 0);
}

fn active() -> ActiveContext {
    ActiveContext {
        swap_chain_identity: 1,
        command_queue: 7,
        device_identity: 2,
        command_queue_device_identity: 2,
        rtv_format: 28,
        buffer_count: 3,
        hwnd: 100,
    }
}

fn same() -> ContextObservation {
    ContextObservation {
        swap_chain_identity: Some(1),
        device_found: true,
        device_identity: Some(2),
        queue_device_found: true,
        queue_device_identity: Some(2),
        device_removed: false,
        desc_read: true,
        rtv_format: Some(28),
        buffer_count: 3,
    }
}

#[test]
fn active_context_validation() {
    assert_eq!(validate_active_context(active(), same()), ContextVerdict::Valid);
    let mut o = same();
    o.swap_chain_identity = None;
    assert_eq!(validate_active_context(active(), o), ContextVerdict::Stale(StaleReason::SwapChainIdentityUnknown));
    let mut o = same();
    o.swap_chain_identity = Some(9);
    assert_eq!(validate_active_context(active(), o), ContextVerdict::Stale(StaleReason::SwapChainReplaced));
    let mut o = same();
    o.device_found = false;
    assert_eq!(validate_active_context(active(), o), ContextVerdict::Stale(StaleReason::DeviceUnknown));
    let mut o = same();
    o.device_identity = None;
    assert_eq!(validate_active_context(active(), o), ContextVerdict::Stale(StaleReason::DeviceIdentityUnknown));
    let mut o = same();
    o.device_identity = Some(3);
    assert_eq!(validate_active_context(active(), o), ContextVerdict::Stale(StaleReason::DeviceReplaced));
    let mut o = same();
    o.queue_device_found = false;
    assert_eq!(validate_active_context(active(), o), ContextVerdict::Stale(StaleReason::QueueDeviceUnknown));
    let mut o = same();
    o.queue_device_identity = None;
    assert_eq!(validate_active_context(active(), o), ContextVerdict::Stale(StaleReason::QueueDeviceIdentityUnknown));
    let mut o = same();
    o.queue_device_identity = Some(4);
    assert_eq!(validate_active_context(active(), o), ContextVerdict::Stale(StaleReason::QueueDeviceMismatch));
    let mut o = same();
    o.device_removed = true;
    assert_eq!(validate_active_context(active(), o), ContextVerdict::Stale(StaleReason::DeviceRemoved));
    let mut o = same();
    o.desc_read = false;
    assert_eq!(validate_active_context(active(), o), ContextVerdict::DescUnreadable);
    let mut o = same();
    o.rtv_format = None;
    assert_eq!(validate_active_context(active(), o), ContextVerdict::Stale(StaleReason::UnsupportedFormat));
    let mut o = same();
    o.buffer_count = 2;
    assert_eq!(validate_active_context(active(), o), ContextVerdict::Stale(StaleReason::FormatOrBufferCountChanged));
}

#[test]
fn present_results_and_pending_contexts() {
    assert!(present_result_resets(DXGI_ERROR_DEVICE_REMOVED));
    assert!(present_result_resets(DXGI_ERROR_DEVICE_RESET));
    assert!(!present_result_resets(0));
    assert!(pending_context_matches(true, Some(1), 2));
    assert!(pending_context_matches(false, None, 2));
    assert!(pending_context_matches(false, Some(2), 2));
    assert!(!pending_context_matches(false, Some(1), 2));
}

#[test]
fn swap_chain_creation() {
    assert_eq!(on_swap_chain_created(false, true, Some(1), true, 0, None), SwapChainCreated::Ignore);
    assert_eq!(on_swap_chain_created(true, true, Some(1), false, 0, None), SwapChainCreated::Ignore);
    assert_eq!(
        on_swap_chain_created(true, true, Some(1), true, 0, None),
        SwapChainCreated::Capture { reset: false }
    );
    assert_eq!(on_swap_chain_created(true, true, Some(5), true, 200, Some(active())), SwapChainCreated::Ignore);
    assert_eq!(
        on_swap_chain_created(true, true, Some(5), true, 100, Some(active())),
        SwapChainCreated::Capture { reset: true }
    );
    assert_eq!(
        on_swap_chain_created(true, true, Some(1), true, 0, Some(active())),
        SwapChainCreated::Capture { reset: false }
    );
}

#[test]
fn no_active_context_passes_and_changes_nothing() {
    let mut st = Dx12HookState::new();
    st.init.context_mut().insert_swap_chain(1);
    let mut o = same();
    o.swap_chain_identity = None;
    assert_eq!(st.check_active(1, o), ContextVerdict::Valid);
    assert!(st.active.is_none());
    assert_eq!(st.init.context(), InitializationContext::WithSwapChain(1));
}

#[test]
fn a_stale_context_drops_the_pipeline() {
    let mut st = Dx12HookState::new();
    st.active = Some(active());
    st.pipeline = true;
    st.init.context_mut().set_complete(1, 7);
    st.init.mark_done();
    assert_eq!(st.check_active(1, same()), ContextVerdict::Valid);
    assert!(st.pipeline && st.active.is_some() && st.init.is_done());

    let mut o = same();
    o.device_identity = Some(3);
    assert_eq!(st.check_active(1, o), ContextVerdict::Stale(StaleReason::DeviceReplaced));
    assert!(!st.pipeline && st.active.is_none() && !st.init.is_done());
    assert_eq!(st.init.context(), InitializationContext::Empty);
}

#[test]
fn a_format_change_recaptures_with_the_same_queue() {
    let mut st = Dx12HookState::new();
    st.active = Some(active());
    st.pipeline = true;
    let mut o = same();
    o.buffer_count = 4;
    assert_eq!(st.check_active(1, o), ContextVerdict::Stale(StaleReason::FormatOrBufferCountChanged));
    assert!(!st.pipeline && st.active.is_none());
    assert_eq!(st.init.context(), InitializationContext::Complete(1, 7));
    // An unreadable description fails the check without a reset.
    st.active = Some(active());
    st.pipeline = true;
    let mut o = same();
    o.desc_read = false;
    assert_eq!(st.check_active(1, o), ContextVerdict::DescUnreadable);
    assert!(st.pipeline && st.active.is_some());
}

#[test]
fn pending_capture_of_another_swap_chain_is_replaced() {
    let mut st = Dx12HookState::new();
    assert!(st.check_pending(5));
    st.init.context_mut().set_complete(1, 7);
    assert!(st.check_pending(1));
    assert!(!st.check_pending(5));
    assert_eq!(st.init.context(), InitializationContext::WithSwapChain(5));
    st.on_present_result(0);
    assert_eq!(st.init.context(), InitializationContext::WithSwapChain(5));
    st.pipeline = true;
    st.on_present_result(DXGI_ERROR_DEVICE_REMOVED);
    assert!(!st.pipeline);
    assert_eq!(st.init.context(), InitializationContext::Empty);
}
