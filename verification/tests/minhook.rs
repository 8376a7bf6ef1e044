use hudhook::mh::{initialize_outcome, HookQueue, InitializeOutcome, QueueStep, MH_STATUS};

#[test]
fn status_converts_to_result() {
    assert_eq!(MH_STATUS::MH_OK.ok(), Ok(()));
    assert_eq!(MH_STATUS::MH_ERROR_NOT_CREATED.ok(), Err(MH_STATUS::MH_ERROR_NOT_CREATED));
    assert_eq!(MH_STATUS::MH_OK.ok_context("MH_Initialize"), Ok(()));
    assert_eq!(
        MH_STATUS::MH_ERROR_MEMORY_ALLOC.ok_context("MH_CreateHook"),
        Err(MH_STATUS::MH_ERROR_MEMORY_ALLOC)
    );
}

#[test]
fn status_codes_follow_the_c_interface() {
    assert_eq!(MH_STATUS::from_code(-1), Some(MH_STATUS::MH_UNKNOWN));
    assert_eq!(MH_STATUS::from_code(0), Some(MH_STATUS::MH_OK));
    assert_eq!(MH_STATUS::from_code(1), Some(MH_STATUS::MH_ERROR_ALREADY_INITIALIZED));
    assert_eq!(MH_STATUS::from_code(9), Some(MH_STATUS::MH_ERROR_MEMORY_ALLOC));
    assert_eq!(MH_STATUS::from_code(12), Some(MH_STATUS::MH_ERROR_FUNCTION_NOT_FOUND));
    assert_eq!(MH_STATUS::from_code(13), None);
    assert_eq!(MH_STATUS::from_code(-2), None);
}

#[test]
fn initialization_outcomes() {
    assert_eq!(initialize_outcome(MH_STATUS::MH_OK), InitializeOutcome::Ready);
    assert_eq!(initialize_outcome(MH_STATUS::MH_ERROR_ALREADY_INITIALIZED), InitializeOutcome::Ready);
    assert_eq!(initialize_outcome(MH_STATUS::MH_ERROR_MEMORY_ALLOC), InitializeOutcome::Fatal);
    assert_eq!(initialize_outcome(MH_STATUS::MH_ERROR_NOT_CREATED), InitializeOutcome::Impossible);
}

#[test]
fn hook_queue_runs_every_hook_then_applies() {
    let mut q = HookQueue::new(2);
    assert_eq!(q.step(), QueueStep::QueueHook(0));
    q.report(MH_STATUS::MH_OK);
    assert_eq!(q.step(), QueueStep::QueueHook(1));
    q.report(MH_STATUS::MH_OK);
    assert_eq!(q.step(), QueueStep::ApplyQueued);
    q.report(MH_STATUS::MH_OK);
    assert_eq!(q.step(), QueueStep::Done);
}

#[test]
fn hook_queue_stops_at_the_first_error() {
    let mut q = HookQueue::new(3);
    q.report(MH_STATUS::MH_OK);
    q.report(MH_STATUS::MH_ERROR_NOT_CREATED);
    assert_eq!(q.step(), QueueStep::Failed(MH_STATUS::MH_ERROR_NOT_CREATED));

    let mut empty = HookQueue::new(0);
    assert_eq!(empty.step(), QueueStep::ApplyQueued);
    empty.report(MH_STATUS::MH_ERROR_NOT_INITIALIZED);
    assert_eq!(empty.step(), QueueStep::Failed(MH_STATUS::MH_ERROR_NOT_INITIALIZED));
}

#[test]
fn removal_uninitializes_then_cleans_up_each_backend() {
    let mut q = HookQueue::new_removal(1, 2);
    assert!(q.is_removal());
    assert_eq!(q.step(), QueueStep::QueueHook(0));
    q.report(MH_STATUS::MH_OK);
    assert_eq!(q.step(), QueueStep::ApplyQueued);
    q.report(MH_STATUS::MH_OK);
    assert_eq!(q.step(), QueueStep::Uninitialize);
    q.report(MH_STATUS::MH_OK);
    assert_eq!(q.step(), QueueStep::Unhook(0));
    q.unhooked();
    assert_eq!(q.step(), QueueStep::Unhook(1));
    q.unhooked();
    assert_eq!(q.step(), QueueStep::Done);
}

#[test]
fn a_failed_uninitialize_runs_no_cleanup() {
    let mut q = HookQueue::new_removal(0, 3);
    q.report(MH_STATUS::MH_OK);
    q.report(MH_STATUS::MH_ERROR_NOT_INITIALIZED);
    assert_eq!(q.step(), QueueStep::Failed(MH_STATUS::MH_ERROR_NOT_INITIALIZED));
    let mut none = HookQueue::new_removal(0, 0);
    none.report(MH_STATUS::MH_OK);
    none.report(MH_STATUS::MH_OK);
    assert_eq!(none.step(), QueueStep::Done);
    assert!(!HookQueue::new(1).is_removal());
}
