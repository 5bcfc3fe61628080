use iracing_sdk::sdk::acquire::{Acquisition, Phase, Resource, Step};
use iracing_sdk::sdk::unix::UnixClient;
use iracing_sdk::sdk::update::{loop_action, take_snapshot, LoopAction, WaitOutcome};
use iracing_sdk::sdk::{
    data_ready_event_name, map_error, memory_mapped_file_name, open_error, IRacingClient, SdkError,
};

#[test]
fn unsupported_platform_always_fails() {
    match UnixClient::new() {
        Ok(_) => panic!("the stub client must never construct"),
        Err(e) => assert_eq!(e, SdkError::Unsupported),
    }
}

#[test]
fn open_error_classification() {
    assert_eq!(open_error(2), SdkError::NotFound);
    assert_eq!(open_error(5), SdkError::PermissionDenied);
    assert_eq!(open_error(87), SdkError::Unexpected(87));
    assert_eq!(open_error(0), SdkError::Unexpected(0));
}

#[test]
fn map_error_classification() {
    assert_eq!(map_error(5), SdkError::PermissionDenied);
    assert_eq!(map_error(2), SdkError::Unexpected(2));
    assert_eq!(map_error(8), SdkError::Unexpected(8));
}

#[test]
fn fixed_object_names() {
    assert_eq!(memory_mapped_file_name(), "Local\\IRSDKMemMapFileName");
    assert_eq!(data_ready_event_name(), "Local\\IRSDKDataValidEvent");
}

#[test]
fn acquisition_steps_in_fixed_order() {
    let a = Acquisition::begin();
    assert_eq!(a.pending_step(), Some(Step::OpenMemory));
    let a = a.on_memory_opened(Ok(10)).unwrap();
    assert_eq!(a.pending_step(), Some(Step::MapView));
    let a = a.on_view_mapped(Ok((20, 1024))).unwrap();
    assert_eq!(a.pending_step(), Some(Step::OpenEvent));
    let a = a.on_event_opened(Ok(30)).unwrap();
    assert_eq!(a.pending_step(), None);
}

#[test]
fn end_to_end_acquisition_and_release() {
    let a = Acquisition::begin();
    let a = a.on_memory_opened(Ok(10)).unwrap();
    assert_eq!(a.phase, Phase::MemoryOpened);
    assert_eq!(a.memory, 10);
    let a = a.on_view_mapped(Ok((20, 1024))).unwrap();
    assert_eq!(a.phase, Phase::ViewMapped);
    assert_eq!(a.view_base, 20);
    assert_eq!(a.view_len, 1024);
    let a = a.on_event_opened(Ok(30)).unwrap();
    assert_eq!(a.phase, Phase::Connected);
    assert_eq!(a.event, 30);

    let (closed, releases) = a.close();
    assert_eq!(closed.phase, Phase::Closed);
    assert_eq!(
        releases,
        vec![Resource::Event(30), Resource::View(20), Resource::Memory(10)]
    );

    // Closed is terminal: closing again releases nothing.
    let (still_closed, nothing) = closed.close();
    assert_eq!(still_closed.phase, Phase::Closed);
    assert_eq!(nothing, Vec::<Resource>::new());
}

#[test]
fn memory_object_missing_fails_not_found() {
    let a = Acquisition::begin();
    let f = a.on_memory_opened(Err(2)).unwrap_err();
    assert_eq!(f.step, Step::OpenMemory);
    assert_eq!(f.error, SdkError::NotFound);
    assert_eq!(f.releases, Vec::<Resource>::new());
}

#[test]
fn memory_object_access_denied() {
    let a = Acquisition::begin();
    let f = a.on_memory_opened(Err(5)).unwrap_err();
    assert_eq!(f.step, Step::OpenMemory);
    assert_eq!(f.error, SdkError::PermissionDenied);
    assert_eq!(f.releases, Vec::<Resource>::new());
}

#[test]
fn view_mapping_failure_rolls_back_memory_handle() {
    let a = Acquisition::begin();
    let a = a.on_memory_opened(Ok(10)).unwrap();
    let f = a.on_view_mapped(Err(5)).unwrap_err();
    assert_eq!(f.step, Step::MapView);
    assert_eq!(f.error, SdkError::PermissionDenied);
    assert_eq!(f.releases, vec![Resource::Memory(10)]);
}

#[test]
fn view_mapping_unexpected_failure_carries_raw_status() {
    let a = Acquisition::begin();
    let a = a.on_memory_opened(Ok(10)).unwrap();
    let f = a.on_view_mapped(Err(1455)).unwrap_err();
    assert_eq!(f.step, Step::MapView);
    assert_eq!(f.error, SdkError::Unexpected(1455));
    assert_eq!(f.releases, vec![Resource::Memory(10)]);
}

#[test]
fn event_missing_rolls_back_view_then_memory() {
    let a = Acquisition::begin();
    let a = a.on_memory_opened(Ok(10)).unwrap();
    let a = a.on_view_mapped(Ok((20, 1024))).unwrap();
    let f = a.on_event_opened(Err(2)).unwrap_err();
    assert_eq!(f.step, Step::OpenEvent);
    assert_eq!(f.error, SdkError::NotFound);
    // The view is released before the memory handle it depends on.
    assert_eq!(f.releases, vec![Resource::View(20), Resource::Memory(10)]);
}

#[test]
fn teardown_order_on_every_path() {
    fn rank(r: &Resource) -> u32 {
        match r {
            Resource::Event(_) => 0,
            Resource::View(_) => 1,
            Resource::Memory(_) => 2,
        }
    }
    // Explicit close from each phase that holds anything.
    let a1 = Acquisition::begin().on_memory_opened(Ok(1)).unwrap();
    let a2 = a1.on_view_mapped(Ok((2, 64))).unwrap();
    let a3 = a2.on_event_opened(Ok(3)).unwrap();
    for releases in [a1.close().1, a2.close().1, a3.close().1] {
        for pair in releases.windows(2) {
            assert!(rank(&pair[0]) < rank(&pair[1]));
        }
    }
    // Rollback paths.
    let f2 = a1.on_view_mapped(Err(5)).unwrap_err();
    let f3 = a2.on_event_opened(Err(2)).unwrap_err();
    for releases in [f2.releases, f3.releases] {
        for pair in releases.windows(2) {
            assert!(rank(&pair[0]) < rank(&pair[1]));
        }
    }
}

#[test]
fn loop_actions_for_each_wait_outcome() {
    assert_eq!(loop_action(WaitOutcome::Signaled, false), LoopAction::Deliver);
    assert_eq!(loop_action(WaitOutcome::TimedOut, false), LoopAction::Continue);
    assert_eq!(
        loop_action(WaitOutcome::Failed(6), false),
        LoopAction::Fail(SdkError::Unexpected(6))
    );
    assert_eq!(loop_action(WaitOutcome::Signaled, true), LoopAction::Stop);
    assert_eq!(loop_action(WaitOutcome::TimedOut, true), LoopAction::Stop);
    assert_eq!(loop_action(WaitOutcome::Failed(6), true), LoopAction::Stop);
}

#[test]
fn snapshot_copies_all_bytes() {
    let live: Vec<u8> = vec![7, 0, 255, 42];
    let snap = take_snapshot(&live);
    assert_eq!(snap, vec![7, 0, 255, 42]);

    let empty: Vec<u8> = Vec::new();
    assert_eq!(take_snapshot(&empty), Vec::<u8>::new());
}

#[test]
fn snapshot_is_independent_of_the_live_view() {
    let mut live: Vec<u8> = vec![1, 2, 3];
    let snap = take_snapshot(&live);
    // The producer overwrites the live region; the snapshot keeps its bytes.
    live[0] = 9;
    live[1] = 9;
    live[2] = 9;
    assert_eq!(snap, vec![1, 2, 3]);
}
