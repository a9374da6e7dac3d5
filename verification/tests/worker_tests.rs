use dust_manip::compute_shaders::ComputeError;
use dust_manip::search_engine::{
    preload_fence_outcome, release_order, search_fence_outcome, EnginePhase, EngineState, Release,
    SearchStart,
};
use dust_manip::worker::{SearchSlot, WorkerAction};

#[test]
fn only_one_search_is_outstanding() {
    let mut slot: SearchSlot<u32, u32> = SearchSlot::new(0, 0);
    assert_eq!(slot.request_search(11), None);
    assert!(slot.is_searching());
    assert_eq!(slot.request_search(22), Some(22));
    assert_eq!(*slot.parameters(), 11);
    assert_eq!(slot.poll_result(), None);
    assert_eq!(slot.next_action(), WorkerAction::Search);
    assert_eq!(slot.request_search(33), Some(33));
    assert_eq!(*slot.parameters(), 11);
    slot.complete_search(111);
    assert_eq!(slot.poll_result(), Some(&111));
    assert_eq!(slot.request_search(44), None);
    assert_eq!(*slot.parameters(), 44);
    assert_eq!(slot.poll_result(), None);
}

#[test]
fn worker_parks_searches_and_ends() {
    let mut slot: SearchSlot<Vec<u8>, u32> = SearchSlot::new(vec![], 7);
    assert_eq!(slot.next_action(), WorkerAction::Park);
    assert_eq!(slot.poll_result(), Some(&7));
    assert_eq!(slot.request_search(vec![1, 2]), None);
    assert_eq!(slot.next_action(), WorkerAction::Search);
    assert_eq!(slot.next_action(), WorkerAction::Search);
    slot.complete_search(8);
    assert_eq!(slot.next_action(), WorkerAction::Park);
    slot.shutdown();
    assert_eq!(slot.next_action(), WorkerAction::Shutdown);
    assert_eq!(slot.next_action(), WorkerAction::Park);
}

#[test]
fn the_end_signal_wins_over_a_search() {
    let mut slot: SearchSlot<u8, u8> = SearchSlot::new(0, 0);
    assert_eq!(slot.request_search(1), None);
    slot.shutdown();
    assert_eq!(slot.next_action(), WorkerAction::Shutdown);
    assert!(slot.is_searching());
    assert_eq!(slot.request_search(2), Some(2));
}

#[test]
fn engine_resolves_the_preload_fence_once() {
    let mut engine = EngineState::new();
    assert_eq!(engine.phase, EnginePhase::Uninitialized);
    assert!(engine.begin_preload());
    assert!(!engine.begin_preload());
    assert_eq!(engine.phase, EnginePhase::Preloading);
    engine.finish_preload(Ok(()));
    assert_eq!(engine.phase, EnginePhase::Idle);
    assert!(engine.preload_fence_pending);
    assert_eq!(engine.begin_search(), SearchStart::ResolvePreloadFence);
    assert_eq!(engine.phase, EnginePhase::Searching);
    engine.finish_search();
    assert_eq!(engine.begin_search(), SearchStart::Proceed);
    engine.finish_search();
    assert_eq!(engine.begin_search(), SearchStart::Proceed);
    engine.finish_search();
    engine.shutdown();
    assert_eq!(engine.phase, EnginePhase::ShuttingDown);
}

#[test]
fn a_failed_preload_ends_the_engine() {
    let mut engine = EngineState::new();
    assert!(engine.begin_preload());
    engine.finish_preload(Err(ComputeError::DeviceCreation));
    assert_eq!(engine.phase, EnginePhase::ShuttingDown);
    assert!(!engine.preload_fence_pending);
}

#[test]
fn release_goes_from_buffers_to_device() {
    assert_eq!(release_order(), vec![Release::Buffers, Release::Pipelines, Release::Device]);
}

#[test]
fn fences_report_their_failure() {
    assert_eq!(preload_fence_outcome(true), Ok(()));
    assert_eq!(preload_fence_outcome(false), Err(ComputeError::PreloadUnsuccessful));
    assert_eq!(search_fence_outcome(true), Ok(()));
    assert_eq!(search_fence_outcome(false), Err(ComputeError::SearchUnsuccessful));
}
