use dl_driver::placement::{assign_gpu, numa_node};
use dl_driver::coordination::{
    authorize_global_start, check_world_size, cleanup_coordination, next_poll_action, region_name,
    stored_timestamp, validate_join, wait_timeout_ms, CoordError, PollAction, RankHandle, WaitPhase, MAX_RANKS,
    POLL_INTERVAL_MS,
};
use dl_driver::region::{
    aggregate_results, all_at_barrier, CoordinationState, RankResultsShared, STATUS_BARRIER_READY,
    STATUS_FAILED, STATUS_FINISHED, STATUS_REGISTERED,
};

fn slot(files: u64, bytes: u64, bps: u64, start: u64, end: u64) -> RankResultsShared {
    RankResultsShared {
        files_processed: files,
        bytes_read: bytes,
        throughput_bps: bps,
        wall_clock_time_ns: end - start,
        au_fraction_scaled: 0,
        start_time_ns: start,
        end_time_ns: end,
        results_valid: true,
    }
}

#[test]
fn test_coordination_single_rank() {
    validate_join(0, 1).unwrap();
    let mut state = CoordinationState::new(1);
    state.register(0);
    assert!(state.registration_complete());
    state.mark_global_start(0, 1_000).unwrap();
    state.enter_barrier(0);
    assert!(state.barrier_released());
    state.leave_barrier(0);
    state.mark_finished(0);
    assert!(state.all_finished());
    state.publish_end_time(2_000);

    let stats = state.get_stats("test_single".to_string());
    assert_eq!(stats.world_size, 1);
    assert_eq!(stats.finished_ranks, 1);
}

#[test]
fn three_ranks_register_reverse_barrier_and_aggregate() {
    let mut state = CoordinationState::new(3);
    state.register(2);
    assert!(!state.registration_complete());
    state.register(1);
    assert!(!state.registration_complete());
    state.register(0);
    assert!(state.registration_complete());
    assert_eq!(state.registered_ranks, 3);

    state.enter_barrier(2);
    state.enter_barrier(0);
    assert!(!state.barrier_released());
    state.enter_barrier(1);
    assert!(state.barrier_released());
    for r in 0..3 {
        state.leave_barrier(r);
    }

    state.store_results(0, 10, 100, 1000, 5, 0, 1, 6);
    state.store_results(1, 20, 200, 2000, 5, 0, 2, 7);
    state.store_results(2, 30, 300, 3000, 5, 0, 3, 8);
    let agg = state.get_aggregated_results().unwrap();
    assert_eq!(agg.total_files_processed, 60);
    assert_eq!(agg.total_bytes_read, 600);
    assert_eq!(agg.total_throughput_bps, 6000);
    assert_eq!(agg.total_ranks, 3);
    assert_eq!(agg.rank_details.len(), 3);
}

#[test]
fn registration_counts_every_rank_once_for_all_sizes() {
    for ws in 1..=MAX_RANKS {
        let mut state = CoordinationState::new(ws);
        for r in (0..ws).rev() {
            assert!(!state.registration_complete());
            state.register(r);
        }
        assert_eq!(state.registered_ranks, ws);
        assert!(state.registration_complete());
        for r in 0..ws as usize {
            assert_eq!(state.rank_status[r], STATUS_REGISTERED);
        }
    }
}

#[test]
fn two_barriers_in_a_row_each_wait_for_all() {
    let mut state = CoordinationState::new(4);
    for r in 0..4 {
        state.register(r);
    }
    for name_round in 0..2 {
        let order = if name_round == 0 { [3, 1, 0, 2] } else { [0, 2, 3, 1] };
        for (k, r) in order.iter().enumerate() {
            assert!(!state.barrier_released());
            state.enter_barrier(*r);
            assert_eq!(state.barrier_released(), k == 3);
        }
        for r in order {
            state.leave_barrier(r);
        }
        assert!(!state.barrier_released());
    }
}

#[test]
fn barrier_counts_only_the_group() {
    let mut status = [0u32; 64];
    status[0] = STATUS_BARRIER_READY;
    status[1] = STATUS_BARRIER_READY;
    assert!(all_at_barrier(2, &status));
    assert!(!all_at_barrier(3, &status));
    status[2] = STATUS_FINISHED;
    assert!(all_at_barrier(3, &status));
}

#[test]
fn store_then_aggregate_sums_published_values() {
    let mut state = CoordinationState::new(4);
    state.store_results(3, 7, 70, 700, 1, 0, 100, 250);
    state.store_results(1, 5, 50, 500, 1, 0, 120, 300);
    let agg = state.get_aggregated_results().unwrap();
    assert_eq!(agg.total_files_processed, 12);
    assert_eq!(agg.total_bytes_read, 120);
    assert_eq!(agg.total_throughput_bps, 1200);
    assert_eq!(agg.global_runtime_ns, 200);
    assert_eq!(agg.rank_details.len(), 2);
    assert_eq!(agg.rank_details[0].rank, 1);
    assert_eq!(agg.rank_details[1].rank, 3);
}

#[test]
fn aggregate_totals_exceed_u64() {
    let mut slots = [RankResultsShared::new(); 64];
    slots[0] = slot(u64::MAX, u64::MAX, u64::MAX, 0, 1);
    slots[1] = slot(u64::MAX, 1, 2, 0, 1);
    let agg = aggregate_results(2, &slots).unwrap();
    assert_eq!(agg.total_files_processed, 2 * (u64::MAX as u128));
    assert_eq!(agg.total_bytes_read, u64::MAX as u128 + 1);
    assert_eq!(agg.total_throughput_bps, u64::MAX as u128 + 2);
}

#[test]
fn aggregate_skips_ranks_beyond_the_group() {
    let mut slots = [RankResultsShared::new(); 64];
    slots[0] = slot(1, 1, 1, 10, 20);
    slots[5] = slot(100, 100, 100, 0, 1000);
    let agg = aggregate_results(2, &slots).unwrap();
    assert_eq!(agg.total_files_processed, 1);
    assert_eq!(agg.global_runtime_ns, 10);
}

#[test]
fn aggregate_with_no_results_fails() {
    let state = CoordinationState::new(3);
    assert!(matches!(state.get_aggregated_results(), Err(CoordError::NoValidResults)));
}

#[test]
fn aggregate_runtime_is_zero_when_end_precedes_start() {
    let mut slots = [RankResultsShared::new(); 64];
    slots[0] = RankResultsShared { end_time_ns: 5, start_time_ns: 9, ..slot(1, 1, 1, 0, 0) };
    let agg = aggregate_results(1, &slots).unwrap();
    assert_eq!(agg.global_runtime_ns, 0);
}

#[test]
fn abort_wins_over_remaining_budget_in_every_phase() {
    for phase in [WaitPhase::Registration, WaitPhase::Barrier, WaitPhase::Finish] {
        assert_eq!(next_poll_action(phase, false, true, 0), PollAction::Fail(CoordError::Aborted(phase)));
        assert_eq!(next_poll_action(phase, false, true, 150), PollAction::Fail(CoordError::Aborted(phase)));
        assert_eq!(next_poll_action(phase, false, false, 150), PollAction::Sleep(POLL_INTERVAL_MS));
        assert_eq!(next_poll_action(phase, true, true, 0), PollAction::Proceed);
        let limit = wait_timeout_ms(phase);
        assert_eq!(next_poll_action(phase, false, false, limit), PollAction::Sleep(100));
        assert_eq!(next_poll_action(phase, false, false, limit + 1), PollAction::Fail(CoordError::Timeout(phase)));
    }
    assert_eq!(wait_timeout_ms(WaitPhase::Registration), 20_000);
    assert_eq!(wait_timeout_ms(WaitPhase::Barrier), 30_000);
    assert_eq!(wait_timeout_ms(WaitPhase::Finish), 300_000);
}

#[test]
fn abort_flag_is_sticky() {
    let mut state = CoordinationState::new(2);
    assert!(!state.check_abort());
    state.abort();
    state.register(0);
    state.mark_failed(1);
    assert!(state.check_abort());
    assert_eq!(state.rank_status[1], STATUS_FAILED);
    assert!(state.get_stats("x".to_string()).aborted);
}

#[test]
fn global_start_only_by_rank_zero_and_last_call_wins() {
    let mut state = CoordinationState::new(2);
    assert_eq!(state.mark_global_start(1, 5), Err(CoordError::PermissionDenied));
    assert_eq!(state.get_global_start_time(), None);
    assert_eq!(state.mark_global_start(0, 5), Ok(5));
    assert_eq!(state.mark_global_start(0, 9), Ok(9));
    assert_eq!(state.get_global_start_time(), Some(9));
    assert_eq!(authorize_global_start(0), Ok(()));
    assert_eq!(authorize_global_start(3), Err(CoordError::PermissionDenied));
}

#[test]
fn end_time_first_writer_wins() {
    let mut state = CoordinationState::new(2);
    assert_eq!(state.get_global_end_time(), None);
    assert_eq!(state.publish_end_time(40), 40);
    assert_eq!(state.publish_end_time(50), 40);
    assert_eq!(state.get_global_end_time(), Some(40));
}

#[test]
fn join_checks() {
    assert_eq!(validate_join(0, 4), Ok(()));
    assert_eq!(validate_join(4, 4), Err(CoordError::InvalidRank { rank: 4, world_size: 4 }));
    assert_eq!(validate_join(0, 0), Err(CoordError::InvalidRank { rank: 0, world_size: 0 }));
    assert_eq!(validate_join(0, 65), Err(CoordError::CapacityExceeded { world_size: 65 }));
    assert_eq!(validate_join(63, 64), Ok(()));
    assert_eq!(check_world_size(3, 3), Ok(()));
    assert_eq!(check_world_size(3, 4), Err(CoordError::WorldSizeMismatch { expected: 3, found: 4 }));
}

#[test]
fn region_names_and_timestamps() {
    assert_eq!(region_name("unet3d_8"), "dl_driver_coord_unet3d_8");
    assert_eq!(stored_timestamp(0), None);
    assert_eq!(stored_timestamp(17), Some(17));
    assert_eq!(cleanup_coordination("unet3d_8"), Ok(()));
}

#[test]
fn cleanup_and_heartbeat() {
    let mut state = CoordinationState::new(2);
    state.update_heartbeat(1, 1234);
    assert_eq!(state.rank_heartbeats[1], 1234);
    assert_eq!(state.cleanup(1), Ok(()));
    assert!(state.active);
    assert_eq!(state.cleanup(0), Ok(()));
    assert!(!state.active);
    let stats = state.get_stats("g".to_string());
    assert!(!stats.active);
    assert_eq!(stats.coordination_id, "g");
    assert_eq!(stats.ready_ranks, 0);
}

#[test]
fn gpu_placement_round_robin() {
    let a = assign_gpu(5, 8, Some(2));
    assert_eq!((a.gpu_id, a.gpu_count), (1, 2));
    let b = assign_gpu(5, 8, None);
    assert_eq!((b.gpu_id, b.gpu_count), (5, 8));
    assert_eq!(numa_node(7, 4), 3);
}

#[test]
fn rank_handle_enforces_membership() {
    let h = RankHandle::new(2, 3, "resnet_3").unwrap();
    assert_eq!(h.rank(), 2);
    assert_eq!(h.world_size(), 3);
    assert_eq!(h.coordination_id(), "resnet_3");
    assert_eq!(h.region_name(), "dl_driver_coord_resnet_3");
    assert_eq!(RankHandle::new(3, 3, "x").err(), Some(CoordError::InvalidRank { rank: 3, world_size: 3 }));
    assert_eq!(RankHandle::new(1, 100, "x").err(), Some(CoordError::CapacityExceeded { world_size: 100 }));
}
