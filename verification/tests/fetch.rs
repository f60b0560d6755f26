use ppot_verifier::{
    advance_progress, plan_resume, range_header, ContentRange, FetchAction, FetchError, FetchEvent,
    FetchState,
};

/// Runs a transfer over `events` and gives back the last state, the actions in order, and
/// the bytes appended on being told to receive.
fn run(events: &[FetchEvent]) -> (FetchState, Vec<FetchAction>, u64) {
    let mut state = FetchState::new();
    let mut actions = Vec::new();
    let mut appended: u64 = 0;
    for event in events {
        if let (FetchState::Streaming { .. }, FetchEvent::Chunk { len }) = (state, event) {
            appended += *len as u64;
        }
        let (next, action) = state.step(*event);
        state = next;
        actions.push(action);
    }
    (state, actions, appended)
}

#[test]
fn range_header_asks_from_the_offset_on() {
    assert_eq!(range_header(0), "bytes=0-");
    assert_eq!(range_header(1024), "bytes=1024-");
    assert_eq!(range_header(u64::MAX), "bytes=18446744073709551615-");
}

#[test]
fn a_complete_artifact_is_left_alone() {
    let (state, actions, appended) = run(&[
        FetchEvent::Opened { length: 20 },
        FetchEvent::Responded { range: Some(ContentRange::Size(20)) },
    ]);
    assert_eq!(state, FetchState::Finished);
    assert_eq!(actions, vec![FetchAction::Request { start: 20 }, FetchAction::Succeed]);
    assert_eq!(appended, 0);
}

#[test]
fn nothing_is_appended_after_the_end() {
    let (state, actions, appended) = run(&[
        FetchEvent::Opened { length: 20 },
        FetchEvent::Responded { range: Some(ContentRange::Size(20)) },
        FetchEvent::Chunk { len: 5 },
        FetchEvent::EndOfBody,
        FetchEvent::Fault,
    ]);
    assert_eq!(state, FetchState::Finished);
    assert_eq!(appended, 0);
    assert_eq!(actions[2..], [FetchAction::Succeed, FetchAction::Succeed, FetchAction::Succeed]);
}

#[test]
fn a_partial_artifact_is_completed() {
    let (state, actions, appended) = run(&[
        FetchEvent::Opened { length: 8 },
        FetchEvent::Responded { range: Some(ContentRange::Full { start: 8, end: 19, size: 20 }) },
        FetchEvent::Chunk { len: 5 },
        FetchEvent::Chunk { len: 0 },
        FetchEvent::Chunk { len: 7 },
        FetchEvent::EndOfBody,
        FetchEvent::Flushed,
    ]);
    assert_eq!(state, FetchState::Finished);
    assert_eq!(8 + appended, 20);
    assert_eq!(
        actions,
        vec![
            FetchAction::Request { start: 8 },
            FetchAction::Receive { downloaded: 8, total: 20 },
            FetchAction::Receive { downloaded: 13, total: 20 },
            FetchAction::Receive { downloaded: 13, total: 20 },
            FetchAction::Receive { downloaded: 20, total: 20 },
            FetchAction::Flush,
            FetchAction::Succeed,
        ]
    );
}

#[test]
fn an_empty_artifact_is_fetched_whole() {
    let (state, actions, appended) = run(&[
        FetchEvent::Opened { length: 0 },
        FetchEvent::Responded { range: Some(ContentRange::Full { start: 0, end: 2, size: 3 }) },
        FetchEvent::Chunk { len: 3 },
        FetchEvent::EndOfBody,
        FetchEvent::Flushed,
    ]);
    assert_eq!(state, FetchState::Finished);
    assert_eq!(actions[0], FetchAction::Request { start: 0 });
    assert_eq!(appended, 3);
}

#[test]
fn a_size_that_differs_is_a_mismatch() {
    let error = FetchError::SizeMismatch { local: 21, remote: 20 };
    let (state, actions, appended) = run(&[
        FetchEvent::Opened { length: 21 },
        FetchEvent::Responded { range: Some(ContentRange::Size(20)) },
    ]);
    assert_eq!(state, FetchState::Failed(error));
    assert_eq!(actions[1], FetchAction::Fail(error));
    assert_eq!(appended, 0);
}

#[test]
fn a_response_without_range_fails() {
    let (state, actions, _) =
        run(&[FetchEvent::Opened { length: 0 }, FetchEvent::Responded { range: None }]);
    assert_eq!(state, FetchState::Failed(FetchError::MissingOrInvalidRange));
    assert_eq!(actions[1], FetchAction::Fail(FetchError::MissingOrInvalidRange));
}

#[test]
fn a_fault_ends_the_transfer_at_any_point() {
    let range = ContentRange::Full { start: 0, end: 9, size: 10 };
    let before: [&[FetchEvent]; 4] = [
        &[],
        &[FetchEvent::Opened { length: 0 }],
        &[FetchEvent::Opened { length: 0 }, FetchEvent::Responded { range: Some(range) }],
        &[
            FetchEvent::Opened { length: 0 },
            FetchEvent::Responded { range: Some(range) },
            FetchEvent::EndOfBody,
        ],
    ];
    for events in before {
        let mut events = events.to_vec();
        events.push(FetchEvent::Fault);
        let (state, actions, _) = run(&events);
        assert_eq!(state, FetchState::Failed(FetchError::Network));
        assert_eq!(actions.last(), Some(&FetchAction::Fail(FetchError::Network)));
    }
}

#[test]
fn an_event_out_of_order_ends_the_transfer() {
    let range = ContentRange::Full { start: 0, end: 9, size: 10 };
    let runs: [&[FetchEvent]; 5] = [
        &[FetchEvent::Chunk { len: 1 }],
        &[FetchEvent::Opened { length: 0 }, FetchEvent::Opened { length: 0 }],
        &[FetchEvent::Opened { length: 0 }, FetchEvent::EndOfBody],
        &[
            FetchEvent::Opened { length: 0 },
            FetchEvent::Responded { range: Some(range) },
            FetchEvent::Flushed,
        ],
        &[
            FetchEvent::Opened { length: 0 },
            FetchEvent::Responded { range: Some(range) },
            FetchEvent::EndOfBody,
            FetchEvent::Chunk { len: 1 },
        ],
    ];
    for events in runs {
        let (state, actions, _) = run(events);
        assert_eq!(state, FetchState::Failed(FetchError::OutOfOrder));
        assert_eq!(actions.last(), Some(&FetchAction::Fail(FetchError::OutOfOrder)));
    }
}

#[test]
fn a_failed_transfer_stays_failed() {
    let (state, actions, _) = run(&[
        FetchEvent::Opened { length: 0 },
        FetchEvent::Responded { range: None },
        FetchEvent::Chunk { len: 4 },
        FetchEvent::Flushed,
    ]);
    assert_eq!(state, FetchState::Failed(FetchError::MissingOrInvalidRange));
    assert_eq!(actions[3], FetchAction::Fail(FetchError::MissingOrInvalidRange));
}

#[test]
fn only_the_ends_have_ended() {
    assert!(!FetchState::new().has_ended());
    assert!(!FetchState::Requesting { offset: 0 }.has_ended());
    assert!(!FetchState::Streaming { downloaded: 0, total: 1 }.has_ended());
    assert!(!FetchState::Flushing.has_ended());
    assert!(FetchState::Finished.has_ended());
    assert!(FetchState::Failed(FetchError::Network).has_ended());
}

#[test]
fn the_plan_follows_the_range() {
    assert_eq!(plan_resume(7, Some(ContentRange::Size(7))), Ok(None));
    assert_eq!(plan_resume(0, Some(ContentRange::Size(0))), Ok(None));
    assert_eq!(
        plan_resume(7, Some(ContentRange::Size(8))),
        Err(FetchError::SizeMismatch { local: 7, remote: 8 })
    );
    assert_eq!(
        plan_resume(7, Some(ContentRange::Full { start: 7, end: 9, size: 10 })),
        Ok(Some(10))
    );
    assert_eq!(plan_resume(7, None), Err(FetchError::MissingOrInvalidRange));
}

#[test]
fn the_body_starts_with_capped_progress() {
    let (state, actions, _) = run(&[
        FetchEvent::Opened { length: 30 },
        FetchEvent::Responded { range: Some(ContentRange::Full { start: 0, end: 19, size: 20 }) },
    ]);
    assert_eq!(state, FetchState::Streaming { downloaded: 20, total: 20 });
    assert_eq!(actions[1], FetchAction::Receive { downloaded: 20, total: 20 });
}

#[test]
fn a_range_built_outside_the_data_is_no_range() {
    for range in [
        ContentRange::Full { start: 19, end: 10, size: 5 },
        ContentRange::Full { start: 0, end: 20, size: 20 },
        ContentRange::Full { start: 0, end: 0, size: 0 },
    ] {
        assert_eq!(plan_resume(0, Some(range)), Err(FetchError::MissingOrInvalidRange));
        let (state, _, _) =
            run(&[FetchEvent::Opened { length: 0 }, FetchEvent::Responded { range: Some(range) }]);
        assert_eq!(state, FetchState::Failed(FetchError::MissingOrInvalidRange));
    }
}

#[test]
fn progress_is_capped_at_the_total() {
    assert_eq!(advance_progress(0, 0, 0), 0);
    assert_eq!(advance_progress(8, 5, 20), 13);
    assert_eq!(advance_progress(13, 7, 20), 20);
    assert_eq!(advance_progress(13, 8, 20), 20);
    assert_eq!(advance_progress(30, 1, 20), 20);
    assert_eq!(advance_progress(u64::MAX - 1, usize::MAX, u64::MAX), u64::MAX);
    assert_eq!(advance_progress(u64::MAX, usize::MAX, 5), 5);
}
