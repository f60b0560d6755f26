use ppot_verifier::{summarize, EntryOutcome, FetchError, Probe};

#[test]
fn only_the_status_ok_passes() {
    assert!(Probe::Status(200).passes());
    assert!(!Probe::Status(206).passes());
    assert!(!Probe::Status(404).passes());
    assert!(!Probe::Status(500).passes());
    assert!(!Probe::Status(0).passes());
    assert!(!Probe::Unreachable.passes());
}

#[test]
fn an_entry_goes_by_its_probe_and_its_transfer() {
    assert_eq!(EntryOutcome::of(Probe::Status(200), Ok(())), EntryOutcome::Completed);
    assert_eq!(
        EntryOutcome::of(Probe::Status(200), Err(FetchError::Network)),
        EntryOutcome::Failed(FetchError::Network)
    );
    assert_eq!(
        EntryOutcome::of(Probe::Status(404), Ok(())),
        EntryOutcome::Skipped(Probe::Status(404))
    );
    assert_eq!(
        EntryOutcome::of(Probe::Unreachable, Err(FetchError::Network)),
        EntryOutcome::Skipped(Probe::Unreachable)
    );
}

#[test]
fn a_batch_without_failure_succeeds() {
    let report = summarize(&vec![EntryOutcome::Completed; 5]);
    assert!(report.failed.is_empty());
    assert!(report.is_success());
    assert!(summarize(&Vec::new()).is_success());
}

#[test]
fn every_failure_is_listed_in_order() {
    let outcomes = vec![
        EntryOutcome::Failed(FetchError::MissingOrInvalidRange),
        EntryOutcome::Completed,
        EntryOutcome::Skipped(Probe::Status(404)),
        EntryOutcome::Completed,
        EntryOutcome::Failed(FetchError::SizeMismatch { local: 3, remote: 2 }),
    ];
    let report = summarize(&outcomes);
    assert_eq!(report.failed, vec![0, 2, 4]);
    assert!(!report.is_success());
}

#[test]
fn one_failed_probe_leaves_the_others_alone() {
    for k in 1..8 {
        for unlucky in 0..k {
            let outcomes: Vec<EntryOutcome> = (0..k)
                .map(|i| {
                    let probe = if i == unlucky { Probe::Status(404) } else { Probe::Status(200) };
                    EntryOutcome::of(probe, Ok(()))
                })
                .collect();
            for (i, outcome) in outcomes.iter().enumerate() {
                assert_eq!(outcome.is_completed(), i != unlucky);
            }
            assert_eq!(summarize(&outcomes).failed, vec![unlucky]);
        }
    }
}
