use ppot_verifier::{
    calculate_hash, digests_agree, embedded_challenge_hash, proof_bytes, Baseline, Chain,
    RoundEvidence, RoundStatus,
};

/// A challenge of a toy ceremony.
fn challenge(round: u8) -> Vec<u8> {
    vec![round; 300]
}

/// A response that holds `hash` at its head and a proof after it.
fn response(hash: [u8; 64], round: u8) -> Vec<u8> {
    let mut bytes = hash.to_vec();
    bytes.extend_from_slice(&[round, 0xaa, 0xbb]);
    bytes
}

/// Gathers the evidence of a round from its artifacts as a caller would.
fn evidence(
    challenge: &[u8],
    recorded: [u8; 64],
    response: &[u8],
    verification: Result<(), &'static str>,
) -> RoundEvidence<&'static str> {
    RoundEvidence {
        recorded,
        actual: calculate_hash(challenge),
        embedded: embedded_challenge_hash(response).unwrap(),
        verification,
    }
}

#[test]
fn a_mismatched_round_is_marked_and_the_others_are_verified() {
    let challenges = [challenge(1), challenge(2), challenge(3)];
    let digests = [
        calculate_hash(&challenges[0]),
        calculate_hash(&challenges[1]),
        calculate_hash(&challenges[2]),
    ];
    let responses = [
        response(digests[0], 1),
        response(digests[0], 2),
        response(digests[2], 3),
    ];
    let mut chain = Chain::new(3);
    for round in 0..3 {
        assert_eq!(chain.next_round(), Some(round + 1));
        let gathered = evidence(&challenges[round], digests[round], &responses[round], Ok(()));
        assert_eq!(chain.record(gathered), Some(Baseline::Verified { round: round + 1 }));
    }
    assert_eq!(chain.next_round(), None);
    assert_eq!(
        chain.into_report(),
        vec![RoundStatus::Verified, RoundStatus::HashMismatch, RoundStatus::Verified]
    );
}

#[test]
fn the_scan_goes_on_after_a_failed_round() {
    let digest = calculate_hash(&challenge(0));
    let head = response(digest, 0);
    let outcomes = [Ok(()), Err("bad proof"), Ok(()), Err("worse proof"), Ok(())];
    let mut chain = Chain::new(5);
    assert_eq!(chain.baseline(), Baseline::Claimed { round: 1 });
    let mut carried = Vec::new();
    for outcome in outcomes {
        carried.push(chain.record(evidence(&challenge(0), digest, &head, outcome)).unwrap());
        assert_eq!(chain.baseline(), *carried.last().unwrap());
    }
    assert_eq!(
        carried,
        vec![
            Baseline::Verified { round: 1 },
            Baseline::Claimed { round: 3 },
            Baseline::Verified { round: 3 },
            Baseline::Claimed { round: 5 },
            Baseline::Verified { round: 5 },
        ]
    );
    assert_eq!(
        chain.statuses(),
        &vec![
            RoundStatus::Verified,
            RoundStatus::VerificationFailure("bad proof"),
            RoundStatus::Verified,
            RoundStatus::VerificationFailure("worse proof"),
            RoundStatus::Verified,
        ]
    );
}

#[test]
fn a_round_past_the_last_is_not_taken() {
    let digest = calculate_hash(&challenge(0));
    let head = response(digest, 0);
    let mut chain = Chain::new(1);
    assert!(chain.record(evidence(&challenge(0), digest, &head, Ok(()))).is_some());
    assert_eq!(chain.record(evidence(&challenge(0), digest, &head, Err("late"))), None);
    assert_eq!(chain.baseline(), Baseline::Verified { round: 1 });
    assert_eq!(chain.into_report(), vec![RoundStatus::Verified]);
    let mut none: Chain<&'static str> = Chain::new(0);
    assert_eq!(none.next_round(), None);
    assert_eq!(none.record(evidence(&challenge(0), digest, &head, Ok(()))), None);
    assert!(none.into_report().is_empty());
}

#[test]
fn a_mismatch_comes_before_the_proof() {
    let digest = calculate_hash(&challenge(7));
    let mut other = digest;
    other[63] ^= 1;
    let cases = [
        (digest, digest, Ok(()), RoundStatus::Verified),
        (digest, digest, Err("bad"), RoundStatus::VerificationFailure("bad")),
        (other, digest, Ok(()), RoundStatus::HashMismatch),
        (digest, other, Ok(()), RoundStatus::HashMismatch),
        (other, other, Ok(()), RoundStatus::HashMismatch),
        (other, digest, Err("bad"), RoundStatus::HashMismatch),
    ];
    for (recorded, embedded, verification, expected) in cases {
        let gathered = RoundEvidence { recorded, actual: digest, embedded, verification };
        assert_eq!(gathered.hashes_agree(), expected != RoundStatus::HashMismatch);
        assert_eq!(gathered.status(), expected);
    }
}

#[test]
fn a_failed_proof_claims_the_next_state_whatever_the_digests_say() {
    let digest = calculate_hash(&challenge(7));
    let mut other = digest;
    other[0] ^= 0x80;
    let mut chain = Chain::new(2);
    let gathered =
        RoundEvidence { recorded: other, actual: digest, embedded: digest, verification: Err("e") };
    assert_eq!(chain.record(gathered), Some(Baseline::Claimed { round: 2 }));
    assert_eq!(chain.statuses(), &vec![RoundStatus::HashMismatch]);
}

#[test]
fn statuses_tell_what_they_are() {
    let verified: RoundStatus<u8> = RoundStatus::Verified;
    let mismatch: RoundStatus<u8> = RoundStatus::HashMismatch;
    let failure: RoundStatus<u8> = RoundStatus::VerificationFailure(3);
    assert!(verified.is_verified() && !verified.is_hash_mismatch());
    assert!(!mismatch.is_verified() && mismatch.is_hash_mismatch());
    assert!(!failure.is_verified() && !failure.is_hash_mismatch());
}

#[test]
fn digests_agree_byte_by_byte() {
    let digest = calculate_hash(b"abc");
    assert!(digests_agree(&digest, &digest));
    for at in [0, 31, 63] {
        let mut other = digest;
        other[at] = other[at].wrapping_add(1);
        assert!(!digests_agree(&digest, &other));
        assert!(!digests_agree(&other, &digest));
    }
}

#[test]
fn the_head_of_a_response_is_its_first_64_bytes() {
    let bytes: Vec<u8> = (0..100).collect();
    let head = embedded_challenge_hash(&bytes).unwrap();
    assert_eq!(head.to_vec(), bytes[..64].to_vec());
    assert_eq!(proof_bytes(&bytes), Some(&bytes[64..]));
    assert_eq!(embedded_challenge_hash(&bytes[..64]).unwrap().to_vec(), bytes[..64].to_vec());
    assert_eq!(proof_bytes(&bytes[..64]), Some(&bytes[..0]));
}

#[test]
fn a_short_response_has_no_head() {
    let bytes: Vec<u8> = (0..63).collect();
    assert_eq!(embedded_challenge_hash(&bytes), None);
    assert_eq!(proof_bytes(&bytes), None);
    assert_eq!(embedded_challenge_hash(&[]), None);
    assert_eq!(proof_bytes(&[]), None);
}
