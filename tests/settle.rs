use bridge_relayer::{
    classify_submission, decode_log, parse_signer_identity, revert_reason, sign_message,
    unix_millis, elapsed_millis, Batch, BatchAccumulator, CompensationPass, FailureCause,
    NonceSequencer, RawLog, Settlement, SettlementAction, SettlementOutcome, SigningError,
    SubmissionReport, SubmissionResult, TxnMeta,
};

const SECRET: &str = "9d61b19deffd5a60ba844af492ec2cc44449c5697b326919703bac031cae7f60";
const PUBLIC: &str = "d75a980182b10ab7d54bfed3c964073a0ee172f3daa62325af021a68f707511a";
const EMPTY_SIG: &str = "e5564300c360ac729086e2cc806e828a84877f1eb8e5d974d873e065224901555fb8821590a33bacc61e39701cf9b46bd25bf5f0595bbe24655141438e7a100b";

fn word(last: &[u8]) -> Vec<u8> {
    let mut w = vec![0u8; 32 - last.len()];
    w.extend_from_slice(last);
    w
}

fn log_for(n: u8) -> RawLog {
    let mut from = vec![0u8; 12];
    from.extend(std::iter::repeat(0x10 + n).take(20));
    let mut data = Vec::new();
    data.extend(word(&[0x64]));
    data.extend(from);
    data.extend(word(&[n, 0x01]));
    data.extend(word(&[]));
    data.extend(word(&[]));
    RawLog { topics: vec![vec![0u8; 32], word(&[n]), word(&[n]), word(&[n])], data }
}

fn batch_of(ns: &[u8], now: u64) -> Batch {
    let mut acc = BatchAccumulator::new(ns.len(), 60, now);
    let mut out = None;
    for &n in ns {
        let (e, m) = decode_log(&log_for(n)).unwrap();
        out = acc.on_event(e, vec![n, n + 1], m, now);
    }
    out.unwrap()
}

fn abi_string(text: &str) -> Vec<u8> {
    let mut out = word(&[0x20]);
    out.extend(word(&[text.len() as u8]));
    let mut body = text.as_bytes().to_vec();
    while body.len() % 32 != 0 {
        body.push(0);
    }
    out.extend(body);
    out
}

fn error_string(text: &str) -> Vec<u8> {
    let mut out = vec![0x08, 0xc3, 0x79, 0xa0];
    out.extend(abi_string(text));
    out
}

fn signed_settlement(ns: &[u8], timeout_ms: u64) -> Settlement {
    let mut s = Settlement::new(batch_of(ns, 0), timeout_ms);
    assert_eq!(s.next_action(), SettlementAction::RequestMessage);
    s.on_message(Ok(vec![0xde, 0xad]));
    assert_eq!(s.next_action(), SettlementAction::Sign);
    s.sign(SECRET, PUBLIC);
    assert_eq!(s.next_action(), SettlementAction::Submit);
    s
}

fn run_pass(pass: &mut CompensationPass, fail_at: Option<usize>) {
    while let Some(a) = pass.next_attempt() {
        if Some(a.index) == fail_at {
            pass.record_result(Err(format!("nonce too low at {}", a.index)));
        } else {
            pass.record_result(Ok(()));
        }
    }
}

#[test]
fn signs_with_rfc8032_vector() {
    let sig = sign_message(SECRET, &[]).unwrap();
    assert_eq!(sig, hex::decode(EMPTY_SIG).unwrap());
    assert_eq!(parse_signer_identity(PUBLIC).unwrap().to_vec(), hex::decode(PUBLIC).unwrap());
}

#[test]
fn bad_keys_fail_signing() {
    assert_eq!(sign_message("zz", &[1]), Err(SigningError::KeyNotHex));
    assert_eq!(sign_message("abc", &[1]), Err(SigningError::KeyNotHex));
    assert_eq!(sign_message("abcd", &[1]), Err(SigningError::KeyLength));
    assert_eq!(parse_signer_identity(""), Err(SigningError::KeyLength));
}

#[test]
fn full_settlement_commits() {
    let mut s = signed_settlement(&[1, 2], 3000);
    let req = s.submit();
    assert_eq!(req.message, vec![0xde, 0xad]);
    assert_eq!(req.signature, sign_message(SECRET, &[0xde, 0xad]).unwrap());
    assert_eq!(req.signer_identity.to_vec(), hex::decode(PUBLIC).unwrap());
    assert_eq!(s.next_action(), SettlementAction::AwaitResult);
    s.on_report(SubmissionReport { elapsed_ms: 1200, result: SubmissionResult::Confirmed });
    assert_eq!(s.outcome(), Some(&SettlementOutcome::Committed));
    assert_eq!(s.next_action(), SettlementAction::Finished);
    assert!(s.compensation(10).is_none());
}

#[test]
fn message_request_keeps_insertion_order() {
    let s = Settlement::new(batch_of(&[5, 3, 9], 0), 3000);
    assert_eq!(s.message_request(), &vec![vec![5u8, 6], vec![3, 4], vec![9, 10]]);
}

#[test]
fn identical_txns_give_identical_requests_and_signatures() {
    let a = Settlement::new(batch_of(&[4, 7], 0), 3000);
    let b = Settlement::new(batch_of(&[4, 7], 50), 9000);
    assert_eq!(a.message_request(), b.message_request());
    let mut a = signed_settlement(&[4, 7], 3000);
    let mut b = signed_settlement(&[4, 7], 3000);
    assert_eq!(a.submit(), b.submit());
}

#[test]
fn timeout_wins_over_a_late_success() {
    let mut s = signed_settlement(&[1, 2, 3], 3000);
    s.submit();
    s.on_report(SubmissionReport { elapsed_ms: 3000, result: SubmissionResult::NoResponse });
    assert_eq!(s.outcome(), Some(&SettlementOutcome::TimedOut));
    assert_eq!(s.next_action(), SettlementAction::Compensate);
    let late = SubmissionReport { elapsed_ms: 5000, result: SubmissionResult::Confirmed };
    assert_eq!(classify_submission(late, 3000), SettlementOutcome::TimedOut);
    let mut pass = s.compensation(25).unwrap();
    let meta: Vec<TxnMeta> = s.batch().compensation_meta().clone();
    assert_eq!(pass.targets(), &meta);
    run_pass(&mut pass, None);
    assert_eq!(pass.records().len(), 3);
    for (i, r) in pass.records().iter().enumerate() {
        assert_eq!(r.attempt.from, meta[i].from);
        assert_eq!(r.attempt.amount, meta[i].amount);
        assert_eq!(r.error, None);
    }
}

#[test]
fn revert_string_is_decoded_and_compensated() {
    let mut s = signed_settlement(&[8, 9], 3000);
    s.submit();
    s.on_report(SubmissionReport {
        elapsed_ms: 800,
        result: SubmissionResult::Rejected {
            revert_data: error_string("insufficient balance"),
            error_text: "execution reverted".to_string(),
        },
    });
    assert_eq!(s.outcome(), Some(&SettlementOutcome::Reverted("insufficient balance".to_string())));
    let mut pass = s.compensation(0).unwrap();
    run_pass(&mut pass, None);
    assert_eq!(pass.records().len(), 2);
}

#[test]
fn undecodable_revert_keeps_raw_text() {
    let raw = "reverted: 0x1234".to_string();
    assert_eq!(revert_reason(&[0x12, 0x34], raw.clone()), raw);
    let mut wrong_selector = error_string("x");
    wrong_selector[0] = 0x4e;
    assert_eq!(revert_reason(&wrong_selector, raw.clone()), raw);
    let mut truncated = error_string("insufficient balance");
    truncated.truncate(4 + 64 + 5);
    assert_eq!(revert_reason(&truncated, raw.clone()), raw);
    assert_eq!(revert_reason(&error_string("no"), raw), "no");
}

#[test]
fn transport_failure_is_submission_failed() {
    let report = SubmissionReport {
        elapsed_ms: 10,
        result: SubmissionResult::TransportFailed("connection reset".to_string()),
    };
    assert_eq!(
        classify_submission(report, 3000),
        SettlementOutcome::SubmissionFailed(FailureCause::Transport("connection reset".to_string()))
    );
}

#[test]
fn encoding_failure_still_compensates() {
    let mut s = Settlement::new(batch_of(&[1, 2], 0), 3000);
    s.on_message(Err("view call failed".to_string()));
    assert_eq!(
        s.outcome(),
        Some(&SettlementOutcome::SubmissionFailed(FailureCause::Encoding(
            "view call failed".to_string()
        )))
    );
    let pass = s.compensation(5).unwrap();
    assert_eq!(pass.targets(), s.batch().compensation_meta());
}

#[test]
fn signing_failure_is_fatal() {
    let mut s = Settlement::new(batch_of(&[1], 0), 3000);
    s.on_message(Ok(vec![1]));
    s.sign("not hex", PUBLIC);
    assert_eq!(
        s.outcome(),
        Some(&SettlementOutcome::SubmissionFailed(FailureCause::Signing(SigningError::KeyNotHex)))
    );
    assert_eq!(s.next_action(), SettlementAction::Compensate);
    let mut t = Settlement::new(batch_of(&[1], 0), 3000);
    t.on_message(Ok(vec![1]));
    t.sign(SECRET, "00");
    assert_eq!(
        t.outcome(),
        Some(&SettlementOutcome::SubmissionFailed(FailureCause::Signing(SigningError::KeyLength)))
    );
}

#[test]
fn transport_failure_before_submission() {
    let mut s = Settlement::new(batch_of(&[1], 0), 3000);
    s.fail("rpc down".to_string());
    assert_eq!(
        s.outcome(),
        Some(&SettlementOutcome::SubmissionFailed(FailureCause::Transport("rpc down".to_string())))
    );
}

#[test]
fn compensation_continues_past_a_failure() {
    let meta: Vec<TxnMeta> = batch_of(&[1, 2, 3], 0).compensation_meta().clone();
    let mut pass = CompensationPass::new(meta.clone(), 40);
    run_pass(&mut pass, Some(1));
    assert!(pass.is_finished());
    let recs = pass.records();
    assert_eq!(recs.len(), 3);
    assert_eq!(recs[0].attempt.delay_before_ms, 0);
    assert_eq!(recs[1].attempt.delay_before_ms, 40);
    assert_eq!(recs[1].error, Some("nonce too low at 1".to_string()));
    assert_eq!(recs[2].error, None);
    for (i, r) in recs.iter().enumerate() {
        assert_eq!(r.attempt.index, i);
        assert_eq!(r.attempt.from, meta[i].from);
        assert_eq!(r.attempt.amount, meta[i].amount);
    }
    assert!(pass.next_attempt().is_none());
}

#[test]
fn batches_may_commit_in_either_order() {
    // Out-of-order commits across batches are tolerated: each settlement is
    // judged on its own batch and report alone.
    let mut first = signed_settlement(&[1], 3000);
    let mut second = signed_settlement(&[2], 3000);
    first.submit();
    second.submit();
    second.on_report(SubmissionReport { elapsed_ms: 100, result: SubmissionResult::Confirmed });
    assert_eq!(first.next_action(), SettlementAction::AwaitResult);
    first.on_report(SubmissionReport { elapsed_ms: 900, result: SubmissionResult::Confirmed });
    assert_eq!(first.outcome(), Some(&SettlementOutcome::Committed));
    assert_eq!(second.outcome(), Some(&SettlementOutcome::Committed));
}

#[test]
fn nonces_are_never_shared() {
    let mut seq = NonceSequencer::new(7);
    assert_eq!(seq.assign(), Some(7));
    assert_eq!(seq.assign(), Some(8));
    assert_eq!(seq.peek(), 9);
    let mut last = NonceSequencer::new(u64::MAX);
    assert_eq!(last.assign(), None);
    assert_eq!(last.peek(), u64::MAX);
}

#[test]
fn millisecond_clock_arithmetic() {
    assert_eq!(unix_millis(1_700_000_000, 250), Some(1_700_000_000_250));
    assert_eq!(unix_millis(u64::MAX / 1000, 999), None);
    assert_eq!(elapsed_millis(1000, 4500), 3500);
    assert_eq!(elapsed_millis(4500, 1000), 0);
}
