use edge_connect::scheduler::RelayCycleContext;
use edge_connect::scheduler::complete_cycle;
use edge_connect::scheduler::plan_cycle;
use edge_connect::strategy::TransactionType;
use edge_connect::strategy::choose_transaction_type;
use edge_connect::submitter::RelayError;
use edge_connect::submitter::Submission;
use edge_connect::submitter::plan_submissions;
use edge_connect::validator::Call;
use edge_connect::validator::validate_unsigned;

fn context(height: u64, signers: Vec<u64>) -> RelayCycleContext {
    RelayCycleContext { height, parent_hash: 0, local_signers: signers }
}

#[test]
fn strategy_selection_is_deterministic() {
    for height in [0u64, 1, 2, 3, 4, 17, 1_000_003] {
        let first = choose_transaction_type(height);
        for _ in 0..5 {
            assert_eq!(choose_transaction_type(height), first);
        }
    }
}

#[test]
fn strategy_selection_walks_the_five_strategies() {
    assert_eq!(choose_transaction_type(0), TransactionType::Signed);
    assert_eq!(choose_transaction_type(1), TransactionType::UnsignedForAny);
    assert_eq!(choose_transaction_type(2), TransactionType::UnsignedForAll);
    assert_eq!(choose_transaction_type(3), TransactionType::Raw);
    assert_eq!(choose_transaction_type(4), TransactionType::NoSubmission);
    assert_eq!(choose_transaction_type(5), TransactionType::Signed);
    assert_eq!(choose_transaction_type(9), TransactionType::NoSubmission);
}

#[test]
fn validator_admits_relay_call_with_fixed_parameters() {
    let decision = validate_unsigned(&Call::RelayResponse { key: 42 })
        .expect("the relay call shape is admitted");
    assert_eq!(decision.provides_tag, b"edge-relay".to_vec());
    assert_eq!(decision.priority, 100);
    assert_eq!(decision.longevity, 3);
    assert!(decision.propagate);
}

#[test]
fn validator_tag_is_stable_across_identical_calls() {
    let first = validate_unsigned(&Call::RelayResponse { key: 7 }).unwrap();
    let second = validate_unsigned(&Call::RelayResponse { key: 7 }).unwrap();
    assert_eq!(first.provides_tag, second.provides_tag);
    assert_eq!(first, second);
}

#[test]
fn validator_rejects_unrecognized_call_shapes() {
    let rejected = [
        Call::CreateConnection { connection: 1 },
        Call::SendCommand { command: String::from("boot") },
        Call::ReceiveResponse,
        Call::RemoveConnection { connection: 1 },
    ];
    for call in rejected {
        assert!(validate_unsigned(&call).is_err());
    }
}

#[test]
fn plans_match_their_strategy() {
    let signers: Vec<u64> = vec![10, 20, 30];
    assert_eq!(
        plan_submissions(TransactionType::Signed, &signers, 0),
        vec![
            Submission::SignedTx { signer: 10 },
            Submission::SignedTx { signer: 20 },
            Submission::SignedTx { signer: 30 },
        ]
    );
    assert_eq!(
        plan_submissions(TransactionType::UnsignedForAny, &signers, 1),
        vec![Submission::UnsignedTx { signer: 10 }]
    );
    assert_eq!(
        plan_submissions(TransactionType::UnsignedForAll, &signers, 2),
        vec![
            Submission::UnsignedTx { signer: 10 },
            Submission::UnsignedTx { signer: 20 },
            Submission::UnsignedTx { signer: 30 },
        ]
    );
    assert_eq!(
        plan_submissions(TransactionType::Raw, &signers, 3),
        vec![Submission::RawTx { height: 3 }]
    );
    assert_eq!(plan_submissions(TransactionType::NoSubmission, &signers, 4), vec![]);
}

#[test]
fn cycle_without_local_signers_reports_and_plans_nothing() {
    let ctx = context(0, vec![]);
    assert!(matches!(
        plan_cycle(&ctx, Some(String::from("pong"))),
        Err(RelayError::NoLocalSigners)
    ));
}

#[test]
fn cycle_plan_carries_strategy_submissions_and_response() {
    let ctx = context(10, vec![1, 2]);
    let plan = plan_cycle(&ctx, Some(String::from("pong"))).unwrap();
    assert_eq!(plan.strategy, TransactionType::Signed);
    assert_eq!(
        plan.submissions,
        vec![
            Submission::SignedTx { signer: 1 },
            Submission::SignedTx { signer: 2 },
        ]
    );
    assert_eq!(plan.response, Some(String::from("pong")));
}

#[test]
fn signed_cycle_with_one_induced_failure_keeps_other_successes() {
    let ctx = context(5, vec![1, 2, 3, 4]);
    let plan = plan_cycle(&ctx, None).unwrap();
    assert_eq!(plan.strategy, TransactionType::Signed);
    let results = vec![true, false, true, true];
    let outcome = complete_cycle(plan, &results);
    assert_eq!(outcome.result, Err(RelayError::SubmissionFailed));
    assert_eq!(
        outcome.succeeded,
        vec![
            Submission::SignedTx { signer: 1 },
            Submission::SignedTx { signer: 3 },
            Submission::SignedTx { signer: 4 },
        ]
    );
    assert_eq!(outcome.failed, vec![Submission::SignedTx { signer: 2 }]);
    assert_eq!(outcome.attempted.len(), 4);
}

#[test]
fn cycle_with_all_successes_reports_ok() {
    let ctx = context(2, vec![8, 9]);
    let plan = plan_cycle(&ctx, None).unwrap();
    assert_eq!(plan.strategy, TransactionType::UnsignedForAll);
    let results = vec![true, true];
    let outcome = complete_cycle(plan, &results);
    assert_eq!(outcome.result, Ok(()));
    assert_eq!(outcome.succeeded.len(), 2);
    assert!(outcome.failed.is_empty());
}

#[test]
fn quiet_cycle_completes_with_nothing_attempted() {
    let ctx = context(4, vec![1]);
    let plan = plan_cycle(&ctx, None).unwrap();
    assert_eq!(plan.strategy, TransactionType::NoSubmission);
    assert!(plan.submissions.is_empty());
    let outcome = complete_cycle(plan, &vec![]);
    assert_eq!(outcome.result, Ok(()));
    assert!(outcome.attempted.is_empty());
}

#[test]
fn whole_cycle_strategies_fail_as_a_unit() {
    let ctx = context(3, vec![6]);
    let plan = plan_cycle(&ctx, None).unwrap();
    assert_eq!(plan.strategy, TransactionType::Raw);
    assert_eq!(plan.submissions, vec![Submission::RawTx { height: 3 }]);
    let outcome = complete_cycle(plan, &vec![false]);
    assert_eq!(outcome.result, Err(RelayError::SubmissionFailed));
    assert!(outcome.succeeded.is_empty());
}
