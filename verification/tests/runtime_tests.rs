use ledger_runtime::balances;
use ledger_runtime::proof_of_existence;
use ledger_runtime::runtime::{Block, Extrinsic, ExtrinsicReport, Header, Runtime, RuntimeCall};
use ledger_runtime::support::{Dispatch, Error};

#[test]
fn first_block_transfers() {
    let alice = "alice".to_string();
    let bob = "bob".to_string();
    let charlie = "charlie".to_string();

    let mut runtime = Runtime::new();
    runtime.balances.set_balance(&alice, 100);

    let block_1 = Block {
        header: Header { block_number: 1 },
        extrinsics: vec![
            Extrinsic {
                caller: alice.clone(),
                call: RuntimeCall::Balances(balances::Call::Transfer {
                    to: bob.clone(),
                    amount: 30,
                }),
            },
            Extrinsic {
                caller: alice.clone(),
                call: RuntimeCall::Balances(balances::Call::Transfer {
                    to: charlie.clone(),
                    amount: 20,
                }),
            },
        ],
    };

    let reports = runtime.execute_block(block_1).unwrap();
    assert!(reports.is_empty());

    assert_eq!(runtime.system.block_number(), 1);
    assert_eq!(runtime.balances.balance(&alice), 50);
    assert_eq!(runtime.balances.balance(&bob), 30);
    assert_eq!(runtime.balances.balance(&charlie), 20);
    assert_eq!(runtime.system.get_nonce(&alice), 2);
}

#[test]
fn second_block_claims() {
    let alice = "alice".to_string();
    let bob = "bob".to_string();

    let mut runtime = Runtime::new();
    runtime.balances.set_balance(&alice, 100);

    let block_1 = Block {
        header: Header { block_number: 1 },
        extrinsics: vec![Extrinsic {
            caller: alice.clone(),
            call: RuntimeCall::Balances(balances::Call::Transfer {
                to: bob.clone(),
                amount: 30,
            }),
        }],
    };
    runtime.execute_block(block_1).unwrap();

    let block_2 = Block {
        header: Header { block_number: 2 },
        extrinsics: vec![
            Extrinsic {
                caller: alice.clone(),
                call: RuntimeCall::ProofOfExistence(proof_of_existence::Call::CreateClaim {
                    claim: "doc1".to_string(),
                }),
            },
            Extrinsic {
                caller: bob.clone(),
                call: RuntimeCall::ProofOfExistence(proof_of_existence::Call::CreateClaim {
                    claim: "doc2".to_string(),
                }),
            },
        ],
    };

    let reports = runtime.execute_block(block_2).unwrap();
    assert!(reports.is_empty());

    assert_eq!(runtime.system.block_number(), 2);
    assert_eq!(
        runtime.proof_of_existence.get_claim(&"doc1".to_string()),
        Some(&alice)
    );
    assert_eq!(
        runtime.proof_of_existence.get_claim(&"doc2".to_string()),
        Some(&bob)
    );
}

#[test]
fn block_number_mismatch_aborts_block() {
    let alice = "alice".to_string();
    let bob = "bob".to_string();

    let mut runtime = Runtime::new();
    runtime.balances.set_balance(&alice, 100);

    let block = Block {
        header: Header { block_number: 5 },
        extrinsics: vec![Extrinsic {
            caller: alice.clone(),
            call: RuntimeCall::Balances(balances::Call::Transfer {
                to: bob.clone(),
                amount: 30,
            }),
        }],
    };

    let res = runtime.execute_block(block);
    assert_eq!(res, Err(Error::BlockNumberMismatch));
    assert_eq!(res.unwrap_err().message(), "Block number mismatch");

    // the counter still advanced, but no extrinsic was applied
    assert_eq!(runtime.system.block_number(), 1);
    assert_eq!(runtime.balances.balance(&alice), 100);
    assert_eq!(runtime.balances.balance(&bob), 0);
    assert_eq!(runtime.system.get_nonce(&alice), 0);
}

#[test]
fn failed_extrinsics_are_isolated_and_reported() {
    let alice = "alice".to_string();
    let bob = "bob".to_string();

    let mut runtime = Runtime::new();
    runtime.balances.set_balance(&alice, 10);

    let block = Block {
        header: Header { block_number: 1 },
        extrinsics: vec![
            // fails: alice only holds 10
            Extrinsic {
                caller: alice.clone(),
                call: RuntimeCall::Balances(balances::Call::Transfer {
                    to: bob.clone(),
                    amount: 50,
                }),
            },
            // succeeds despite the earlier failure
            Extrinsic {
                caller: alice.clone(),
                call: RuntimeCall::Balances(balances::Call::Transfer {
                    to: bob.clone(),
                    amount: 10,
                }),
            },
            // fails: the claim is already bob's
            Extrinsic {
                caller: bob.clone(),
                call: RuntimeCall::ProofOfExistence(proof_of_existence::Call::CreateClaim {
                    claim: "doc".to_string(),
                }),
            },
            Extrinsic {
                caller: alice.clone(),
                call: RuntimeCall::ProofOfExistence(proof_of_existence::Call::CreateClaim {
                    claim: "doc".to_string(),
                }),
            },
        ],
    };

    let reports = runtime.execute_block(block).unwrap();
    assert_eq!(
        reports,
        vec![
            ExtrinsicReport {
                block_number: 1,
                index: 0,
                error: Error::InsufficientBalance,
            },
            ExtrinsicReport {
                block_number: 1,
                index: 3,
                error: Error::ClaimExists,
            },
        ]
    );

    assert_eq!(runtime.balances.balance(&alice), 0);
    assert_eq!(runtime.balances.balance(&bob), 10);
    assert_eq!(
        runtime.proof_of_existence.get_claim(&"doc".to_string()),
        Some(&bob)
    );
}

#[test]
fn nonce_counts_attempts_not_successes() {
    let alice = "alice".to_string();
    let bob = "bob".to_string();

    let mut runtime = Runtime::new();
    // alice holds nothing, so every transfer she submits fails
    let block = Block {
        header: Header { block_number: 1 },
        extrinsics: vec![
            Extrinsic {
                caller: alice.clone(),
                call: RuntimeCall::Balances(balances::Call::Transfer {
                    to: bob.clone(),
                    amount: 1,
                }),
            },
            Extrinsic {
                caller: alice.clone(),
                call: RuntimeCall::Balances(balances::Call::Transfer {
                    to: bob.clone(),
                    amount: 2,
                }),
            },
        ],
    };

    let reports = runtime.execute_block(block).unwrap();
    assert_eq!(reports.len(), 2);
    assert_eq!(runtime.system.get_nonce(&alice), 2);
    assert_eq!(runtime.system.get_nonce(&bob), 0);
}

#[test]
fn runtime_routes_calls_to_the_owning_module() {
    let alice = "alice".to_string();
    let bob = "bob".to_string();

    let mut runtime = Runtime::new();
    runtime.balances.set_balance(&alice, 100);

    let res = runtime.dispatch(
        alice.clone(),
        RuntimeCall::Balances(balances::Call::Transfer {
            to: bob.clone(),
            amount: 25,
        }),
    );
    assert_eq!(res, Ok(()));
    assert_eq!(runtime.balances.balance(&alice), 75);
    assert_eq!(runtime.balances.balance(&bob), 25);

    let res = runtime.dispatch(
        bob.clone(),
        RuntimeCall::ProofOfExistence(proof_of_existence::Call::CreateClaim {
            claim: "doc".to_string(),
        }),
    );
    assert_eq!(res, Ok(()));

    let res = runtime.dispatch(
        bob.clone(),
        RuntimeCall::ProofOfExistence(proof_of_existence::Call::RemoveClaim {
            claim: "doc".to_string(),
        }),
    );
    assert_eq!(res, Ok(()));
    assert_eq!(
        runtime.proof_of_existence.get_claim(&"doc".to_string()),
        None
    );
}

#[test]
fn fresh_runtime_starts_empty_and_at_zero() {
    let runtime = Runtime::new();
    assert_eq!(runtime.system.block_number(), 0);
    assert_eq!(runtime.balances.balance(&"anyone".to_string()), 0);
    assert_eq!(runtime.system.get_nonce(&"anyone".to_string()), 0);
    assert_eq!(
        runtime.proof_of_existence.get_claim(&"anything".to_string()),
        None
    );
}
