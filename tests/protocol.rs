use lezard::{
    await_progress, build_unsigned_invocation, commit_post_state, double_post_state,
    preset_account_ids, read_u64, witnesses_cover, Account, AccountId, AccountPostState,
    ConfirmationWaiter, LezardError, LocalEngine, Message, Ownership, ProgramDeploymentTransaction,
    ProgramId, PublicTransaction, RejectReason, ValidationIssue, WaitStep, Witness, WitnessSet,
    ACCOUNT_DATA_MAX_LEN, NUM_PRESET_ACCOUNTS,
};

fn program(n: u32) -> ProgramId {
    ProgramId::new([n; 8])
}

fn deploy(engine: &mut LocalEngine, p: ProgramId) {
    let tx = ProgramDeploymentTransaction::new(vec![0x7f, b'E', b'L', b'F']);
    engine.submit_deployment(&tx, p);
}

/// Runs the doubling program on `id` through the engine, as the engine
/// would after executing its bytecode.
fn invoke_double(engine: &mut LocalEngine, p: ProgramId, id: AccountId) -> Result<(), LezardError> {
    let tx = build_unsigned_invocation(p, vec![id], vec![])?;
    let pre = engine.read_account(&id);
    let post = double_post_state(&pre).expect("doubling program fails");
    engine.submit_invocation(&tx, &vec![post])
}

/// Polls the engine every 200 ms of simulated time until a block after the
/// current one appears; the engine produces it after the second poll.
fn confirm_block(engine: &mut LocalEngine) -> u64 {
    let initial = engine.last_block_height();
    let waiter = ConfirmationWaiter::new(initial, 2000);
    let mut elapsed: u64 = 0;
    let mut polls: u64 = 0;
    loop {
        elapsed += 200;
        polls += 1;
        if polls == 3 {
            engine.produce_block();
        }
        match waiter.on_poll(engine.last_block_height(), elapsed) {
            WaitStep::Progressed(h) => {
                assert!(h > initial);
                assert_eq!(polls, 3);
                return h;
            }
            WaitStep::Sleep => {}
            WaitStep::TimedOut(h) => panic!("stalled at block {h}"),
        }
    }
}

#[test]
fn double_program() {
    let mut engine = LocalEngine::new();
    let account_id = AccountId::new([42; 32]);

    // Account starts uninitialized
    let account = engine.read_account(&account_id);
    assert_eq!(account.program_owner, ProgramId::default_id());
    assert!(account.data.is_empty());

    // Deploy the double program
    let program_id = program(9);
    deploy(&mut engine, program_id);
    confirm_block(&mut engine);

    // First call: empty -> 1
    invoke_double(&mut engine, program_id, account_id).unwrap();
    confirm_block(&mut engine);
    let account = engine.read_account(&account_id);
    assert_eq!(account.program_owner, program_id);
    assert_eq!(read_u64(&account.data), Some(1));

    // Second call: 1 -> 2
    invoke_double(&mut engine, program_id, account_id).unwrap();
    confirm_block(&mut engine);
    let account = engine.read_account(&account_id);
    assert_eq!(read_u64(&account.data), Some(2));

    // Third call: 2 -> 4
    invoke_double(&mut engine, program_id, account_id).unwrap();
    confirm_block(&mut engine);
    let account = engine.read_account(&account_id);
    assert_eq!(read_u64(&account.data), Some(4));
    assert_eq!(account.program_owner, program_id);
}

#[test]
fn fresh_account_reads_default() {
    let engine = LocalEngine::new();
    for id in preset_account_ids() {
        let a = engine.read_account(&id);
        assert_eq!(a.program_owner, ProgramId::default_id());
        assert!(a.data.is_empty());
        assert_eq!(a.ownership(), Ownership::Unclaimed);
    }
    let d = Account::new_default();
    assert_eq!(d.program_owner, ProgramId::new([0; 8]));
    assert_eq!(d.data, Vec::<u8>::new());
}

#[test]
fn owner_kept_across_invocations() {
    let mut engine = LocalEngine::new();
    let p = program(3);
    let id = AccountId::new([5; 32]);
    deploy(&mut engine, p);
    for _ in 0..5 {
        invoke_double(&mut engine, p, id).unwrap();
        assert_eq!(engine.read_account(&id).program_owner, p);
        assert_eq!(engine.read_account(&id).ownership(), Ownership::ClaimedBy(p));
    }
    assert_eq!(read_u64(&engine.read_account(&id).data), Some(16));
}

#[test]
fn foreign_program_cannot_mutate() {
    let mut engine = LocalEngine::new();
    let p = program(3);
    let q = program(4);
    let id = AccountId::new([5; 32]);
    deploy(&mut engine, p);
    deploy(&mut engine, q);
    invoke_double(&mut engine, p, id).unwrap();
    let r = invoke_double(&mut engine, q, id);
    assert_eq!(r, Err(LezardError::Rejected(RejectReason::ForeignOwner)));
    let a = engine.read_account(&id);
    assert_eq!(a.program_owner, p);
    assert_eq!(read_u64(&a.data), Some(1));
}

#[test]
fn unknown_program_rejected() {
    let mut engine = LocalEngine::new();
    let id = AccountId::new([1; 32]);
    let r = invoke_double(&mut engine, program(8), id);
    assert_eq!(r, Err(LezardError::Rejected(RejectReason::UnknownProgram)));
    assert!(engine.read_account(&id).data.is_empty());
}

#[test]
fn post_state_count_and_duplicates_rejected() {
    let mut engine = LocalEngine::new();
    let p = program(2);
    deploy(&mut engine, p);
    let a = AccountId::new([1; 32]);
    let b = AccountId::new([2; 32]);
    let post = double_post_state(&Account::new_default()).unwrap();

    let tx = build_unsigned_invocation(p, vec![a, b], vec![]).unwrap();
    let r = engine.submit_invocation(&tx, &vec![post.clone()]);
    assert_eq!(r, Err(LezardError::Rejected(RejectReason::PostStateCount)));

    let tx = build_unsigned_invocation(p, vec![a, a], vec![]).unwrap();
    let r = engine.submit_invocation(&tx, &vec![post.clone(), post.clone()]);
    assert_eq!(r, Err(LezardError::Rejected(RejectReason::DuplicateAccount)));

    let tx = build_unsigned_invocation(p, vec![a, b], vec![]).unwrap();
    engine.submit_invocation(&tx, &vec![post.clone(), post]).unwrap();
    assert_eq!(engine.read_account(&a).program_owner, p);
    assert_eq!(engine.read_account(&b).program_owner, p);
}

#[test]
fn rejected_invocation_changes_nothing() {
    let mut engine = LocalEngine::new();
    let p = program(2);
    deploy(&mut engine, p);
    let a = AccountId::new([1; 32]);
    let b = AccountId::new([2; 32]);
    let good = double_post_state(&Account::new_default()).unwrap();
    let mut bad = good.clone();
    bad.account.program_owner = program(6);
    let tx = build_unsigned_invocation(p, vec![a, b], vec![]).unwrap();
    let r = engine.submit_invocation(&tx, &vec![good, bad]);
    assert_eq!(r, Err(LezardError::Rejected(RejectReason::OwnerChanged)));
    assert!(engine.read_account(&a).data.is_empty());
    assert_eq!(engine.read_account(&a).program_owner, ProgramId::default_id());
}

#[test]
fn commit_rules() {
    let p = program(1);
    let pre = Account::new_default();
    let unclaimed = AccountPostState::new(Account {
        program_owner: ProgramId::default_id(),
        data: vec![1, 2],
    });
    let a = commit_post_state(&pre, &unclaimed, p).unwrap();
    assert_eq!(a.program_owner, ProgramId::default_id());
    assert_eq!(a.data, vec![1, 2]);

    let too_long = AccountPostState::new_claimed(Account {
        program_owner: ProgramId::default_id(),
        data: vec![0; ACCOUNT_DATA_MAX_LEN + 1],
    });
    assert_eq!(commit_post_state(&pre, &too_long, p), Err(RejectReason::DataTooLong));

    let max = AccountPostState::new_claimed(Account {
        program_owner: ProgramId::default_id(),
        data: vec![0; ACCOUNT_DATA_MAX_LEN],
    });
    assert_eq!(commit_post_state(&pre, &max, p).unwrap().program_owner, p);

    let owned = Account { program_owner: p, data: vec![3] };
    let unchanged = AccountPostState::new(owned.clone());
    assert_eq!(commit_post_state(&owned, &unchanged, program(2)), Ok(owned.clone()));
    let claim_foreign = AccountPostState::new_claimed(owned.clone());
    assert_eq!(
        commit_post_state(&owned, &claim_foreign, program(2)),
        Err(RejectReason::ForeignOwner)
    );
}

#[test]
fn double_post_state_values() {
    let pre = Account { program_owner: program(1), data: 21u64.to_le_bytes().to_vec() };
    let post = double_post_state(&pre).unwrap();
    assert!(!post.claim);
    assert_eq!(post.account.program_owner, program(1));
    assert_eq!(post.account.data, 42u64.to_le_bytes().to_vec());

    let fresh = double_post_state(&Account::new_default()).unwrap();
    assert!(fresh.claim);
    assert_eq!(fresh.account.data, vec![1, 0, 0, 0, 0, 0, 0, 0]);

    let big = Account { program_owner: program(1), data: (u64::MAX / 2 + 1).to_le_bytes().to_vec() };
    assert!(double_post_state(&big).is_none());
    let odd = Account { program_owner: program(1), data: vec![1, 2, 3] };
    assert!(double_post_state(&odd).is_none());
}

#[test]
fn read_u64_little_endian() {
    assert_eq!(read_u64(&vec![1, 2, 0, 0, 0, 0, 0, 0]), Some(513));
    assert_eq!(read_u64(&vec![0xff; 8]), Some(u64::MAX));
    assert_eq!(read_u64(&vec![]), None);
    assert_eq!(read_u64(&vec![0; 9]), None);
}

#[test]
fn await_progress_outcomes() {
    assert_eq!(await_progress(5, 200, 2000, &vec![5, 5, 6]), Ok(6));
    assert_eq!(await_progress(5, 200, 2000, &vec![7]), Ok(7));
    assert_eq!(await_progress(5, 200, 2000, &vec![4, 5, 9]), Ok(9));
    // ten readings fit in the bound, the eleventh comes after 2200 ms
    let stalled = vec![5; 20];
    assert_eq!(
        await_progress(5, 200, 2000, &stalled),
        Err(LezardError::Timeout { stalled_at: 5 })
    );
    let mut late = vec![5; 10];
    late.push(6);
    assert_eq!(await_progress(5, 200, 2000, &late), Ok(6));
    assert_eq!(await_progress(5, 200, 2000, &vec![5, 5]), Err(LezardError::Network));
    assert_eq!(await_progress(u64::MAX, 200, u64::MAX, &vec![u64::MAX]), Err(LezardError::Network));
}

#[test]
fn await_never_returns_stale_height() {
    for initial in 0..6u64 {
        for a in 0..6u64 {
            for b in 0..6u64 {
                // two readings take 2000 ms, past the 1500 ms bound
                match await_progress(initial, 1000, 1500, &vec![a, b]) {
                    Ok(h) => assert!(h > initial),
                    Err(e) => {
                        assert_eq!(e, LezardError::Timeout { stalled_at: initial });
                        assert!(a <= initial && b <= initial);
                    }
                }
            }
        }
    }
}

#[test]
fn waiter_steps() {
    let w = ConfirmationWaiter::new(10, 2000);
    assert_eq!(w.on_poll(11, 0), WaitStep::Progressed(11));
    assert_eq!(w.on_poll(10, 2000), WaitStep::Sleep);
    assert_eq!(w.on_poll(9, 2001), WaitStep::TimedOut(10));
    assert_eq!(w.on_poll(12, 5000), WaitStep::Progressed(12));
}

#[test]
fn block_height_never_decreases() {
    let mut engine = LocalEngine::new();
    let p = program(1);
    let id = AccountId::new([9; 32]);
    let mut last = engine.last_block_height();
    assert_eq!(last, 0);
    deploy(&mut engine, p);
    for step in 0..6 {
        if step % 2 == 0 {
            engine.produce_block();
        } else {
            invoke_double(&mut engine, p, id).unwrap();
        }
        let h = engine.last_block_height();
        assert!(h >= last);
        last = h;
    }
    assert_eq!(last, 3);
}

#[test]
fn message_validation() {
    let p = program(1);
    let a = AccountId::new([1; 32]);
    assert_eq!(
        Message::try_new(p, vec![], vec![], vec![]),
        Err(LezardError::Validation(ValidationIssue::EmptyAccountList))
    );
    assert_eq!(
        build_unsigned_invocation(p, vec![], vec![1]),
        Err(LezardError::Validation(ValidationIssue::EmptyAccountList))
    );
    let m = Message::try_new(p, vec![a], vec![a], vec![3]).unwrap();
    assert_eq!(m.account_ids, vec![a]);
    assert_eq!(m.signer_ids, vec![a]);
    assert_eq!(m.instruction_data, vec![3]);
    let tx = build_unsigned_invocation(p, vec![a], vec![1, 2]).unwrap();
    assert_eq!(tx.message.program_id, p);
    assert_eq!(tx.message.account_ids, vec![a]);
    assert_eq!(tx.message.instruction_data, vec![1, 2]);
    assert!(tx.message.signer_ids.is_empty());
    assert!(tx.witness_set.witnesses.is_empty());
}

#[test]
fn witness_validation() {
    let p = program(1);
    let a = AccountId::new([1; 32]);
    let s = AccountId::new([2; 32]);
    let m = Message::try_new(p, vec![a], vec![s], vec![]).unwrap();
    assert_eq!(
        WitnessSet::for_message(&m, vec![]),
        Err(LezardError::Validation(ValidationIssue::MissingWitness))
    );
    let wrong = Witness { signer: a, signature: vec![1] };
    assert_eq!(
        WitnessSet::for_message(&m, vec![wrong.clone()]),
        Err(LezardError::Validation(ValidationIssue::MissingWitness))
    );
    let right = Witness { signer: s, signature: vec![1] };
    let ws = WitnessSet::for_message(&m, vec![right.clone()]).unwrap();
    assert_eq!(ws.witnesses, vec![right.clone()]);
    assert!(witnesses_cover(&vec![s], &vec![right.clone()]));
    assert!(!witnesses_cover(&vec![s], &vec![wrong]));
    assert!(WitnessSet::unsigned().witnesses.is_empty());

    let mut engine = LocalEngine::new();
    deploy(&mut engine, p);
    let tx = PublicTransaction::new(m, WitnessSet::unsigned());
    let post = double_post_state(&Account::new_default()).unwrap();
    assert_eq!(
        engine.submit_invocation(&tx, &vec![post]),
        Err(LezardError::Validation(ValidationIssue::MissingWitness))
    );
}

#[test]
fn identifier_comparisons() {
    let a = AccountId::new([1; 32]);
    let mut bytes = [1u8; 32];
    bytes[31] = 2;
    let b = AccountId::new(bytes);
    assert!(a.same_as(&a));
    assert!(!a.same_as(&b));
    assert_eq!(b.value(), bytes);
    let mut words = [0u32; 8];
    assert!(ProgramId::new(words).is_default_id());
    words[7] = 1;
    assert!(!ProgramId::new(words).is_default_id());
    assert!(!program(1).same_as(&program(2)));
}

#[test]
fn preset_accounts() {
    let ids = preset_account_ids();
    assert_eq!(ids.len(), NUM_PRESET_ACCOUNTS);
    assert_eq!(ids[0], AccountId::new([1; 32]));
    assert_eq!(ids[9], AccountId::new([10; 32]));
}
