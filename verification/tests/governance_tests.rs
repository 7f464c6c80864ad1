use sss_token::authority::{accept_authority, transfer_authority};
use sss_token::error::StablecoinError;
use sss_token::initialize::{initialize, InitializeParams};
use sss_token::multisig::{approve_proposal, create_multisig, create_proposal, execute_proposal};
use sss_token::state::{Addr, InstructionType, StablecoinState};
use sss_token::timelock::{
    cancel_timelocked, configure_timelock, execute_timelocked, propose_timelocked,
};

fn gov_authority() -> Addr {
    Addr::new(1, 0)
}

fn gov_currency_id() -> Addr {
    Addr::new(9, 0)
}

fn gov_currency() -> StablecoinState {
    let params = InitializeParams {
        name: b"Dollar".to_vec(),
        symbol: b"USD".to_vec(),
        uri: Vec::new(),
        decimals: 6,
        enable_permanent_delegate: false,
        enable_transfer_hook: false,
        default_account_frozen: false,
        max_supply: 0,
    };
    let (st, _role) = initialize(params, gov_authority(), Addr::new(5, 0), gov_currency_id(), 254)
        .unwrap();
    st
}

fn three_signers() -> Vec<Addr> {
    vec![gov_authority(), Addr::new(2, 0), Addr::new(3, 0)]
}

#[test]
fn create_multisig_checks_signers_and_threshold() {
    let st = gov_currency();
    let m = create_multisig(&st, gov_authority(), gov_currency_id(), three_signers(), 2).unwrap();
    assert_eq!(m.signers.len(), 3);
    assert_eq!(m.threshold, 2);
    assert_eq!(m.proposal_count, 0);

    let r = create_multisig(&st, Addr::new(42, 0), gov_currency_id(), three_signers(), 2);
    assert_eq!(r.unwrap_err(), StablecoinError::Unauthorized);

    let r = create_multisig(&st, gov_authority(), gov_currency_id(), Vec::new(), 1);
    assert_eq!(r.unwrap_err(), StablecoinError::TooManySigners);

    let r = create_multisig(&st, gov_authority(), gov_currency_id(), vec![Addr::new(4, 0); 11], 2);
    assert_eq!(r.unwrap_err(), StablecoinError::TooManySigners);

    let r = create_multisig(&st, gov_authority(), gov_currency_id(), three_signers(), 0);
    assert_eq!(r.unwrap_err(), StablecoinError::InvalidThreshold);

    let r = create_multisig(&st, gov_authority(), gov_currency_id(), three_signers(), 4);
    assert_eq!(r.unwrap_err(), StablecoinError::InvalidThreshold);
}

#[test]
fn create_multisig_rejects_duplicate_signers() {
    let st = gov_currency();
    // a duplicated signer would make a threshold of three unattainable:
    // each signer holds one approval slot, so the list must be distinct
    let duplicated = vec![gov_authority(), Addr::new(2, 0), gov_authority()];
    let r = create_multisig(&st, gov_authority(), gov_currency_id(), duplicated, 3);
    assert_eq!(r.unwrap_err(), StablecoinError::DuplicateSigner);

    let twice = vec![Addr::new(2, 0), Addr::new(2, 0)];
    let r = create_multisig(&st, gov_authority(), gov_currency_id(), twice, 2);
    assert_eq!(r.unwrap_err(), StablecoinError::DuplicateSigner);
}

#[test]
fn create_proposal_records_proposer_approval() {
    let st = gov_currency();
    let mut m = create_multisig(&st, gov_authority(), gov_currency_id(), three_signers(), 2)
        .unwrap();
    let p = create_proposal(&mut m, gov_currency_id(), gov_authority(), InstructionType::Pause,
        Vec::new(), 500).unwrap();
    assert_eq!(p.proposal_id, 0);
    assert_eq!(p.approval_count, 1);
    assert_eq!(p.approvals, vec![true, false, false]);
    assert!(!p.executed && !p.cancelled);
    assert_eq!(p.created_at, 500);
    assert_eq!(m.proposal_count, 1);

    let p2 = create_proposal(&mut m, gov_currency_id(), Addr::new(2, 0),
        InstructionType::Unpause, Vec::new(), 501).unwrap();
    assert_eq!(p2.proposal_id, 1);
    assert_eq!(p2.approvals, vec![false, true, false]);
    assert_eq!(m.proposal_count, 2);
}

#[test]
fn create_proposal_rejects_outsiders_and_large_payloads() {
    let st = gov_currency();
    let mut m = create_multisig(&st, gov_authority(), gov_currency_id(), three_signers(), 2)
        .unwrap();
    let r = create_proposal(&mut m, gov_currency_id(), Addr::new(42, 0), InstructionType::Pause,
        Vec::new(), 0);
    assert_eq!(r.unwrap_err(), StablecoinError::NotAMultisigSigner);

    let r = create_proposal(&mut m, gov_currency_id(), gov_authority(), InstructionType::Pause,
        vec![0u8; 257], 0);
    assert_eq!(r.unwrap_err(), StablecoinError::MathOverflow);
    assert_eq!(m.proposal_count, 0);
}

#[test]
fn proposal_threshold_two_of_three() {
    let mut st = gov_currency();
    let mut m = create_multisig(&st, gov_authority(), gov_currency_id(), three_signers(), 2)
        .unwrap();
    let mut p = create_proposal(&mut m, gov_currency_id(), gov_authority(),
        InstructionType::Pause, Vec::new(), 0).unwrap();

    // one approval is not enough
    let r = execute_proposal(&mut st, &m, &mut p, Addr::new(2, 0));
    assert_eq!(r.unwrap_err(), StablecoinError::InsufficientApprovals);
    assert!(!st.paused && !p.executed);

    // the proposer cannot approve twice
    let r = approve_proposal(&mut p, &m, gov_authority());
    assert_eq!(r.unwrap_err(), StablecoinError::AlreadyApproved);
    assert_eq!(p.approval_count, 1);

    // a second distinct signer reaches the threshold
    approve_proposal(&mut p, &m, Addr::new(2, 0)).unwrap();
    assert_eq!(p.approval_count, 2);

    // any registered signer may now execute, exactly once
    execute_proposal(&mut st, &m, &mut p, Addr::new(3, 0)).unwrap();
    assert!(st.paused);
    assert!(p.executed);
    let r = execute_proposal(&mut st, &m, &mut p, Addr::new(3, 0));
    assert_eq!(r.unwrap_err(), StablecoinError::ProposalAlreadyExecuted);
}

#[test]
fn approvals_reject_outsiders_and_terminal_proposals() {
    let mut st = gov_currency();
    let mut m = create_multisig(&st, gov_authority(), gov_currency_id(), three_signers(), 1)
        .unwrap();
    let mut p = create_proposal(&mut m, gov_currency_id(), gov_authority(),
        InstructionType::Pause, Vec::new(), 0).unwrap();

    let r = approve_proposal(&mut p, &m, Addr::new(42, 0));
    assert_eq!(r.unwrap_err(), StablecoinError::NotAMultisigSigner);
    let r = execute_proposal(&mut st, &m, &mut p, Addr::new(42, 0));
    assert_eq!(r.unwrap_err(), StablecoinError::NotAMultisigSigner);

    let mut cancelled = p.clone();
    cancelled.cancelled = true;
    let r = approve_proposal(&mut cancelled, &m, Addr::new(2, 0));
    assert_eq!(r.unwrap_err(), StablecoinError::ProposalCancelled);
    let r = execute_proposal(&mut st, &m, &mut cancelled, Addr::new(2, 0));
    assert_eq!(r.unwrap_err(), StablecoinError::ProposalCancelled);

    execute_proposal(&mut st, &m, &mut p, Addr::new(2, 0)).unwrap();
    let r = approve_proposal(&mut p, &m, Addr::new(2, 0));
    assert_eq!(r.unwrap_err(), StablecoinError::ProposalAlreadyExecuted);
}

#[test]
fn proposal_supply_cap_payload_is_little_endian() {
    let mut st = gov_currency();
    st.total_minted = 300;
    let mut m = create_multisig(&st, gov_authority(), gov_currency_id(), three_signers(), 1)
        .unwrap();
    let payload = vec![0x44u8, 0x01, 0, 0, 0, 0, 0, 0]; // 0x144 = 324
    let mut p = create_proposal(&mut m, gov_currency_id(), gov_authority(),
        InstructionType::UpdateSupplyCap, payload, 0).unwrap();
    execute_proposal(&mut st, &m, &mut p, gov_authority()).unwrap();
    assert_eq!(st.max_supply, 324);
}

#[test]
fn proposal_supply_cap_below_circulation_leaves_proposal_open() {
    let mut st = gov_currency();
    st.total_minted = 1000;
    let mut m = create_multisig(&st, gov_authority(), gov_currency_id(), three_signers(), 1)
        .unwrap();
    let payload = vec![0x10u8, 0, 0, 0, 0, 0, 0, 0]; // 16 < 1000 circulating
    let mut p = create_proposal(&mut m, gov_currency_id(), gov_authority(),
        InstructionType::UpdateSupplyCap, payload, 0).unwrap();
    let r = execute_proposal(&mut st, &m, &mut p, gov_authority());
    assert_eq!(r.unwrap_err(), StablecoinError::SupplyCapBelowCirculation);
    assert_eq!(st.max_supply, 0);
    assert!(!p.executed);
}

#[test]
fn proposal_short_payload_is_recorded_not_executed() {
    let mut st = gov_currency();
    st.total_minted = 1000;
    let mut m = create_multisig(&st, gov_authority(), gov_currency_id(), three_signers(), 1)
        .unwrap();
    let mut p = create_proposal(&mut m, gov_currency_id(), gov_authority(),
        InstructionType::UpdateSupplyCap, vec![1u8, 2, 3], 0).unwrap();
    execute_proposal(&mut st, &m, &mut p, gov_authority()).unwrap();
    assert_eq!(st.max_supply, 0);
    assert!(p.executed);
}

#[test]
fn proposal_authority_transfer_sets_pending() {
    let mut st = gov_currency();
    let mut m = create_multisig(&st, gov_authority(), gov_currency_id(), three_signers(), 1)
        .unwrap();
    let mut payload = vec![0u8; 32];
    payload[0] = 7; // lo = 7, hi = 0
    let mut p = create_proposal(&mut m, gov_currency_id(), gov_authority(),
        InstructionType::TransferAuthority, payload, 0).unwrap();
    execute_proposal(&mut st, &m, &mut p, gov_authority()).unwrap();
    assert_eq!(st.pending_authority, Some(Addr::new(7, 0)));
    assert_eq!(st.authority, gov_authority());
    // the two-step handshake completes under the successor's signature
    accept_authority(&mut st, Addr::new(7, 0)).unwrap();
    assert_eq!(st.authority, Addr::new(7, 0));
    assert_eq!(st.pending_authority, None);
}

#[test]
fn recorded_only_actions_change_nothing() {
    let mut st = gov_currency();
    let mut m = create_multisig(&st, gov_authority(), gov_currency_id(), three_signers(), 1)
        .unwrap();
    let mut p = create_proposal(&mut m, gov_currency_id(), gov_authority(),
        InstructionType::UpdateRoles, vec![1u8; 64], 0).unwrap();
    let before = st.clone();
    execute_proposal(&mut st, &m, &mut p, gov_authority()).unwrap();
    assert_eq!(st, before);
    assert!(p.executed);
}

#[test]
fn timelock_configuration_is_authority_only() {
    let st = gov_currency();
    let cfg = configure_timelock(&st, gov_authority(), gov_currency_id(), 3600, true).unwrap();
    assert_eq!(cfg.delay, 3600);
    assert!(cfg.enabled);

    let r = configure_timelock(&st, Addr::new(42, 0), gov_currency_id(), 3600, true);
    assert_eq!(r.unwrap_err(), StablecoinError::Unauthorized);

    let r = configure_timelock(&st, gov_authority(), gov_currency_id(), -1, true);
    assert_eq!(r.unwrap_err(), StablecoinError::InvalidTimelockDelay);
}

#[test]
fn timelock_delay_gates_execution() {
    let mut st = gov_currency();
    let cfg = configure_timelock(&st, gov_authority(), gov_currency_id(), 3600, true).unwrap();
    let mut op = propose_timelocked(&st, &cfg, gov_authority(), gov_currency_id(), 0,
        InstructionType::Pause, Vec::new(), 1000).unwrap();
    assert_eq!(op.eta, 4600);

    // one second early the operation is not ready
    let r = execute_timelocked(&mut st, &mut op, gov_authority(), 4599);
    assert_eq!(r.unwrap_err(), StablecoinError::TimelockNotReady);
    assert!(!st.paused && !op.executed);

    // exactly at the earliest time it executes
    execute_timelocked(&mut st, &mut op, gov_authority(), 4600).unwrap();
    assert!(st.paused);
    assert!(op.executed);

    let r = execute_timelocked(&mut st, &mut op, gov_authority(), 4601);
    assert_eq!(r.unwrap_err(), StablecoinError::OperationAlreadyExecuted);
}

#[test]
fn timelock_propose_requires_enabled_and_authority() {
    let st = gov_currency();
    let disabled = configure_timelock(&st, gov_authority(), gov_currency_id(), 60, false)
        .unwrap();
    let r = propose_timelocked(&st, &disabled, gov_authority(), gov_currency_id(), 0,
        InstructionType::Pause, Vec::new(), 0);
    assert_eq!(r.unwrap_err(), StablecoinError::TimelockNotEnabled);

    let enabled = configure_timelock(&st, gov_authority(), gov_currency_id(), 60, true).unwrap();
    let r = propose_timelocked(&st, &enabled, Addr::new(42, 0), gov_currency_id(), 0,
        InstructionType::Pause, Vec::new(), 0);
    assert_eq!(r.unwrap_err(), StablecoinError::Unauthorized);

    let r = propose_timelocked(&st, &enabled, gov_authority(), gov_currency_id(), 0,
        InstructionType::Pause, vec![0u8; 257], 0);
    assert_eq!(r.unwrap_err(), StablecoinError::MathOverflow);
}

#[test]
fn timelock_cancellation_is_terminal() {
    let mut st = gov_currency();
    let cfg = configure_timelock(&st, gov_authority(), gov_currency_id(), 60, true).unwrap();
    let mut op = propose_timelocked(&st, &cfg, gov_authority(), gov_currency_id(), 1,
        InstructionType::Pause, Vec::new(), 0).unwrap();

    let r = cancel_timelocked(&st, &mut op, Addr::new(42, 0));
    assert_eq!(r.unwrap_err(), StablecoinError::Unauthorized);

    cancel_timelocked(&st, &mut op, gov_authority()).unwrap();
    assert!(op.cancelled);

    let r = execute_timelocked(&mut st, &mut op, gov_authority(), 1_000_000);
    assert_eq!(r.unwrap_err(), StablecoinError::OperationCancelled);
    let r = cancel_timelocked(&st, &mut op, gov_authority());
    assert_eq!(r.unwrap_err(), StablecoinError::OperationCancelled);
}

#[test]
fn timelock_executes_only_for_the_authority() {
    let mut st = gov_currency();
    let cfg = configure_timelock(&st, gov_authority(), gov_currency_id(), 0, true).unwrap();
    let mut op = propose_timelocked(&st, &cfg, gov_authority(), gov_currency_id(), 2,
        InstructionType::Pause, Vec::new(), 10).unwrap();
    let r = execute_timelocked(&mut st, &mut op, Addr::new(42, 0), 10);
    assert_eq!(r.unwrap_err(), StablecoinError::Unauthorized);
}

#[test]
fn authority_handshake_is_two_step() {
    let mut st = gov_currency();
    let successor = Addr::new(8, 0);

    let r = transfer_authority(&mut st, Addr::new(42, 0), successor);
    assert_eq!(r.unwrap_err(), StablecoinError::Unauthorized);

    let r = accept_authority(&mut st, successor);
    assert_eq!(r.unwrap_err(), StablecoinError::NoPendingAuthority);

    transfer_authority(&mut st, gov_authority(), successor).unwrap();
    assert_eq!(st.pending_authority, Some(successor));
    assert_eq!(st.authority, gov_authority());

    // only the named successor can accept
    let r = accept_authority(&mut st, Addr::new(99, 0));
    assert_eq!(r.unwrap_err(), StablecoinError::Unauthorized);

    accept_authority(&mut st, successor).unwrap();
    assert_eq!(st.authority, successor);
    assert_eq!(st.pending_authority, None);
}

#[test]
fn mistyped_successor_can_be_overwritten() {
    let mut st = gov_currency();
    transfer_authority(&mut st, gov_authority(), Addr::new(1234, 0)).unwrap();
    // the typo never took control; the current authority proposes again
    transfer_authority(&mut st, gov_authority(), Addr::new(8, 0)).unwrap();
    accept_authority(&mut st, Addr::new(8, 0)).unwrap();
    assert_eq!(st.authority, Addr::new(8, 0));
}
