//! Multi-signer proposal state machine.
//!
//! A proposal is open until it is executed or cancelled. Creation requires
//! a registered signer and records the proposer's own approval; each signer
//! may approve at most once, by its slot in the signer list — signers are
//! distinct, so a signer and its slot name each other; execution requires
//! the threshold and is one-shot.

use vstd::prelude::*;

use crate::dispatch::{action_error, apply_action, state_after_action};
use crate::error::StablecoinError;
use crate::state::{
    distinct_signers, Addr, InstructionType, MultisigConfig, Proposal, StablecoinState,
    MAX_DATA_LEN, MAX_SIGNERS,
};

verus! {

/// `who` occurs somewhere in the signer list.
pub open spec fn has_signer(s: Seq<Addr>, who: Addr) -> bool {
    exists|i: int| 0 <= i < s.len() && s[i] == who
}

/// The approval slot of `who`: the index of its occurrence in the signer
/// list, which is unique under [`distinct_signers`].
pub open spec fn approval_slot(m: MultisigConfig, who: Addr) -> int {
    choose|i: int| 0 <= i < m.signers@.len() && m.signers@[i] == who
}

/// In a distinct signer list, a signer has one index.
pub proof fn lemma_signer_slot_unique(s: Seq<Addr>, who: Addr, i: int, j: int)
    requires
        distinct_signers(s),
        0 <= i < s.len(),
        0 <= j < s.len(),
        s[i] == who,
        s[j] == who,
    ensures
        i == j,
{
    if i < j {
        assert(s[i] != s[j]);
    } else if j < i {
        assert(s[j] != s[i]);
    }
}

/// Two distinct signers hold two distinct approval slots.
pub proof fn lemma_distinct_signers_distinct_slots(m: MultisigConfig, a: Addr, b: Addr)
    requires
        has_signer(m.signers@, a),
        has_signer(m.signers@, b),
        a != b,
    ensures
        approval_slot(m, a) != approval_slot(m, b),
{
    assert(m.signers@[approval_slot(m, a)] == a);
    assert(m.signers@[approval_slot(m, b)] == b);
}

/// How many approval flags are set.
pub open spec fn count_trues(s: Seq<bool>) -> int
    decreases s.len(),
{
    if s.len() == 0 {
        0
    } else {
        count_trues(s.drop_last()) + if s.last() {
            1int
        } else {
            0int
        }
    }
}

/// The approval count never exceeds the number of slots.
pub proof fn lemma_count_trues_bound(s: Seq<bool>)
    ensures
        0 <= count_trues(s) <= s.len(),
    decreases s.len(),
{
    if s.len() > 0 {
        lemma_count_trues_bound(s.drop_last());
    }
}

/// A sequence with no flag set counts zero.
pub proof fn lemma_count_trues_zero(s: Seq<bool>)
    requires
        forall|i: int| 0 <= i < s.len() ==> !s[i],
    ensures
        count_trues(s) == 0,
    decreases s.len(),
{
    if s.len() > 0 {
        assert(forall|i: int| 0 <= i < s.drop_last().len() ==> !s.drop_last()[i]);
        lemma_count_trues_zero(s.drop_last());
    }
}

/// Setting one clear flag raises the count by exactly one.
pub proof fn lemma_count_trues_update_true(s: Seq<bool>, i: int)
    requires
        0 <= i < s.len(),
        !s[i],
    ensures
        count_trues(s.update(i, true)) == count_trues(s) + 1,
    decreases s.len(),
{
    let t = s.update(i, true);
    if i == s.len() - 1 {
        assert(t.drop_last() =~= s.drop_last());
    } else {
        assert(t.drop_last() =~= s.drop_last().update(i, true));
        lemma_count_trues_update_true(s.drop_last(), i);
    }
}

impl Proposal {
    /// Validity of a proposal against its multisig: one approval slot per
    /// signer, a count that matches the flags, and a bounded payload.
    pub open spec fn consistent_with(self, m: MultisigConfig) -> bool {
        &&& self.approvals@.len() == m.signers@.len()
        &&& self.approval_count == count_trues(self.approvals@)
        &&& self.data@.len() <= MAX_DATA_LEN
    }
}

/// The slot whose signer equals `who`, scanning left to right.
fn find_signer(signers: &Vec<Addr>, who: Addr) -> (r: Option<usize>)
    ensures
        match r {
            Some(i) => 0 <= i < signers@.len() && signers@[i as int] == who,
            None => !has_signer(signers@, who),
        },
{
    let mut i: usize = 0;
    while i < signers.len()
        invariant
            i <= signers@.len(),
            forall|j: int| 0 <= j < i ==> signers@[j] != who,
        decreases signers@.len() - i,
    {
        if signers[i] == who {
            return Some(i);
        }
        i += 1;
    }
    None
}

/// Whether any signer occurs twice in the list.
fn has_duplicate(signers: &Vec<Addr>) -> (r: bool)
    ensures
        r <==> !distinct_signers(signers@),
{
    let n = signers.len();
    let mut i: usize = 0;
    while i < n
        invariant
            i <= n,
            n == signers@.len(),
            forall|a: int, b: int|
                #![trigger signers@[a], signers@[b]]
                0 <= a < b < n && a < i ==> signers@[a] != signers@[b],
        decreases n - i,
    {
        let mut j: usize = i + 1;
        while j < n
            invariant
                i < j <= n,
                i < n,
                n == signers@.len(),
                forall|b: int| i < b < j ==> signers@[i as int] != signers@[b],
            decreases n - j,
        {
            if signers[i] == signers[j] {
                proof {
                    assert(signers@[i as int] == signers@[j as int]);
                }
                return true;
            }
            j += 1;
        }
        i += 1;
    }
    false
}

/// Why creating a multisig is refused, or `None` if it is owed success.
pub open spec fn create_multisig_error(
    st: StablecoinState,
    caller: Addr,
    signers: Seq<Addr>,
    threshold: u8,
) -> Option<StablecoinError> {
    if caller != st.authority {
        Some(StablecoinError::Unauthorized)
    } else if signers.len() == 0 || signers.len() > MAX_SIGNERS {
        Some(StablecoinError::TooManySigners)
    } else if threshold == 0 || threshold > signers.len() {
        Some(StablecoinError::InvalidThreshold)
    } else if !distinct_signers(signers) {
        Some(StablecoinError::DuplicateSigner)
    } else {
        None
    }
}

/// Create the governance signer set for a currency (authority only). The
/// signers must be pairwise distinct, so the threshold is always
/// attainable; the proposal counter starts at zero.
pub fn create_multisig(
    st: &StablecoinState,
    caller: Addr,
    stablecoin_id: Addr,
    signers: Vec<Addr>,
    threshold: u8,
) -> (r: Result<MultisigConfig, StablecoinError>)
    ensures
        match r {
            Ok(m) => {
                &&& create_multisig_error(*st, caller, signers@, threshold) is None
                &&& m == (MultisigConfig {
                    stablecoin: stablecoin_id,
                    signers,
                    threshold,
                    proposal_count: 0u64,
                })
                &&& m.wf()
            },
            Err(e) => create_multisig_error(*st, caller, signers@, threshold) == Some(e),
        },
{
    if caller != st.authority {
        return Err(StablecoinError::Unauthorized);
    }
    if signers.len() == 0 || signers.len() > MAX_SIGNERS {
        return Err(StablecoinError::TooManySigners);
    }
    if threshold == 0 || (threshold as usize) > signers.len() {
        return Err(StablecoinError::InvalidThreshold);
    }
    if has_duplicate(&signers) {
        return Err(StablecoinError::DuplicateSigner);
    }
    Ok(MultisigConfig { stablecoin: stablecoin_id, signers, threshold, proposal_count: 0 })
}

/// Why creating a proposal is refused, or `None` if it is owed success.
pub open spec fn create_proposal_error(
    m: MultisigConfig,
    proposer: Addr,
    data_len: int,
) -> Option<StablecoinError> {
    if !has_signer(m.signers@, proposer) {
        Some(StablecoinError::NotAMultisigSigner)
    } else if data_len > MAX_DATA_LEN {
        Some(StablecoinError::MathOverflow)
    } else if m.proposal_count == u64::MAX {
        Some(StablecoinError::MathOverflow)
    } else {
        None
    }
}

/// Open a proposal (registered signers only). The proposer's own approval
/// is recorded at once, and the multisig's proposal counter advances, so
/// identifiers are strictly increasing per currency.
pub fn create_proposal(
    m: &mut MultisigConfig,
    stablecoin_id: Addr,
    proposer: Addr,
    instruction_type: InstructionType,
    data: Vec<u8>,
    now: i64,
) -> (r: Result<Proposal, StablecoinError>)
    requires
        old(m).wf(),
    ensures
        match r {
            Ok(p) => {
                &&& create_proposal_error(*old(m), proposer, data@.len() as int) is None
                &&& *final(m) == (MultisigConfig {
                    proposal_count: (old(m).proposal_count + 1) as u64,
                    ..*old(m)
                })
                &&& p.stablecoin == stablecoin_id
                &&& p.proposal_id == old(m).proposal_count
                &&& p.proposer == proposer
                &&& p.instruction_type == instruction_type
                &&& p.data@ == data@
                &&& p.approvals@.len() == old(m).signers@.len()
                &&& forall|j: int|
                    0 <= j < p.approvals@.len() ==> (#[trigger] p.approvals@[j] <==> old(
                        m,
                    ).signers@[j] == proposer)
                &&& p.approval_count == 1
                &&& !p.executed
                &&& !p.cancelled
                &&& p.created_at == now
                &&& p.consistent_with(*final(m))
            },
            Err(e) => {
                &&& create_proposal_error(*old(m), proposer, data@.len() as int) == Some(e)
                &&& *final(m) == *old(m)
            },
        },
{
    let slot = match find_signer(&m.signers, proposer) {
        Some(i) => i,
        None => {
            return Err(StablecoinError::NotAMultisigSigner);
        },
    };
    if data.len() > MAX_DATA_LEN {
        return Err(StablecoinError::MathOverflow);
    }
    let new_count = match m.proposal_count.checked_add(1) {
        Some(c) => c,
        None => {
            return Err(StablecoinError::MathOverflow);
        },
    };

    let n = m.signers.len();
    let mut approvals: Vec<bool> = Vec::new();
    let mut i: usize = 0;
    while i < n
        invariant
            i <= n,
            approvals@.len() == i,
            forall|j: int| 0 <= j < i ==> !(#[trigger] approvals@[j]),
        decreases n - i,
    {
        approvals.push(false);
        i += 1;
    }
    proof {
        lemma_count_trues_zero(approvals@);
        lemma_count_trues_update_true(approvals@, slot as int);
    }
    approvals.set(slot, true);
    proof {
        assert forall|j: int|
            0 <= j < approvals@.len() implies (#[trigger] approvals@[j] <==> m.signers@[j]
            == proposer) by {
            if j != slot as int && m.signers@[j] == proposer {
                lemma_signer_slot_unique(m.signers@, proposer, slot as int, j);
            }
        }
    }

    let proposal_id = m.proposal_count;
    let proposal = Proposal {
        stablecoin: stablecoin_id,
        proposal_id,
        proposer,
        instruction_type,
        data,
        approvals,
        approval_count: 1,
        executed: false,
        cancelled: false,
        created_at: now,
    };
    m.proposal_count = new_count;
    Ok(proposal)
}

/// Why an approval is refused, or `None` if it is owed success.
pub open spec fn approve_error(
    p: Proposal,
    m: MultisigConfig,
    signer: Addr,
) -> Option<StablecoinError> {
    if p.executed {
        Some(StablecoinError::ProposalAlreadyExecuted)
    } else if p.cancelled {
        Some(StablecoinError::ProposalCancelled)
    } else if !has_signer(m.signers@, signer) {
        Some(StablecoinError::NotAMultisigSigner)
    } else if p.approvals@[approval_slot(m, signer)] {
        Some(StablecoinError::AlreadyApproved)
    } else {
        None
    }
}

/// Record one signer's approval on an open proposal. Each signer's slot
/// can be set once, so the count rises by one per distinct signer.
pub fn approve_proposal(
    p: &mut Proposal,
    m: &MultisigConfig,
    signer: Addr,
) -> (r: Result<(), StablecoinError>)
    requires
        m.wf(),
        old(p).consistent_with(*m),
    ensures
        match r {
            Ok(()) => {
                &&& approve_error(*old(p), *m, signer) is None
                &&& final(p).approvals@ == old(p).approvals@.update(
                    approval_slot(*m, signer),
                    true,
                )
                &&& final(p).approval_count == old(p).approval_count + 1
                &&& final(p).stablecoin == old(p).stablecoin
                &&& final(p).proposal_id == old(p).proposal_id
                &&& final(p).proposer == old(p).proposer
                &&& final(p).instruction_type == old(p).instruction_type
                &&& final(p).data@ == old(p).data@
                &&& final(p).executed == old(p).executed
                &&& final(p).cancelled == old(p).cancelled
                &&& final(p).created_at == old(p).created_at
                &&& final(p).consistent_with(*m)
            },
            Err(e) => {
                &&& approve_error(*old(p), *m, signer) == Some(e)
                &&& *final(p) == *old(p)
            },
        },
{
    if p.executed {
        return Err(StablecoinError::ProposalAlreadyExecuted);
    }
    if p.cancelled {
        return Err(StablecoinError::ProposalCancelled);
    }
    let slot = match find_signer(&m.signers, signer) {
        Some(i) => i,
        None => {
            return Err(StablecoinError::NotAMultisigSigner);
        },
    };
    proof {
        assert(has_signer(m.signers@, signer));
        lemma_signer_slot_unique(m.signers@, signer, slot as int, approval_slot(*m, signer));
        lemma_count_trues_bound(p.approvals@);
    }
    if p.approvals[slot] {
        return Err(StablecoinError::AlreadyApproved);
    }
    let new_count = match p.approval_count.checked_add(1) {
        Some(c) => c,
        None => {
            return Err(StablecoinError::MathOverflow);
        },
    };
    proof {
        lemma_count_trues_update_true(p.approvals@, slot as int);
    }
    p.approvals.set(slot, true);
    p.approval_count = new_count;
    Ok(())
}

/// Why executing a proposal is refused, or `None` if it is owed success.
pub open spec fn execute_proposal_error(
    st: StablecoinState,
    m: MultisigConfig,
    p: Proposal,
    executor: Addr,
) -> Option<StablecoinError> {
    if !has_signer(m.signers@, executor) {
        Some(StablecoinError::NotAMultisigSigner)
    } else if p.executed {
        Some(StablecoinError::ProposalAlreadyExecuted)
    } else if p.cancelled {
        Some(StablecoinError::ProposalCancelled)
    } else if p.approval_count < m.threshold {
        Some(StablecoinError::InsufficientApprovals)
    } else {
        action_error(st, p.instruction_type, p.data@)
    }
}

/// Execute a proposal once its threshold is met (registered signers only).
/// The action is interpreted through the shared dispatch table and the
/// proposal becomes terminal; a second execution is refused.
pub fn execute_proposal(
    st: &mut StablecoinState,
    m: &MultisigConfig,
    p: &mut Proposal,
    executor: Addr,
) -> (r: Result<(), StablecoinError>)
    requires
        old(st).wf(),
    ensures
        match r {
            Ok(()) => {
                &&& execute_proposal_error(*old(st), *m, *old(p), executor) is None
                &&& *final(st) == state_after_action(
                    *old(st),
                    old(p).instruction_type,
                    old(p).data@,
                )
                &&& final(st).wf()
                &&& *final(p) == (Proposal { executed: true, ..*old(p) })
            },
            Err(e) => {
                &&& execute_proposal_error(*old(st), *m, *old(p), executor) == Some(e)
                &&& *final(st) == *old(st)
                &&& *final(p) == *old(p)
            },
        },
{
    match find_signer(&m.signers, executor) {
        Some(_) => (),
        None => {
            return Err(StablecoinError::NotAMultisigSigner);
        },
    }
    if p.executed {
        return Err(StablecoinError::ProposalAlreadyExecuted);
    }
    if p.cancelled {
        return Err(StablecoinError::ProposalCancelled);
    }
    if p.approval_count < m.threshold {
        return Err(StablecoinError::InsufficientApprovals);
    }
    match apply_action(st, p.instruction_type, &p.data) {
        Ok(()) => (),
        Err(e) => {
            return Err(e);
        },
    }
    p.executed = true;
    Ok(())
}

/// Below the threshold, execution by any registered signer is refused with
/// `InsufficientApprovals`, whatever the action.
pub proof fn lemma_threshold_gates_execution(
    st: StablecoinState,
    m: MultisigConfig,
    p: Proposal,
    executor: Addr,
)
    requires
        has_signer(m.signers@, executor),
        !p.executed,
        !p.cancelled,
        p.approval_count < m.threshold,
    ensures
        execute_proposal_error(st, m, p, executor) == Some(StablecoinError::InsufficientApprovals),
{
}

/// A proposal freshly opened by one signer — its only approval the
/// proposer's own — always takes a second, distinct signer's approval, and
/// under a threshold of two that second approval is what makes execution
/// owed.
pub proof fn lemma_second_distinct_approval_reaches_threshold(
    m: MultisigConfig,
    p: Proposal,
    proposer: Addr,
    approver: Addr,
)
    requires
        m.wf(),
        p.consistent_with(m),
        !p.executed,
        !p.cancelled,
        has_signer(m.signers@, approver),
        approver != proposer,
        p.approval_count == 1,
        forall|j: int|
            0 <= j < p.approvals@.len() ==> (#[trigger] p.approvals@[j] <==> m.signers@[j]
                == proposer),
    ensures
        approve_error(p, m, approver) is None,
        m.threshold == 2 ==> p.approval_count + 1 >= m.threshold,
{
    let j = approval_slot(m, approver);
    assert(0 <= j < m.signers@.len() && m.signers@[j] == approver);
    assert(!p.approvals@[j]);
}

/// Execution is one-shot: once a proposal is executed, every further
/// execution attempt is refused with `ProposalAlreadyExecuted`.
pub proof fn lemma_execution_is_one_shot(
    st: StablecoinState,
    m: MultisigConfig,
    p: Proposal,
    executor: Addr,
)
    requires
        has_signer(m.signers@, executor),
        p.executed,
    ensures
        execute_proposal_error(st, m, p, executor) == Some(
            StablecoinError::ProposalAlreadyExecuted,
        ),
{
}

} // verus!
