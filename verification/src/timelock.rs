//! Time-delayed operation state machine, the second governance path.
//!
//! An operation is pending until it is executed or cancelled. Its earliest
//! execution time is fixed when it is proposed — the current time plus the
//! configured delay — and never recomputed. Both paths interpret the same
//! action table, so a currency may use either or both.

use vstd::prelude::*;

use crate::dispatch::{action_error, apply_action, state_after_action};
use crate::error::StablecoinError;
use crate::state::{
    Addr, InstructionType, StablecoinState, TimelockConfig, TimelockOperation, MAX_DATA_LEN,
};

verus! {

impl TimelockConfig {
    /// Validity: the delay is never negative.
    pub open spec fn wf(self) -> bool {
        self.delay >= 0
    }
}

/// Why configuring the timelock is refused, or `None` if it is owed
/// success.
pub open spec fn configure_timelock_error(
    st: StablecoinState,
    caller: Addr,
    delay: i64,
) -> Option<StablecoinError> {
    if caller != st.authority {
        Some(StablecoinError::Unauthorized)
    } else if delay < 0 {
        Some(StablecoinError::InvalidTimelockDelay)
    } else {
        None
    }
}

/// Set a currency's timelock delay and switch (authority only).
pub fn configure_timelock(
    st: &StablecoinState,
    caller: Addr,
    stablecoin_id: Addr,
    delay: i64,
    enabled: bool,
) -> (r: Result<TimelockConfig, StablecoinError>)
    ensures
        match r {
            Ok(cfg) => {
                &&& configure_timelock_error(*st, caller, delay) is None
                &&& cfg == (TimelockConfig { stablecoin: stablecoin_id, delay, enabled })
                &&& cfg.wf()
            },
            Err(e) => configure_timelock_error(*st, caller, delay) == Some(e),
        },
{
    if caller != st.authority {
        return Err(StablecoinError::Unauthorized);
    }
    if delay < 0 {
        return Err(StablecoinError::InvalidTimelockDelay);
    }
    Ok(TimelockConfig { stablecoin: stablecoin_id, delay, enabled })
}

/// Why proposing a delayed operation is refused, or `None` if it is owed
/// success.
pub open spec fn propose_timelocked_error(
    st: StablecoinState,
    cfg: TimelockConfig,
    caller: Addr,
    data_len: int,
    now: i64,
) -> Option<StablecoinError> {
    if caller != st.authority {
        Some(StablecoinError::Unauthorized)
    } else if !cfg.enabled {
        Some(StablecoinError::TimelockNotEnabled)
    } else if data_len > MAX_DATA_LEN {
        Some(StablecoinError::MathOverflow)
    } else if now + cfg.delay > i64::MAX {
        Some(StablecoinError::MathOverflow)
    } else {
        None
    }
}

/// Propose a delayed operation (authority only, timelock enabled). The
/// earliest execution time is `now + delay`, fixed here once and for all.
pub fn propose_timelocked(
    st: &StablecoinState,
    cfg: &TimelockConfig,
    caller: Addr,
    stablecoin_id: Addr,
    op_id: u64,
    op_type: InstructionType,
    data: Vec<u8>,
    now: i64,
) -> (r: Result<TimelockOperation, StablecoinError>)
    requires
        cfg.wf(),
    ensures
        match r {
            Ok(op) => {
                &&& propose_timelocked_error(*st, *cfg, caller, data@.len() as int, now) is None
                &&& op.stablecoin == stablecoin_id
                &&& op.op_id == op_id
                &&& op.op_type == op_type
                &&& op.data@ == data@
                &&& op.eta == now + cfg.delay
                &&& op.proposer == caller
                &&& !op.executed
                &&& !op.cancelled
            },
            Err(e) => propose_timelocked_error(*st, *cfg, caller, data@.len() as int, now) == Some(
                e,
            ),
        },
{
    if caller != st.authority {
        return Err(StablecoinError::Unauthorized);
    }
    if !cfg.enabled {
        return Err(StablecoinError::TimelockNotEnabled);
    }
    if data.len() > MAX_DATA_LEN {
        return Err(StablecoinError::MathOverflow);
    }
    let eta = match now.checked_add(cfg.delay) {
        Some(t) => t,
        None => {
            return Err(StablecoinError::MathOverflow);
        },
    };
    Ok(
        TimelockOperation {
            stablecoin: stablecoin_id,
            op_id,
            op_type,
            data,
            eta,
            proposer: caller,
            executed: false,
            cancelled: false,
        },
    )
}

/// Why executing a delayed operation is refused, or `None` if it is owed
/// success.
pub open spec fn execute_timelocked_error(
    st: StablecoinState,
    op: TimelockOperation,
    executor: Addr,
    now: i64,
) -> Option<StablecoinError> {
    if executor != st.authority {
        Some(StablecoinError::Unauthorized)
    } else if op.executed {
        Some(StablecoinError::OperationAlreadyExecuted)
    } else if op.cancelled {
        Some(StablecoinError::OperationCancelled)
    } else if now < op.eta {
        Some(StablecoinError::TimelockNotReady)
    } else {
        action_error(st, op.op_type, op.data@)
    }
}

/// Execute a delayed operation once its time has come (authority only).
/// The action is interpreted through the shared dispatch table and the
/// operation becomes terminal.
pub fn execute_timelocked(
    st: &mut StablecoinState,
    op: &mut TimelockOperation,
    executor: Addr,
    now: i64,
) -> (r: Result<(), StablecoinError>)
    requires
        old(st).wf(),
    ensures
        match r {
            Ok(()) => {
                &&& execute_timelocked_error(*old(st), *old(op), executor, now) is None
                &&& *final(st) == state_after_action(*old(st), old(op).op_type, old(op).data@)
                &&& final(st).wf()
                &&& *final(op) == (TimelockOperation { executed: true, ..*old(op) })
            },
            Err(e) => {
                &&& execute_timelocked_error(*old(st), *old(op), executor, now) == Some(e)
                &&& *final(st) == *old(st)
                &&& *final(op) == *old(op)
            },
        },
{
    if executor != st.authority {
        return Err(StablecoinError::Unauthorized);
    }
    if op.executed {
        return Err(StablecoinError::OperationAlreadyExecuted);
    }
    if op.cancelled {
        return Err(StablecoinError::OperationCancelled);
    }
    if now < op.eta {
        return Err(StablecoinError::TimelockNotReady);
    }
    match apply_action(st, op.op_type, &op.data) {
        Ok(()) => (),
        Err(e) => {
            return Err(e);
        },
    }
    op.executed = true;
    Ok(())
}

/// Why cancelling a delayed operation is refused, or `None` if it is owed
/// success.
pub open spec fn cancel_timelocked_error(
    st: StablecoinState,
    op: TimelockOperation,
    caller: Addr,
) -> Option<StablecoinError> {
    if caller != st.authority {
        Some(StablecoinError::Unauthorized)
    } else if op.executed {
        Some(StablecoinError::OperationAlreadyExecuted)
    } else if op.cancelled {
        Some(StablecoinError::OperationCancelled)
    } else {
        None
    }
}

/// Cancel a pending delayed operation (authority only, pre-execution).
/// Cancellation is an explicit, terminal state transition.
pub fn cancel_timelocked(
    st: &StablecoinState,
    op: &mut TimelockOperation,
    caller: Addr,
) -> (r: Result<(), StablecoinError>)
    ensures
        match r {
            Ok(()) => {
                &&& cancel_timelocked_error(*st, *old(op), caller) is None
                &&& *final(op) == (TimelockOperation { cancelled: true, ..*old(op) })
            },
            Err(e) => {
                &&& cancel_timelocked_error(*st, *old(op), caller) == Some(e)
                &&& *final(op) == *old(op)
            },
        },
{
    if caller != st.authority {
        return Err(StablecoinError::Unauthorized);
    }
    if op.executed {
        return Err(StablecoinError::OperationAlreadyExecuted);
    }
    if op.cancelled {
        return Err(StablecoinError::OperationCancelled);
    }
    op.cancelled = true;
    Ok(())
}

/// Before its earliest execution time a pending operation is refused with
/// `TimelockNotReady`, even for the authority; from that time on, only the
/// action itself can refuse.
pub proof fn lemma_eta_gates_execution(
    st: StablecoinState,
    op: TimelockOperation,
    executor: Addr,
    now: i64,
)
    requires
        executor == st.authority,
        !op.executed,
        !op.cancelled,
    ensures
        now < op.eta ==> execute_timelocked_error(st, op, executor, now) == Some(
            StablecoinError::TimelockNotReady,
        ),
        now >= op.eta ==> execute_timelocked_error(st, op, executor, now) == action_error(
            st,
            op.op_type,
            op.data@,
        ),
{
}

} // verus!
