//! Where blocking work comes back from the runtime.
//!
//! Inference blocks its thread for a long time, so it is not run as an
//! ordinary task. It is either handed to the runtime's pool for blocking work
//! and awaited, or run in place after the runtime was told that this worker
//! is about to block. Work run in place hands its result straight back. Work
//! handed to the pool may be lost on the way, when its task panics or is
//! cancelled: that is the scheduling failure, and it is settled here.

use crate::error::{is_lost_task_report, lost_task_report, scheduling_failure, ServiceError};
use crate::service::{Served, ServedView};
use tokio::task::JoinError;
use vstd::prelude::*;

verus! {

/// Settles what came back from the pool. Work that ran to its end keeps its
/// result. Work that the runtime could not finish is answered as a
/// scheduling failure, whatever it was that stopped it, with the runtime's
/// account of that very task as its detail.
pub fn settle(joined: Result<Served, JoinError>) -> (served: Served)
    ensures
        match joined {
            Ok(done) => served == done,
            Err(lost) => served@ == ServedView::Answered(
                Err(scheduling_failure(lost_task_report(lost))),
            ) && is_lost_task_report(lost_task_report(lost)),
        },
{
    match joined {
        Ok(done) => done,
        Err(lost) => Served::Answered(Err(ServiceError::from_join_error(lost))),
    }
}

} // verus!
