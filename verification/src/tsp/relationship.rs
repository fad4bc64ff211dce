//! Relationship lifecycle state machine.
//!
//! The machine is stateless: every operation maps a status (and a thread
//! id) to the next status or to a refusal.

use vstd::prelude::*;
use vstd::string::StringExecFns;
use crate::tsp::error::TspError;
use crate::tsp::types::{
    bytes_equal, byte_strings_view, clone_bytes, RelationshipStatus, RelationshipStatusView,
    ThreadId,
};

verus! {

/// Why a transition is refused.
pub enum Refusal {
    /// The thread id presented differs from the one under negotiation.
    ThreadIdMismatch,
    /// Acceptance was asked for a status that is not awaiting one.
    CannotAccept,
    /// Cancellation was asked where no relationship exists.
    NothingToCancel,
    /// A nested thread id was added outside a bidirectional relationship.
    CannotAddNested,
    /// A nested thread id was removed that is not outstanding.
    ThreadIdNotFound,
    /// A nested thread id was removed outside a bidirectional relationship.
    NoNestedThreads,
}

impl Refusal {
    /// The error value that reports this refusal.
    pub open spec fn reported_as(self, e: TspError) -> bool {
        match self {
            Refusal::ThreadIdMismatch => e is ThreadIdMismatch,
            Refusal::CannotAccept => e is Relationship && e.detail()
                == "Cannot accept from current state"@,
            Refusal::NothingToCancel => e is Relationship && e.detail()
                == "No relationship to cancel"@,
            Refusal::CannotAddNested => e is Relationship && e.detail()
                == "Cannot add nested thread to non-bidirectional relationship"@,
            Refusal::ThreadIdNotFound => e is Relationship && e.detail() == "Thread ID not found"@,
            Refusal::NoNestedThreads => e is Relationship && e.detail()
                == "No nested threads in current relationship state"@,
        }
    }
}

/// `i` is the position of the first occurrence of `wanted` in `items`.
pub open spec fn is_first_position(items: Seq<Seq<u8>>, wanted: Seq<u8>, i: int) -> bool {
    &&& 0 <= i < items.len()
    &&& items[i] == wanted
    &&& forall|j: int| 0 <= j < i ==> items[j] != wanted
}

impl RelationshipStatusView {
    /// Status after the local party proposes on `thread_id`.
    pub open spec fn initiated(thread_id: Seq<u8>) -> RelationshipStatusView {
        RelationshipStatusView::Unidirectional { thread_id }
    }

    /// Outcome of accepting `thread_id` from this status.
    pub open spec fn accepted(self, thread_id: Seq<u8>) -> Result<
        RelationshipStatusView,
        Refusal,
    > {
        match self {
            RelationshipStatusView::Unidirectional { thread_id: current }
            | RelationshipStatusView::ReverseUnidirectional { thread_id: current } => {
                if current == thread_id {
                    Ok(
                        RelationshipStatusView::Bidirectional {
                            thread_id,
                            outstanding_nested_thread_ids: Seq::empty(),
                        },
                    )
                } else {
                    Err(Refusal::ThreadIdMismatch)
                }
            },
            _ => Err(Refusal::CannotAccept),
        }
    }

    /// Outcome of cancelling from this status.
    pub open spec fn cancelled(self) -> Result<RelationshipStatusView, Refusal> {
        match self {
            RelationshipStatusView::Unrelated => Err(Refusal::NothingToCancel),
            _ => Ok(RelationshipStatusView::Unrelated),
        }
    }

    /// Outcome of appending a nested thread id.
    pub open spec fn with_nested(self, nested: Seq<u8>) -> Result<RelationshipStatusView, Refusal> {
        match self {
            RelationshipStatusView::Bidirectional { thread_id, outstanding_nested_thread_ids } => {
                Ok(
                    RelationshipStatusView::Bidirectional {
                        thread_id,
                        outstanding_nested_thread_ids: outstanding_nested_thread_ids.push(nested),
                    },
                )
            },
            _ => Err(Refusal::CannotAddNested),
        }
    }

    /// Outcome of removing the first outstanding occurrence of a nested
    /// thread id.
    pub open spec fn without_nested(self, nested: Seq<u8>) -> Result<
        RelationshipStatusView,
        Refusal,
    > {
        match self {
            RelationshipStatusView::Bidirectional { thread_id, outstanding_nested_thread_ids } => {
                if outstanding_nested_thread_ids.contains(nested) {
                    let at = choose|i: int|
                        is_first_position(outstanding_nested_thread_ids, nested, i);
                    Ok(
                        RelationshipStatusView::Bidirectional {
                            thread_id,
                            outstanding_nested_thread_ids: outstanding_nested_thread_ids.remove(
                                at,
                            ),
                        },
                    )
                } else {
                    Err(Refusal::ThreadIdNotFound)
                }
            },
            _ => Err(Refusal::NoNestedThreads),
        }
    }
}

/// Stateless manager of relationship transitions.
pub struct RelationshipManager;

impl RelationshipManager {
    /// The local party proposes: always succeeds with `Unidirectional`.
    pub fn initiate(thread_id: ThreadId) -> (r: Result<RelationshipStatus, TspError>)
        ensures
            r matches Ok(s) && s@ == RelationshipStatusView::initiated(thread_id@),
    {
        Ok(RelationshipStatus::Unidirectional { thread_id })
    }

    /// Upgrades a pending relationship on `thread_id` to bidirectional.
    pub fn accept(current: &RelationshipStatus, thread_id: &ThreadId) -> (r: Result<
        RelationshipStatus,
        TspError,
    >)
        ensures
            match r {
                Ok(s) => current@.accepted(thread_id@) == Ok::<RelationshipStatusView, Refusal>(s@),
                Err(e) => current@.accepted(thread_id@) matches Err(why) && why.reported_as(e),
            },
    {
        match current {
            RelationshipStatus::Unidirectional { thread_id: current_id } => {
                if !bytes_equal(current_id.as_slice(), thread_id.as_slice()) {
                    return Err(TspError::ThreadIdMismatch);
                }
                Ok(RelationshipStatus::bi(clone_bytes(thread_id)))
            },
            RelationshipStatus::ReverseUnidirectional { thread_id: current_id } => {
                if !bytes_equal(current_id.as_slice(), thread_id.as_slice()) {
                    return Err(TspError::ThreadIdMismatch);
                }
                Ok(RelationshipStatus::bi(clone_bytes(thread_id)))
            },
            _ => Err(
                TspError::Relationship(String::from_str("Cannot accept from current state")),
            ),
        }
    }

    /// Reverts any existing relationship to `Unrelated`.
    pub fn cancel(current: &RelationshipStatus) -> (r: Result<RelationshipStatus, TspError>)
        ensures
            match r {
                Ok(s) => current@.cancelled() == Ok::<RelationshipStatusView, Refusal>(s@),
                Err(e) => current@.cancelled() matches Err(why) && why.reported_as(e),
            },
    {
        match current {
            RelationshipStatus::Unidirectional { .. }
            | RelationshipStatus::ReverseUnidirectional { .. }
            | RelationshipStatus::Bidirectional { .. } => Ok(RelationshipStatus::Unrelated),
            RelationshipStatus::Unrelated => Err(
                TspError::Relationship(String::from_str("No relationship to cancel")),
            ),
        }
    }

    /// Appends a pending nested thread id to a bidirectional relationship.
    /// On refusal the status is left as it was.
    pub fn add_nested_thread_id(status: &mut RelationshipStatus, thread_id: ThreadId) -> (r:
        Result<(), TspError>)
        ensures
            match r {
                Ok(_) => old(status)@.with_nested(thread_id@) == Ok::<
                    RelationshipStatusView,
                    Refusal,
                >(final(status)@),
                Err(e) => old(status)@.with_nested(thread_id@) matches Err(why) && why.reported_as(
                    e,
                ) && final(status)@ == old(status)@,
            },
    {
        match status {
            RelationshipStatus::Bidirectional { outstanding_nested_thread_ids, .. } => {
                let ghost before = byte_strings_view(*outstanding_nested_thread_ids);
                outstanding_nested_thread_ids.push(thread_id);
                assert(byte_strings_view(*outstanding_nested_thread_ids) =~= before.push(
                    thread_id@,
                ));
                Ok(())
            },
            _ => Err(
                TspError::Relationship(
                    String::from_str("Cannot add nested thread to non-bidirectional relationship"),
                ),
            ),
        }
    }

    /// Removes the first outstanding occurrence of a nested thread id.
    /// On refusal the status is left as it was.
    pub fn remove_nested_thread_id(status: &mut RelationshipStatus, thread_id: &ThreadId) -> (r:
        Result<(), TspError>)
        ensures
            match r {
                Ok(_) => old(status)@.without_nested(thread_id@) == Ok::<
                    RelationshipStatusView,
                    Refusal,
                >(final(status)@),
                Err(e) => old(status)@.without_nested(thread_id@) matches Err(why)
                    && why.reported_as(e) && final(status)@ == old(status)@,
            },
    {
        match status {
            RelationshipStatus::Bidirectional { outstanding_nested_thread_ids, .. } => {
                let ghost before = byte_strings_view(*outstanding_nested_thread_ids);
                let mut pos: usize = 0;
                let mut found = false;
                while pos < outstanding_nested_thread_ids.len()
                    invariant_except_break
                        !found,
                        forall|j: int| 0 <= j < pos ==> before[j] != thread_id@,
                    invariant
                        pos <= outstanding_nested_thread_ids.len(),
                        before == byte_strings_view(*outstanding_nested_thread_ids),
                    ensures
                        pos <= outstanding_nested_thread_ids.len(),
                        before == byte_strings_view(*outstanding_nested_thread_ids),
                        found ==> is_first_position(before, thread_id@, pos as int),
                        !found ==> forall|j: int| 0 <= j < before.len() ==> before[j] != thread_id@,
                    decreases outstanding_nested_thread_ids.len() - pos,
                {
                    if bytes_equal(
                        outstanding_nested_thread_ids[pos].as_slice(),
                        thread_id.as_slice(),
                    ) {
                        found = true;
                        break ;
                    }
                    pos = pos + 1;
                }
                if found {
                    proof {
                        assert(before.contains(thread_id@));
                        let at = choose|i: int| is_first_position(before, thread_id@, i);
                        assert(at == pos);
                    }
                    outstanding_nested_thread_ids.remove(pos);
                    assert(byte_strings_view(*outstanding_nested_thread_ids) =~= before.remove(
                        pos as int,
                    ));
                    Ok(())
                } else {
                    assert(!before.contains(thread_id@));
                    Err(TspError::Relationship(String::from_str("Thread ID not found")))
                }
            },
            _ => Err(
                TspError::Relationship(
                    String::from_str("No nested threads in current relationship state"),
                ),
            ),
        }
    }
}

/// Acceptance: from `Unidirectional` or `ReverseUnidirectional` on the
/// thread id presented it yields `Bidirectional` on that thread id with
/// nothing outstanding; on another thread id it is a thread id mismatch;
/// from `Unrelated` or `Bidirectional` it is refused.
pub proof fn lemma_acceptance(status: RelationshipStatusView, thread_id: Seq<u8>)
    ensures
        (status matches RelationshipStatusView::Unidirectional { thread_id: t } && t == thread_id)
            || (status matches RelationshipStatusView::ReverseUnidirectional { thread_id: t } && t
            == thread_id) ==> status.accepted(thread_id) == Ok::<RelationshipStatusView, Refusal>(
            RelationshipStatusView::Bidirectional {
                thread_id,
                outstanding_nested_thread_ids: Seq::empty(),
            },
        ),
        (status matches RelationshipStatusView::Unidirectional { thread_id: t } && t != thread_id)
            || (status matches RelationshipStatusView::ReverseUnidirectional { thread_id: t } && t
            != thread_id) ==> status.accepted(thread_id) == Err::<RelationshipStatusView, Refusal>(
            Refusal::ThreadIdMismatch,
        ),
        status is Unrelated || status is Bidirectional ==> status.accepted(thread_id) == Err::<
            RelationshipStatusView,
            Refusal,
        >(Refusal::CannotAccept),
{
}

/// Cancellation: from any status but `Unrelated` it yields `Unrelated`;
/// from `Unrelated` it is refused.
pub proof fn lemma_cancellation(status: RelationshipStatusView)
    ensures
        status !is Unrelated ==> status.cancelled() == Ok::<RelationshipStatusView, Refusal>(
            RelationshipStatusView::Unrelated,
        ),
        status is Unrelated ==> status.cancelled() == Err::<RelationshipStatusView, Refusal>(
            Refusal::NothingToCancel,
        ),
{
}

/// No transition leads directly from `Unidirectional` to
/// `ReverseUnidirectional` or back, and the only status a cancellation can
/// reach is `Unrelated`.
pub proof fn lemma_no_direction_flip(status: RelationshipStatusView, thread_id: Seq<u8>)
    ensures
        status is Unidirectional ==> !(status.accepted(thread_id) matches Ok(s)
            && s is ReverseUnidirectional),
        status is ReverseUnidirectional ==> !(status.accepted(thread_id) matches Ok(s)
            && s is Unidirectional),
        status.accepted(thread_id) matches Ok(s) ==> s is Bidirectional,
        status.cancelled() matches Ok(s) ==> s is Unrelated,
        status.with_nested(thread_id) matches Ok(s) ==> s is Bidirectional && status
            is Bidirectional && s->Bidirectional_thread_id == status->Bidirectional_thread_id,
        status.without_nested(thread_id) matches Ok(s) ==> s is Bidirectional && status
            is Bidirectional && s->Bidirectional_thread_id == status->Bidirectional_thread_id,
{
}

} // verus!
