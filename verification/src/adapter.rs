//! Lifecycle guard and operation façade.
//!
//! The adapter owns a single piece of persistent state: an optional
//! collection identifier, empty at construction, written at most once. The
//! guard step of each operation is pure and precedes any outbound call: while
//! the state is empty, only collection creation may proceed, and once it is
//! populated, creation is refused for good. The caller performs the numbered
//! call only when the guard allowed it, and hands the raw reply (status word
//! and payload bytes) back to the matching completion method, which maps it
//! to a typed outcome and, for a successful creation, persists the assigned
//! identifier.

use crate::errors::{status_known, RCError, RCErrorCode};
use crate::gateway::{
    translate_ack, translate_ack_spec, translate_flag, translate_flag_spec, translate_optional_id,
    translate_optional_id_spec, Translated,
};
use vstd::prelude::*;

verus! {

/// The typed outcome of one guarded operation: a host-assigned identifier, a
/// completion without payload, a recoverable rejection, or a protocol
/// violation that must abort the invocation.
#[derive(Clone, Copy, Debug, PartialEq, Eq, Structural)]
pub enum OpOutcome {
    IdAssigned(u32),
    Completed,
    Rejected(RCError),
    ProtocolViolation,
}

/// The outcome of an ownership read: an answer, or a protocol violation.
/// There is no error variant at all: host failure and "not owned" are
/// indistinguishable by design.
#[derive(Clone, Copy, Debug, PartialEq, Eq, Structural)]
pub enum ReadOutcome {
    Owns(bool),
    ProtocolViolation,
}

/// Outcome of an operation that expects an optional identifier back (mint,
/// add-resource): a rejection while the state is empty, the assigned
/// identifier on success, and an empty payload normalized to `Failed`, never
/// to a fabricated identifier.
pub open spec fn optional_id_outcome(stored: Option<u32>, status: u32, payload: Seq<u8>) -> OpOutcome {
    if stored is None {
        OpOutcome::Rejected(RCError::ErrorCode(RCErrorCode::CollectionNotCreated))
    } else {
        match translate_optional_id_spec(status, payload) {
            Translated::Payload(Some(id)) => OpOutcome::IdAssigned(id),
            Translated::Payload(None) => OpOutcome::Rejected(RCError::ErrorCode(RCErrorCode::Failed)),
            Translated::Failure(c) => OpOutcome::Rejected(RCError::ErrorCode(c)),
            Translated::Violation => OpOutcome::ProtocolViolation,
        }
    }
}

/// Outcome of a create-collection attempt for a given stored state and host
/// reply.
pub open spec fn create_collection_result(stored: Option<u32>, status: u32, payload: Seq<u8>) -> OpOutcome {
    if stored is Some {
        OpOutcome::Rejected(RCError::ErrorCode(RCErrorCode::CollectionAlreadyCreated))
    } else {
        match translate_optional_id_spec(status, payload) {
            Translated::Payload(Some(id)) => OpOutcome::IdAssigned(id),
            Translated::Payload(None) => OpOutcome::Rejected(RCError::ErrorCode(RCErrorCode::Failed)),
            Translated::Failure(c) => OpOutcome::Rejected(RCError::ErrorCode(c)),
            Translated::Violation => OpOutcome::ProtocolViolation,
        }
    }
}

/// Stored state after a create-collection attempt: it changes only when the
/// state was empty and the host assigned an identifier.
pub open spec fn create_collection_next(stored: Option<u32>, status: u32, payload: Seq<u8>) -> Option<u32> {
    if stored is Some {
        stored
    } else {
        match translate_optional_id_spec(status, payload) {
            Translated::Payload(Some(id)) => Some(id),
            _ => stored,
        }
    }
}

/// Outcome of a remove-resource attempt: success carries no payload.
pub open spec fn remove_resource_result(stored: Option<u32>, status: u32, payload: Seq<u8>) -> OpOutcome {
    if stored is None {
        OpOutcome::Rejected(RCError::ErrorCode(RCErrorCode::CollectionNotCreated))
    } else {
        match translate_ack_spec(status, payload) {
            Translated::Payload(_) => OpOutcome::Completed,
            Translated::Failure(c) => OpOutcome::Rejected(RCError::ErrorCode(c)),
            Translated::Violation => OpOutcome::ProtocolViolation,
        }
    }
}

/// Outcome of an ownership read: a host-level failure degrades to `false`
/// rather than surfacing an error.
pub open spec fn read_nft_result(status: u32, payload: Seq<u8>) -> ReadOutcome {
    match translate_flag_spec(status, payload) {
        Translated::Payload(b) => ReadOutcome::Owns(b),
        Translated::Failure(_) => ReadOutcome::Owns(false),
        Translated::Violation => ReadOutcome::ProtocolViolation,
    }
}

/// The adapter instance: its only persistent state is the optional collection
/// identifier, empty at construction and written at most once.
pub struct RmrkExtension {
    collection_id: Option<u32>,
}

impl RmrkExtension {
    /// The stored collection identifier, if a collection was created.
    pub closed spec fn stored(self) -> Option<u32> {
        self.collection_id
    }

    pub fn new() -> (r: Self)
        ensures
            r.stored() is None,
    {
        RmrkExtension { collection_id: None }
    }

    pub fn read_collection_id(&self) -> (r: Option<u32>)
        ensures
            r == self.stored(),
    {
        self.collection_id
    }

    pub fn read_nft_id(&self) -> (r: Option<u32>)
        ensures
            r == self.stored(),
    {
        self.collection_id
    }

    /// Guard step of collection creation: proceed only while the state is
    /// empty; a populated state is refused without contacting the host.
    pub fn create_collection_guard(&self) -> (r: Result<(), RCError>)
        ensures
            self.stored() is None ==> r == Ok::<(), RCError>(()),
            self.stored() is Some ==> r == Err::<(), RCError>(
                RCError::ErrorCode(RCErrorCode::CollectionAlreadyCreated),
            ),
    {
        match self.collection_id {
            None => Ok(()),
            Some(_) => Err(RCError::ErrorCode(RCErrorCode::CollectionAlreadyCreated)),
        }
    }

    /// Guard step of minting: while the state is empty the operation is
    /// refused without contacting the host; otherwise the stored identifier
    /// is handed back to be used as the call's collection argument — the
    /// caller never supplies it.
    pub fn mint_nft_guard(&self) -> (r: Result<u32, RCError>)
        ensures
            self.stored() is None ==> r == Err::<u32, RCError>(
                RCError::ErrorCode(RCErrorCode::CollectionNotCreated),
            ),
            self.stored() matches Some(c) ==> r == Ok::<u32, RCError>(c),
    {
        match self.collection_id {
            None => Err(RCError::ErrorCode(RCErrorCode::CollectionNotCreated)),
            Some(c) => Ok(c),
        }
    }

    /// Guard step of attaching a resource; same rule as minting.
    pub fn add_resource_guard(&self) -> (r: Result<u32, RCError>)
        ensures
            self.stored() is None ==> r == Err::<u32, RCError>(
                RCError::ErrorCode(RCErrorCode::CollectionNotCreated),
            ),
            self.stored() matches Some(c) ==> r == Ok::<u32, RCError>(c),
    {
        match self.collection_id {
            None => Err(RCError::ErrorCode(RCErrorCode::CollectionNotCreated)),
            Some(c) => Ok(c),
        }
    }

    /// Guard step of detaching a resource; same rule as minting.
    pub fn remove_resource_guard(&self) -> (r: Result<u32, RCError>)
        ensures
            self.stored() is None ==> r == Err::<u32, RCError>(
                RCError::ErrorCode(RCErrorCode::CollectionNotCreated),
            ),
            self.stored() matches Some(c) ==> r == Ok::<u32, RCError>(c),
    {
        match self.collection_id {
            None => Err(RCError::ErrorCode(RCErrorCode::CollectionNotCreated)),
            Some(c) => Ok(c),
        }
    }

    /// Complete an ownership read from the raw host reply. The ownership
    /// check never surfaces an error: a host-level failure is observed as
    /// `false`, exactly like absence of ownership.
    pub fn read_nft(&self, status: u32, payload: &Vec<u8>) -> (r: ReadOutcome)
        ensures
            r == read_nft_result(status, payload@),
    {
        match translate_flag(status, payload) {
            Translated::Payload(b) => ReadOutcome::Owns(b),
            Translated::Failure(_) => ReadOutcome::Owns(false),
            Translated::Violation => ReadOutcome::ProtocolViolation,
        }
    }

    /// Complete a mint from the raw host reply. The completion re-checks the
    /// guard, so the outcome is `CollectionNotCreated` whatever the reply
    /// holds while the state is empty.
    pub fn mint_nft(&self, status: u32, payload: &Vec<u8>) -> (r: OpOutcome)
        ensures
            r == optional_id_outcome(self.stored(), status, payload@),
    {
        if self.collection_id.is_none() {
            OpOutcome::Rejected(RCError::ErrorCode(RCErrorCode::CollectionNotCreated))
        } else {
            match translate_optional_id(status, payload) {
                Translated::Payload(Some(id)) => OpOutcome::IdAssigned(id),
                Translated::Payload(None) => OpOutcome::Rejected(
                    RCError::ErrorCode(RCErrorCode::Failed),
                ),
                Translated::Failure(c) => OpOutcome::Rejected(RCError::ErrorCode(c)),
                Translated::Violation => OpOutcome::ProtocolViolation,
            }
        }
    }

    /// Complete a resource attachment from the raw host reply; normalized
    /// exactly like a mint.
    pub fn add_resource(&self, status: u32, payload: &Vec<u8>) -> (r: OpOutcome)
        ensures
            r == optional_id_outcome(self.stored(), status, payload@),
    {
        if self.collection_id.is_none() {
            OpOutcome::Rejected(RCError::ErrorCode(RCErrorCode::CollectionNotCreated))
        } else {
            match translate_optional_id(status, payload) {
                Translated::Payload(Some(id)) => OpOutcome::IdAssigned(id),
                Translated::Payload(None) => OpOutcome::Rejected(
                    RCError::ErrorCode(RCErrorCode::Failed),
                ),
                Translated::Failure(c) => OpOutcome::Rejected(RCError::ErrorCode(c)),
                Translated::Violation => OpOutcome::ProtocolViolation,
            }
        }
    }

    /// Complete a resource detachment from the raw host reply.
    pub fn remove_resource(&self, status: u32, payload: &Vec<u8>) -> (r: OpOutcome)
        ensures
            r == remove_resource_result(self.stored(), status, payload@),
    {
        if self.collection_id.is_none() {
            OpOutcome::Rejected(RCError::ErrorCode(RCErrorCode::CollectionNotCreated))
        } else {
            match translate_ack(status, payload) {
                Translated::Payload(_) => OpOutcome::Completed,
                Translated::Failure(c) => OpOutcome::Rejected(RCError::ErrorCode(c)),
                Translated::Violation => OpOutcome::ProtocolViolation,
            }
        }
    }

    /// Complete a collection creation from the raw host reply. Only here can
    /// the stored state change, and only from empty to the identifier the
    /// host assigned; an empty payload on a successful status is normalized
    /// to `Failed` and leaves the state empty.
    pub fn create_collection(&mut self, status: u32, payload: &Vec<u8>) -> (r: OpOutcome)
        ensures
            r == create_collection_result(old(self).stored(), status, payload@),
            final(self).stored() == create_collection_next(old(self).stored(), status, payload@),
    {
        match self.collection_id {
            Some(_) => OpOutcome::Rejected(RCError::ErrorCode(RCErrorCode::CollectionAlreadyCreated)),
            None => {
                match translate_optional_id(status, payload) {
                    Translated::Payload(Some(id)) => {
                        self.collection_id = Some(id);
                        OpOutcome::IdAssigned(id)
                    },
                    Translated::Payload(None) => OpOutcome::Rejected(
                        RCError::ErrorCode(RCErrorCode::Failed),
                    ),
                    Translated::Failure(c) => OpOutcome::Rejected(RCError::ErrorCode(c)),
                    Translated::Violation => OpOutcome::ProtocolViolation,
                }
            },
        }
    }
}

/// Stored state after the first `i` of a sequence of create-collection
/// attempts, each given by the host reply it would observe. Creation is the
/// only operation that takes the adapter mutably, so over an arbitrary
/// sequence of operations the stored state is decided by the create-attempt
/// subsequence alone.
pub open spec fn state_after_create_attempts(
    s0: Option<u32>,
    attempts: Seq<(u32, Seq<u8>)>,
    i: int,
) -> Option<u32>
    recommends
        0 <= i <= attempts.len(),
    decreases i,
{
    if i <= 0 {
        s0
    } else {
        create_collection_next(
            state_after_create_attempts(s0, attempts, i - 1),
            attempts[i - 1].0,
            attempts[i - 1].1,
        )
    }
}

/// Law: once populated, the stored identifier survives every further
/// create-collection attempt unchanged, whatever the host replies.
pub proof fn lemma_stored_id_stable(
    s0: Option<u32>,
    attempts: Seq<(u32, Seq<u8>)>,
    i: int,
    j: int,
)
    requires
        0 <= i <= j <= attempts.len(),
        state_after_create_attempts(s0, attempts, i) is Some,
    ensures
        state_after_create_attempts(s0, attempts, j) == state_after_create_attempts(s0, attempts, i),
    decreases j - i,
{
    if j > i {
        lemma_stored_id_stable(s0, attempts, i, j - 1);
    }
}

/// Law: in any sequence of create-collection attempts, creation succeeds at
/// most once. After an attempt is granted an identifier, every later attempt
/// is rejected as `CollectionAlreadyCreated` and the stored state still holds
/// the first identifier — the guard, not an overwrite, keeps it.
pub proof fn lemma_create_collection_at_most_once(
    s0: Option<u32>,
    attempts: Seq<(u32, Seq<u8>)>,
    i: int,
    j: int,
)
    requires
        0 <= i < j < attempts.len(),
        create_collection_result(
            state_after_create_attempts(s0, attempts, i),
            attempts[i].0,
            attempts[i].1,
        ) is IdAssigned,
    ensures
        state_after_create_attempts(s0, attempts, j) == state_after_create_attempts(
            s0,
            attempts,
            i + 1,
        ),
        create_collection_result(
            state_after_create_attempts(s0, attempts, j),
            attempts[j].0,
            attempts[j].1,
        ) == OpOutcome::Rejected(RCError::ErrorCode(RCErrorCode::CollectionAlreadyCreated)),
{
    assert(state_after_create_attempts(s0, attempts, i + 1) is Some);
    lemma_stored_id_stable(s0, attempts, i + 1, j);
}

/// Law: while the stored state is empty, mint, add-resource and
/// remove-resource reject with `CollectionNotCreated` whatever the host would
/// have replied — the outcome does not depend on the reply, so no outbound
/// call is ever needed.
pub proof fn lemma_uncreated_short_circuits(status: u32, payload: Seq<u8>)
    ensures
        optional_id_outcome(None::<u32>, status, payload) == OpOutcome::Rejected(
            RCError::ErrorCode(RCErrorCode::CollectionNotCreated),
        ),
        remove_resource_result(None::<u32>, status, payload) == OpOutcome::Rejected(
            RCError::ErrorCode(RCErrorCode::CollectionNotCreated),
        ),
{
}

/// Law: while the stored state is populated, a create-collection attempt is
/// rejected with `CollectionAlreadyCreated` and leaves the state untouched,
/// whatever the host would have replied — again no outbound call is needed.
pub proof fn lemma_created_short_circuits(id: u32, status: u32, payload: Seq<u8>)
    ensures
        create_collection_result(Some(id), status, payload) == OpOutcome::Rejected(
            RCError::ErrorCode(RCErrorCode::CollectionAlreadyCreated),
        ),
        create_collection_next(Some(id), status, payload) == Some(id),
{
}

/// Law: an ownership read never surfaces an error. A host-level failure and
/// absence of ownership are both observed as `false`; a well-formed success
/// reply is answered as decoded.
pub proof fn lemma_read_ownership_never_fails(status: u32, payload: Seq<u8>)
    ensures
        status == 1 ==> read_nft_result(status, payload) == ReadOutcome::Owns(false),
        status == 0 && crate::codec::is_bool_encoding(payload) ==> read_nft_result(status, payload)
            == ReadOutcome::Owns(crate::codec::dec_bool(payload)),
{
}

/// Law: success is owed exactly here. An operation is granted an identifier
/// if and only if its guard passed, the status word reported success, and
/// the payload is precisely the encoding of that identifier.
pub proof fn lemma_id_granted_exactly(stored: Option<u32>, status: u32, payload: Seq<u8>, id: u32)
    ensures
        create_collection_result(stored, status, payload) == OpOutcome::IdAssigned(id) <==> (
        stored is None && status == 0 && payload == crate::codec::enc_option_u32(Some(id))),
        optional_id_outcome(stored, status, payload) == OpOutcome::IdAssigned(id) <==> (
        stored is Some && status == 0 && payload == crate::codec::enc_option_u32(Some(id))),
{
    crate::gateway::lemma_granted_id_characterized(status, payload, id);
}

/// Law: a status word outside the convention aborts the invocation on every
/// call path that reaches the host: no outcome is reported as successful and
/// the stored state does not change.
pub proof fn lemma_unknown_status_aborts(id: u32, status: u32, payload: Seq<u8>)
    requires
        !status_known(status),
    ensures
        create_collection_result(None::<u32>, status, payload) == OpOutcome::ProtocolViolation,
        create_collection_next(None::<u32>, status, payload) == None::<u32>,
        optional_id_outcome(Some(id), status, payload) == OpOutcome::ProtocolViolation,
        remove_resource_result(Some(id), status, payload) == OpOutcome::ProtocolViolation,
        read_nft_result(status, payload) == ReadOutcome::ProtocolViolation,
{
}

} // verus!
