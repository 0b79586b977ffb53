//! The order in which a batch of requests is validated, signed and stored.
//!
//! Signing and storing are done by the caller. A [`Pipeline`] says what is to be done next (its
//! pending [`Action`]) and takes what came of it (an [`Event`]).

use crate::calldata::{parse_calldata, validated, ValidationError};
use crate::event::sqs::{lemma_normalize_all_admissible, normalize_all, SqsEvent};
use crate::event::{views, SignTxRequest, SignTxRequestView};
use crate::transactions::{InsertTransactionInput, InsertTransactionInputView, TxType};
use vstd::prelude::*;
use vstd::slice::slice_to_vec;

verus! {

/// Why a request failed.
#[derive(Debug, Clone, Copy, PartialEq, Eq, Structural)]
pub enum FailureReason {
    /// The call data of the request was rejected.
    Validation(ValidationError),
    /// The signing capability gave no signature.
    SigningFailed,
    /// The store could not be written.
    PersistenceFailed,
}

/// What became of one request that was attempted.
#[derive(Debug, Clone, Copy, PartialEq, Eq, Structural)]
pub enum Outcome {
    /// A new row was created.
    PersistedNew,
    /// A row with the request's `tx_id` was there already.
    PersistedDuplicate,
    /// The request failed.
    Failed(FailureReason),
}

/// What the caller is to do next.
#[derive(Debug, PartialEq, Eq)]
pub enum Action {
    /// Sign these bytes, and answer with [`Event::Signed`] or [`Event::SigningFailed`].
    Sign(Vec<u8>),
    /// Store this record unless its `tx_id` is stored already, and answer with
    /// [`Event::Inserted`] or [`Event::PersistenceFailed`].
    Insert(InsertTransactionInput),
    /// The batch is done, with this result.
    Finish(Result<(), FailureReason>),
}

/// What came of the pending action.
#[derive(Debug, PartialEq, Eq)]
pub enum Event {
    /// The signature over the bytes, in its string form.
    Signed(String),
    /// No signature was obtained.
    SigningFailed,
    /// The store took the record; `true` where it created a row, `false` where a row with that
    /// `tx_id` was there already.
    Inserted(bool),
    /// The store could not be written.
    PersistenceFailed,
}

/// The mathematical content of an [`Action`].
pub enum ActionView {
    Sign(Seq<u8>),
    Insert(InsertTransactionInputView),
    Finish(Result<(), FailureReason>),
}

/// The mathematical content of an [`Event`].
pub enum EventView {
    Signed(Seq<char>),
    SigningFailed,
    Inserted(bool),
    PersistenceFailed,
}

impl View for Action {
    type V = ActionView;

    open spec fn view(&self) -> ActionView {
        match self {
            Action::Sign(payload) => ActionView::Sign(payload@),
            Action::Insert(record) => ActionView::Insert(record@),
            Action::Finish(result) => ActionView::Finish(*result),
        }
    }
}

impl View for Event {
    type V = EventView;

    open spec fn view(&self) -> EventView {
        match self {
            Event::Signed(signature) => EventView::Signed(signature@),
            Event::SigningFailed => EventView::SigningFailed,
            Event::Inserted(created) => EventView::Inserted(*created),
            Event::PersistenceFailed => EventView::PersistenceFailed,
        }
    }
}

impl Clone for Action {
    fn clone(&self) -> (copy: Self)
        ensures
            copy@ == self@,
    {
        match self {
            Action::Sign(payload) => Action::Sign(slice_to_vec(payload.as_slice())),
            Action::Insert(record) => Action::Insert(record.clone()),
            Action::Finish(result) => Action::Finish(*result),
        }
    }
}

impl Clone for Event {
    fn clone(&self) -> (copy: Self)
        ensures
            copy@ == self@,
    {
        match self {
            Event::Signed(signature) => Event::Signed(signature.clone()),
            Event::SigningFailed => Event::SigningFailed,
            Event::Inserted(created) => Event::Inserted(*created),
            Event::PersistenceFailed => Event::PersistenceFailed,
        }
    }
}

/// The outcome of a request whose record the store took.
pub open spec fn persisted(created: bool) -> Outcome {
    if created {
        Outcome::PersistedNew
    } else {
        Outcome::PersistedDuplicate
    }
}

/// Whether every request is admissible.
pub open spec fn all_admissible(requests: Seq<SignTxRequestView>) -> bool {
    forall|i: int| 0 <= i < requests.len() ==> (#[trigger] requests[i]).admissible()
}

/// Whether none of the outcomes is a failure.
pub open spec fn none_failed(outcomes: Seq<Outcome>) -> bool {
    forall|i: int| 0 <= i < outcomes.len() ==> !(#[trigger] outcomes[i] is Failed)
}

/// The mathematical content of a [`Pipeline`].
pub struct PipelineView {
    /// The requests of the batch, in the order in which they were delivered.
    pub requests: Seq<SignTxRequestView>,
    /// The outcomes of the requests attempted so far, in the same order.
    pub outcomes: Seq<Outcome>,
    /// What the caller is to do next.
    pub pending: ActionView,
}

impl PipelineView {
    /// The state in which the request after those with an outcome is taken up: its call data
    /// is validated, and is then to be signed. Where no request is left the batch is done.
    pub open spec fn take_up(
        requests: Seq<SignTxRequestView>,
        outcomes: Seq<Outcome>,
    ) -> PipelineView {
        if outcomes.len() >= requests.len() {
            PipelineView { requests, outcomes, pending: ActionView::Finish(Ok(())) }
        } else {
            match validated(requests[outcomes.len() as int].calldata) {
                Ok(payload) => PipelineView {
                    requests,
                    outcomes,
                    pending: ActionView::Sign(payload),
                },
                Err(error) => PipelineView {
                    requests,
                    outcomes: outcomes.push(Outcome::Failed(FailureReason::Validation(error))),
                    pending: ActionView::Finish(Err(FailureReason::Validation(error))),
                },
            }
        }
    }

    /// The state in which a batch starts.
    pub open spec fn start(requests: Seq<SignTxRequestView>) -> PipelineView {
        PipelineView::take_up(requests, Seq::empty())
    }

    /// The state after the request in hand has failed: the batch is done, and later requests
    /// are not attempted.
    pub open spec fn fail(self, reason: FailureReason) -> PipelineView {
        PipelineView {
            requests: self.requests,
            outcomes: self.outcomes.push(Outcome::Failed(reason)),
            pending: ActionView::Finish(Err(reason)),
        }
    }

    /// The state after an event. An event that does not answer the pending action changes
    /// nothing.
    pub open spec fn step(self, event: EventView) -> PipelineView {
        match (self.pending, event) {
            (ActionView::Sign(_), EventView::Signed(signature)) => PipelineView {
                requests: self.requests,
                outcomes: self.outcomes,
                pending: ActionView::Insert(
                    self.requests[self.outcomes.len() as int].signed(signature),
                ),
            },
            (ActionView::Sign(_), EventView::SigningFailed) => self.fail(
                FailureReason::SigningFailed,
            ),
            (ActionView::Insert(_), EventView::Inserted(created)) => PipelineView::take_up(
                self.requests,
                self.outcomes.push(persisted(created)),
            ),
            (ActionView::Insert(_), EventView::PersistenceFailed) => self.fail(
                FailureReason::PersistenceFailed,
            ),
            _ => self,
        }
    }

    /// Whether the batch is done.
    pub open spec fn finished(self) -> bool {
        self.pending is Finish
    }

    /// What holds of every state that a batch reaches.
    ///
    /// Every request is admissible. Requests are attempted in order, one outcome each. While
    /// the batch runs no request has failed and the pending action belongs to the request after
    /// those with an outcome. A batch that succeeded has attempted every request; one that
    /// failed ends with the failure that it reports, which is its only one.
    pub open spec fn well_formed(self) -> bool {
        &&& all_admissible(self.requests)
        &&& self.in_step()
    }

    /// What the pending action says of the outcomes.
    pub open spec fn in_step(self) -> bool {
        match self.pending {
            ActionView::Sign(payload) => {
                &&& self.outcomes.len() < self.requests.len()
                &&& none_failed(self.outcomes)
                &&& validated(self.requests[self.outcomes.len() as int].calldata) == Ok::<
                    Seq<u8>,
                    ValidationError,
                >(payload)
            },
            ActionView::Insert(record) => {
                &&& self.outcomes.len() < self.requests.len()
                &&& none_failed(self.outcomes)
                &&& validated(self.requests[self.outcomes.len() as int].calldata) is Ok
                &&& record == self.requests[self.outcomes.len() as int].signed(record.signature)
            },
            ActionView::Finish(Ok(())) => {
                &&& self.outcomes.len() == self.requests.len()
                &&& none_failed(self.outcomes)
            },
            ActionView::Finish(Err(reason)) => {
                &&& 0 < self.outcomes.len() <= self.requests.len()
                &&& none_failed(self.outcomes.drop_last())
                &&& self.outcomes.last() == Outcome::Failed(reason)
            },
        }
    }
}

/// The state in which a batch of admissible requests starts is well formed.
pub proof fn lemma_start_is_well_formed(requests: Seq<SignTxRequestView>)
    requires
        all_admissible(requests),
    ensures
        PipelineView::start(requests).well_formed(),
{
    lemma_take_up_is_well_formed(requests, Seq::empty());
}

/// Taking up the next request after requests that did not fail gives a well-formed state.
pub proof fn lemma_take_up_is_well_formed(
    requests: Seq<SignTxRequestView>,
    outcomes: Seq<Outcome>,
)
    requires
        all_admissible(requests),
        outcomes.len() <= requests.len(),
        none_failed(outcomes),
    ensures
        PipelineView::take_up(requests, outcomes).well_formed(),
{
    let next = PipelineView::take_up(requests, outcomes);
    if outcomes.len() < requests.len() {
        if let Err(error) = validated(requests[outcomes.len() as int].calldata) {
            assert(next.outcomes.drop_last() =~= outcomes);
        }
    }
}

/// Every event leads from a well-formed state to a well-formed state.
pub proof fn lemma_step_keeps_well_formed(state: PipelineView, event: EventView)
    requires
        state.well_formed(),
    ensures
        state.step(event).well_formed(),
{
    let next = state.step(event);
    match (state.pending, event) {
        (ActionView::Sign(_), EventView::Signed(signature)) => {},
        (ActionView::Sign(_), EventView::SigningFailed) => {
            assert(next.outcomes.drop_last() =~= state.outcomes);
        },
        (ActionView::Insert(_), EventView::Inserted(created)) => {
            lemma_take_up_is_well_formed(state.requests, state.outcomes.push(persisted(created)));
        },
        (ActionView::Insert(_), EventView::PersistenceFailed) => {
            assert(next.outcomes.drop_last() =~= state.outcomes);
        },
        _ => {},
    }
}

/// A batch that is done stays as it is: after the first failure, or after the last request, no
/// event changes the outcomes or the result.
pub proof fn lemma_finished_is_final(state: PipelineView, event: EventView)
    requires
        state.finished(),
    ensures
        state.step(event) == state,
{
}

/// An event never takes an outcome back or changes the batch: the outcomes before are a prefix
/// of the outcomes after. At most two are added: that of the request in hand and, where the
/// call data of the next request is rejected, the failure of that one.
pub proof fn lemma_step_extends_outcomes(state: PipelineView, event: EventView)
    ensures
        state.step(event).requests == state.requests,
        state.outcomes.is_prefix_of(state.step(event).outcomes),
        state.step(event).outcomes.len() <= state.outcomes.len() + 2,
{
}

/// A batch succeeds only where every request was stored, and fails only on its last outcome:
/// in a well-formed state that is done, the result is `Ok` exactly if no outcome is a failure.
pub proof fn lemma_result_reflects_outcomes(state: PipelineView)
    requires
        state.well_formed(),
        state.finished(),
    ensures
        state.pending matches ActionView::Finish(Ok(_)) <==> state.outcomes.len()
            == state.requests.len() && none_failed(state.outcomes),
        state.pending matches ActionView::Finish(Err(reason)) ==> state.outcomes.last()
            == Outcome::Failed(reason),
{
    if let ActionView::Finish(Err(reason)) = state.pending {
        assert(state.outcomes[state.outcomes.len() - 1] is Failed);
    }
}

/// A record that is to be stored for a blob transaction names the file of the blob.
pub proof fn lemma_stored_blob_names_its_file(state: PipelineView)
    requires
        state.well_formed(),
    ensures
        state.pending matches ActionView::Insert(record) ==> (record.tx_type == TxType::BLOB
            ==> record.blob_file_path is Some),
{
    if let ActionView::Insert(record) = state.pending {
        assert(state.requests[state.outcomes.len() as int].admissible());
    }
}

/// The state of one batch between two actions of the caller.
pub struct Pipeline {
    requests: Vec<SignTxRequest>,
    outcomes: Vec<Outcome>,
    pending: Action,
}

impl View for Pipeline {
    type V = PipelineView;

    closed spec fn view(&self) -> PipelineView {
        PipelineView {
            requests: views(self.requests@),
            outcomes: self.outcomes@,
            pending: self.pending@,
        }
    }
}

impl Pipeline {
    #[verifier::type_invariant]
    spec fn consistent(&self) -> bool {
        self@.well_formed()
    }

    /// Takes up the request after those with an outcome.
    fn take_up(requests: Vec<SignTxRequest>, outcomes: Vec<Outcome>) -> (pipeline: Pipeline)
        requires
            all_admissible(views(requests@)),
            outcomes@.len() <= requests@.len(),
            none_failed(outcomes@),
        ensures
            pipeline@ == PipelineView::take_up(views(requests@), outcomes@),
    {
        if outcomes.len() >= requests.len() {
            return Pipeline { requests, outcomes, pending: Action::Finish(Ok(())) };
        }
        match parse_calldata(&requests[outcomes.len()].calldata) {
            Ok(payload) => Pipeline { requests, outcomes, pending: Action::Sign(payload) },
            Err(error) => Pipeline::fail(requests, outcomes, FailureReason::Validation(error)),
        }
    }

    /// Ends the batch with the failure of the request in hand.
    fn fail(
        requests: Vec<SignTxRequest>,
        outcomes: Vec<Outcome>,
        reason: FailureReason,
    ) -> (pipeline: Pipeline)
        requires
            all_admissible(views(requests@)),
            outcomes@.len() < requests@.len(),
            none_failed(outcomes@),
        ensures
            pipeline@ == (PipelineView {
                requests: views(requests@),
                outcomes: outcomes@.push(Outcome::Failed(reason)),
                pending: ActionView::Finish(Err(reason)),
            }),
    {
        let mut outcomes = outcomes;
        let ghost before = outcomes@;
        outcomes.push(Outcome::Failed(reason));
        assert(outcomes@.drop_last() =~= before);
        Pipeline { requests, outcomes, pending: Action::Finish(Err(reason)) }
    }

    /// Starts a batch: its records are normalized, and the first request is taken up.
    pub fn new(event: SqsEvent) -> (pipeline: Pipeline)
        ensures
            pipeline@ == PipelineView::start(normalize_all(event@)),
            pipeline@.well_formed(),
    {
        proof {
            lemma_normalize_all_admissible(event@);
        }
        let requests = SignTxRequest::from_sqs_event(event);
        let pipeline = Pipeline::take_up(requests, Vec::new());
        proof {
            use_type_invariant(&pipeline);
        }
        pipeline
    }

    /// What the caller is to do next.
    pub fn pending(&self) -> (action: &Action)
        ensures
            action@ == self@.pending,
    {
        &self.pending
    }

    /// The outcomes of the requests attempted so far, in the order of the batch.
    pub fn outcomes(&self) -> (outcomes: &Vec<Outcome>)
        ensures
            outcomes@ == self@.outcomes,
    {
        &self.outcomes
    }

    /// The requests of the batch.
    pub fn requests(&self) -> (requests: &Vec<SignTxRequest>)
        ensures
            views(requests@) == self@.requests,
    {
        &self.requests
    }

    /// Takes what came of the pending action and moves on.
    ///
    /// A signature leads to the record to store; a stored record leads to the next request; a
    /// failure ends the batch. An event that does not answer the pending action is ignored.
    pub fn step(self, event: Event) -> (next: Pipeline)
        ensures
            next@ == self@.step(event@),
            next@.well_formed(),
    {
        proof {
            use_type_invariant(&self);
        }
        let Pipeline { requests, outcomes, pending } = self;
        let next = match pending {
            Action::Sign(payload) => match event {
                Event::Signed(signature) => {
                    let record = requests[outcomes.len()].into_db_transaction(signature);
                    Pipeline { requests, outcomes, pending: Action::Insert(record) }
                },
                Event::SigningFailed => Pipeline::fail(
                    requests,
                    outcomes,
                    FailureReason::SigningFailed,
                ),
                _ => Pipeline { requests, outcomes, pending: Action::Sign(payload) },
            },
            Action::Insert(record) => match event {
                Event::Inserted(created) => {
                    let mut outcomes = outcomes;
                    outcomes.push(
                        if created {
                            Outcome::PersistedNew
                        } else {
                            Outcome::PersistedDuplicate
                        },
                    );
                    Pipeline::take_up(requests, outcomes)
                },
                Event::PersistenceFailed => Pipeline::fail(
                    requests,
                    outcomes,
                    FailureReason::PersistenceFailed,
                ),
                _ => Pipeline { requests, outcomes, pending: Action::Insert(record) },
            },
            Action::Finish(result) => Pipeline {
                requests,
                outcomes,
                pending: Action::Finish(result),
            },
        };
        proof {
            use_type_invariant(&next);
        }
        next
    }
}

} // verus!
