//! What a delivery of a batch does to the table, whoever signs.
//!
//! A delivery carries a batch through its [`Pipeline`](crate::pipeline::Pipeline): each pending
//! action is performed, by a signing capability or on the table, and answered, until the batch
//! is done. The laws of this module hold of every signing capability.

use crate::event::SignTxRequestView;
use crate::pipeline::{
    all_admissible, lemma_start_is_well_formed, lemma_step_keeps_well_formed, none_failed,
    ActionView, EventView, Outcome, PipelineView,
};
use crate::transactions::{
    has_tx_id, insert_if_absent, lemma_insert_keeps_rows, lemma_insert_keeps_unique,
    unique_tx_ids, TransactionView,
};
use vstd::prelude::*;

verus! {

/// The number of actions that a batch may still ask for.
pub open spec fn remaining(state: PipelineView) -> nat {
    match state.pending {
        ActionView::Sign(_) => if state.outcomes.len() < state.requests.len() {
            (2 * (state.requests.len() - state.outcomes.len())) as nat
        } else {
            0
        },
        ActionView::Insert(_) => if state.outcomes.len() < state.requests.len() {
            (2 * (state.requests.len() - state.outcomes.len()) - 1) as nat
        } else {
            0
        },
        ActionView::Finish(_) => 0,
    }
}

/// The answer to the pending action, where `signer` signs and the table holds `rows`.
pub open spec fn answer(
    state: PipelineView,
    signer: spec_fn(Seq<u8>) -> Option<Seq<char>>,
    rows: Seq<TransactionView>,
) -> EventView {
    match state.pending {
        ActionView::Sign(payload) => match signer(payload) {
            Some(signature) => EventView::Signed(signature),
            None => EventView::SigningFailed,
        },
        ActionView::Insert(record) => EventView::Inserted(!has_tx_id(rows, record.tx_id)),
        ActionView::Finish(_) => EventView::SigningFailed,
    }
}

/// The table after the pending action, performed at the time `now`.
pub open spec fn performed(
    state: PipelineView,
    rows: Seq<TransactionView>,
    now: int,
) -> Seq<TransactionView> {
    match state.pending {
        ActionView::Insert(record) => insert_if_absent(rows, record, now),
        _ => rows,
    }
}

/// The state in which a batch ends, and the table that it leaves, where `signer` signs and
/// every insert is made at the time `now`.
pub open spec fn deliver(
    state: PipelineView,
    signer: spec_fn(Seq<u8>) -> Option<Seq<char>>,
    rows: Seq<TransactionView>,
    now: int,
) -> (PipelineView, Seq<TransactionView>)
    decreases remaining(state),
{
    if state.finished() || !state.well_formed() {
        (state, rows)
    } else {
        deliver(state.step(answer(state, signer, rows)), signer, performed(state, rows, now), now)
    }
}

/// The state in which a batch of `requests` ends, and the table that it leaves.
pub open spec fn process(
    requests: Seq<SignTxRequestView>,
    signer: spec_fn(Seq<u8>) -> Option<Seq<char>>,
    rows: Seq<TransactionView>,
    now: int,
) -> (PipelineView, Seq<TransactionView>) {
    deliver(PipelineView::start(requests), signer, rows, now)
}

/// Whether the table holds a row for each of the requests from `from` on.
pub open spec fn all_stored(
    rows: Seq<TransactionView>,
    requests: Seq<SignTxRequestView>,
    from: int,
) -> bool {
    forall|i: int| from <= i < requests.len() ==> has_tx_id(rows, (#[trigger] requests[i]).tx_id)
}

/// Whether none of the outcomes from `from` on reports a new row.
pub open spec fn none_created(outcomes: Seq<Outcome>, from: int) -> bool {
    forall|i: int| from <= i < outcomes.len() ==> #[trigger] outcomes[i] != Outcome::PersistedNew
}

/// Every delivery comes to an end: the batch is done, in a well-formed state, with the
/// outcomes that it had and possibly more. The table keeps its rows, gains rows at its end
/// only, and stays keyed by `tx_id`.
pub proof fn lemma_deliver_ends(
    state: PipelineView,
    signer: spec_fn(Seq<u8>) -> Option<Seq<char>>,
    rows: Seq<TransactionView>,
    now: int,
)
    requires
        state.well_formed(),
    ensures
        deliver(state, signer, rows, now).0.finished(),
        deliver(state, signer, rows, now).0.well_formed(),
        deliver(state, signer, rows, now).0.requests == state.requests,
        state.outcomes.is_prefix_of(deliver(state, signer, rows, now).0.outcomes),
        rows.is_prefix_of(deliver(state, signer, rows, now).1),
        unique_tx_ids(rows) ==> unique_tx_ids(deliver(state, signer, rows, now).1),
    decreases remaining(state),
{
    if !state.finished() {
        let event = answer(state, signer, rows);
        let next = state.step(event);
        let table = performed(state, rows, now);
        lemma_step_keeps_well_formed(state, event);
        if let ActionView::Insert(record) = state.pending {
            lemma_insert_keeps_rows(rows, record, now);
            if unique_tx_ids(rows) {
                lemma_insert_keeps_unique(rows, record, now);
            }
        }
        lemma_deliver_ends(next, signer, table, now);
    }
}

/// A delivery that succeeds leaves a row for every request that had no outcome yet.
pub proof fn lemma_success_stores_requests(
    state: PipelineView,
    signer: spec_fn(Seq<u8>) -> Option<Seq<char>>,
    rows: Seq<TransactionView>,
    now: int,
)
    requires
        state.well_formed(),
        deliver(state, signer, rows, now).0.pending matches ActionView::Finish(Ok(_)),
    ensures
        all_stored(
            deliver(state, signer, rows, now).1,
            state.requests,
            state.outcomes.len() as int,
        ),
    decreases remaining(state),
{
    if !state.finished() {
        let event = answer(state, signer, rows);
        let next = state.step(event);
        let table = performed(state, rows, now);
        let end = deliver(state, signer, rows, now);
        lemma_step_keeps_well_formed(state, event);
        lemma_success_stores_requests(next, signer, table, now);
        lemma_deliver_ends(next, signer, table, now);
        if let ActionView::Insert(record) = state.pending {
            let current = state.outcomes.len() as int;
            lemma_insert_keeps_rows(rows, record, now);
            let i = choose|i: int|
                0 <= i < table.len() && (#[trigger] table[i]).tx_id == record.tx_id;
            assert(end.1[i] == table[i]);
            assert(has_tx_id(end.1, state.requests[current].tx_id));
            assert forall|j: int| current <= j < state.requests.len() implies has_tx_id(
                end.1,
                (#[trigger] state.requests[j]).tx_id,
            ) by {
                if j > current {
                    assert(next.outcomes.len() >= current + 1);
                }
            }
        }
    }
}

/// A delivery to a table that holds a row for every request to come changes nothing and
/// creates no row.
pub proof fn lemma_stored_requests_change_nothing(
    state: PipelineView,
    signer: spec_fn(Seq<u8>) -> Option<Seq<char>>,
    rows: Seq<TransactionView>,
    now: int,
)
    requires
        state.well_formed(),
        all_stored(rows, state.requests, state.outcomes.len() as int),
    ensures
        deliver(state, signer, rows, now).1 == rows,
        none_created(deliver(state, signer, rows, now).0.outcomes, state.outcomes.len() as int),
    decreases remaining(state),
{
    if !state.finished() {
        let event = answer(state, signer, rows);
        let next = state.step(event);
        let table = performed(state, rows, now);
        let end = deliver(state, signer, rows, now);
        let current = state.outcomes.len() as int;
        lemma_step_keeps_well_formed(state, event);
        assert(has_tx_id(rows, state.requests[current].tx_id));
        assert(table == rows);
        assert(next.requests == state.requests);
        lemma_stored_requests_change_nothing(next, signer, table, now);
        lemma_deliver_ends(next, signer, table, now);
        assert forall|i: int|
            current <= i < end.0.outcomes.len() implies #[trigger] end.0.outcomes[i]
            != Outcome::PersistedNew by {
            if i < next.outcomes.len() {
                assert(end.0.outcomes[i] == next.outcomes[i]);
            }
        }
    }
}

/// A batch that is delivered again after it succeeded leaves the table as the first delivery
/// left it, and creates no row, whoever signs the second time and whether or not the second
/// delivery succeeds. With the table keyed by `tx_id`, that is one row for each identifier of
/// the batch.
pub proof fn lemma_redelivery_changes_nothing(
    requests: Seq<SignTxRequestView>,
    first_signer: spec_fn(Seq<u8>) -> Option<Seq<char>>,
    second_signer: spec_fn(Seq<u8>) -> Option<Seq<char>>,
    rows: Seq<TransactionView>,
    first: int,
    second: int,
)
    requires
        all_admissible(requests),
        unique_tx_ids(rows),
        process(requests, first_signer, rows, first).0.pending matches ActionView::Finish(Ok(_)),
    ensures
        all_stored(process(requests, first_signer, rows, first).1, requests, 0),
        unique_tx_ids(process(requests, first_signer, rows, first).1),
        process(requests, second_signer, process(requests, first_signer, rows, first).1, second).1
            == process(requests, first_signer, rows, first).1,
        none_created(
            process(
                requests,
                second_signer,
                process(requests, first_signer, rows, first).1,
                second,
            ).0.outcomes,
            0,
        ),
{
    let start = PipelineView::start(requests);
    let table = process(requests, first_signer, rows, first).1;
    lemma_start_is_well_formed(requests);
    lemma_deliver_ends(start, first_signer, rows, first);
    lemma_success_stores_requests(start, first_signer, rows, first);
    // A batch that succeeded did not fail on its first request, so it started with no outcome.
    assert(start.outcomes.len() == 0) by {
        if start.outcomes.len() > 0 {
            let end = process(requests, first_signer, rows, first).0;
            assert(end.outcomes[0] == start.outcomes[0]);
            assert(none_failed(end.outcomes));
        }
    }
    lemma_stored_requests_change_nothing(start, second_signer, table, second);
    assert forall|i: int| 0 <= i < requests.len() implies has_tx_id(
        table,
        (#[trigger] requests[i]).tx_id,
    ) by {
        assert(start.requests[i] == requests[i]);
    }
}

} // verus!
