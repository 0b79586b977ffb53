//! Batches of queue records and the requests taken from them.

use crate::event::{request_of_json, views, SignTxRequest, SignTxRequestView};
use crate::json::{json_parse, value_from_str};
use crate::text::text_of;
use crate::transactions::TxType;
use vstd::prelude::*;

verus! {

/// One record of a batch, as the queue delivers it.
#[derive(Debug, PartialEq, Eq, Default)]
pub struct SqsMessage {
    pub body: Option<String>,
}

/// One batch of records.
#[derive(Debug, PartialEq, Eq, Default)]
pub struct SqsEvent {
    pub records: Vec<SqsMessage>,
}

impl View for SqsMessage {
    type V = Option<Seq<char>>;

    open spec fn view(&self) -> Option<Seq<char>> {
        text_of(self.body)
    }
}

impl View for SqsEvent {
    type V = Seq<Option<Seq<char>>>;

    open spec fn view(&self) -> Seq<Option<Seq<char>>> {
        Seq::new(self.records@.len(), |i: int| self.records@[i]@)
    }
}

/// The request that the body of a record describes, where it parses.
pub open spec fn request_of_body(body: Seq<char>) -> Option<SignTxRequestView> {
    match json_parse(body) {
        Some(json) => request_of_json(json),
        None => None,
    }
}

/// The request that a record is normalized to. A record without a body, with a body that does
/// not parse as a request, or with a blob request that names no blob file, is dropped.
pub open spec fn normalize(record: Option<Seq<char>>) -> Option<SignTxRequestView> {
    match record {
        Some(body) => match request_of_body(body) {
            Some(request) => if request.admissible() {
                Some(request)
            } else {
                None
            },
            None => None,
        },
        None => None,
    }
}

/// The requests that a batch yields, in the order of their records.
pub open spec fn normalize_all(records: Seq<Option<Seq<char>>>) -> Seq<SignTxRequestView>
    decreases records.len(),
{
    if records.len() == 0 {
        Seq::empty()
    } else {
        match normalize(records.last()) {
            Some(request) => normalize_all(records.drop_last()).push(request),
            None => normalize_all(records.drop_last()),
        }
    }
}

/// A record is dropped where it has no body, where its body does not parse, where the parsed
/// body is no request, and where the request is for a blob and names no blob file.
pub proof fn lemma_dropped_records(record: Option<Seq<char>>)
    ensures
        record is None ==> normalize(record) is None,
        record matches Some(body) && json_parse(body) is None ==> normalize(record) is None,
        record matches Some(body) && json_parse(body) matches Some(json) && request_of_json(json)
            is None ==> normalize(record) is None,
        record matches Some(body) && request_of_body(body) matches Some(request)
            && request.tx_type == TxType::BLOB && request.blob_file_path is None ==> normalize(
            record,
        ) is None,
{
}

/// The requests of a batch are those of its first part followed by those of the rest.
pub proof fn lemma_normalize_all_concat(
    front: Seq<Option<Seq<char>>>,
    back: Seq<Option<Seq<char>>>,
)
    ensures
        normalize_all(front + back) == normalize_all(front) + normalize_all(back),
    decreases back.len(),
{
    if back.len() == 0 {
        assert(front + back =~= front);
        assert(normalize_all(front) + normalize_all(back) =~= normalize_all(front));
    } else {
        assert((front + back).drop_last() =~= front + back.drop_last());
        assert((front + back).last() == back.last());
        lemma_normalize_all_concat(front, back.drop_last());
        match normalize(back.last()) {
            Some(request) => {
                assert(normalize_all(front + back) =~= normalize_all(front) + normalize_all(back));
            },
            None => {},
        }
    }
}

/// A record that is dropped leaves no trace: the batch yields what it yields without the
/// record.
pub proof fn lemma_dropped_record_leaves_no_trace(records: Seq<Option<Seq<char>>>, i: int)
    requires
        0 <= i < records.len(),
        normalize(records[i]) is None,
    ensures
        normalize_all(records) == normalize_all(records.remove(i)),
{
    let front = records.take(i);
    let back = records.skip(i + 1);
    let one = seq![records[i]];
    assert(records =~= front + (one + back));
    assert(records.remove(i) =~= front + back);
    lemma_normalize_all_concat(front, one + back);
    lemma_normalize_all_concat(one, back);
    lemma_normalize_all_concat(front, back);
    assert(one.last() == records[i]);
    assert(normalize_all(one.drop_last()) =~= Seq::<SignTxRequestView>::empty());
    assert(normalize_all(one) =~= Seq::<SignTxRequestView>::empty());
    assert(normalize_all(one) + normalize_all(back) =~= normalize_all(back));
}

/// Every request that a batch yields is admissible, and no more requests come out than records
/// went in.
pub proof fn lemma_normalize_all_admissible(records: Seq<Option<Seq<char>>>)
    ensures
        normalize_all(records).len() <= records.len(),
        forall|k: int|
            0 <= k < normalize_all(records).len() ==> (#[trigger] normalize_all(
                records,
            )[k]).admissible(),
    decreases records.len(),
{
    if records.len() > 0 {
        lemma_normalize_all_admissible(records.drop_last());
    }
}

impl SignTxRequest {
    /// Reads a request from the body of a record.
    pub fn from_body(body: &str) -> (request: Option<SignTxRequest>)
        ensures
            match request {
                Some(found) => request_of_body(body@) == Some(found@),
                None => request_of_body(body@) is None,
            },
    {
        match value_from_str(body) {
            Ok(value) => SignTxRequest::from_json(&value),
            Err(_) => None,
        }
    }

    /// Admits one record, or drops it.
    pub fn from_sqs_message(message: &SqsMessage) -> (request: Option<SignTxRequest>)
        ensures
            match request {
                Some(found) => normalize(message@) == Some(found@),
                None => normalize(message@) is None,
            },
    {
        match &message.body {
            Some(body) => match SignTxRequest::from_body(body.as_str()) {
                Some(request) => {
                    if request.tx_type == TxType::BLOB && request.blob_file_path.is_none() {
                        None
                    } else {
                        Some(request)
                    }
                },
                None => None,
            },
            None => None,
        }
    }

    /// Admits the records of a batch. Records that are dropped leave no trace in the result and
    /// do not make the batch fail.
    pub fn from_sqs_event(event: SqsEvent) -> (requests: Vec<SignTxRequest>)
        ensures
            views(requests@) == normalize_all(event@),
    {
        let mut requests: Vec<SignTxRequest> = Vec::new();
        let mut i: usize = 0;
        assert(event@.take(0) =~= Seq::empty());
        while i < event.records.len()
            invariant
                i <= event.records@.len(),
                views(requests@) == normalize_all(event@.take(i as int)),
            decreases event.records@.len() - i,
        {
            proof {
                assert(event@.take(i + 1).drop_last() =~= event@.take(i as int));
                assert(event@.take(i + 1).last() == event.records@[i as int]@);
            }
            let ghost before = requests@;
            match SignTxRequest::from_sqs_message(&event.records[i]) {
                Some(request) => {
                    requests.push(request);
                    assert(views(requests@) =~= views(before).push(request@));
                },
                None => {},
            }
            i += 1;
        }
        assert(event@.take(i as int) =~= event@);
        requests
    }
}

} // verus!
