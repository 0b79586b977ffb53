//! Records of signed transactions and the table that stores them.

use crate::text::{clone_text, str_eq, text_of};
use vstd::prelude::*;

verus! {

/// The kind of a transaction.
#[allow(non_camel_case_types)]
#[derive(Debug, Clone, Copy, PartialEq, Eq, Structural)]
pub enum TxType {
    STANDARD,
    BLOB,
}

/// The state of a stored transaction. Rows written by the signing pipeline are `SIGNED`.
#[allow(non_camel_case_types)]
#[derive(Debug, Clone, Copy, PartialEq, Eq, Structural)]
pub enum TxStatus {
    SIGNED,
}

impl TxType {
    /// The name of the kind, as records and rows write it.
    pub open spec fn spec_name(self) -> Seq<char> {
        match self {
            TxType::STANDARD => "STANDARD"@,
            TxType::BLOB => "BLOB"@,
        }
    }

    /// The kind that a name stands for.
    pub open spec fn named(name: Seq<char>) -> Option<TxType> {
        if name == "STANDARD"@ {
            Some(TxType::STANDARD)
        } else if name == "BLOB"@ {
            Some(TxType::BLOB)
        } else {
            None
        }
    }

    /// The name of the kind, as records and rows write it.
    pub fn name(&self) -> (name: &'static str)
        ensures
            name@ == self.spec_name(),
    {
        match self {
            TxType::STANDARD => "STANDARD",
            TxType::BLOB => "BLOB",
        }
    }

    /// The kind that a name stands for, if it is the name of a kind.
    pub fn from_name(name: &str) -> (kind: Option<TxType>)
        ensures
            kind == TxType::named(name@),
    {
        if str_eq(name, "STANDARD") {
            Some(TxType::STANDARD)
        } else if str_eq(name, "BLOB") {
            Some(TxType::BLOB)
        } else {
            None
        }
    }
}

impl TxStatus {
    /// The name of the state, as rows write it.
    pub open spec fn spec_name(self) -> Seq<char> {
        match self {
            TxStatus::SIGNED => "SIGNED"@,
        }
    }

    /// The state that a name stands for.
    pub open spec fn named(name: Seq<char>) -> Option<TxStatus> {
        if name == "SIGNED"@ {
            Some(TxStatus::SIGNED)
        } else {
            None
        }
    }

    /// The name of the state, as rows write it.
    pub fn name(&self) -> (name: &'static str)
        ensures
            name@ == self.spec_name(),
    {
        match self {
            TxStatus::SIGNED => "SIGNED",
        }
    }

    /// The state that a name stands for, if it is the name of a state.
    pub fn from_name(name: &str) -> (status: Option<TxStatus>)
        ensures
            status == TxStatus::named(name@),
    {
        if str_eq(name, "SIGNED") {
            Some(TxStatus::SIGNED)
        } else {
            None
        }
    }
}

/// Every kind is the kind that its name stands for.
pub proof fn lemma_tx_type_names_round_trip(kind: TxType)
    ensures
        TxType::named(kind.spec_name()) == Some(kind),
{
    reveal_strlit("STANDARD");
    reveal_strlit("BLOB");
    assert("STANDARD"@.len() != "BLOB"@.len());
}

/// A stored row.
#[derive(Debug, PartialEq, Eq)]
pub struct Transaction {
    pub tx_id: String,
    pub sender_id: String,
    pub tx_type: TxType,
    pub tx_status: TxStatus,
    pub calldata: String,
    pub chain_id: i32,
    pub signature: String,
    pub blob_file_path: Option<String>,
    pub tx_hash: Option<String>,
    /// Nanoseconds since the Unix epoch, assigned by the store.
    pub created_at: i128,
    /// Nanoseconds since the Unix epoch, assigned by the store.
    pub updated_at: i128,
}

/// What a caller supplies to create a row.
#[derive(Debug, PartialEq, Eq)]
pub struct InsertTransactionInput {
    pub tx_id: String,
    pub sender_id: String,
    pub tx_type: TxType,
    pub tx_status: TxStatus,
    pub calldata: String,
    pub chain_id: i32,
    pub signature: String,
    pub blob_file_path: Option<String>,
}

/// The mathematical content of a [`Transaction`].
pub struct TransactionView {
    pub tx_id: Seq<char>,
    pub sender_id: Seq<char>,
    pub tx_type: TxType,
    pub tx_status: TxStatus,
    pub calldata: Seq<char>,
    pub chain_id: i32,
    pub signature: Seq<char>,
    pub blob_file_path: Option<Seq<char>>,
    pub tx_hash: Option<Seq<char>>,
    pub created_at: int,
    pub updated_at: int,
}

/// The mathematical content of an [`InsertTransactionInput`].
pub struct InsertTransactionInputView {
    pub tx_id: Seq<char>,
    pub sender_id: Seq<char>,
    pub tx_type: TxType,
    pub tx_status: TxStatus,
    pub calldata: Seq<char>,
    pub chain_id: i32,
    pub signature: Seq<char>,
    pub blob_file_path: Option<Seq<char>>,
}

impl View for Transaction {
    type V = TransactionView;

    open spec fn view(&self) -> TransactionView {
        TransactionView {
            tx_id: self.tx_id@,
            sender_id: self.sender_id@,
            tx_type: self.tx_type,
            tx_status: self.tx_status,
            calldata: self.calldata@,
            chain_id: self.chain_id,
            signature: self.signature@,
            blob_file_path: text_of(self.blob_file_path),
            tx_hash: text_of(self.tx_hash),
            created_at: self.created_at as int,
            updated_at: self.updated_at as int,
        }
    }
}

impl View for InsertTransactionInput {
    type V = InsertTransactionInputView;

    open spec fn view(&self) -> InsertTransactionInputView {
        InsertTransactionInputView {
            tx_id: self.tx_id@,
            sender_id: self.sender_id@,
            tx_type: self.tx_type,
            tx_status: self.tx_status,
            calldata: self.calldata@,
            chain_id: self.chain_id,
            signature: self.signature@,
            blob_file_path: text_of(self.blob_file_path),
        }
    }
}

impl Clone for Transaction {
    fn clone(&self) -> (copy: Self)
        ensures
            copy@ == self@,
    {
        Transaction {
            tx_id: self.tx_id.clone(),
            sender_id: self.sender_id.clone(),
            tx_type: self.tx_type,
            tx_status: self.tx_status,
            calldata: self.calldata.clone(),
            chain_id: self.chain_id,
            signature: self.signature.clone(),
            blob_file_path: clone_text(&self.blob_file_path),
            tx_hash: clone_text(&self.tx_hash),
            created_at: self.created_at,
            updated_at: self.updated_at,
        }
    }
}

impl Clone for InsertTransactionInput {
    fn clone(&self) -> (copy: Self)
        ensures
            copy@ == self@,
    {
        InsertTransactionInput {
            tx_id: self.tx_id.clone(),
            sender_id: self.sender_id.clone(),
            tx_type: self.tx_type,
            tx_status: self.tx_status,
            calldata: self.calldata.clone(),
            chain_id: self.chain_id,
            signature: self.signature.clone(),
            blob_file_path: clone_text(&self.blob_file_path),
        }
    }
}

/// Whether some row of `rows` has the identifier `tx_id`.
pub open spec fn has_tx_id(rows: Seq<TransactionView>, tx_id: Seq<char>) -> bool {
    exists|i: int| 0 <= i < rows.len() && (#[trigger] rows[i]).tx_id == tx_id
}

/// Whether no two rows of `rows` share an identifier.
pub open spec fn unique_tx_ids(rows: Seq<TransactionView>) -> bool {
    forall|i: int, j: int|
        0 <= i < j < rows.len() ==> (#[trigger] rows[i]).tx_id != (#[trigger] rows[j]).tx_id
}

/// The row that the store creates from `input` at the time `now`.
pub open spec fn created_row(input: InsertTransactionInputView, now: int) -> TransactionView {
    TransactionView {
        tx_id: input.tx_id,
        sender_id: input.sender_id,
        tx_type: input.tx_type,
        tx_status: input.tx_status,
        calldata: input.calldata,
        chain_id: input.chain_id,
        signature: input.signature,
        blob_file_path: input.blob_file_path,
        tx_hash: None,
        created_at: now,
        updated_at: now,
    }
}

/// The rows after an attempt to insert `input` at the time `now`: a new row comes last, and
/// where the identifier is taken nothing changes.
pub open spec fn insert_if_absent(
    rows: Seq<TransactionView>,
    input: InsertTransactionInputView,
    now: int,
) -> Seq<TransactionView> {
    if has_tx_id(rows, input.tx_id) {
        rows
    } else {
        rows.push(created_row(input, now))
    }
}

/// An insert leaves a table keyed: no two rows share an identifier afterwards.
pub proof fn lemma_insert_keeps_unique(
    rows: Seq<TransactionView>,
    input: InsertTransactionInputView,
    now: int,
)
    requires
        unique_tx_ids(rows),
    ensures
        unique_tx_ids(insert_if_absent(rows, input, now)),
{
    let after = insert_if_absent(rows, input, now);
    if !has_tx_id(rows, input.tx_id) {
        assert forall|i: int, j: int| 0 <= i < j < after.len() implies (#[trigger] after[i]).tx_id
            != (#[trigger] after[j]).tx_id by {
            if j == rows.len() {
                assert(rows[i].tx_id != input.tx_id);
            } else {
                assert(rows[i].tx_id != rows[j].tx_id);
            }
        }
    }
}

/// Inserting a record, and then one with the same identifier, creates one row: the first
/// insert creates it, the second creates nothing, and the table after both is the table after
/// the first alone.
pub proof fn lemma_insert_is_idempotent(
    rows: Seq<TransactionView>,
    input: InsertTransactionInputView,
    again: InsertTransactionInputView,
    first: int,
    second: int,
)
    requires
        !has_tx_id(rows, input.tx_id),
        again.tx_id == input.tx_id,
    ensures
        insert_if_absent(rows, input, first) == rows.push(created_row(input, first)),
        has_tx_id(insert_if_absent(rows, input, first), again.tx_id),
        insert_if_absent(insert_if_absent(rows, input, first), again, second) == insert_if_absent(
            rows,
            input,
            first,
        ),
{
    let after = insert_if_absent(rows, input, first);
    assert(after[rows.len() as int].tx_id == again.tx_id);
}

/// An insert never changes or removes a row that is stored: the table before is a prefix of the
/// table after, whatever is inserted.
pub proof fn lemma_insert_keeps_rows(
    rows: Seq<TransactionView>,
    input: InsertTransactionInputView,
    now: int,
)
    ensures
        rows.is_prefix_of(insert_if_absent(rows, input, now)),
        has_tx_id(insert_if_absent(rows, input, now), input.tx_id),
{
    let after = insert_if_absent(rows, input, now);
    if has_tx_id(rows, input.tx_id) {
    } else {
        assert(after[rows.len() as int].tx_id == input.tx_id);
    }
}

/// No row is found under the identifier.
#[derive(Debug, Clone, Copy, PartialEq, Eq, Structural)]
pub struct NotFound;

/// The table of signed transactions, keyed by `tx_id`.
///
/// The table holds its rows in memory, in the order in which they were created. It states what
/// a store has to do for the signing pipeline: an insert that leaves a stored identifier alone,
/// and a lookup by identifier.
pub struct TransactionRepo {
    rows: Vec<Transaction>,
}

impl View for TransactionRepo {
    type V = Seq<TransactionView>;

    closed spec fn view(&self) -> Seq<TransactionView> {
        Seq::new(self.rows@.len(), |i: int| self.rows@[i]@)
    }
}

impl TransactionRepo {
    #[verifier::type_invariant]
    spec fn keyed(&self) -> bool {
        unique_tx_ids(self@)
    }

    /// An empty table.
    pub fn new() -> (repo: TransactionRepo)
        ensures
            repo@ == Seq::<TransactionView>::empty(),
    {
        let repo = TransactionRepo { rows: Vec::new() };
        assert(repo@ =~= Seq::<TransactionView>::empty());
        repo
    }

    /// The position of the row with the identifier `tx_id`.
    fn position(&self, tx_id: &String) -> (found: Option<usize>)
        ensures
            match found {
                Some(i) => i < self@.len() && self@[i as int].tx_id == tx_id@,
                None => !has_tx_id(self@, tx_id@),
            },
    {
        let mut i: usize = 0;
        while i < self.rows.len()
            invariant
                i <= self.rows@.len(),
                self@.len() == self.rows@.len(),
                forall|j: int| 0 <= j < i ==> (#[trigger] self@[j]).tx_id != tx_id@,
            decreases self.rows@.len() - i,
        {
            if self.rows[i].tx_id == *tx_id {
                return Some(i);
            }
            i += 1;
        }
        None
    }

    /// Creates the row for `input` unless a row with its `tx_id` is stored; `now` is the time
    /// that a new row is stamped with. Returns whether a row was created. A stored row is never
    /// changed.
    pub fn insert_ignore_conflict(&mut self, input: &InsertTransactionInput, now: i128) -> (created:
        bool)
        ensures
            created == !has_tx_id(old(self)@, input@.tx_id),
            final(self)@ == insert_if_absent(old(self)@, input@, now as int),
            unique_tx_ids(final(self)@),
    {
        proof {
            use_type_invariant(&*self);
        }
        match self.position(&input.tx_id) {
            Some(_) => false,
            None => {
                let row = Transaction {
                    tx_id: input.tx_id.clone(),
                    sender_id: input.sender_id.clone(),
                    tx_type: input.tx_type,
                    tx_status: input.tx_status,
                    calldata: input.calldata.clone(),
                    chain_id: input.chain_id,
                    signature: input.signature.clone(),
                    blob_file_path: clone_text(&input.blob_file_path),
                    tx_hash: None,
                    created_at: now,
                    updated_at: now,
                };
                // The rows leave the table while the new one is appended, so that the table is
                // keyed by `tx_id` whenever it can be seen.
                let mut taken = TransactionRepo { rows: Vec::new() };
                assert(taken@ =~= Seq::<TransactionView>::empty());
                core::mem::swap(self, &mut taken);
                let ghost before = taken@;
                let TransactionRepo { rows } = taken;
                let mut rows = rows;
                rows.push(row);
                proof {
                    let after = Seq::new(rows@.len(), |i: int| rows@[i]@);
                    assert(after =~= before.push(created_row(input@, now as int)));
                    lemma_insert_keeps_unique(before, input@, now as int);
                }
                *self = TransactionRepo { rows };
                true
            },
        }
    }

    /// The row stored under `tx_id`.
    pub fn find_by_tx_id(&self, tx_id: String) -> (found: Result<Transaction, NotFound>)
        ensures
            match found {
                Ok(row) => self@.contains(row@) && row@.tx_id == tx_id@,
                Err(_) => !has_tx_id(self@, tx_id@),
            },
            unique_tx_ids(self@),
    {
        proof {
            use_type_invariant(self);
        }
        match self.position(&tx_id) {
            Some(i) => {
                let row = self.rows[i].clone();
                assert(self@[i as int] == row@);
                Ok(row)
            },
            None => Err(NotFound),
        }
    }

    /// Tells from the number of rows that an insert changed whether it created the row: one
    /// row where it did, none where the identifier was taken.
    pub fn created(rows_affected: u64) -> (created: bool)
        ensures
            created == (rows_affected == 1),
    {
        rows_affected == 1
    }

    /// The number of rows.
    pub fn len(&self) -> (count: usize)
        ensures
            count == self@.len(),
    {
        self.rows.len()
    }
}

} // verus!
