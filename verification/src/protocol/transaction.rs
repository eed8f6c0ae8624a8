use std::collections::HashMap;

use vstd::prelude::*;

use super::router::ResponseFrame;

verus! {

broadcast use vstd::std_specs::hash::group_hash_axioms;

/// Transaction number of an outstanding request; never zero.
#[derive(Debug, Clone, Copy, PartialEq, Eq, Hash)]
pub struct TransactionId(u8);

impl View for TransactionId {
    type V = u8;

    closed spec fn view(&self) -> u8 {
        self.0
    }
}

impl TransactionId {
    #[verifier::type_invariant]
    spec fn nonzero(self) -> bool {
        self.0 != 0
    }

    pub fn get(self) -> (res: u8)
        ensures
            res == self@,
            res != 0,
    {
        proof {
            use_type_invariant(&self);
        }
        self.0
    }

    /// Wraps a transaction number received on the wire.
    pub fn from_raw(value: u8) -> (res: Self)
        requires
            value != 0,
        ensures
            res@ == value,
    {
        TransactionId(value)
    }
}

/// What a pending transaction expects its response to echo.
#[derive(Debug, Clone, Copy, PartialEq, Eq, Structural)]
pub struct PendingRequest {
    pub message: u8,
    pub op: u8,
}

#[derive(Debug, Clone, Copy, PartialEq, Eq, Structural)]
pub enum TransactionError {
    /// All 255 transaction numbers are in use.
    Exhausted,
    /// No request is pending under this transaction number.
    Unknown(u8),
    /// The response echoes another message/op than the request had.
    ResponseMismatch { txn: u8, expected_message: u8, expected_op: u8, actual_message: u8, actual_op: u8 },
}

/// Allocator and matcher for the 255 transaction numbers of one device link.
#[derive(Debug)]
pub struct TransactionTable {
    next: u8,
    pending: HashMap<u8, PendingRequest>,
}

/// The state of a transaction table: the next number to try and the pending requests.
pub struct TableView {
    pub next: u8,
    pub pending: Map<u8, PendingRequest>,
}

/// The `k`-th number probed when allocation starts at `next`, cycling through 1..=255.
pub open spec fn slot(next: u8, k: int) -> u8 {
    (((next as int - 1 + k) % 255) + 1) as u8
}

impl View for TransactionTable {
    type V = TableView;

    closed spec fn view(&self) -> TableView {
        TableView { next: self.next, pending: self.pending@ }
    }
}

impl TableView {
    /// Numbers cycle through 1..=255 and only those numbers are ever pending.
    pub open spec fn wf(self) -> bool {
        &&& 1 <= self.next <= 255
        &&& forall|t: u8| #[trigger] self.pending.contains_key(t) ==> t != 0
    }
}

/// Allocation probes every number 1..=255 once, whatever number it starts from.
pub proof fn lemma_slots_cover(next: u8, t: u8)
    requires
        1 <= next <= 255,
        1 <= t <= 255,
    ensures
        slot(next, (t as int - next as int + 255) % 255) == t,
        0 <= (t as int - next as int + 255) % 255 < 255,
{
    let k = (t as int - next as int + 255) % 255;
    assert(((next as int - 1 + k) % 255) + 1 == t) by (nonlinear_arith)
        requires
            k == (t as int - next as int + 255) % 255,
            1 <= next <= 255,
            1 <= t <= 255,
    ;
}

/// The transaction numbers that can be in use: every `u8` but 0.
pub open spec fn nonzero_ids() -> Set<u8> {
    Set::new(|t: u8| t != 0)
}

proof fn lemma_nonzero_ids_len()
    ensures
        nonzero_ids().finite(),
        nonzero_ids().len() == 255,
{
    let r = vstd::set_lib::set_int_range(1, 256);
    vstd::set_lib::lemma_int_range(1, 256);
    let f = |i: int| i as u8;
    assert(vstd::relations::injective_on(f, r)) by {
        assert forall|a: int, b: int| r.contains(a) && r.contains(b) && #[trigger] f(a) == #[trigger] f(b) implies a
            == b by {
            assert(a as u8 == a && b as u8 == b);
        }
    }
    assert forall|t: u8| nonzero_ids().contains(t) implies r.map(f).contains(t) by {
        assert(r.contains(t as int) && f(t as int) == t);
    }
    assert(r.map(f) =~= nonzero_ids());
    vstd::set_lib::lemma_map_size(r, nonzero_ids(), f);
}

/// Every transaction number is taken exactly when 255 requests are pending:
/// allocation is exhausted then, and only then.
pub proof fn lemma_exhausted_iff_255_pending(t: TableView)
    requires
        t.wf(),
    ensures
        t.pending.dom().finite(),
        t.pending.len() <= 255,
        (forall|k: int| 0 <= k < 255 ==> t.pending.contains_key(#[trigger] slot(t.next, k))) <==> t.pending.len()
            == 255,
{
    lemma_nonzero_ids_len();
    assert(t.pending.dom().subset_of(nonzero_ids()));
    vstd::set_lib::lemma_len_subset(t.pending.dom(), nonzero_ids());
    if forall|k: int| 0 <= k < 255 ==> t.pending.contains_key(#[trigger] slot(t.next, k)) {
        assert forall|n: u8| nonzero_ids().contains(n) implies t.pending.dom().contains(n) by {
            lemma_slots_cover(t.next, n);
            let k = (n as int - t.next as int + 255) % 255;
            assert(t.pending.contains_key(slot(t.next, k)));
        }
        assert(t.pending.dom() =~= nonzero_ids());
    }
    if t.pending.len() == 255 {
        vstd::set_lib::lemma_subset_equality(t.pending.dom(), nonzero_ids());
        assert forall|k: int| 0 <= k < 255 implies t.pending.contains_key(#[trigger] slot(t.next, k)) by {
            assert(nonzero_ids().contains(slot(t.next, k)));
        }
    }
}

impl Default for TransactionTable {
    fn default() -> (res: Self)
        ensures
            res@.wf(),
            res@.next == 1,
            res@.pending == Map::<u8, PendingRequest>::empty(),
    {
        TransactionTable { next: 1, pending: HashMap::new() }
    }
}

impl TransactionTable {
    /// Reserves the first free transaction number, probing cyclically from `next`.
    pub fn allocate(&mut self, message: u8, op: u8) -> (res: Result<TransactionId, TransactionError>)
        requires
            old(self)@.wf(),
        ensures
            final(self)@.wf(),
            match res {
                Ok(txn) => exists|k: int|
                    #![trigger slot(old(self)@.next, k)]
                    0 <= k < 255 && txn@ == slot(old(self)@.next, k) && !old(self)@.pending.contains_key(
                        txn@,
                    ) && (forall|j: int|
                        0 <= j < k ==> old(self)@.pending.contains_key(#[trigger] slot(old(self)@.next, j)))
                        && final(self)@.next == slot(old(self)@.next, k + 1) && final(self)@.pending
                        == old(self)@.pending.insert(txn@, PendingRequest { message, op })
                        && old(self)@.pending.len() < 255 && final(self)@.pending.len() == old(self)@.pending.len()
                        + 1,
                Err(e) => e == TransactionError::Exhausted && (forall|k: int|
                    0 <= k < 255 ==> old(self)@.pending.contains_key(#[trigger] slot(old(self)@.next, k)))
                    && final(self)@.next == old(self)@.next && final(self)@.pending == old(self)@.pending
                    && old(self)@.pending.len() == 255,
            },
    {
        proof {
            lemma_exhausted_iff_255_pending(old(self)@);
        }
        let ghost start = self.next;
        assert(forall|t: u8| #[trigger] self.pending@.contains_key(t) ==> t != 0) by {
            assert forall|t: u8| #[trigger] self.pending@.contains_key(t) implies t != 0 by {
                assert(old(self)@.pending.contains_key(t));
            }
        }
        let mut i: u32 = 0;
        while i < 255
            invariant
                i <= 255,
                1 <= start <= 255,
                self.next == slot(start, i as int),
                self.pending@ == old(self).pending@,
                start == old(self)@.next,
                forall|j: int| 0 <= j < i ==> self.pending@.contains_key(#[trigger] slot(start, j)),
                forall|t: u8| #[trigger] self.pending@.contains_key(t) ==> t != 0,
                old(self)@.pending.dom().finite(),
                old(self)@.pending.len() <= 255,
                old(self)@.pending.len() == 255 ==> forall|k: int|
                    0 <= k < 255 ==> old(self)@.pending.contains_key(#[trigger] slot(start, k)),
            decreases 255 - i,
        {
            let txn = self.next;
            let next = if txn == 255 {
                1
            } else {
                txn + 1
            };
            assert(next == slot(start, i + 1));
            self.next = next;
            if !self.pending.contains_key(&txn) {
                proof {
                    if old(self)@.pending.len() == 255 {
                        assert(old(self)@.pending.contains_key(slot(start, i as int)));
                    }
                }
                self.pending.insert(txn, PendingRequest { message, op });
                assert(txn != 0);
                assert(self.pending@.dom() =~= old(self)@.pending.dom().insert(txn));
                assert(self.pending@.len() == old(self)@.pending.len() + 1);
                return Ok(TransactionId(txn));
            }
            i = i + 1;
        }
        assert(slot(start, 255) == start);
        Err(TransactionError::Exhausted)
    }

    /// Forgets a transaction that will not be answered.
    pub fn cancel(&mut self, txn: TransactionId)
        requires
            old(self)@.wf(),
        ensures
            final(self)@.wf(),
            final(self)@.next == old(self)@.next,
            final(self)@.pending == old(self)@.pending.remove(txn@),
    {
        let key = txn.get();
        self.pending.remove(&key);
        assert forall|t: u8| #[trigger] self@.pending.contains_key(t) implies t != 0 by {
            assert(old(self)@.pending.contains_key(t));
        }
    }

    /// Matches a response to its pending request and ends that transaction.
    ///
    /// Only the transaction number and the echoed message/op are checked; the
    /// status byte is left to the parser of the particular request.
    pub fn complete(&mut self, response: &ResponseFrame) -> (res: Result<TransactionId, TransactionError>)
        requires
            old(self)@.wf(),
        ensures
            final(self)@.wf(),
            !old(self)@.pending.contains_key(response.txn) ==> res == Err::<TransactionId, TransactionError>(
                TransactionError::Unknown(response.txn),
            ) && final(self)@ == old(self)@,
            old(self)@.pending.contains_key(response.txn) && {
                let expected = old(self)@.pending[response.txn];
                expected.message != response.request_message || expected.op != response.request_op
            } ==> res == Err::<TransactionId, TransactionError>(
                TransactionError::ResponseMismatch {
                    txn: response.txn,
                    expected_message: old(self)@.pending[response.txn].message,
                    expected_op: old(self)@.pending[response.txn].op,
                    actual_message: response.request_message,
                    actual_op: response.request_op,
                },
            ) && final(self)@ == old(self)@,
            old(self)@.pending.contains_key(response.txn) && old(self)@.pending[response.txn] == (
            PendingRequest { message: response.request_message, op: response.request_op }) ==> (
            res matches Ok(txn) && txn@ == response.txn) && final(self)@.next == old(self)@.next
                && final(self)@.pending == old(self)@.pending.remove(response.txn),
    {
        proof {
            if self@.pending.contains_key(response.txn) {
                assert(response.txn != 0);
            }
        }
        let expected = match self.pending.get(&response.txn) {
            Some(expected) => *expected,
            None => return Err(TransactionError::Unknown(response.txn)),
        };
        if expected.message != response.request_message || expected.op != response.request_op {
            return Err(TransactionError::ResponseMismatch {
                txn: response.txn,
                expected_message: expected.message,
                expected_op: expected.op,
                actual_message: response.request_message,
                actual_op: response.request_op,
            });
        }
        self.pending.remove(&response.txn);
        Ok(TransactionId(response.txn))
    }

    pub fn len(&self) -> (res: usize)
        ensures
            res == self@.pending.len(),
    {
        self.pending.len()
    }

    pub fn is_empty(&self) -> (res: bool)
        ensures
            res == (self@.pending.len() == 0),
    {
        self.pending.is_empty()
    }
}

} // verus!
