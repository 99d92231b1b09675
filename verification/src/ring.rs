//! The transfer ring buffer: a fixed-capacity FIFO of `(id, payload)` records
//! shared between native code and the script engine. Native code pushes
//! completed call responses, the engine side shifts them off; the same
//! structure carries queued requests in the other direction. A push that does
//! not fit the remaining capacity fails and the caller falls back to the
//! overflow delivery path.

use vstd::prelude::*;

verus! {

/// Bookkeeping bytes each record occupies in the buffer besides its payload:
/// the record's identifier and its length, four bytes each.
pub const RECORD_HEADER_BYTES: usize = 8;

/// Default capacity, in bytes, of the transfer ring buffer owned by an
/// execution context.
pub const RECOMMENDED_SIZE: usize = 65536;

/// Bytes a record with a payload of the given length occupies in the buffer.
pub open spec fn record_cost(payload_len: int) -> int {
    RECORD_HEADER_BYTES + payload_len
}

/// Total bytes a sequence of records occupies in the buffer.
pub open spec fn seq_cost(s: Seq<(i32, Seq<u8>)>) -> int
    decreases s.len(),
{
    if s.len() == 0 {
        0
    } else {
        record_cost(s[0].1.len() as int) + seq_cost(s.drop_first())
    }
}

pub proof fn lemma_seq_cost_nonneg(s: Seq<(i32, Seq<u8>)>)
    ensures
        seq_cost(s) >= 0,
    decreases s.len(),
{
    if s.len() > 0 {
        lemma_seq_cost_nonneg(s.drop_first());
    }
}

pub proof fn lemma_seq_cost_push(s: Seq<(i32, Seq<u8>)>, r: (i32, Seq<u8>))
    ensures
        seq_cost(s.push(r)) == seq_cost(s) + record_cost(r.1.len() as int),
    decreases s.len(),
{
    reveal_with_fuel(seq_cost, 2);
    if s.len() == 0 {
        assert(s.push(r)[0] == r);
        assert(s.push(r).drop_first() =~= Seq::<(i32, Seq<u8>)>::empty());
        assert(seq_cost(s.push(r).drop_first()) == 0);
        assert(seq_cost(s.push(r))
            == record_cost(s.push(r)[0].1.len() as int) + seq_cost(s.push(r).drop_first()));
    } else {
        assert(s.push(r)[0] == s[0]);
        assert(s.push(r).drop_first() =~= s.drop_first().push(r));
        lemma_seq_cost_push(s.drop_first(), r);
        assert(seq_cost(s.push(r))
            == record_cost(s.push(r)[0].1.len() as int) + seq_cost(s.push(r).drop_first()));
    }
}

pub proof fn lemma_seq_cost_concat(a: Seq<(i32, Seq<u8>)>, b: Seq<(i32, Seq<u8>)>)
    ensures
        seq_cost(a + b) == seq_cost(a) + seq_cost(b),
    decreases a.len(),
{
    if a.len() == 0 {
        assert(a + b =~= b);
    } else {
        assert((a + b)[0] == a[0]);
        assert((a + b).drop_first() =~= a.drop_first() + b);
        lemma_seq_cost_concat(a.drop_first(), b);
    }
}

/// The contents of the buffer after pushing every record of `recs` in order.
pub open spec fn after_pushes(s: Seq<(i32, Seq<u8>)>, recs: Seq<(i32, Seq<u8>)>) -> Seq<
    (i32, Seq<u8>),
>
    decreases recs.len(),
{
    if recs.len() == 0 {
        s
    } else {
        after_pushes(s.push(recs[0]), recs.drop_first())
    }
}

/// The records surrendered, in order, by shifting a buffer holding `s` a
/// total of `n` times.
pub open spec fn shifted_prefix(s: Seq<(i32, Seq<u8>)>, n: int) -> Seq<(i32, Seq<u8>)>
    decreases n,
{
    if n <= 0 || s.len() == 0 {
        Seq::empty()
    } else {
        seq![s[0]] + shifted_prefix(s.drop_first(), n - 1)
    }
}

pub proof fn lemma_after_pushes(s: Seq<(i32, Seq<u8>)>, recs: Seq<(i32, Seq<u8>)>)
    ensures
        after_pushes(s, recs) == s + recs,
    decreases recs.len(),
{
    if recs.len() == 0 {
        assert(s + recs =~= s);
    } else {
        lemma_after_pushes(s.push(recs[0]), recs.drop_first());
        assert(s.push(recs[0]) + recs.drop_first() =~= s + recs);
    }
}

pub proof fn lemma_shifted_prefix_all(s: Seq<(i32, Seq<u8>)>)
    ensures
        shifted_prefix(s, s.len() as int) == s,
    decreases s.len(),
{
    if s.len() > 0 {
        lemma_shifted_prefix_all(s.drop_first());
        assert(seq![s[0]] + s.drop_first() =~= s);
    }
}

/// Round-trip law for the transfer ring buffer. Starting from an empty
/// buffer, pushing records whose total size fits the capacity succeeds at
/// every step (so none is diverted to the overflow path), and shifting then
/// surrenders exactly the pushed records, in push order.
pub proof fn lemma_fifo_round_trip(recs: Seq<(i32, Seq<u8>)>, capacity: int)
    requires
        seq_cost(recs) <= capacity,
    ensures
        forall|i: int|
            0 <= i < recs.len() ==> seq_cost(#[trigger] recs.take(i)) + record_cost(
                recs[i].1.len() as int,
            ) <= capacity,
        after_pushes(Seq::empty(), recs) == recs,
        shifted_prefix(after_pushes(Seq::empty(), recs), recs.len() as int) == recs,
{
    assert forall|i: int|
        0 <= i < recs.len() implies seq_cost(#[trigger] recs.take(i)) + record_cost(
        recs[i].1.len() as int,
    ) <= capacity by {
        assert(recs.take(i).push(recs[i]) =~= recs.take(i + 1));
        lemma_seq_cost_push(recs.take(i), recs[i]);
        assert(recs.take(i + 1) + recs.skip(i + 1) =~= recs);
        lemma_seq_cost_concat(recs.take(i + 1), recs.skip(i + 1));
        lemma_seq_cost_nonneg(recs.skip(i + 1));
    }
    lemma_after_pushes(Seq::empty(), recs);
    assert(Seq::empty() + recs =~= recs);
    lemma_shifted_prefix_all(recs);
}

/// The logical records of a vector of `(id, payload)` pairs.
pub open spec fn records_view(s: Seq<(i32, Vec<u8>)>) -> Seq<(i32, Seq<u8>)> {
    s.map_values(|r: (i32, Vec<u8>)| (r.0, r.1@))
}

/// A fixed-capacity FIFO byte budget of `(id, payload)` records.
pub struct TransferRingBuffer {
    items: Vec<(i32, Vec<u8>)>,
    used: usize,
    capacity: usize,
}

impl TransferRingBuffer {
    /// The records currently buffered, oldest first.
    pub closed spec fn records(self) -> Seq<(i32, Seq<u8>)> {
        self.items@.map_values(|r: (i32, Vec<u8>)| (r.0, r.1@))
    }

    /// The configured capacity in bytes.
    pub closed spec fn capacity(self) -> int {
        self.capacity as int
    }

    /// Bytes currently consumed by the buffered records, headers included.
    pub open spec fn bytes_used(self) -> int {
        seq_cost(self.records())
    }

    /// The byte tally agrees with the records and never exceeds capacity.
    pub closed spec fn wf(self) -> bool {
        &&& self.used as int == seq_cost(self.records())
        &&& self.used <= self.capacity
    }

    /// An empty buffer with the given capacity in bytes.
    pub fn new(capacity: usize) -> (r: TransferRingBuffer)
        ensures
            r.wf(),
            r.records() == Seq::<(i32, Seq<u8>)>::empty(),
            r.capacity() == capacity,
    {
        let r = TransferRingBuffer { items: Vec::new(), used: 0, capacity };
        proof {
            assert(r.records() =~= Seq::<(i32, Seq<u8>)>::empty());
        }
        r
    }

    /// Number of buffered records.
    pub fn size(&self) -> (n: usize)
        ensures
            n == self.records().len(),
    {
        self.items.len()
    }

    /// Appends a record if its bytes fit the remaining capacity; returns
    /// false, leaving the contents unmodified, if they do not.
    pub fn push(&mut self, id: i32, payload: &[u8]) -> (ok: bool)
        requires
            old(self).wf(),
        ensures
            final(self).wf(),
            final(self).capacity() == old(self).capacity(),
            ok == (old(self).bytes_used() + record_cost(payload@.len() as int)
                <= old(self).capacity()),
            ok ==> final(self).records() == old(self).records().push((id, payload@)),
            !ok ==> final(self).records() == old(self).records(),
    {
        proof {
            lemma_seq_cost_nonneg(self.records());
        }
        if self.capacity - self.used >= RECORD_HEADER_BYTES
            && payload.len() <= self.capacity - self.used - RECORD_HEADER_BYTES
        {
            proof {
                lemma_seq_cost_push(self.records(), (id, payload@));
            }
            let cost = RECORD_HEADER_BYTES + payload.len();
            self.used = self.used + cost;
            let ghost before = self.records();
            let copy: Vec<u8> = vstd::slice::slice_to_vec(payload);
            self.items.push((id, copy));
            proof {
                assert(self.records() =~= before.push((id, payload@)));
            }
            true
        } else {
            false
        }
    }

    /// Removes and returns the oldest record, or nothing if the buffer is
    /// empty.
    pub fn shift(&mut self) -> (r: Option<(i32, Vec<u8>)>)
        requires
            old(self).wf(),
        ensures
            final(self).wf(),
            final(self).capacity() == old(self).capacity(),
            old(self).records().len() == 0 ==> {
                &&& r is None
                &&& final(self).records() == old(self).records()
            },
            old(self).records().len() > 0 ==> {
                &&& r is Some
                &&& (r->Some_0.0, r->Some_0.1@) == old(self).records()[0]
                &&& final(self).records() == old(self).records().drop_first()
            },
    {
        if self.items.len() == 0 {
            None
        } else {
            proof {
                lemma_seq_cost_nonneg(self.records().drop_first());
            }
            let rec = self.items.remove(0);
            let ghost before = self.records();
            proof {
                assert(self.records() =~= before);
            }
            self.used = self.used - (RECORD_HEADER_BYTES + rec.1.len());
            proof {
                assert(self.records() =~= old(self).records().drop_first());
            }
            Some(rec)
        }
    }

    /// Discards every buffered record.
    pub fn reset(&mut self)
        ensures
            final(self).wf(),
            final(self).capacity() == old(self).capacity(),
            final(self).records() == Seq::<(i32, Seq<u8>)>::empty(),
    {
        self.items.clear();
        self.used = 0;
        proof {
            assert(self.records() =~= Seq::<(i32, Seq<u8>)>::empty());
        }
    }
}

} // verus!
