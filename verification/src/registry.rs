//! The call table: assigns a stable integer call id to every registered call
//! name and exposes the mapping in both directions. Ids are indices into the
//! registration order, so a name registered twice keeps its first id and an
//! id, once handed out, never changes its meaning.

use indexmap::IndexSet;
use vstd::prelude::*;

verus! {

#[verifier::external_type_specification]
#[verifier::external_body]
#[verifier::reject_recursive_types(T)]
#[verifier::reject_recursive_types(S)]
pub struct ExIndexSet<T, S>(IndexSet<T, S>);

/// The values an insertion-ordered set holds, in insertion order.
pub uninterp spec fn registered_names(s: IndexSet<String>) -> Seq<Seq<char>>;

/// Relies on indexmap::IndexSet::new: a new set holds nothing.
#[verifier::external_body]
fn name_set_new() -> (s: IndexSet<String>)
    ensures
        registered_names(s) == Seq::<Seq<char>>::empty(),
{
    IndexSet::new()
}

/// Relies on indexmap::IndexSet::len: the number of values held.
#[verifier::external_body]
fn name_set_len(s: &IndexSet<String>) -> (n: usize)
    ensures
        n == registered_names(*s).len(),
{
    s.len()
}

/// Relies on indexmap::IndexSet::insert_full: a value not yet held is
/// appended and receives the next index; one already held keeps its index
/// and leaves the set unchanged.
#[verifier::external_body]
fn name_set_insert_full(s: &mut IndexSet<String>, value: String) -> (r: (usize, bool))
    ensures
        r.1 == !registered_names(*old(s)).contains(value@),
        r.1 ==> registered_names(*final(s)) == registered_names(*old(s)).push(value@) && r.0
            == registered_names(*old(s)).len(),
        !r.1 ==> registered_names(*final(s)) == registered_names(*old(s)) && 0 <= r.0
            < registered_names(*old(s)).len() && registered_names(*old(s))[r.0 as int] == value@,
{
    s.insert_full(value)
}

/// Relies on indexmap::IndexSet::get_index_of: the index of an equivalent
/// value, when one is held.
#[verifier::external_body]
fn name_set_index_of(s: &IndexSet<String>, value: &str) -> (r: Option<usize>)
    ensures
        (r is Some) <==> registered_names(*s).contains(value@),
        r is Some ==> 0 <= r->Some_0 < registered_names(*s).len() && registered_names(
            *s,
        )[r->Some_0 as int] == value@,
{
    s.get_index_of(value)
}

/// Relies on indexmap::IndexSet::get_index: the value at an index, for an
/// index below the length.
#[verifier::external_body]
fn name_set_get_index(s: &IndexSet<String>, index: usize) -> (r: Option<&String>)
    ensures
        (r is Some) <==> index < registered_names(*s).len(),
        r is Some ==> (r->Some_0)@ == registered_names(*s)[index as int],
{
    s.get_index(index)
}

/// The table of registered call names; a call id is the position at which
/// its name was first registered.
pub struct CallTable {
    names: IndexSet<String>,
}

impl CallTable {
    /// The registered call names, in registration order; the id of a call
    /// is its position here.
    pub closed spec fn registered(self) -> Seq<Seq<char>> {
        registered_names(self.names)
    }

    /// An empty call table.
    pub fn new() -> (t: CallTable)
        ensures
            t.registered() == Seq::<Seq<char>>::empty(),
    {
        CallTable { names: name_set_new() }
    }

    /// Number of registered calls.
    pub fn len(&self) -> (n: usize)
        ensures
            n == self.registered().len(),
    {
        name_set_len(&self.names)
    }

    /// Registers a call name and returns its stable id: a name seen for the
    /// first time is appended and receives the next id, and a name
    /// registered before keeps its original id, with the table unchanged.
    pub fn register_op(&mut self, name: &str) -> (op_id: u32)
        requires
            old(self).registered().len() < u32::MAX,
        ensures
            op_id < final(self).registered().len(),
            final(self).registered()[op_id as int] == name@,
            !old(self).registered().contains(name@) ==> final(self).registered() == old(
                self,
            ).registered().push(name@) && op_id == old(self).registered().len(),
            old(self).registered().contains(name@) ==> final(self).registered() == old(
                self,
            ).registered() && old(self).registered()[op_id as int] == name@,
    {
        let tag: String = name.to_owned();
        let r = name_set_insert_full(&mut self.names, tag);
        r.0 as u32
    }

    /// The id under which `name` is registered, or nothing for an unknown
    /// name.
    pub fn op_id(&self, name: &str) -> (r: Option<u32>)
        requires
            self.registered().len() < u32::MAX,
        ensures
            (r is Some) <==> self.registered().contains(name@),
            r is Some ==> r->Some_0 < self.registered().len() && self.registered()[
                r->Some_0 as int
            ] == name@,
    {
        match name_set_index_of(&self.names, name) {
            Option::Some(i) => Some(i as u32),
            Option::None => None,
        }
    }

    /// The name registered under `op_id`, or nothing for an id never handed
    /// out.
    pub fn op_name(&self, op_id: u32) -> (r: Option<&String>)
        ensures
            (r is Some) <==> op_id < self.registered().len(),
            r is Some ==> (r->Some_0)@ == self.registered()[op_id as int],
    {
        name_set_get_index(&self.names, op_id as usize)
    }

    /// Law: call ids are stable. Registering further names never changes
    /// what an already handed-out id means: a later table that extends an
    /// earlier one maps every old id to the same name.
    pub proof fn lemma_op_ids_stable(pre: Self, post: Self, added: Seq<Seq<char>>)
        requires
            post.registered() == pre.registered() + added,
        ensures
            forall|i: int|
                0 <= i < pre.registered().len() ==> #[trigger] post.registered()[i]
                    == pre.registered()[i],
    {
    }
}

} // verus!
