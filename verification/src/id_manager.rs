//! Unique identifiers for named menu entries.

use std::collections::BTreeMap;
use vstd::prelude::*;

verus! {

/// Why a lookup in an [`IdManager`] failed.
#[derive(Debug, Clone, Copy, PartialEq, Eq, Structural)]
pub enum LookupError {
    /// The identifier was never handed out by the manager that was asked.
    UnknownId,
}

/// Hands out identifiers 1, 2, 3, ... for names and finds the name of an
/// identifier again. Zero is never handed out, so that it can stand for
/// "no selection".
pub struct IdManager {
    current_id: usize,
    ids: BTreeMap<usize, String>,
}

impl View for IdManager {
    type V = Map<nat, Seq<char>>;

    /// The registry: each identifier handed out so far, with its name.
    closed spec fn view(&self) -> Map<nat, Seq<char>> {
        Map::new(
            |id: nat| id <= usize::MAX && self.ids@.contains_key(id as usize),
            |id: nat| self.ids@[id as usize]@,
        )
    }
}

impl IdManager {
    /// The identifier handed out last; zero while none has been.
    pub closed spec fn last_id(&self) -> nat {
        self.current_id as nat
    }

    /// The identifier that the next `add` returns.
    pub open spec fn next_id(&self) -> nat {
        self.last_id() + 1
    }

    /// The registered identifiers are exactly 1 up to `last_id()`.
    pub open spec fn wf(&self) -> bool {
        forall|id: nat| self@.contains_key(id) <==> 1 <= id <= self.last_id()
    }

    /// What a lookup of `id` gives.
    pub open spec fn lookup(&self, id: nat) -> Result<Seq<char>, LookupError> {
        if self@.contains_key(id) {
            Ok(self@[id])
        } else {
            Err(LookupError::UnknownId)
        }
    }

    /// A manager that has handed out nothing yet.
    pub fn new() -> (manager: IdManager)
        ensures
            manager.wf(),
            manager.last_id() == 0,
            manager@ == Map::<nat, Seq<char>>::empty(),
    {
        IdManager { current_id: 0, ids: BTreeMap::new() }
    }

    /// How many names are registered, which is also the identifier handed
    /// out last.
    pub fn len(&self) -> (count: usize)
        ensures
            count == self.last_id(),
    {
        self.current_id
    }

    /// Registers `name` under the next identifier and returns that identifier.
    pub fn add(&mut self, name: String) -> (id: usize)
        requires
            old(self).wf(),
            old(self).last_id() < usize::MAX,
        ensures
            final(self).wf(),
            id == old(self).next_id(),
            final(self).last_id() == id,
            final(self)@ == old(self)@.insert(id as nat, name@),
    {
        self.current_id += 1;
        self.ids.insert(self.current_id, name);
        proof {
            assert(self@ =~= old(self)@.insert(self.current_id as nat, name@));
            assert forall|id: nat| self@.contains_key(id) <==> 1 <= id <= self.last_id() by {
                assert(old(self)@.contains_key(id) <==> 1 <= id <= old(self).last_id());
            }
        }
        self.current_id
    }

    /// The name registered under `id`, or `UnknownId` where `add` never
    /// returned `id`.
    pub fn get(&self, id: usize) -> (name: Result<&str, LookupError>)
        requires
            self.wf(),
        ensures
            match name {
                Ok(found) => self.lookup(id as nat) == Ok::<Seq<char>, LookupError>(found@),
                Err(e) => self.lookup(id as nat) == Err::<Seq<char>, LookupError>(e),
            },
    {
        match self.ids.get(&id) {
            Some(found) => Ok(found.as_str()),
            None => Err(LookupError::UnknownId),
        }
    }
}

/// Identifiers only grow: the one that `add` returns next is not zero and
/// lies above every identifier handed out before.
pub proof fn lemma_next_id_is_new(manager: IdManager)
    requires
        manager.wf(),
    ensures
        manager.next_id() > 0,
        forall|id: nat| manager@.contains_key(id) ==> 0 < id < manager.next_id(),
        manager.lookup(manager.next_id()) == Err::<Seq<char>, LookupError>(LookupError::UnknownId),
{
}

/// A name can be read back: once `add` has registered `name`, a lookup of
/// the identifier that it returned gives `name`, character for character,
/// and every identifier handed out earlier still gives the name it had.
pub proof fn lemma_lookup_after_add(before: IdManager, after: IdManager, name: Seq<char>)
    requires
        before.wf(),
        after@ == before@.insert(before.next_id(), name),
    ensures
        after.lookup(before.next_id()) == Ok::<Seq<char>, LookupError>(name),
        forall|id: nat| before@.contains_key(id) ==> after.lookup(id) == before.lookup(id),
{
}

/// A lookup succeeds for the identifiers that `add` has returned, 1 up to
/// the last one, and for no other: zero and everything above the last one
/// give `UnknownId`.
pub proof fn lemma_lookup_known_or_unknown(manager: IdManager, id: nat)
    requires
        manager.wf(),
    ensures
        1 <= id <= manager.last_id() ==> manager.lookup(id) == Ok::<Seq<char>, LookupError>(
            manager@[id],
        ),
        id == 0 || id > manager.last_id() ==> manager.lookup(id) == Err::<
            Seq<char>,
            LookupError,
        >(LookupError::UnknownId),
{
}

} // verus!
