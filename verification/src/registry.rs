use crate::dispatcher::Dispatcher;
use crate::error::DecodeError;
use crate::message::Envelope;
use crate::message_store::admission;
use std::any::TypeId;
use vstd::hash_map::StringHashMap;
use vstd::prelude::*;
use vstd::set_lib::lemma_len_subset;

verus! {

/// A dispatcher and the identity of the message type that it takes.
pub struct Registration<D> {
    pub tag: TypeId,
    pub dispatcher: D,
}

/// The handler registry: one registration per message-type name.
/// Registering under a name that is taken replaces what stood there. A
/// registration can be taken out for the time of a call and put back under
/// its name.
pub struct HandlerRegistry<D> {
    table: Table<D>,
}

/// Names, the slots they lead to, and the number of filled names.
struct Table<D> {
    index: StringHashMap<usize>,
    slots: Vec<Option<Registration<D>>>,
    live: usize,
}

impl<D> Table<D> {
    spec fn well_formed(self) -> bool {
        &&& well_indexed(self.index@, self.slots@.len())
        &&& self.live == entries(self.index@, self.slots@).dom().len()
    }

    spec fn view(self) -> Map<Seq<char>, Registration<D>> {
        entries(self.index@, self.slots@)
    }

    fn empty() -> (table: Self)
        ensures
            table.well_formed(),
            table.view() == Map::<Seq<char>, Registration<D>>::empty(),
    {
        let table = Table { index: StringHashMap::new(), slots: Vec::new(), live: 0 };
        proof {
            assert(table.view() =~= Map::<Seq<char>, Registration<D>>::empty());
            assert(table.view().dom() =~= Set::<Seq<char>>::empty());
        }
        table
    }
}

/// Every name leads to a slot of its own.
pub open spec fn well_indexed(index: Map<Seq<char>, usize>, slots: nat) -> bool {
    &&& index.dom().finite()
    &&& forall|name: Seq<char>| #[trigger] index.contains_key(name) ==> index[name] < slots
    &&& forall|a: Seq<char>, b: Seq<char>|
        #![trigger index[a], index[b]]
        index.contains_key(a) && index.contains_key(b) && index[a] == index[b] ==> a == b
}

/// The registration behind each name whose slot is filled.
pub open spec fn entries<D>(index: Map<Seq<char>, usize>, slots: Seq<Option<Registration<D>>>) -> Map<
    Seq<char>,
    Registration<D>,
> {
    Map::new(
        |name: Seq<char>| index.contains_key(name) && slots[index[name] as int] is Some,
        |name: Seq<char>| slots[index[name] as int]->Some_0,
    )
}

/// The filled names are among the indexed ones, so there are finitely many
/// and no more than indexed names.
proof fn lemma_entries_bounded<D>(index: Map<Seq<char>, usize>, slots: Seq<Option<Registration<D>>>)
    requires
        index.dom().finite(),
    ensures
        entries(index, slots).dom().finite(),
        entries(index, slots).dom().len() <= index.dom().len(),
{
    assert(entries(index, slots).dom().subset_of(index.dom()));
    lemma_len_subset(entries(index, slots).dom(), index.dom());
}

impl<D> HandlerRegistry<D> {
    #[verifier::type_invariant]
    spec fn well_formed(self) -> bool {
        self.table.well_formed()
    }

    /// The registry as a map from names to registrations.
    pub closed spec fn view(&self) -> Map<Seq<char>, Registration<D>> {
        self.table.view()
    }

    /// An empty registry.
    pub fn new() -> (registry: Self)
        ensures
            registry@ == Map::<Seq<char>, Registration<D>>::empty(),
    {
        HandlerRegistry { table: Table::empty() }
    }

    /// The number of names that hold a registration.
    pub fn len(&self) -> (count: usize)
        ensures
            self@.dom().finite(),
            count == self@.dom().len(),
    {
        proof {
            use_type_invariant(self);
            lemma_entries_bounded(self.table.index@, self.table.slots@);
        }
        self.table.live
    }

    /// Whether a name holds a registration.
    pub fn contains(&self, name: &str) -> (found: bool)
        ensures
            found == self@.contains_key(name@),
    {
        self.get(name).is_some()
    }

    /// The registration under a name, if there is one.
    pub fn get(&self, name: &str) -> (found: Option<&Registration<D>>)
        ensures
            match found {
                Some(registration) => self@.contains_key(name@) && *registration == self@[name@],
                None => !self@.contains_key(name@),
            },
    {
        proof {
            use_type_invariant(self);
        }
        match self.table.index.get(name) {
            Some(slot) => self.table.slots[*slot].as_ref(),
            None => None,
        }
    }

    /// Registers a dispatcher and the type it takes under a name; the last
    /// registration wins.
    pub fn insert(&mut self, name: &str, tag: TypeId, dispatcher: D)
        ensures
            final(self)@ == old(self)@.insert(name@, Registration { tag, dispatcher }),
    {
        proof {
            use_type_invariant(&*self);
        }
        let registration = Registration { tag, dispatcher };
        let mut table = Table::empty();
        std::mem::swap(&mut self.table, &mut table);
        let Table { index, slots, live } = table;
        let mut index = index;
        let mut slots = slots;
        let mut live = live;
        let ghost old_index = index@;
        let ghost old_slots = slots@;
        let ghost old_entries = entries(old_index, old_slots);
        proof {
            lemma_entries_bounded(old_index, old_slots);
        }
        let filled = match index.get(name) {
            Some(slot) => {
                let slot = *slot;
                let filled = slots[slot].is_some();
                slots.set(slot, Some(registration));
                filled
            },
            None => {
                let slot = slots.len();
                slots.push(Some(registration));
                index.insert(name.to_string(), slot);
                false
            },
        };
        // The filled names are among the indexed ones, whose number fits a
        // `usize`; so does their own.
        let indexed = index.len();
        proof {
            assert(well_indexed(index@, slots@.len()));
            assert(entries(index@, slots@) =~= old_entries.insert(name@, registration));
            assert(filled == old_entries.contains_key(name@));
            assert(entries(index@, slots@).dom() =~= old_entries.dom().insert(name@));
            lemma_entries_bounded(index@, slots@);
            assert(entries(index@, slots@).dom().len() <= indexed);
        }
        if !filled {
            live = live + 1;
        }
        let mut table = Table { index, slots, live };
        std::mem::swap(&mut self.table, &mut table);
    }

    /// Takes the registration under a name out of the registry, if there is
    /// one. Until it is put back, the name holds nothing.
    pub fn take(&mut self, name: &str) -> (taken: Option<Registration<D>>)
        ensures
            match taken {
                Some(registration) => {
                    &&& old(self)@.contains_key(name@)
                    &&& registration == old(self)@[name@]
                    &&& final(self)@ == old(self)@.remove(name@)
                },
                None => !old(self)@.contains_key(name@) && final(self)@ == old(self)@,
            },
    {
        proof {
            use_type_invariant(&*self);
        }
        let mut table = Table::empty();
        std::mem::swap(&mut self.table, &mut table);
        let Table { index, slots, live } = table;
        let mut index = index;
        let mut slots = slots;
        let mut live = live;
        let ghost old_slots = slots@;
        let ghost old_entries = entries(index@, old_slots);
        proof {
            lemma_entries_bounded(index@, old_slots);
        }
        let taken = match index.get(name) {
            Some(slot) => {
                let slot = *slot;
                slots[slot].take()
            },
            None => None,
        };
        proof {
            if taken is Some {
                assert(entries(index@, slots@) =~= old_entries.remove(name@));
                assert(entries(index@, slots@).dom() =~= old_entries.dom().remove(name@));
            } else {
                assert(slots@ =~= old_slots);
            }
        }
        if taken.is_some() {
            live = live - 1;
        }
        let mut table = Table { index, slots, live };
        std::mem::swap(&mut self.table, &mut table);
        taken
    }
}

/// What a registration answers for an envelope, given the registered types,
/// and how it is left. Where the type registry refuses the envelope's name
/// or the registration's type, its fault is the answer and the dispatcher is
/// not asked. Else the dispatcher answers, with success or a payload fault:
/// a fault leaves it as it was, a success as its dispatch hands it on.
pub open spec fn delivers<D: Dispatcher>(
    types: Map<Seq<char>, TypeId>,
    raw_msg: Envelope,
    registration: Registration<D>,
    outcome: Result<(), DecodeError>,
    left: Registration<D>,
) -> bool {
    &&& left.tag == registration.tag
    &&& match admission(types, raw_msg.msg_type, registration.tag) {
        Err(fault) => outcome == Err::<(), DecodeError>(fault) && left == registration,
        Ok(_) => {
            &&& registration.dispatcher.answers(raw_msg, outcome)
            &&& match outcome {
                Err(fault) => fault is Payload && left == registration,
                Ok(_) => forall|next: Envelope, answer: Result<(), DecodeError>|
                    registration.dispatcher.hands_on(
                        raw_msg,
                        next,
                        answer,
                        #[trigger] left.dispatcher.answers(next, answer),
                    ),
            }
        },
    }
}

/// What routing an envelope does to a registry: the registration under its
/// type name, if there is one, answers; no other dispatcher is touched, and
/// no name and no type comes or goes.
pub open spec fn routed<D: Dispatcher>(
    before: Map<Seq<char>, Registration<D>>,
    types: Map<Seq<char>, TypeId>,
    raw_msg: Envelope,
    after: Map<Seq<char>, Registration<D>>,
    outcome: Option<Result<(), DecodeError>>,
) -> bool {
    let name = raw_msg.msg_type;
    &&& after.dom() == before.dom()
    &&& forall|other: Seq<char>|
        other != name && before.contains_key(other) ==> #[trigger] after[other] == before[other]
    &&& if before.contains_key(name) {
        &&& outcome is Some
        &&& delivers(types, raw_msg, before[name], outcome->Some_0, after[name])
    } else {
        &&& outcome is None
        &&& after == before
    }
}

/// Registering twice under one name leaves the second registration alone
/// under that name: the first is gone, and the name counts once.
pub proof fn lemma_last_registration_wins<D>(
    registry: Map<Seq<char>, Registration<D>>,
    name: Seq<char>,
    first: Registration<D>,
    second: Registration<D>,
)
    requires
        registry.dom().finite(),
    ensures
        registry.insert(name, first).insert(name, second) == registry.insert(name, second),
        registry.insert(name, first).insert(name, second)[name] == second,
        registry.insert(name, first).insert(name, second).dom().len() == registry.insert(
            name,
            first,
        ).dom().len(),
{
    assert(registry.insert(name, first).insert(name, second) =~= registry.insert(name, second));
    assert(registry.insert(name, first).dom() =~= registry.insert(name, second).dom());
}

/// After two registrations under one name, an envelope of that name is
/// answered by the second and touches no other registration.
pub proof fn lemma_replaced_handler_is_silent<D: Dispatcher>(
    registry: Map<Seq<char>, Registration<D>>,
    first: Registration<D>,
    second: Registration<D>,
    types: Map<Seq<char>, TypeId>,
    raw_msg: Envelope,
    after: Map<Seq<char>, Registration<D>>,
    outcome: Option<Result<(), DecodeError>>,
)
    requires
        routed(
            registry.insert(raw_msg.msg_type, first).insert(raw_msg.msg_type, second),
            types,
            raw_msg,
            after,
            outcome,
        ),
    ensures
        outcome is Some,
        delivers(types, raw_msg, second, outcome->Some_0, after[raw_msg.msg_type]),
        after.remove(raw_msg.msg_type) == registry.remove(raw_msg.msg_type),
{
    let name = raw_msg.msg_type;
    let before = registry.insert(name, first).insert(name, second);
    assert(before.contains_key(name));
    assert forall|other: Seq<char>| after.remove(name).contains_key(other) implies #[trigger] after.remove(
        name,
    )[other] == registry.remove(name)[other] by {
        assert(before.contains_key(other));
        assert(after[other] == before[other]);
    }
    assert(after.remove(name).dom() =~= registry.remove(name).dom());
    assert(after.remove(name) =~= registry.remove(name));
}

} // verus!
