use crate::message_store::MessageStore;
use crate::registry::HandlerRegistry;
use crate::registry::Registration;
use std::any::TypeId;
use vstd::prelude::*;

verus! {

/// The two registries agree: every name that holds a dispatcher holds the
/// type that the dispatcher takes.
pub open spec fn in_step<D>(
    types: Map<Seq<char>, TypeId>,
    handlers: Map<Seq<char>, Registration<D>>,
) -> bool {
    forall|name: Seq<char>| #[trigger]
        handlers.contains_key(name) ==> types.contains_key(name) && types[name]
            == handlers[name].tag
}

/// The type registry and the handler registry of one listener, kept in
/// step: a name gets its type and its dispatcher together.
pub struct Registrations<D> {
    message_store: MessageStore,
    handlers: HandlerRegistry<D>,
}

impl<D> Registrations<D> {
    #[verifier::type_invariant]
    pub(crate) open spec fn coherent(self) -> bool {
        in_step(self.types(), self.handlers())
    }

    /// The registered types, by name.
    pub closed spec fn types(&self) -> Map<Seq<char>, TypeId> {
        self.message_store@
    }

    /// The registered dispatchers and the types they take, by name.
    pub closed spec fn handlers(&self) -> Map<Seq<char>, Registration<D>> {
        self.handlers@
    }

    /// Nothing registered.
    pub fn new() -> (registrations: Self)
        ensures
            registrations.types() == Map::<Seq<char>, TypeId>::empty(),
            registrations.handlers() == Map::<Seq<char>, Registration<D>>::empty(),
    {
        Registrations { message_store: MessageStore::new(), handlers: HandlerRegistry::new() }
    }

    /// The type registry.
    pub fn message_store(&self) -> (store: &MessageStore)
        ensures
            store@ == self.types(),
    {
        &self.message_store
    }

    /// Registers a dispatcher for the type identified by `tag` under `name`;
    /// type and dispatcher replace what stood under that name.
    pub fn register(&mut self, name: &str, tag: TypeId, dispatcher: D)
        ensures
            final(self).types() == old(self).types().insert(name@, tag),
            final(self).handlers() == old(self).handlers().insert(
                name@,
                Registration { tag, dispatcher },
            ),
    {
        proof {
            use_type_invariant(&*self);
        }
        let mut handlers = HandlerRegistry::new();
        let mut store = MessageStore::new();
        std::mem::swap(&mut self.handlers, &mut handlers);
        std::mem::swap(&mut self.message_store, &mut store);
        store.register_tag(name, tag);
        handlers.insert(name, tag, dispatcher);
        std::mem::swap(&mut self.message_store, &mut store);
        std::mem::swap(&mut self.handlers, &mut handlers);
    }

    /// The number of names that hold a dispatcher.
    pub fn len(&self) -> (count: usize)
        ensures
            self.handlers().dom().finite(),
            count == self.handlers().dom().len(),
    {
        self.handlers.len()
    }

    /// The registration under a name, if there is one; its type is the one
    /// that the type registry holds under the name.
    pub fn get(&self, name: &str) -> (found: Option<&Registration<D>>)
        ensures
            match found {
                Some(registration) => {
                    &&& self.handlers().contains_key(name@)
                    &&& *registration == self.handlers()[name@]
                    &&& self.types().contains_key(name@)
                    &&& self.types()[name@] == registration.tag
                },
                None => !self.handlers().contains_key(name@),
            },
    {
        proof {
            use_type_invariant(self);
        }
        self.handlers.get(name)
    }

    /// Takes the registration under a name out, if there is one. The type
    /// stays; until the registration is put back, the name holds no
    /// dispatcher.
    pub(crate) fn take(&mut self, name: &str) -> (taken: Option<Registration<D>>)
        ensures
            final(self).types() == old(self).types(),
            match taken {
                Some(registration) => {
                    &&& old(self).handlers().contains_key(name@)
                    &&& registration == old(self).handlers()[name@]
                    &&& final(self).handlers() == old(self).handlers().remove(name@)
                    &&& old(self).types().contains_key(name@)
                    &&& old(self).types()[name@] == registration.tag
                },
                None => !old(self).handlers().contains_key(name@) && final(self).handlers() == old(
                    self,
                ).handlers(),
            },
    {
        proof {
            use_type_invariant(&*self);
        }
        let mut handlers = HandlerRegistry::new();
        std::mem::swap(&mut self.handlers, &mut handlers);
        let taken = handlers.take(name);
        std::mem::swap(&mut self.handlers, &mut handlers);
        taken
    }

    /// Puts a registration under a name that holds its type.
    pub(crate) fn put(&mut self, name: &str, registration: Registration<D>)
        requires
            old(self).types().contains_key(name@),
            old(self).types()[name@] == registration.tag,
        ensures
            final(self).types() == old(self).types(),
            final(self).handlers() == old(self).handlers().insert(name@, registration),
    {
        proof {
            use_type_invariant(&*self);
        }
        let Registration { tag, dispatcher } = registration;
        let mut handlers = HandlerRegistry::new();
        std::mem::swap(&mut self.handlers, &mut handlers);
        handlers.insert(name, tag, dispatcher);
        std::mem::swap(&mut self.handlers, &mut handlers);
    }
}

} // verus!
