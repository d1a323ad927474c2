use crate::codec::decode;
use crate::codec::decodes;
use crate::codec::tag_of;
use crate::codec::tagged;
use crate::codec::same_type;
use crate::error::DecodeError;
use crate::message::RawMessage;
use serde::de::DeserializeOwned;
use std::any::TypeId;
use vstd::hash_map::StringHashMap;
use vstd::prelude::*;

verus! {

/// The type registry: which type stands behind each message-type name.
pub struct MessageStore {
    messages: StringHashMap<TypeId>,
}

/// Whether a registry lets a payload under `name` be decoded as the type
/// identified by `tag`, and the fault if it does not.
pub open spec fn admission(types: Map<Seq<char>, TypeId>, name: Seq<char>, tag: TypeId) -> Result<
    (),
    DecodeError,
> {
    if !types.contains_key(name) {
        Err(DecodeError::NotRegistered)
    } else if types[name] != tag {
        Err(DecodeError::TypeMismatch)
    } else {
        Ok(())
    }
}

/// What a decoder's outcome becomes for the caller: its value, or a payload
/// fault.
pub open spec fn settles<T>(decoded: Result<T, serde_json::Error>, resolved: Result<
    T,
    DecodeError,
>) -> bool {
    match decoded {
        Ok(value) => resolved == Ok::<T, DecodeError>(value),
        Err(_) => resolved is Err && resolved->Err_0 is Payload,
    }
}

/// Turns a decoder's outcome into the registry's: the decoded value as it
/// is, a decoder fault as `DecodeError::Payload` with the decoder's text.
pub fn settle<T>(decoded: Result<T, serde_json::Error>) -> (resolved: Result<T, DecodeError>)
    ensures
        settles(decoded, resolved),
{
    match decoded {
        Ok(value) => Ok(value),
        Err(fault) => Err(DecodeError::Payload(fault.to_string())),
    }
}

impl View for MessageStore {
    type V = Map<Seq<char>, TypeId>;

    closed spec fn view(&self) -> Map<Seq<char>, TypeId> {
        self.messages@
    }
}

impl MessageStore {
    /// An empty registry.
    pub fn new() -> (store: Self)
        ensures
            store@ == Map::<Seq<char>, TypeId>::empty(),
    {
        MessageStore { messages: StringHashMap::new() }
    }

    /// Puts the type identified by `tag` behind `key`, replacing what stood
    /// there.
    pub fn register_tag(&mut self, key: &str, tag: TypeId)
        ensures
            final(self)@ == old(self)@.insert(key@, tag),
    {
        self.messages.insert(key.to_string(), tag);
    }

    /// Puts the type `TMessage` behind `key`, replacing what stood there.
    pub fn register<TMessage>(&mut self, key: &str) where
        TMessage: DeserializeOwned + Send + Sync + 'static,

        ensures
            exists|tag: TypeId| #[trigger]
                tagged::<TMessage>(tag) && final(self)@ == old(self)@.insert(key@, tag),
    {
        let tag = tag_of::<TMessage>();
        self.register_tag(key, tag);
    }

    /// Whether a name is registered.
    pub fn is_registered(&self, key: &str) -> (known: bool)
        ensures
            known == self@.contains_key(key@),
    {
        self.messages.contains_key(key)
    }

    /// Decides whether a payload under `name` may be decoded as the type
    /// identified by `tag`.
    pub fn check(&self, name: &str, tag: &TypeId) -> (verdict: Result<(), DecodeError>)
        ensures
            verdict == admission(self@, name@, *tag),
    {
        match self.messages.get(name) {
            None => Err(DecodeError::NotRegistered),
            Some(registered) => {
                if same_type(registered, tag) {
                    Ok(())
                } else {
                    Err(DecodeError::TypeMismatch)
                }
            },
        }
    }

    /// Resolves an envelope into a `TMessage`. A name that is not registered
    /// or that holds another type is refused before the payload is looked
    /// at; else the payload is decoded, and the caller gets the decoded
    /// value, or a payload fault where the decoder gave a fault.
    pub fn resolve<TMessage>(&self, raw_message: &RawMessage) -> (resolved: Result<
        TMessage,
        DecodeError,
    >) where TMessage: DeserializeOwned + Sync + Send + 'static
        ensures
            exists|tag: TypeId| #[trigger]
                tagged::<TMessage>(tag) && match admission(self@, raw_message@.msg_type, tag) {
                    Err(fault) => resolved == Err::<TMessage, DecodeError>(fault),
                    Ok(_) => exists|payload: &str, decoded: Result<TMessage, serde_json::Error>|
                        {
                            &&& payload@ == raw_message@.payload
                            &&& #[trigger] decodes::<TMessage>(payload, decoded)
                            &&& settles(decoded, resolved)
                        },
                },
    {
        let tag = tag_of::<TMessage>();
        match self.check(raw_message.msg_type.as_str(), &tag) {
            Err(fault) => Err(fault),
            Ok(()) => {
                let payload = raw_message.payload.as_str();
                let decoded = decode::<TMessage>(payload);
                let ghost given = decoded;
                let resolved = settle(decoded);
                proof {
                    assert(decodes::<TMessage>(payload, given) && settles(given, resolved));
                }
                resolved
            },
        }
    }
}

} // verus!
