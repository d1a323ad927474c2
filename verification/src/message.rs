use std::collections::HashMap;
use vstd::prelude::*;

verus! {

/// The wire-level unit of data: a type name, a header map and a serialized
/// payload.
#[derive(Debug)]
pub struct RawMessage {
    pub msg_type: String,
    pub headers: HashMap<String, String>,
    pub payload: String,
}

/// What an envelope holds, as mathematical values.
pub struct Envelope {
    pub msg_type: Seq<char>,
    pub headers: Map<String, String>,
    pub payload: Seq<char>,
}

impl View for RawMessage {
    type V = Envelope;

    open spec fn view(&self) -> Envelope {
        Envelope { msg_type: self.msg_type@, headers: self.headers@, payload: self.payload@ }
    }
}

impl Clone for RawMessage {
    fn clone(&self) -> (copy: Self)
        ensures
            copy@ == self@,
    {
        RawMessage {
            msg_type: self.msg_type.clone(),
            headers: self.headers.clone(),
            payload: self.payload.clone(),
        }
    }
}

/// The header view a handler receives for a header map: nothing for an empty
/// map, the map itself otherwise.
pub open spec fn normalized(headers: Map<String, String>) -> Option<Map<String, String>> {
    if headers.is_empty() {
        None
    } else {
        Some(headers)
    }
}

/// The view of an optional header map.
pub open spec fn optional_view(headers: Option<HashMap<String, String>>) -> Option<
    Map<String, String>,
> {
    match headers {
        Some(map) => Some(map@),
        None => None,
    }
}

/// The header map an envelope is built with: the given one, or an empty one.
pub open spec fn supplied(headers: Option<Map<String, String>>) -> Map<String, String> {
    match headers {
        Some(map) => map,
        None => Map::empty(),
    }
}

impl RawMessage {
    /// Builds an envelope from its three parts; absent headers are an empty map.
    pub fn compose(msg_type: &str, headers: Option<HashMap<String, String>>, payload: String) -> (msg:
        Self)
        ensures
            msg@.msg_type == msg_type@,
            msg@.headers == supplied(optional_view(headers)),
            msg@.payload == payload@,
    {
        let headers = match headers {
            Some(map) => map,
            None => HashMap::new(),
        };
        RawMessage { msg_type: msg_type.to_string(), headers, payload }
    }

    /// The headers as a handler sees them: `None` for an empty map, a copy of
    /// the map otherwise.
    pub fn header_view(&self) -> (headers: Option<HashMap<String, String>>)
        ensures
            optional_view(headers) == normalized(self@.headers),
    {
        if self.headers.is_empty() {
            None
        } else {
            Some(self.headers.clone())
        }
    }
}

/// Normalizing a header view and building an envelope from it gives the
/// headers back: an empty map and absent headers are the same to a handler.
pub proof fn lemma_normalized_round_trip(headers: Map<String, String>)
    ensures
        supplied(normalized(headers)) == headers,
        normalized(supplied(None)) == None::<Map<String, String>>,
{
    if headers.is_empty() {
        assert(headers =~= Map::empty());
    }
}

/// The name under which a message type is registered and published.
pub trait MessageTypeName {
    /// Whether `name` is the name of the type. A type that does not say
    /// may go by any name.
    open spec fn named(name: Seq<char>) -> bool {
        true
    }

    fn name() -> (name: &'static str)
        ensures
            Self::named(name@),
    ;
}

/// What the bus asks of a message type: a name, and a lifetime that lets the
/// type be registered.
pub trait MessageConstraints: MessageTypeName + 'static {

}

impl<T: MessageTypeName + 'static> MessageConstraints for T {

}

} // verus!
