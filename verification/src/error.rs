use vstd::prelude::*;

verus! {

/// A fault raised by a transport.
#[derive(Debug)]
pub enum ClientError {
    /// The transport was built for the opposite direction of the call.
    NotAssignedConnection,
    /// A network or connection fault.
    IO(String),
    /// Any other fault of the transport.
    General(String),
}

/// Why an envelope could not be turned into a typed message.
#[derive(Debug)]
pub enum DecodeError {
    /// No type is registered under the envelope's type name.
    NotRegistered,
    /// The type registered under the name is not the type that was asked for.
    TypeMismatch,
    /// The payload does not have the shape of the registered type; the text
    /// is the decoder's own description of the fault.
    Payload(String),
}

/// Why a message was not published.
#[derive(Debug)]
pub enum PublishError {
    /// The message could not be serialized; the text is the encoder's own
    /// description of the fault.
    Encode(String),
    /// The transport refused the envelope.
    Transport(ClientError),
}

} // verus!
