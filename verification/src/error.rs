//! What can go wrong with a call or with the connection.
use vstd::prelude::*;
use vstd::string::*;

verus! {

/// The ways in which a client operation fails.
///
/// A failure that the service reports inside a well-formed response is no
/// error of this layer: it reaches the caller as an ordinary response.
#[derive(Debug, Clone, Copy, Hash, PartialEq, Eq, Structural)]
pub enum ClientError {
    /// Writing to the connection failed.
    Connection,
    /// The connection was closed before the call was answered.
    ConnectionClosed,
    /// No matching response arrived before the deadline of the call.
    Timeout,
    /// The JSON encoder failed on a text. Its source rules that out; the
    /// variant is what the client answers should it happen all the same.
    Encode,
    /// Every correlation id of this client has been handed out.
    IdsExhausted,
    /// The correlation id names no call that is still waiting for its outcome.
    UnknownCall,
    /// The response is not of the kind that the command is answered with.
    UnexpectedResponse,
}

impl ClientError {
    /// The text that describes this error to a reader.
    pub open spec fn text(self) -> Seq<char> {
        match self {
            ClientError::Connection => "The connection failed while sending"@,
            ClientError::ConnectionClosed => "The connection was closed"@,
            ClientError::Timeout => "No response arrived in time"@,
            ClientError::Encode => "The command could not be encoded"@,
            ClientError::IdsExhausted => "No correlation id is left"@,
            ClientError::UnknownCall => "No such call is pending"@,
            ClientError::UnexpectedResponse => "The command response does not match the expected type"@,
        }
    }

    /// A description of the error for people.
    pub fn message(&self) -> (text: String)
        ensures
            text@ == self.text(),
    {
        let text = match self {
            ClientError::Connection => "The connection failed while sending",
            ClientError::ConnectionClosed => "The connection was closed",
            ClientError::Timeout => "No response arrived in time",
            ClientError::Encode => "The command could not be encoded",
            ClientError::IdsExhausted => "No correlation id is left",
            ClientError::UnknownCall => "No such call is pending",
            ClientError::UnexpectedResponse => "The command response does not match the expected type",
        };
        String::from_str(text)
    }
}

} // verus!
