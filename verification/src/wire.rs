//! The frames that a client writes to the connection.
use crate::decimal::{decimal, is_digit, lemma_decimal_is_decimal, to_decimal};
use crate::error::ClientError;
use crate::json::{escape, json_string, lemma_escaped_plain, to_json_string};
use vstd::prelude::*;
use vstd::string::*;

verus! {

/// The request envelope around a command that is already a JSON value:
/// `{"corrId":"<id>","cmd":<command>}`, the id in decimal.
pub open spec fn envelope(corr_id: u64, command_json: Seq<char>) -> Seq<char> {
    "{\"corrId\":\""@ + decimal(corr_id as nat) + "\",\"cmd\":"@ + command_json + "}"@
}

/// The request frame of one call: the envelope around the command text as a
/// JSON string literal.
pub open spec fn request_frame(corr_id: u64, command: Seq<char>) -> Seq<char> {
    envelope(corr_id, json_string(command))
}

/// The envelope is a JSON object of two members: `corrId`, whose value is
/// the decimal numeral of the id as a JSON string literal, and `cmd`.
pub proof fn lemma_envelope_is_json_object(corr_id: u64, command_json: Seq<char>)
    ensures
        envelope(corr_id, command_json) == "{\"corrId\":"@ + json_string(decimal(corr_id as nat))
            + ",\"cmd\":"@ + command_json + "}"@,
{
    reveal_strlit("{\"corrId\":\"");
    reveal_strlit("\",\"cmd\":");
    reveal_strlit("{\"corrId\":");
    reveal_strlit(",\"cmd\":");
    let id = decimal(corr_id as nat);
    lemma_decimal_is_decimal(corr_id as nat);
    assert forall|i: int| 0 <= i < id.len() implies escape(#[trigger] id[i]) == seq![id[i]] by {
        assert(is_digit(id[i]));
    }
    lemma_escaped_plain(id);
    assert(envelope(corr_id, command_json) =~= "{\"corrId\":"@ + json_string(id) + ",\"cmd\":"@
        + command_json + "}"@);
}

/// Puts the request envelope around a command that is already a JSON value.
pub fn frame_request(corr_id: u64, command_json: &str) -> (frame: String)
    ensures
        frame@ == envelope(corr_id, command_json@),
{
    let mut frame = String::from_str("{\"corrId\":\"");
    let id_text = to_decimal(corr_id);
    frame.append(id_text.as_str());
    frame.append("\",\"cmd\":");
    frame.append(command_json);
    frame.append("}");
    frame
}

/// Builds the request frame that carries the command text `command` under
/// `corr_id`.
pub fn encode_request(corr_id: u64, command: &str) -> (frame: Result<String, ClientError>)
    ensures
        frame matches Ok(text) && text@ == request_frame(corr_id, command@),
{
    match to_json_string(command) {
        Ok(literal) => Ok(frame_request(corr_id, literal.as_str())),
        Err(error) => Err(error),
    }
}

} // verus!
