use vstd::prelude::*;

verus! {

/// The text that the built-in reply provider puts before the message it answers.
pub open spec fn canned_reply(message: Seq<char>) -> Seq<char> {
    "LLM response to: "@ + message
}

/// The host's reply provider: answers every message with a fixed preamble
/// followed by the message itself, and never fails.
pub fn chat(message: String) -> (r: Result<String, String>)
    ensures
        r matches Ok(reply) && reply@ == canned_reply(message@),
{
    let reply = String::from_str("LLM response to: ").concat(message.as_str());
    Ok(reply)
}

} // verus!
