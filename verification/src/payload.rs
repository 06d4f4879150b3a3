//! Construction of the outbound request: the JSON payload that embeds the
//! caller's prompt, and the URL that carries the API key.
//!
//! The payload has the fixed shape
//! `{"contents":[{"parts":[{"text": <instruction + prompt>}]}]}` — a single
//! content with a single part. The relay always places a fixed paraphrase
//! instruction before the prompt.

use vstd::prelude::*;

use crate::text::{append_escaped, escape_seq, lemma_escape_seq_concat, lemma_escape_seq_plain,
    needs_escape};

verus! {

/// The fixed instruction placed before every prompt.
pub open spec fn instruction_text() -> Seq<char> {
    "paraphrase this text and return just the result only without any unimportant explanation : "@
}

/// The text the payload carries: the instruction, then the prompt verbatim.
pub open spec fn wrapped_prompt(p: Seq<char>) -> Seq<char> {
    instruction_text() + p
}

/// Everything of the payload before the embedded text.
pub open spec fn payload_opening() -> Seq<char> {
    "{\"contents\":[{\"parts\":[{\"text\":\""@
}

/// Everything of the payload after the embedded text.
pub open spec fn payload_closing() -> Seq<char> {
    "\"}]}]}"@
}

/// The full outbound payload for a prompt.
pub open spec fn payload_of(p: Seq<char>) -> Seq<char> {
    payload_opening() + escape_seq(wrapped_prompt(p)) + payload_closing()
}

/// Builds the outbound payload for a prompt.
pub fn build_payload(prompt: &str) -> (r: String)
    ensures
        r@ == payload_of(prompt@),
{
    let mut out = String::from_str("{\"contents\":[{\"parts\":[{\"text\":\"");
    append_escaped(
        &mut out,
        "paraphrase this text and return just the result only without any unimportant explanation : ",
    );
    append_escaped(&mut out, prompt);
    out.append("\"}]}]}");
    proof {
        lemma_escape_seq_concat(instruction_text(), prompt@);
        assert(out@ =~= payload_of(prompt@));
    }
    out
}

/// The target of the outbound call: the configured URL with the API key as
/// its one query parameter.
pub open spec fn request_url_of(url: Seq<char>, key: Seq<char>) -> Seq<char> {
    url + "?key="@ + key
}

/// Builds the outbound URL from the configured URL and key.
pub fn build_request_url(url: &str, key: &str) -> (r: String)
    ensures
        r@ == request_url_of(url@, key@),
{
    let mut out = String::from_str(url);
    out.append("?key=");
    out.append(key);
    out
}

/// For a prompt none of whose characters needs JSON escaping, the payload
/// embeds the prompt verbatim: it appears unchanged right after the fixed
/// opening and the escaped instruction.
pub proof fn lemma_payload_embeds_prompt(p: Seq<char>)
    requires
        forall|i: int| 0 <= i < p.len() ==> !needs_escape(p[i]),
    ensures
        ({
            let off: int = payload_opening().len() as int + escape_seq(instruction_text()).len() as int;
            payload_of(p).subrange(off, off + p.len() as int) == p
        }),
{
    lemma_escape_seq_concat(instruction_text(), p);
    lemma_escape_seq_plain(p);
    let off: int = payload_opening().len() as int + escape_seq(instruction_text()).len() as int;
    assert(payload_of(p).subrange(off, off + p.len() as int) =~= p);
}

} // verus!
