//! Reading the status of the JSON replies miners send on their RPC port.
use vstd::prelude::*;

use crate::errors::RPCError;
use crate::json::{
    json_nested_string_member, json_parse_error, json_parses, json_string_member, json_value,
    parse_json, read_nested_string_member, read_string_member,
};
use crate::text::{equals, opt_view, retain};

verus! {

/// The status fields of an RPC reply: `STATUS[0].STATUS`, `STATUS` itself,
/// `STATUS[0].Msg` and `Msg`, each where it is a string. `None` when the
/// text is not JSON.
pub open spec fn rpc_status_fields(text: Seq<char>) -> Option<
    (Option<Seq<char>>, Option<Seq<char>>, Option<Seq<char>>, Option<Seq<char>>),
> {
    if json_parses(text) {
        Some(
            (
                json_nested_string_member(text, "STATUS"@, 0, "STATUS"@),
                json_string_member(text, "STATUS"@),
                json_nested_string_member(text, "STATUS"@, 0, "Msg"@),
                json_string_member(text, "Msg"@),
            ),
        )
    } else {
        None
    }
}

/// The four status fields of a reply, read from its text; `None` when the
/// text is not JSON.
fn read_status_fields(text: &str) -> (r: Option<
    (Option<String>, Option<String>, Option<String>, Option<String>),
>)
    ensures
        match rpc_status_fields(text@) {
            None => r is None,
            Some(f) => r matches Some(g) && opt_view(&g.0) == f.0 && opt_view(&g.1) == f.1
                && opt_view(&g.2) == f.2 && opt_view(&g.3) == f.3,
        },
{
    let nested_status = read_nested_string_member(text, "STATUS", 0, "STATUS")?;
    let flat_status = read_string_member(text, "STATUS")?;
    let nested_msg = read_nested_string_member(text, "STATUS", 0, "Msg")?;
    let flat_msg = read_string_member(text, "Msg")?;
    Some((nested_status, flat_status, nested_msg, flat_msg))
}

/// The first of two optional values that is present.
pub open spec fn first_present(a: Option<Seq<char>>, b: Option<Seq<char>>) -> Option<Seq<char>> {
    match a {
        Some(x) => Some(x),
        None => b,
    }
}

/// Whether a status code reports success (`S`) or information (`I`).
pub open spec fn is_success_code(status: Seq<char>) -> bool {
    status == "S"@ || status == "I"@
}

/// Whether a reply is accepted: its nested status, or else its flat status,
/// is a success code.
pub open spec fn status_accepted(nested: Option<Seq<char>>, flat: Option<Seq<char>>) -> bool {
    match first_present(nested, flat) {
        Some(s) => is_success_code(s),
        None => false,
    }
}

/// Whether a reply with these status fields is accepted.
pub fn rpc_status_accepted(nested: &Option<String>, flat: &Option<String>) -> (r: bool)
    ensures
        r == status_accepted(opt_view(nested), opt_view(flat)),
{
    let status = match nested {
        Some(s) => Some(s),
        None => match flat {
            Some(s) => Some(s),
            None => None,
        },
    };
    match status {
        Some(s) => equals(s.as_str(), "S") || equals(s.as_str(), "I"),
        None => false,
    }
}

/// Everything but the line feed.
pub open spec fn not_newline(c: char) -> bool {
    c != '\n'
}

/// Removes every line feed (`str::replace("\n", "")`).
pub fn without_newlines(s: &str) -> (r: String)
    ensures
        r@ == retain(s@, |c: char| not_newline(c)),
{
    let n = s.unicode_len();
    let mut out = String::new();
    let mut i: usize = 0;
    while i < n
        invariant
            n == s@.len(),
            i <= n,
            out@ == retain(s@.subrange(0, i as int), |c: char| not_newline(c)),
        decreases n - i,
    {
        let c = s.get_char(i);
        assert(s@.subrange(0, i + 1).drop_last() =~= s@.subrange(0, i as int));
        if c != '\n' {
            crate::text::push_char(&mut out, c);
        }
        i = i + 1;
    }
    assert(s@.subrange(0, n as int) =~= s@);
    out
}

/// Whether `parse_rpc_result` accepts a reply text: once its line feeds are
/// removed it is JSON and its status is a success code.
pub open spec fn rpc_result_accepted(response: Seq<char>) -> bool {
    match rpc_status_fields(retain(response, |c: char| not_newline(c))) {
        Some(f) => status_accepted(f.0, f.1),
        None => false,
    }
}

/// The parsed reply of a miner when its status reports success. Line feeds
/// are removed first: some firmware puts them inside version strings.
pub fn parse_rpc_result(response: &str) -> (r: Option<serde_json::Value>)
    ensures
        r is Some <==> rpc_result_accepted(response@),
        r matches Some(v) ==> v == json_value(retain(response@, |c: char| not_newline(c))),
{
    let cleaned = without_newlines(response);
    let (nested_status, flat_status, _, _) = read_status_fields(cleaned.as_str())?;
    if rpc_status_accepted(&nested_status, &flat_status) {
        parse_json(cleaned.as_str()).ok()
    } else {
        None
    }
}

/// The message given when a failed status carries none.
pub open spec fn default_status_message(has_status: bool) -> Seq<char> {
    if has_status {
        "Unknown error when looking for status code"@
    } else {
        "Unknown error when parsing status"@
    }
}

/// The outcome of a BTMiner V1 status check, given the status fields:
/// success, or the status failure with the reply's message.
pub open spec fn btminer_v1_outcome(
    f: (Option<Seq<char>>, Option<Seq<char>>, Option<Seq<char>>, Option<Seq<char>>),
) -> Option<Seq<char>> {
    let status = first_present(f.0, f.1);
    let message = first_present(f.2, f.3);
    if status_accepted(f.0, f.1) {
        None
    } else {
        Some(
            match message {
                Some(m) => m,
                None => default_status_message(status is Some),
            },
        )
    }
}

/// Checks the status of a WhatsMiner (BTMiner V1) reply: `Ok` when it
/// reports success, a status failure carrying the reply's message when it
/// does not, and a deserialization failure when it is not JSON.
pub fn btminer_v1_status(response: &str) -> (r: Result<(), RPCError>)
    ensures
        match rpc_status_fields(response@) {
            None => r matches Err(RPCError::DeserializationFailed(e)) && e == json_parse_error(
                response@,
            ),
            Some(f) => match btminer_v1_outcome(f) {
                None => r is Ok,
                Some(m) => r matches Err(RPCError::StatusCheckFailed(msg)) && msg@ == m,
            },
        },
{
    match read_status_fields(response) {
        // No fields are read only from a text that is not JSON, so the
        // parse fails here too.
        None => match parse_json(response) {
            Err(e) => Err(RPCError::DeserializationFailed(e)),
            Ok(_) => Ok(()),
        },
        Some((nested_status, flat_status, nested_msg, flat_msg)) => {
            if rpc_status_accepted(&nested_status, &flat_status) {
                Ok(())
            } else {
                let has_status = nested_status.is_some() || flat_status.is_some();
                let message = match nested_msg {
                    Some(m) => m,
                    None => match flat_msg {
                        Some(m) => m,
                        None => if has_status {
                            String::from_str("Unknown error when looking for status code")
                        } else {
                            String::from_str("Unknown error when parsing status")
                        },
                    },
                };
                Err(RPCError::StatusCheckFailed(message))
            }
        },
    }
}

/// The request text of an RPC command without parameters.
pub open spec fn rpc_request_text(command: Seq<char>) -> Seq<char> {
    "{\"command\":\""@ + command + "\"}"@
}

/// The request sent for an RPC command without parameters:
/// `{"command":"<command>"}`.
pub fn rpc_request(command: &str) -> (r: String)
    ensures
        r@ == rpc_request_text(command@),
{
    let mut s = String::from_str("{\"command\":\"");
    s.append(command);
    s.append("\"}");
    s
}

/// `s` with every `,}` replaced by `}`, scanning from the front.
pub open spec fn without_trailing_commas(s: Seq<char>) -> Seq<char>
    decreases s.len(),
{
    if s.len() == 0 {
        s
    } else if s.len() >= 2 && s[0] == ',' && s[1] == '}' {
        seq!['}'] + without_trailing_commas(s.subrange(2, s.len() as int))
    } else {
        seq![s[0]] + without_trailing_commas(s.drop_first())
    }
}

/// Cleans a WhatsMiner (BTMiner V1) reply before it is parsed: line feeds
/// are removed and trailing commas before `}` dropped, both of which that
/// firmware emits and which break JSON parsing.
pub fn clean_btminer_v1_response(response: &str) -> (r: String)
    ensures
        r@ == without_trailing_commas(retain(response@, |c: char| not_newline(c))),
{
    let joined = without_newlines(response);
    let s = joined.as_str();
    let n = s.unicode_len();
    let mut out = String::new();
    let mut i: usize = 0;
    assert(s@.subrange(0, n as int) =~= s@);
    while i < n
        invariant
            n == s@.len(),
            i <= n,
            without_trailing_commas(s@) == out@ + without_trailing_commas(
                s@.subrange(i as int, n as int),
            ),
        decreases n - i,
    {
        let c = s.get_char(i);
        let rest = Ghost(s@.subrange(i as int, n as int));
        if c == ',' && i + 1 < n && s.get_char(i + 1) == '}' {
            assert(rest@.subrange(2, rest@.len() as int) =~= s@.subrange(i + 2, n as int));
            crate::text::push_char(&mut out, '}');
            i = i + 2;
        } else {
            assert(rest@.drop_first() =~= s@.subrange(i + 1, n as int));
            crate::text::push_char(&mut out, c);
            i = i + 1;
        }
    }
    assert(s@.subrange(n as int, n as int) =~= Seq::<char>::empty());
    out
}

/// Whether a reply read so far is complete: it holds a NUL or ends with a
/// line feed.
pub open spec fn reply_complete(reply: Seq<char>) -> bool {
    reply.contains('\0') || (reply.len() > 0 && reply.last() == '\n')
}

/// Whether a reply read so far is complete. Miners end their replies with
/// `\0` or `\n` but keep the connection open, so reading stops here.
pub fn is_reply_complete(reply: &str) -> (r: bool)
    ensures
        r == reply_complete(reply@),
{
    let n = reply.unicode_len();
    let mut i: usize = 0;
    while i < n
        invariant
            n == reply@.len(),
            i <= n,
            forall|j: int| 0 <= j < i ==> reply@[j] != '\0',
        decreases n - i,
    {
        if reply.get_char(i) == '\0' {
            return true;
        }
        i = i + 1;
    }
    n > 0 && reply.get_char(n - 1) == '\n'
}

/// `s` without the NULs and line feeds at its end.
pub open spec fn trim_terminators_text(s: Seq<char>) -> Seq<char>
    decreases s.len(),
{
    if s.len() > 0 && (s.last() == '\0' || s.last() == '\n') {
        trim_terminators_text(s.drop_last())
    } else {
        s
    }
}

/// Removes the terminators at the end of a reply
/// (`str::trim_end_matches(['\0', '\n'])`).
pub fn trim_terminators(reply: &str) -> (r: String)
    ensures
        r@ == trim_terminators_text(reply@),
{
    let n = reply.unicode_len();
    let mut j: usize = n;
    assert(reply@.subrange(0, n as int) =~= reply@);
    while j > 0 && (reply.get_char(j - 1) == '\0' || reply.get_char(j - 1) == '\n')
        invariant
            n == reply@.len(),
            j <= n,
            trim_terminators_text(reply@) == trim_terminators_text(reply@.subrange(0, j as int)),
        decreases j,
    {
        assert(reply@.subrange(0, j as int).drop_last() =~= reply@.subrange(0, j - 1));
        j = j - 1;
    }
    reply.substring_char(0, j).to_string()
}

/// The status code a reply reports: `STATUS[0].STATUS` when it is a
/// string, else `STATUS` itself.
pub open spec fn reported_status(text: Seq<char>) -> Option<Seq<char>> {
    let nested = json_nested_string_member(text, "STATUS"@, 0, "STATUS"@);
    if nested is Some {
        nested
    } else {
        json_string_member(text, "STATUS"@)
    }
}

/// A reply is accepted exactly when, with its line feeds removed, it is
/// JSON and reports the status `S` or `I`.
pub proof fn lemma_rpc_result_acceptance(response: Seq<char>)
    ensures
        ({
            let text = retain(response, |c: char| not_newline(c));
            rpc_result_accepted(response) <==> (json_parses(text) && (reported_status(text) == Some(
                "S"@,
            ) || reported_status(text) == Some("I"@)))
        }),
{
}

/// The outcome of the WhatsMiner status check on a reply that is JSON: it
/// passes when the reported status is `S` or `I`; otherwise it fails with
/// the reply's own message, `STATUS[0].Msg` when that is a string, else
/// `Msg`, else a default saying whether any status was reported.
pub proof fn lemma_btminer_status_message(text: Seq<char>)
    requires
        json_parses(text),
    ensures
        ({
            let status = reported_status(text);
            let nested_msg = json_nested_string_member(text, "STATUS"@, 0, "Msg"@);
            let flat_msg = json_string_member(text, "Msg"@);
            let outcome = btminer_v1_outcome(rpc_status_fields(text)->0);
            let success = status == Some("S"@) || status == Some("I"@);
            &&& (success ==> outcome is None)
            &&& (!success && nested_msg is Some ==> outcome == nested_msg)
            &&& (!success && nested_msg is None && flat_msg is Some ==> outcome == flat_msg)
            &&& (!success && nested_msg is None && flat_msg is None && status is Some ==> outcome
                == Some("Unknown error when looking for status code"@))
            &&& (!success && nested_msg is None && flat_msg is None && status is None ==> outcome
                == Some("Unknown error when parsing status"@))
        }),
{
}

/// Whether `,}` occurs nowhere in a text.
pub open spec fn has_no_comma_brace(s: Seq<char>) -> bool {
    forall|i: int| 0 <= i < s.len() - 1 ==> !(#[trigger] s[i] == ',' && s[i + 1] == '}')
}

/// A text in which `,}` does not occur is left as it is by the cleanup.
pub proof fn lemma_clean_keeps_text_without_comma_brace(s: Seq<char>)
    requires
        has_no_comma_brace(s),
    ensures
        without_trailing_commas(s) == s,
    decreases s.len(),
{
    if s.len() > 0 {
        let rest = s.drop_first();
        assert(has_no_comma_brace(rest)) by {
            assert forall|i: int| 0 <= i < rest.len() - 1 implies !(#[trigger] rest[i] == ','
                && rest[i + 1] == '}') by {
                assert(rest[i] == s[i + 1] && rest[i + 1] == s[i + 2]);
            }
        }
        if s.len() >= 2 {
            assert(!(s[0] == ',' && s[1] == '}'));
        }
        lemma_clean_keeps_text_without_comma_brace(rest);
        assert(seq![s[0]] + rest =~= s);
    }
}

/// Each `,}` becomes `}`, and the text on either side is cleaned on its
/// own: the cleanup of `a,}b` is the cleanup of `a`, then `}`, then the
/// cleanup of `b`. With the lemma above, this fixes the cleanup of every
/// text.
pub proof fn lemma_clean_splits_at_comma_brace(a: Seq<char>, b: Seq<char>)
    ensures
        without_trailing_commas(a + ",}"@ + b) == without_trailing_commas(a) + "}"@
            + without_trailing_commas(b),
    decreases a.len(),
{
    reveal_strlit(",}");
    reveal_strlit("}");
    let s = a + ",}"@ + b;
    if a.len() == 0 {
        assert(s.subrange(2, s.len() as int) =~= b);
        assert(seq!['}'] =~= "}"@);
        assert(without_trailing_commas(a) =~= Seq::<char>::empty());
        assert(without_trailing_commas(a) + "}"@ + without_trailing_commas(b) =~= seq!['}']
            + without_trailing_commas(b));
    } else if a.len() >= 2 && a[0] == ',' && a[1] == '}' {
        let a2 = a.subrange(2, a.len() as int);
        assert(s.subrange(2, s.len() as int) =~= a2 + ",}"@ + b);
        lemma_clean_splits_at_comma_brace(a2, b);
        assert(seq!['}'] + (without_trailing_commas(a2) + "}"@ + without_trailing_commas(b))
            =~= (seq!['}'] + without_trailing_commas(a2)) + "}"@ + without_trailing_commas(b));
    } else {
        let a1 = a.drop_first();
        assert(s[0] == a[0]);
        assert(s[1] == if a.len() >= 2 { a[1] } else { ',' });
        assert(s.drop_first() =~= a1 + ",}"@ + b);
        lemma_clean_splits_at_comma_brace(a1, b);
        assert(seq![a[0]] + (without_trailing_commas(a1) + "}"@ + without_trailing_commas(b))
            =~= (seq![a[0]] + without_trailing_commas(a1)) + "}"@ + without_trailing_commas(b));
    }
}

/// Trimming terminators removes exactly the trailing NULs and line feeds:
/// what is left is a prefix of the reply that does not end in one, and
/// everything after it is a NUL or a line feed.
pub proof fn lemma_trim_terminators_removes_only_terminators(s: Seq<char>)
    ensures
        ({
            let t = trim_terminators_text(s);
            &&& t.len() <= s.len()
            &&& t == s.subrange(0, t.len() as int)
            &&& !(t.len() > 0 && (t.last() == '\0' || t.last() == '\n'))
            &&& forall|i: int| t.len() <= i < s.len() ==> (#[trigger] s[i] == '\0' || s[i] == '\n')
        }),
    decreases s.len(),
{
    if s.len() > 0 && (s.last() == '\0' || s.last() == '\n') {
        lemma_trim_terminators_removes_only_terminators(s.drop_last());
        let t = trim_terminators_text(s);
        assert(t == s.drop_last().subrange(0, t.len() as int));
        assert(t =~= s.subrange(0, t.len() as int));
        assert forall|i: int| t.len() <= i < s.len() implies (#[trigger] s[i] == '\0' || s[i] == '\n') by {
            if i < s.len() - 1 {
                assert(s.drop_last()[i] == s[i]);
            }
        }
    } else {
        assert(s =~= s.subrange(0, s.len() as int));
    }
}

} // verus!
