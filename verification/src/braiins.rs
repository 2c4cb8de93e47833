//! The Braiins OS web API (version 21.09): reading the LuCI session from
//! the cookies of a login reply.
use vstd::prelude::*;

use crate::text::{has_prefix, push_char, starts_with, trim, trim_text};

verus! {

/// The Braiins OS web API.
pub struct BraiinsWebAPI;

/// The session a cookie segment carries: the trimmed segment must start
/// with `session_id=` and hold a non-empty value after it.
pub open spec fn segment_session(segment: Seq<char>) -> Option<Seq<char>> {
    let t = trim_text(segment);
    if has_prefix(t, "session_id="@) && t.len() > 11 {
        Some(t.subrange(11, t.len() as int))
    } else {
        None
    }
}

/// The first session carried by the `;`-separated segments of a header,
/// where `current` is the segment read so far and `rest` the text after it.
pub open spec fn session_scan(current: Seq<char>, rest: Seq<char>) -> Option<Seq<char>>
    decreases rest.len(),
{
    if rest.len() == 0 {
        segment_session(current)
    } else if rest[0] == ';' {
        match segment_session(current) {
            Some(v) => Some(v),
            None => session_scan(Seq::<char>::empty(), rest.drop_first()),
        }
    } else {
        session_scan(current.push(rest[0]), rest.drop_first())
    }
}

/// The first session carried by a list of `set-cookie` header values.
pub open spec fn first_session(headers: Seq<Seq<char>>) -> Option<Seq<char>>
    decreases headers.len(),
{
    if headers.len() == 0 {
        None
    } else {
        match session_scan(Seq::<char>::empty(), headers[0]) {
            Some(v) => Some(v),
            None => first_session(headers.drop_first()),
        }
    }
}

impl BraiinsWebAPI {
    /// The session carried by one cookie segment.
    pub fn segment_session(segment: &str) -> (r: Option<String>)
        ensures
            match segment_session(segment@) {
                Some(v) => r matches Some(s) && s@ == v,
                None => r is None,
            },
    {
        let t = trim(segment);
        let n = t.unicode_len();
        if starts_with(t, "session_id=") && n > 11 {
            proof {
                reveal_strlit("session_id=");
            }
            Some(t.substring_char(11, n).to_string())
        } else {
            proof {
                reveal_strlit("session_id=");
            }
            None
        }
    }

    /// The session a `set-cookie` header value carries: its `;`-separated
    /// segments are tried in order.
    pub fn session_from_header(header: &str) -> (r: Option<String>)
        ensures
            match session_scan(Seq::<char>::empty(), header@) {
                Some(v) => r matches Some(s) && s@ == v,
                None => r is None,
            },
    {
        let n = header.unicode_len();
        let mut current = String::new();
        let mut i: usize = 0;
        assert(header@.subrange(0, n as int) =~= header@);
        while i < n
            invariant
                n == header@.len(),
                i <= n,
                session_scan(Seq::<char>::empty(), header@) == session_scan(
                    current@,
                    header@.subrange(i as int, n as int),
                ),
            decreases n - i,
        {
            let c = header.get_char(i);
            assert(header@.subrange(i as int, n as int).drop_first() =~= header@.subrange(
                i + 1,
                n as int,
            ));
            if c == ';' {
                match Self::segment_session(current.as_str()) {
                    Some(v) => return Some(v),
                    None => {
                        current = String::new();
                    },
                }
            } else {
                push_char(&mut current, c);
            }
            i = i + 1;
        }
        Self::segment_session(current.as_str())
    }

    /// The LuCI session given by the `set-cookie` headers of a login reply
    /// (those readable as text, in order): the first `session_id` with a
    /// non-empty value.
    pub fn session_from_cookies(headers: &Vec<String>) -> (r: Option<String>)
        ensures
            match first_session(headers@.map_values(|h: String| h@)) {
                Some(v) => r matches Some(s) && s@ == v,
                None => r is None,
            },
    {
        let ghost all = headers@.map_values(|h: String| h@);
        let mut i: usize = 0;
        assert(all.subrange(0, all.len() as int) =~= all);
        while i < headers.len()
            invariant
                all == headers@.map_values(|h: String| h@),
                i <= headers@.len(),
                first_session(all) == first_session(all.subrange(i as int, all.len() as int)),
            decreases headers@.len() - i,
        {
            assert(all.subrange(i as int, all.len() as int).drop_first() =~= all.subrange(
                i + 1,
                all.len() as int,
            ));
            assert(all.subrange(i as int, all.len() as int)[0] == headers@[i as int]@);
            match Self::session_from_header(headers[i].as_str()) {
                Some(v) => return Some(v),
                None => {},
            }
            i = i + 1;
        }
        None
    }
}

/// A cookie segment carries a session exactly when, trimmed, it is
/// `session_id=` followed by a non-empty value, and the session is that
/// value.
pub proof fn lemma_segment_session_is_the_value(segment: Seq<char>, v: Seq<char>)
    ensures
        segment_session(segment) == Some(v) <==> (trim_text(segment) == "session_id="@ + v
            && v.len() > 0),
{
    reveal_strlit("session_id=");
    let t = trim_text(segment);
    if trim_text(segment) == "session_id="@ + v && v.len() > 0 {
        assert(t.subrange(0, 11) =~= "session_id="@);
        assert(t.subrange(11, t.len() as int) =~= v);
    }
    if segment_session(segment) == Some(v) {
        assert(t =~= "session_id="@ + v);
    }
}

/// Whether a text holds no `;`.
pub open spec fn no_semicolon(s: Seq<char>) -> bool {
    forall|i: int| 0 <= i < s.len() ==> #[trigger] s[i] != ';'
}

proof fn lemma_scan_segment(current: Seq<char>, a: Seq<char>, b: Option<Seq<char>>)
    requires
        no_semicolon(a),
    ensures
        b is None ==> session_scan(current, a) == segment_session(current + a),
        b matches Some(rest) ==> session_scan(current, a + ";"@ + rest) == match segment_session(
            current + a,
        ) {
            Some(v) => Some(v),
            None => session_scan(Seq::<char>::empty(), rest),
        },
    decreases a.len(),
{
    reveal_strlit(";");
    if a.len() == 0 {
        assert(current + a =~= current);
        if let Some(rest) = b {
            assert((a + ";"@ + rest).drop_first() =~= rest);
        }
    } else {
        assert(a[0] != ';');
        lemma_scan_segment(current.push(a[0]), a.drop_first(), b);
        assert(current.push(a[0]) + a.drop_first() =~= current + a);
        if let Some(rest) = b {
            assert((a + ";"@ + rest)[0] == a[0]);
            assert((a + ";"@ + rest).drop_first() =~= a.drop_first() + ";"@ + rest);
        } else {
        }
    }
}

/// A header is read segment by segment, in order: the first segment that
/// carries a session gives it; a header of one segment gives what that
/// segment carries.
pub proof fn lemma_first_segment_with_session_wins(segment: Seq<char>, rest: Seq<char>)
    requires
        no_semicolon(segment),
    ensures
        session_scan(Seq::<char>::empty(), segment) == segment_session(segment),
        session_scan(Seq::<char>::empty(), segment + ";"@ + rest) == match segment_session(segment) {
            Some(v) => Some(v),
            None => session_scan(Seq::<char>::empty(), rest),
        },
{
    lemma_scan_segment(Seq::<char>::empty(), segment, None);
    lemma_scan_segment(Seq::<char>::empty(), segment, Some(rest));
    assert(Seq::<char>::empty() + segment =~= segment);
}

/// The headers are read in order: the first one that carries a session
/// gives it.
pub proof fn lemma_first_header_with_session_wins(header: Seq<char>, headers: Seq<Seq<char>>)
    ensures
        first_session(seq![header] + headers) == match session_scan(Seq::<char>::empty(), header) {
            Some(v) => Some(v),
            None => first_session(headers),
        },
{
    assert((seq![header] + headers).drop_first() =~= headers);
}

} // verus!
