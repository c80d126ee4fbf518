//! Request and session object paths derived from the unique bus name and a token.

use vstd::prelude::*;
use super::contract::Failure;
use crate::text::{is_ascii_alnum, owned};

verus! {

/// What a D-Bus object path is (the grammar that zvariant checks): a leading
/// `/`, then zero or more non-empty names of ASCII letters, digits and `_`
/// separated by single `/`, with no trailing `/` except for the root path.
pub open spec fn is_object_path(p: Seq<char>) -> bool {
    &&& p.len() >= 1
    &&& p[0] == '/'
    &&& forall|i: int| 0 <= i < p.len() ==> (is_ascii_alnum(#[trigger] p[i]) || p[i] == '_' || p[i] == '/')
    &&& forall|i: int| 0 <= i < p.len() - 1 ==> !(#[trigger] p[i] == '/' && p[i + 1] == '/')
    &&& (p.len() == 1 || p[p.len() - 1] != '/')
}

/// Validity of a D-Bus object path, decided by `zbus::zvariant::ObjectPath::try_from`;
/// its source parses `/` followed by `[A-Za-z0-9_]+` names separated by `/`,
/// which is the grammar `is_object_path` states.
#[verifier::external_body]
fn object_path_is_valid(path: &str) -> (r: bool)
    ensures
        r == is_object_path(path@),
{
    zbus::zvariant::ObjectPath::try_from(path).is_ok()
}

/// The unique bus name without its `:` and with every `.` replaced by `_`.
pub open spec fn sender_segment_spec(sender: Seq<char>) -> Option<Seq<char>> {
    if sender.len() > 1 && sender[0] == ':' {
        Some(sender.drop_first().map_values(|c: char| if c == '.' { '_' } else { c }))
    } else {
        None
    }
}

/// Derives the path segment of a unique bus name such as `:1.42` (`1_42`).
pub fn sender_segment(sender: &str, stage: &'static str) -> (r: Result<String, Failure>)
    ensures
        sender_segment_spec(sender@) matches Some(seg) ==> (r matches Ok(s) && s@ == seg),
        sender_segment_spec(sender@) is None ==> (r matches Err(f)
            && f.code@ == "PORTAL_PROTOCOL_ERROR"@ && f.stage == stage),
{
    let n = sender.unicode_len();
    if n < 2 || sender.get_char(0) != ':' {
        return Err(Failure::new("PORTAL_PROTOCOL_ERROR", stage));
    }
    let ghost target = sender@.drop_first().map_values(|c: char| if c == '.' { '_' } else { c });
    let mut out = String::new();
    let mut i: usize = 1;
    while i < n
        invariant
            n == sender@.len(),
            1 <= i <= n,
            target == sender@.drop_first().map_values(|c: char| if c == '.' { '_' } else { c }),
            out@ =~= target.take(i - 1),
        decreases n - i,
    {
        let c = sender.get_char(i);
        let mapped = if c == '.' { '_' } else { c };
        proof {
            assert(target[i - 1] == mapped);
        }
        out.append(char_str(mapped).as_str());
        assert(target.take(i as int) =~= target.take(i - 1).push(mapped));
        i = i + 1;
    }
    assert(target.take(n - 1) =~= target);
    Ok(out)
}

/// A one-character string.
pub fn char_str(c: char) -> (r: String)
    ensures
        r@ == seq![c],
{
    let mut s = String::new();
    s.push(c);
    s
}

/// The expected request path: `/org/freedesktop/portal/desktop/request/<segment>/<token>`.
pub open spec fn request_path_spec(sender: Seq<char>, token: Seq<char>) -> Option<Seq<char>> {
    match sender_segment_spec(sender) {
        Some(seg) => Some("/org/freedesktop/portal/desktop/request/"@ + seg + "/"@ + token),
        None => None,
    }
}

/// The expected session path: `/org/freedesktop/portal/desktop/session/<segment>/<token>`.
pub open spec fn session_path_spec(sender: Seq<char>, token: Seq<char>) -> Option<Seq<char>> {
    match sender_segment_spec(sender) {
        Some(seg) => Some("/org/freedesktop/portal/desktop/session/"@ + seg + "/"@ + token),
        None => None,
    }
}

fn derived_path(base: &str, sender: &str, token: &str, stage: &'static str) -> (r: Result<String, Failure>)
    ensures
        match sender_segment_spec(sender@) {
            Some(seg) => {
                let p = base@ + seg + "/"@ + token@;
                if is_object_path(p) {
                    r matches Ok(s) && s@ == p
                } else {
                    r matches Err(f) && f.code@ == "PORTAL_PROTOCOL_ERROR"@ && f.stage == stage
                }
            },
            None => r matches Err(f) && f.code@ == "PORTAL_PROTOCOL_ERROR"@ && f.stage == stage,
        },
{
    let segment = sender_segment(sender, stage)?;
    let mut path = owned(base);
    path.append(segment.as_str());
    path.append("/");
    path.append(token);
    if !object_path_is_valid(path.as_str()) {
        return Err(Failure::new("PORTAL_PROTOCOL_ERROR", stage));
    }
    Ok(path)
}

/// The object path under which the portal answers a request made with `token`.
pub fn request_path(sender: &str, token: &str, stage: &'static str) -> (r: Result<String, Failure>)
    ensures
        r matches Ok(s) ==> sender_segment_spec(sender@) is Some
            && s@ == "/org/freedesktop/portal/desktop/request/"@ + sender_segment_spec(sender@)->0 + "/"@ + token@,
        match request_path_spec(sender@, token@) {
            Some(p) => if is_object_path(p) {
                r matches Ok(s) && s@ == p
            } else {
                r matches Err(f) && f.code@ == "PORTAL_PROTOCOL_ERROR"@ && f.stage == stage
            },
            None => r matches Err(f) && f.code@ == "PORTAL_PROTOCOL_ERROR"@ && f.stage == stage,
        },
{
    derived_path("/org/freedesktop/portal/desktop/request/", sender, token, stage)
}

/// The object path of the session created with `token`.
pub fn session_path(sender: &str, token: &str, stage: &'static str) -> (r: Result<String, Failure>)
    ensures
        r matches Ok(s) ==> sender_segment_spec(sender@) is Some
            && s@ == "/org/freedesktop/portal/desktop/session/"@ + sender_segment_spec(sender@)->0 + "/"@ + token@,
        match session_path_spec(sender@, token@) {
            Some(p) => if is_object_path(p) {
                r matches Ok(s) && s@ == p
            } else {
                r matches Err(f) && f.code@ == "PORTAL_PROTOCOL_ERROR"@ && f.stage == stage
            },
            None => r matches Err(f) && f.code@ == "PORTAL_PROTOCOL_ERROR"@ && f.stage == stage,
        },
{
    derived_path("/org/freedesktop/portal/desktop/session/", sender, token, stage)
}

/// For one sender and token, the request path lies under
/// `/org/freedesktop/portal/desktop/request/` and the session path under
/// `/org/freedesktop/portal/desktop/session/`, each followed by the sender's
/// segment, `/` and the token; the two paths always differ.
pub proof fn lemma_request_and_session_paths(sender: Seq<char>, token: Seq<char>)
    ensures
        sender_segment_spec(sender) is Some ==> {
            &&& request_path_spec(sender, token)
                == Some("/org/freedesktop/portal/desktop/request/"@ + sender_segment_spec(sender)->0 + "/"@ + token)
            &&& session_path_spec(sender, token)
                == Some("/org/freedesktop/portal/desktop/session/"@ + sender_segment_spec(sender)->0 + "/"@ + token)
            &&& request_path_spec(sender, token)->0 != session_path_spec(sender, token)->0
        },
        sender_segment_spec(sender) is None ==> request_path_spec(sender, token) is None
            && session_path_spec(sender, token) is None,
{
    reveal_strlit("/org/freedesktop/portal/desktop/request/");
    reveal_strlit("/org/freedesktop/portal/desktop/session/");
    if sender_segment_spec(sender) is Some {
        let p = request_path_spec(sender, token)->0;
        let q = session_path_spec(sender, token)->0;
        assert(p[32] == 'r');
        assert(q[32] == 's');
    }
}

/// Checks that a returned object path names a valid path and equals the expected one.
pub fn returned_path_matches(returned: &str, expected: &str) -> (r: bool)
    ensures
        r == (is_object_path(returned@) && returned@ == expected@),
{
    object_path_is_valid(returned) && crate::text::str_eq(returned, expected)
}

/// Reads a session handle that the portal returned as text: it must be an
/// object path.
pub fn parse_session_path(value: &str, stage: &'static str) -> (r: Result<String, Failure>)
    ensures
        is_object_path(value@) ==> (r matches Ok(p) && p@ == value@),
        !is_object_path(value@) ==> (r matches Err(f) && f.code@ == "PORTAL_PROTOCOL_ERROR"@ && f.stage == stage),
{
    if !object_path_is_valid(value) {
        return Err(Failure::new("PORTAL_PROTOCOL_ERROR", stage));
    }
    Ok(owned(value))
}

/// Checks the results of creating a session: exactly one result, the session
/// handle, which must be the session path derived before the call.
pub fn created_session(result_count: usize, session_handle: Option<&str>, expected: &str) -> (r: Result<(), Failure>)
    ensures
        r is Ok <==> (result_count == 1 && (session_handle matches Some(h)
            && is_object_path(h@) && h@ == expected@)),
        r matches Err(f) ==> f.code@ == "PORTAL_PROTOCOL_ERROR"@ && f.stage@ == "create-session"@,
{
    if result_count != 1 {
        return Err(Failure::new("PORTAL_PROTOCOL_ERROR", "create-session"));
    }
    let handle = match session_handle {
        Some(h) => h,
        None => { return Err(Failure::new("PORTAL_PROTOCOL_ERROR", "create-session")); },
    };
    let path = match parse_session_path(handle, "create-session") {
        Ok(p) => p,
        Err(f) => { return Err(f); },
    };
    if !crate::text::str_eq(path.as_str(), expected) {
        return Err(Failure::new("PORTAL_PROTOCOL_ERROR", "create-session"));
    }
    Ok(())
}

/// Two lowercase hexadecimal digits of a byte, high nibble first.
pub open spec fn byte_hex(b: u8) -> Seq<char> {
    seq![crate::opaque_id::hex_digit((b / 16) as u64), crate::opaque_id::hex_digit((b % 16) as u64)]
}

/// The hexadecimal text of a byte string, two digits per byte.
pub open spec fn bytes_hex(bytes: Seq<u8>) -> Seq<char>
    decreases bytes.len(),
{
    if bytes.len() == 0 {
        Seq::empty()
    } else {
        bytes_hex(bytes.drop_last()) + byte_hex(bytes.last())
    }
}

/// The handle token of a request: `act`, sixteen hexadecimal digits of the
/// process-wide request sequence, then the random bytes in hexadecimal.
pub open spec fn request_token_spec(sequence: u64, random: Seq<u8>) -> Seq<char> {
    seq!['a', 'c', 't'] + crate::opaque_id::hex16(sequence) + bytes_hex(random)
}

/// Builds a request handle token from the request sequence and random bytes.
pub fn request_token_text(sequence: u64, random: &[u8]) -> (r: String)
    ensures
        r@ == request_token_spec(sequence, random@),
{
    let mut token = owned("act");
    proof { reveal_strlit("act"); }
    crate::opaque_id::push_hex16(&mut token, sequence);
    let ghost head = token@;
    let mut i: usize = 0;
    while i < random.len()
        invariant
            i <= random@.len(),
            head == seq!['a', 'c', 't'] + crate::opaque_id::hex16(sequence),
            token@ == head + bytes_hex(random@.take(i as int)),
        decreases random@.len() - i,
    {
        let b = random[i];
        let high = crate::opaque_id::hex_char((b / 16) as u64);
        let low = crate::opaque_id::hex_char((b % 16) as u64);
        token.append(char_str(high).as_str());
        token.append(char_str(low).as_str());
        proof {
            let t = random@.take(i + 1);
            assert(t.drop_last() =~= random@.take(i as int));
            assert(t.last() == b);
        }
        assert(token@ =~= head + bytes_hex(random@.take(i + 1)));
        i = i + 1;
    }
    assert(random@.take(i as int) =~= random@);
    token
}

} // verus!
