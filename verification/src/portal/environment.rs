//! The environment the check needs: a Wayland session whose display name is a
//! plain socket name.

use vstd::prelude::*;
use crate::portal::contract::Failure;
use crate::text::str_eq;

verus! {

/// Whether a display name is non-empty and made of ASCII letters, digits,
/// `-` and `_` only (so it names a socket in the runtime directory).
pub open spec fn display_name_ok(name: Seq<char>) -> bool {
    &&& name.len() > 0
    &&& forall|i: int| 0 <= i < name.len() ==> {
        let c = #[trigger] name[i];
        crate::text::is_ascii_alnum(c) || c == '-' || c == '_'
    }
}

/// Checks a display name.
pub fn is_display_name_ok(name: &str) -> (r: bool)
    ensures
        r == display_name_ok(name@),
{
    let n = name.unicode_len();
    if n == 0 {
        return false;
    }
    let mut i: usize = 0;
    while i < n
        invariant
            n == name@.len(),
            i <= n,
            forall|j: int| 0 <= j < i ==> {
                let c = #[trigger] name@[j];
                crate::text::is_ascii_alnum(c) || c == '-' || c == '_'
            },
        decreases n - i,
    {
        let c = name.get_char(i);
        if !(('0' <= c && c <= '9') || ('a' <= c && c <= 'z') || ('A' <= c && c <= 'Z') || c == '-' || c == '_') {
            return false;
        }
        i = i + 1;
    }
    true
}

/// The environment part of the Wayland check: the session type must be
/// `wayland` and the display a plain socket name; whether that socket exists
/// is checked on the file system afterwards.
pub fn check_wayland_environment(session_type: Option<&str>, display: Option<&str>) -> (r: Result<(), Failure>)
    ensures
        r is Ok <==> (session_type matches Some(t) && t@ == "wayland"@
            && (display matches Some(d) && display_name_ok(d@))),
        r matches Err(f) ==> f.code@ == "WAYLAND_SESSION_REQUIRED"@ && f.stage@ == "preflight"@,
{
    let wayland = match session_type {
        Some(t) => str_eq(t, "wayland"),
        None => false,
    };
    let display_ok = match display {
        Some(d) => is_display_name_ok(d),
        None => false,
    };
    if !wayland || !display_ok {
        return Err(Failure::new("WAYLAND_SESSION_REQUIRED", "preflight"));
    }
    Ok(())
}

} // verus!
