//! Versioned opaque target identities: `s2:<kind>:<16 lowercase hex digits>`,
//! where the digits are the FNV-1a 64-bit fingerprint of a private value.

use vstd::prelude::*;
use crate::text::{str_eq, str_starts_with};
use crate::portal::paths::char_str;
use vstd::string::StringSliceAdditionalSpecFns;

verus! {

/// FNV-1a offset basis.
pub const FNV_OFFSET: u64 = 0xcbf29ce484222325;
/// FNV-1a prime.
pub const FNV_PRIME: u64 = 0x100000001b3;

/// FNV-1a over a byte sequence.
pub open spec fn fnv1a(bytes: Seq<u8>) -> u64
    decreases bytes.len(),
{
    if bytes.len() == 0 {
        FNV_OFFSET
    } else {
        (fnv1a(bytes.drop_last()) ^ (bytes.last() as u64)).wrapping_mul(FNV_PRIME)
    }
}

/// Lowercase hexadecimal digit of a nibble.
pub open spec fn hex_digit(d: u64) -> char {
    if d < 10 { (('0' as u64) + d) as char } else { (('a' as u64) + d - 10) as char }
}

/// The nibble `i` (most significant first) of a 64-bit value.
pub open spec fn nibble(h: u64, i: int) -> u64 {
    (h >> ((60 - 4 * i) as u64)) & 15u64
}

/// Sixteen lowercase hexadecimal digits of a 64-bit value, most significant first.
pub open spec fn hex16(h: u64) -> Seq<char> {
    Seq::new(16, |i: int| hex_digit(nibble(h, i)))
}

/// Whether `c` is a lowercase hexadecimal digit.
pub open spec fn is_lower_hex(c: char) -> bool {
    ('0' <= c && c <= '9') || ('a' <= c && c <= 'f')
}

/// Kinds of opaque targets.
#[derive(Clone, Copy, Debug, PartialEq, Eq, Structural)]
pub enum OpaqueTargetKind {
    Window,
    Control,
    Process,
    Application,
    Host,
}

/// The one-letter code of a kind.
pub open spec fn kind_code(k: OpaqueTargetKind) -> char {
    match k {
        OpaqueTargetKind::Window => 'w',
        OpaqueTargetKind::Control => 'c',
        OpaqueTargetKind::Process => 'p',
        OpaqueTargetKind::Application => 'a',
        OpaqueTargetKind::Host => 'h',
    }
}

/// The identity of a kind and private value.
pub open spec fn opaque_id_spec(kind: OpaqueTargetKind, value: Seq<u8>) -> Seq<char> {
    "s2:"@ + seq![kind_code(kind)] + ":"@ + hex16(fnv1a(value))
}

/// The kind and fingerprint digits of a canonical identity string.
pub open spec fn parse_spec(id: Seq<char>) -> Option<OpaqueTargetKind> {
    if id.len() == 21 && id.subrange(0, 3) == "s2:"@ && id[4] == ':'
        && (forall|i: int| 5 <= i < 21 ==> is_lower_hex(#[trigger] id[i])) {
        if id[3] == 'w' {
            Some(OpaqueTargetKind::Window)
        } else if id[3] == 'c' {
            Some(OpaqueTargetKind::Control)
        } else if id[3] == 'p' {
            Some(OpaqueTargetKind::Process)
        } else if id[3] == 'a' {
            Some(OpaqueTargetKind::Application)
        } else if id[3] == 'h' {
            Some(OpaqueTargetKind::Host)
        } else {
            None
        }
    } else {
        None
    }
}

/// FNV-1a of a byte slice.
pub fn fnv1a_hash(bytes: &[u8]) -> (r: u64)
    ensures
        r == fnv1a(bytes@),
{
    let mut h: u64 = FNV_OFFSET;
    let mut i: usize = 0;
    while i < bytes.len()
        invariant
            i <= bytes@.len(),
            h == fnv1a(bytes@.take(i as int)),
        decreases bytes@.len() - i,
    {
        proof {
            assert(bytes@.take(i + 1).drop_last() =~= bytes@.take(i as int));
        }
        h = (h ^ (bytes[i] as u64)).wrapping_mul(FNV_PRIME);
        i = i + 1;
    }
    assert(bytes@.take(i as int) =~= bytes@);
    h
}

/// The hexadecimal digit character of a nibble.
pub fn hex_char(d: u64) -> (r: char)
    requires
        d < 16,
    ensures
        r == hex_digit(d),
{
    if d < 10 { (('0' as u8) + d as u8) as char } else { (('a' as u8) + (d as u8 - 10)) as char }
}

/// Appends the sixteen lowercase hexadecimal digits of `h`.
pub fn push_hex16(out: &mut String, h: u64)
    ensures
        final(out)@ == old(out)@ + hex16(h),
{
    let ghost start = out@;
    let mut i: usize = 0;
    while i < 16
        invariant
            i <= 16,
            out@ == start + hex16(h).take(i as int),
        decreases 16 - i,
    {
        let shift: u64 = 60 - 4 * (i as u64);
        let d = (h >> shift) & 15u64;
        assert(d < 16) by (bit_vector)
            requires d == (h >> shift) & 15u64;
        assert(d == nibble(h, i as int));
        let c = hex_char(d);
        out.append(char_str(c).as_str());
        assert(hex16(h).take(i + 1) =~= hex16(h).take(i as int).push(c));
        i = i + 1;
    }
    assert(hex16(h).take(16) =~= hex16(h));
}

impl OpaqueTargetKind {
    /// The one-letter code of the kind.
    pub fn code(self) -> (r: char)
        ensures
            r == kind_code(self),
    {
        match self {
            OpaqueTargetKind::Window => 'w',
            OpaqueTargetKind::Control => 'c',
            OpaqueTargetKind::Process => 'p',
            OpaqueTargetKind::Application => 'a',
            OpaqueTargetKind::Host => 'h',
        }
    }
}

/// The opaque identity of a private value of the given kind.
pub fn opaque_id(kind: OpaqueTargetKind, value: &str) -> (r: String)
    ensures
        r@ == opaque_id_spec(kind, value.spec_bytes()),
{
    let h = fnv1a_hash(value.as_bytes());
    let mut out = crate::text::owned("s2:");
    out.append(char_str(kind.code()).as_str());
    out.append(":");
    push_hex16(&mut out, h);
    out
}

/// Parses a canonical identity and returns its kind.
pub fn parse_kind(id: &str) -> (r: Option<OpaqueTargetKind>)
    ensures
        r == parse_spec(id@),
{
    let n = id.unicode_len();
    proof { reveal_strlit("s2:"); }
    if n != 21 || !str_starts_with(id, "s2:") || id.get_char(4) != ':' {
        return None;
    }
    let mut i: usize = 5;
    while i < 21
        invariant
            n == id@.len(),
            n == 21,
            id@.subrange(0, 3) == "s2:"@,
            id@[4] == ':',
            5 <= i <= 21,
            forall|j: int| 5 <= j < i ==> is_lower_hex(#[trigger] id@[j]),
        decreases 21 - i,
    {
        let c = id.get_char(i);
        if !(('0' <= c && c <= '9') || ('a' <= c && c <= 'f')) {
            return None;
        }
        i = i + 1;
    }
    let k = id.get_char(3);
    if k == 'w' {
        Some(OpaqueTargetKind::Window)
    } else if k == 'c' {
        Some(OpaqueTargetKind::Control)
    } else if k == 'p' {
        Some(OpaqueTargetKind::Process)
    } else if k == 'a' {
        Some(OpaqueTargetKind::Application)
    } else if k == 'h' {
        Some(OpaqueTargetKind::Host)
    } else {
        None
    }
}

/// Whether `id` has the canonical browser-session shape `s2:bs:` followed by
/// thirty-two lowercase hexadecimal digits.
pub open spec fn is_canonical_browser_session(id: Seq<char>) -> bool {
    &&& id.len() == 38
    &&& id.subrange(0, 6) == "s2:bs:"@
    &&& forall|i: int| 6 <= i < 38 ==> is_lower_hex(#[trigger] id[i])
}

/// Classifies a browser-session identity.
pub fn is_canonical_browser_session_id(id: &str) -> (r: bool)
    ensures
        r == is_canonical_browser_session(id@),
{
    let n = id.unicode_len();
    proof { reveal_strlit("s2:bs:"); }
    if n != 38 || !str_starts_with(id, "s2:bs:") {
        return false;
    }
    let mut i: usize = 6;
    while i < 38
        invariant
            n == id@.len(),
            n == 38,
            id@.subrange(0, 6) == "s2:bs:"@,
            6 <= i <= 38,
            forall|j: int| 6 <= j < i ==> is_lower_hex(#[trigger] id@[j]),
        decreases 38 - i,
    {
        let c = id.get_char(i);
        if !(('0' <= c && c <= '9') || ('a' <= c && c <= 'f')) {
            return false;
        }
        i = i + 1;
    }
    true
}

} // verus!
