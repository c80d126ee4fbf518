//! Key names of the desktop adapter's key-press operation: trimming and ASCII
//! upper-casing of names, the virtual-key table, modifier keys, and chords
//! written as `+`-separated names.

use vstd::prelude::*;
use crate::app::error_codes::{DesktopAdapterErrorCode, desktop_adapter_error_code_text};
use crate::error::AppControlError;
use crate::text::str_eq;

verus! {

/// Whether `c` is white space as `char::is_whitespace` defines it (the
/// Unicode `White_Space` property).
pub open spec fn is_white(c: char) -> bool {
    ||| ('\t' <= c && c <= '\r')
    ||| c == ' '
    ||| c == '\u{85}'
    ||| c == '\u{a0}'
    ||| c == '\u{1680}'
    ||| ('\u{2000}' <= c && c <= '\u{200a}')
    ||| c == '\u{2028}'
    ||| c == '\u{2029}'
    ||| c == '\u{202f}'
    ||| c == '\u{205f}'
    ||| c == '\u{3000}'
}

/// Whether `c` is white space.
pub fn is_white_char(c: char) -> (r: bool)
    ensures
        r == is_white(c),
{
    ('\t' <= c && c <= '\r') || c == ' ' || c == '\u{85}' || c == '\u{a0}' || c == '\u{1680}'
        || ('\u{2000}' <= c && c <= '\u{200a}') || c == '\u{2028}' || c == '\u{2029}' || c == '\u{202f}'
        || c == '\u{205f}' || c == '\u{3000}'
}

/// The number of leading white-space characters.
pub open spec fn leading_white(s: Seq<char>) -> nat
    decreases s.len(),
{
    if s.len() > 0 && is_white(s[0]) { 1 + leading_white(s.drop_first()) } else { 0 }
}

/// The number of trailing white-space characters.
pub open spec fn trailing_white(s: Seq<char>) -> nat
    decreases s.len(),
{
    if s.len() > 0 && is_white(s.last()) { 1 + trailing_white(s.drop_last()) } else { 0 }
}

/// `s` without leading and trailing white space (`str::trim`).
pub open spec fn trim(s: Seq<char>) -> Seq<char> {
    let front = s.skip(leading_white(s) as int);
    front.take(front.len() - trailing_white(front))
}

/// The ASCII upper-case form of a character.
pub open spec fn ascii_upper(c: char) -> char {
    if 'a' <= c && c <= 'z' { ((c as u32) - 32) as char } else { c }
}

/// The ASCII upper-case form of text (`to_ascii_uppercase`).
pub open spec fn upper(s: Seq<char>) -> Seq<char> {
    s.map_values(|c: char| ascii_upper(c))
}

/// A key name as the table compares it.
pub open spec fn normalized(s: Seq<char>) -> Seq<char> {
    upper(trim(s))
}

pub(crate) proof fn lemma_leading_white_bound(s: Seq<char>)
    ensures
        leading_white(s) <= s.len(),
        forall|i: int| 0 <= i < leading_white(s) ==> is_white(#[trigger] s[i]),
        leading_white(s) < s.len() ==> !is_white(s[leading_white(s) as int]),
    decreases s.len(),
{
    if s.len() > 0 && is_white(s[0]) {
        lemma_leading_white_bound(s.drop_first());
        assert forall|i: int| 0 <= i < leading_white(s) implies is_white(#[trigger] s[i]) by {
            if i > 0 {
                assert(s[i] == s.drop_first()[i - 1]);
            }
        }
        if leading_white(s) < s.len() {
            assert(s[leading_white(s) as int] == s.drop_first()[leading_white(s.drop_first()) as int]);
        }
    }
}

proof fn lemma_trailing_white_bound(s: Seq<char>)
    ensures
        trailing_white(s) <= s.len(),
        forall|i: int| s.len() - trailing_white(s) <= i < s.len() ==> is_white(#[trigger] s[i]),
        trailing_white(s) < s.len() ==> !is_white(s[s.len() - 1 - trailing_white(s)]),
    decreases s.len(),
{
    if s.len() > 0 && is_white(s.last()) {
        lemma_trailing_white_bound(s.drop_last());
        assert forall|i: int| s.len() - trailing_white(s) <= i < s.len() implies is_white(#[trigger] s[i]) by {
            if i < s.len() - 1 {
                assert(s[i] == s.drop_last()[i]);
            }
        }
        if trailing_white(s) < s.len() {
            let j = s.len() - 1 - trailing_white(s);
            assert(s[j] == s.drop_last()[j]);
        }
    }
}

/// `str::trim` of a character sequence given as a string slice.
pub fn trim_text(s: &str) -> (r: String)
    ensures
        r@ == trim(s@),
{
    let n = s.unicode_len();
    let mut start: usize = 0;
    proof { lemma_leading_white_bound(s@); }
    while start < n && is_white_char(s.get_char(start))
        invariant
            n == s@.len(),
            start <= leading_white(s@),
            leading_white(s@) <= n,
            forall|i: int| 0 <= i < leading_white(s@) ==> is_white(#[trigger] s@[i]),
            leading_white(s@) < n ==> !is_white(s@[leading_white(s@) as int]),
        decreases n - start,
    {
        start = start + 1;
    }
    assert(start == leading_white(s@));
    let ghost front = s@.skip(start as int);
    proof { lemma_trailing_white_bound(front); }
    let mut end: usize = n;
    while end > start && is_white_char(s.get_char(end - 1))
        invariant
            n == s@.len(),
            start <= end <= n,
            start == leading_white(s@),
            front == s@.skip(start as int),
            n - end <= trailing_white(front),
            trailing_white(front) <= front.len(),
            forall|i: int| front.len() - trailing_white(front) <= i < front.len() ==> is_white(#[trigger] front[i]),
            trailing_white(front) < front.len() ==> !is_white(front[front.len() - 1 - trailing_white(front)]),
        decreases end,
    {
        assert(s@[end - 1] == front[end - 1 - start]);
        end = end - 1;
    }
    proof {
        if end > start {
            assert(s@[end - 1] == front[end - 1 - start]);
        }
        assert(n - end == trailing_white(front));
    }
    let mut out = String::new();
    let mut i: usize = start;
    while i < end
        invariant
            n == s@.len(),
            start <= i <= end <= n,
            out@ == s@.subrange(start as int, i as int),
        decreases end - i,
    {
        out.push(s.get_char(i));
        assert(out@ =~= s@.subrange(start as int, i + 1));
        i = i + 1;
    }
    assert(out@ =~= front.take(front.len() - trailing_white(front)));
    out
}

/// `to_ascii_uppercase`.
pub fn upper_text(s: &str) -> (r: String)
    ensures
        r@ == upper(s@),
{
    let n = s.unicode_len();
    let mut out = String::new();
    let mut i: usize = 0;
    while i < n
        invariant
            n == s@.len(),
            i <= n,
            out@ == upper(s@.take(i as int)),
        decreases n - i,
    {
        let c = s.get_char(i);
        let u = if 'a' <= c && c <= 'z' { ((c as u32) - 32) as u8 as char } else { c };
        assert(u == ascii_upper(c)) by {
            if 'a' <= c && c <= 'z' {
                assert(((c as u32) - 32) < 256);
            }
        }
        out.push(u);
        assert(out@ =~= upper(s@.take(i + 1)));
        i = i + 1;
    }
    assert(s@.take(n as int) =~= s@);
    out
}

/// The virtual-key code of a named key, by its normalized name: the named keys
/// of the table, or a single ASCII character as itself.
pub open spec fn named_key_spec(name: Seq<char>) -> Option<u16> {
    let n = normalized(name);
    if n == "ENTER"@ || n == "RETURN"@ { Some(0x0Du16) }
    else if n == "TAB"@ { Some(0x09u16) }
    else if n == "ESC"@ || n == "ESCAPE"@ { Some(0x1Bu16) }
    else if n == "BACKSPACE"@ || n == "BACK"@ { Some(0x08u16) }
    else if n == "DELETE"@ || n == "DEL"@ { Some(0x2Eu16) }
    else if n == "SPACE"@ { Some(0x20u16) }
    else if n == "LEFT"@ { Some(0x25u16) }
    else if n == "UP"@ { Some(0x26u16) }
    else if n == "RIGHT"@ { Some(0x27u16) }
    else if n == "DOWN"@ { Some(0x28u16) }
    else if n == "HOME"@ { Some(0x24u16) }
    else if n == "END"@ { Some(0x23u16) }
    else if n == "F4"@ { Some(0x73u16) }
    else if n.len() == 1 && (n[0] as u32) < 128 { Some(n[0] as u16) }
    else { None }
}

/// The virtual-key code of a modifier name.
pub open spec fn modifier_key_spec(name: Seq<char>) -> Option<u16> {
    let n = normalized(name);
    if n == "CTRL"@ || n == "CONTROL"@ { Some(0x11u16) }
    else if n == "ALT"@ { Some(0x12u16) }
    else if n == "SHIFT"@ { Some(0x10u16) }
    else { None }
}

/// The message of an unsupported key name.
pub open spec fn named_key_message() -> Seq<char> {
    "args.key 支持单个 ASCII 字符或 ENTER、TAB、ESC、BACKSPACE、DELETE、SPACE、方向键、HOME、END。"@
}

/// The virtual-key code of a named key.
pub fn named_key(name: &str) -> (r: Result<u16, AppControlError>)
    ensures
        normalized(name@) == "ENTER"@ ==> r == Ok::<u16, AppControlError>(0x0Du16),
        normalized(name@) == "RETURN"@ ==> r == Ok::<u16, AppControlError>(0x0Du16),
        normalized(name@) == "TAB"@ ==> r == Ok::<u16, AppControlError>(0x09u16),
        normalized(name@) == "ESC"@ ==> r == Ok::<u16, AppControlError>(0x1Bu16),
        normalized(name@) == "ESCAPE"@ ==> r == Ok::<u16, AppControlError>(0x1Bu16),
        normalized(name@) == "BACKSPACE"@ ==> r == Ok::<u16, AppControlError>(0x08u16),
        normalized(name@) == "BACK"@ ==> r == Ok::<u16, AppControlError>(0x08u16),
        normalized(name@) == "DELETE"@ ==> r == Ok::<u16, AppControlError>(0x2Eu16),
        normalized(name@) == "DEL"@ ==> r == Ok::<u16, AppControlError>(0x2Eu16),
        normalized(name@) == "SPACE"@ ==> r == Ok::<u16, AppControlError>(0x20u16),
        normalized(name@) == "LEFT"@ ==> r == Ok::<u16, AppControlError>(0x25u16),
        normalized(name@) == "UP"@ ==> r == Ok::<u16, AppControlError>(0x26u16),
        normalized(name@) == "RIGHT"@ ==> r == Ok::<u16, AppControlError>(0x27u16),
        normalized(name@) == "DOWN"@ ==> r == Ok::<u16, AppControlError>(0x28u16),
        normalized(name@) == "HOME"@ ==> r == Ok::<u16, AppControlError>(0x24u16),
        normalized(name@) == "END"@ ==> r == Ok::<u16, AppControlError>(0x23u16),
        normalized(name@) == "F4"@ ==> r == Ok::<u16, AppControlError>(0x73u16),
        normalized(name@).len() == 1 && (normalized(name@)[0] as u32) < 128
            ==> r == Ok::<u16, AppControlError>(normalized(name@)[0] as u16),
        normalized(name@).len() == 1 && (normalized(name@)[0] as u32) >= 128 ==> r is Err,
        match named_key_spec(name@) {
            Some(k) => r == Ok::<u16, AppControlError>(k),
            None => r matches Err(e) && e.code@ == "INVALID_ARGUMENT"@ && e.message@ == named_key_message(),
        },
{
    let t = trim_text(name);
    let u = upper_text(t.as_str());
    let n = u.as_str();
    proof {
        lemma_key_name_facts();
        reveal_strlit("ENTER"); reveal_strlit("RETURN"); reveal_strlit("TAB"); reveal_strlit("ESC");
        reveal_strlit("ESCAPE"); reveal_strlit("BACKSPACE"); reveal_strlit("BACK"); reveal_strlit("DELETE");
        reveal_strlit("DEL"); reveal_strlit("SPACE"); reveal_strlit("LEFT"); reveal_strlit("UP");
        reveal_strlit("RIGHT"); reveal_strlit("DOWN"); reveal_strlit("HOME"); reveal_strlit("END");
        reveal_strlit("F4"); reveal_strlit("INVALID_ARGUMENT");
    }
    if str_eq(n, "ENTER") || str_eq(n, "RETURN") { return Ok(0x0D); }
    if str_eq(n, "TAB") { return Ok(0x09); }
    if str_eq(n, "ESC") || str_eq(n, "ESCAPE") { return Ok(0x1B); }
    if str_eq(n, "BACKSPACE") || str_eq(n, "BACK") { return Ok(0x08); }
    if str_eq(n, "DELETE") || str_eq(n, "DEL") { return Ok(0x2E); }
    if str_eq(n, "SPACE") { return Ok(0x20); }
    if str_eq(n, "LEFT") { return Ok(0x25); }
    if str_eq(n, "UP") { return Ok(0x26); }
    if str_eq(n, "RIGHT") { return Ok(0x27); }
    if str_eq(n, "DOWN") { return Ok(0x28); }
    if str_eq(n, "HOME") { return Ok(0x24); }
    if str_eq(n, "END") { return Ok(0x23); }
    if str_eq(n, "F4") { return Ok(0x73); }
    if n.unicode_len() == 1 {
        let c = n.get_char(0);
        if (c as u32) < 128 {
            return Ok(c as u32 as u16);
        }
    }
    Err(DesktopAdapterErrorCode::InvalidArgument.error(
        "args.key 支持单个 ASCII 字符或 ENTER、TAB、ESC、BACKSPACE、DELETE、SPACE、方向键、HOME、END。",
    ))
}

/// The lengths and first two characters of the key table's names, which
/// tell every two of them apart.
proof fn lemma_key_name_facts()
    ensures
        "ENTER"@.len() == 5 && "ENTER"@[0] == 'E' && "ENTER"@[1] == 'N',
        "RETURN"@.len() == 6 && "RETURN"@[0] == 'R' && "RETURN"@[1] == 'E',
        "TAB"@.len() == 3 && "TAB"@[0] == 'T' && "TAB"@[1] == 'A',
        "ESC"@.len() == 3 && "ESC"@[0] == 'E' && "ESC"@[1] == 'S',
        "ESCAPE"@.len() == 6 && "ESCAPE"@[0] == 'E' && "ESCAPE"@[1] == 'S',
        "BACKSPACE"@.len() == 9 && "BACKSPACE"@[0] == 'B' && "BACKSPACE"@[1] == 'A',
        "BACK"@.len() == 4 && "BACK"@[0] == 'B' && "BACK"@[1] == 'A',
        "DELETE"@.len() == 6 && "DELETE"@[0] == 'D' && "DELETE"@[1] == 'E',
        "DEL"@.len() == 3 && "DEL"@[0] == 'D' && "DEL"@[1] == 'E',
        "SPACE"@.len() == 5 && "SPACE"@[0] == 'S' && "SPACE"@[1] == 'P',
        "LEFT"@.len() == 4 && "LEFT"@[0] == 'L' && "LEFT"@[1] == 'E',
        "UP"@.len() == 2 && "UP"@[0] == 'U' && "UP"@[1] == 'P',
        "RIGHT"@.len() == 5 && "RIGHT"@[0] == 'R' && "RIGHT"@[1] == 'I',
        "DOWN"@.len() == 4 && "DOWN"@[0] == 'D' && "DOWN"@[1] == 'O',
        "HOME"@.len() == 4 && "HOME"@[0] == 'H' && "HOME"@[1] == 'O',
        "END"@.len() == 3 && "END"@[0] == 'E' && "END"@[1] == 'N',
        "F4"@.len() == 2 && "F4"@[0] == 'F' && "F4"@[1] == '4',
{
    reveal_strlit("ENTER");
    reveal_strlit("RETURN");
    reveal_strlit("TAB");
    reveal_strlit("ESC");
    reveal_strlit("ESCAPE");
    reveal_strlit("BACKSPACE");
    reveal_strlit("BACK");
    reveal_strlit("DELETE");
    reveal_strlit("DEL");
    reveal_strlit("SPACE");
    reveal_strlit("LEFT");
    reveal_strlit("UP");
    reveal_strlit("RIGHT");
    reveal_strlit("DOWN");
    reveal_strlit("HOME");
    reveal_strlit("END");
    reveal_strlit("F4");
}

/// The canonical name of a named key of the table: synonyms share one name.
pub open spec fn canonical_key_name(n: Seq<char>) -> Seq<char> {
    if n == "RETURN"@ { "ENTER"@ }
    else if n == "ESCAPE"@ { "ESC"@ }
    else if n == "BACK"@ { "BACKSPACE"@ }
    else if n == "DEL"@ { "DELETE"@ }
    else { n }
}

/// Whether `n` is a name of the key table (not a single character).
pub open spec fn is_table_key_name(n: Seq<char>) -> bool {
    ||| n == "ENTER"@ ||| n == "RETURN"@ ||| n == "TAB"@ ||| n == "ESC"@ ||| n == "ESCAPE"@
    ||| n == "BACKSPACE"@ ||| n == "BACK"@ ||| n == "DELETE"@ ||| n == "DEL"@ ||| n == "SPACE"@
    ||| n == "LEFT"@ ||| n == "UP"@ ||| n == "RIGHT"@ ||| n == "DOWN"@ ||| n == "HOME"@ ||| n == "END"@
    ||| n == "F4"@
}

/// Named keys give the Windows virtual-key codes: ENTER 0x0D, TAB 0x09, ESC
/// 0x1B, BACKSPACE 0x08, DELETE 0x2E, SPACE 0x20, LEFT 0x25, UP 0x26, RIGHT
/// 0x27, DOWN 0x28, HOME 0x24, END 0x23, F4 0x73, whatever the case and
/// surrounding white space; and two table names give the same code only when
/// they name the same key.
pub proof fn lemma_named_key_codes(a: Seq<char>, b: Seq<char>)
    ensures
        normalized(a) == "LEFT"@ ==> named_key_spec(a) == Some(0x25u16),
        normalized(a) == "UP"@ ==> named_key_spec(a) == Some(0x26u16),
        normalized(a) == "RIGHT"@ ==> named_key_spec(a) == Some(0x27u16),
        normalized(a) == "DOWN"@ ==> named_key_spec(a) == Some(0x28u16),
        normalized(a) == "HOME"@ ==> named_key_spec(a) == Some(0x24u16),
        normalized(a) == "END"@ ==> named_key_spec(a) == Some(0x23u16),
        normalized(a) == "ENTER"@ || normalized(a) == "RETURN"@ ==> named_key_spec(a) == Some(0x0Du16),
        normalized(a) == "TAB"@ ==> named_key_spec(a) == Some(0x09u16),
        normalized(a) == "ESC"@ || normalized(a) == "ESCAPE"@ ==> named_key_spec(a) == Some(0x1Bu16),
        normalized(a) == "BACKSPACE"@ || normalized(a) == "BACK"@ ==> named_key_spec(a) == Some(0x08u16),
        normalized(a) == "DELETE"@ || normalized(a) == "DEL"@ ==> named_key_spec(a) == Some(0x2Eu16),
        normalized(a) == "SPACE"@ ==> named_key_spec(a) == Some(0x20u16),
        normalized(a) == "F4"@ ==> named_key_spec(a) == Some(0x73u16),
        is_table_key_name(normalized(a)) && is_table_key_name(normalized(b))
            && named_key_spec(a) == named_key_spec(b)
            ==> canonical_key_name(normalized(a)) == canonical_key_name(normalized(b)),
{
    lemma_key_name_facts();
}

/// The message of an unsupported modifier name.
pub open spec fn modifier_key_message(name: Seq<char>) -> Seq<char> {
    "不支持的修饰键 '"@ + name + "'。"@
}

/// The virtual-key code of a modifier key.
pub fn modifier_key(name: &str) -> (r: Result<u16, AppControlError>)
    ensures
        normalized(name@) == "CTRL"@ || normalized(name@) == "CONTROL"@ ==> r == Ok::<u16, AppControlError>(0x11u16),
        normalized(name@) == "ALT"@ ==> r == Ok::<u16, AppControlError>(0x12u16),
        normalized(name@) == "SHIFT"@ ==> r == Ok::<u16, AppControlError>(0x10u16),
        match modifier_key_spec(name@) {
            Some(k) => r == Ok::<u16, AppControlError>(k),
            None => r matches Err(e) && e.code@ == "INVALID_ARGUMENT"@ && e.message@ == modifier_key_message(name@),
        },
{
    let t = trim_text(name);
    let u = upper_text(t.as_str());
    let n = u.as_str();
    proof {
        reveal_strlit("CTRL"); reveal_strlit("CONTROL"); reveal_strlit("ALT"); reveal_strlit("SHIFT");
        reveal_strlit("INVALID_ARGUMENT");
        assert("CTRL"@.len() == 4 && "CONTROL"@.len() == 7 && "ALT"@.len() == 3 && "SHIFT"@.len() == 5);
    }
    if str_eq(n, "CTRL") || str_eq(n, "CONTROL") { return Ok(0x11); }
    if str_eq(n, "ALT") { return Ok(0x12); }
    if str_eq(n, "SHIFT") { return Ok(0x10); }
    let mut message = crate::text::owned("不支持的修饰键 '");
    message.append(name);
    message.append("'。");
    Err(DesktopAdapterErrorCode::InvalidArgument.error(message.as_str()))
}

/// `s` split at every `+`.
pub open spec fn split_plus(s: Seq<char>) -> Seq<Seq<char>>
    decreases s.len(),
{
    if s.len() == 0 {
        seq![Seq::empty()]
    } else {
        let prev = split_plus(s.drop_last());
        if s.last() == '+' {
            prev.push(Seq::empty())
        } else {
            prev.update(prev.len() - 1, prev.last().push(s.last()))
        }
    }
}

proof fn lemma_split_plus_nonempty(s: Seq<char>)
    ensures
        split_plus(s).len() >= 1,
    decreases s.len(),
{
    if s.len() > 0 {
        lemma_split_plus_nonempty(s.drop_last());
    }
}

/// The parts of a `+`-separated chord.
pub fn split_chord(s: &str) -> (r: Vec<String>)
    ensures
        r@.len() == split_plus(s@).len(),
        forall|i: int| 0 <= i < r@.len() ==> #[trigger] r@[i]@ == split_plus(s@)[i],
{
    let n = s.unicode_len();
    let mut parts: Vec<String> = Vec::new();
    let mut current = String::new();
    let mut i: usize = 0;
    assert(s@.take(0) =~= Seq::<char>::empty());
    while i < n
        invariant
            n == s@.len(),
            i <= n,
            parts@.len() + 1 == split_plus(s@.take(i as int)).len(),
            forall|j: int| 0 <= j < parts@.len() ==> #[trigger] parts@[j]@ == split_plus(s@.take(i as int))[j],
            current@ == split_plus(s@.take(i as int)).last(),
        decreases n - i,
    {
        let c = s.get_char(i);
        proof {
            lemma_split_plus_nonempty(s@.take(i as int));
            assert(s@.take(i + 1).drop_last() =~= s@.take(i as int));
            assert(s@.take(i + 1).last() == c);
        }
        if c == '+' {
            let done = current;
            parts.push(done);
            current = String::new();
        } else {
            current.push(c);
        }
        i = i + 1;
    }
    parts.push(current);
    assert(s@.take(n as int) =~= s@);
    proof { lemma_split_plus_nonempty(s@); }
    parts
}

/// One keyboard stroke of a chord.
#[derive(Clone, Copy, Debug, PartialEq, Eq, Structural)]
pub struct KeyStroke {
    pub key: u16,
    pub release: bool,
}

/// The key of a leading chord part: a modifier, else a named key.
pub open spec fn modifier_part_key(part: Seq<char>) -> Option<u16> {
    match modifier_key_spec(part) {
        Some(k) => Some(k),
        None => named_key_spec(part),
    }
}

/// The keys of the leading chord parts, when each names a key.
pub open spec fn modifier_keys(parts: Seq<Seq<char>>) -> Option<Seq<u16>>
    decreases parts.len(),
{
    if parts.len() == 0 {
        Some(Seq::empty())
    } else {
        match (modifier_keys(parts.drop_last()), modifier_part_key(parts.last())) {
            (Some(ks), Some(k)) => Some(ks.push(k)),
            _ => None,
        }
    }
}

/// The keys of a chord, in pressing order: the leading parts as modifiers (or
/// keys) and the last part as a named key.
pub open spec fn chord_keys(parts: Seq<Seq<char>>) -> Option<Seq<u16>> {
    if parts.len() == 0 {
        None
    } else {
        match (modifier_keys(parts.drop_last()), named_key_spec(parts.last())) {
            (Some(ks), Some(k)) => Some(ks.push(k)),
            _ => None,
        }
    }
}

/// Once a prefix of the leading parts fails, every longer prefix fails.
proof fn lemma_modifier_keys_prefix_none(parts: Seq<Seq<char>>, i: int, n: int)
    requires
        0 <= i <= n,
        n <= parts.len(),
        modifier_keys(parts.take(i)) is None,
    ensures
        modifier_keys(parts.take(n)) is None,
    decreases n - i,
{
    if i < n {
        assert(parts.take(i + 1).drop_last() =~= parts.take(i));
        lemma_modifier_keys_prefix_none(parts, i + 1, n);
    }
}

/// The strokes of a chord: every key pressed in order, then released in
/// reverse order.
pub open spec fn chord_strokes(keys: Seq<u16>) -> Seq<KeyStroke> {
    Seq::new(keys.len(), |i: int| KeyStroke { key: keys[i], release: false })
        + Seq::new(keys.len(), |i: int| KeyStroke { key: keys[keys.len() - 1 - i], release: true })
}

/// The strokes of a `+`-separated chord. Each part is trimmed; the last part
/// is the key, the others are modifiers or keys.
pub fn chord_inputs(spec: &str) -> (r: Result<Vec<KeyStroke>, AppControlError>)
    ensures
        match chord_keys(split_plus(spec@).map_values(|p: Seq<char>| trim(p))) {
            Some(keys) => r matches Ok(v) && v@ == chord_strokes(keys),
            None => r matches Err(e) && e.code@ == "INVALID_ARGUMENT"@ && e.message@ == named_key_message(),
        },
{
    let raw = split_chord(spec);
    let ghost parts = split_plus(spec@).map_values(|p: Seq<char>| trim(p));
    proof { lemma_split_plus_nonempty(spec@); }
    let last = raw.len() - 1;
    let mut keys: Vec<u16> = Vec::new();
    let mut i: usize = 0;
    while i < last
        invariant
            raw@.len() == split_plus(spec@).len(),
            last + 1 == raw@.len(),
            forall|j: int| 0 <= j < raw@.len() ==> #[trigger] raw@[j]@ == split_plus(spec@)[j],
            parts == split_plus(spec@).map_values(|p: Seq<char>| trim(p)),
            i <= last,
            modifier_keys(parts.take(i as int)) == Some(keys@),
        decreases last - i,
    {
        let part = trim_text(raw[i].as_str());
        proof {
            assert(parts.take(i + 1).drop_last() =~= parts.take(i as int));
            assert(parts[i as int] == trim(split_plus(spec@)[i as int]));
        }
        let key = match modifier_key(part.as_str()) {
            Ok(k) => k,
            Err(_) => match named_key(part.as_str()) {
                Ok(k) => k,
                Err(e) => {
                    proof {
                        assert(modifier_keys(parts.take(i + 1)) is None);
                        lemma_modifier_keys_prefix_none(parts, i + 1, last as int);
                    }
                    return Err(e);
                },
            },
        };
        keys.push(key);
        i = i + 1;
    }
    let part = trim_text(raw[last].as_str());
    assert(parts[last as int] == trim(split_plus(spec@)[last as int]));
    assert(parts.drop_last() =~= parts.take(last as int));
    let key = match named_key(part.as_str()) {
        Ok(k) => k,
        Err(e) => { return Err(e); },
    };
    keys.push(key);
    let mut out: Vec<KeyStroke> = Vec::new();
    let mut j: usize = 0;
    while j < keys.len()
        invariant
            j <= keys@.len(),
            out@ == Seq::new(j as nat, |x: int| KeyStroke { key: keys@[x], release: false }),
        decreases keys@.len() - j,
    {
        out.push(KeyStroke { key: keys[j], release: false });
        assert(out@ =~= Seq::new((j + 1) as nat, |x: int| KeyStroke { key: keys@[x], release: false }));
        j = j + 1;
    }
    let mut k: usize = keys.len();
    while k > 0
        invariant
            k <= keys@.len(),
            out@ == Seq::new(keys@.len(), |x: int| KeyStroke { key: keys@[x], release: false })
                + Seq::new((keys@.len() - k) as nat, |x: int| KeyStroke { key: keys@[keys@.len() - 1 - x], release: true }),
        decreases k,
    {
        k = k - 1;
        out.push(KeyStroke { key: keys[k], release: true });
        assert(out@ =~= Seq::new(keys@.len(), |x: int| KeyStroke { key: keys@[x], release: false })
            + Seq::new((keys@.len() - k) as nat, |x: int| KeyStroke { key: keys@[keys@.len() - 1 - x], release: true }));
    }
    assert(out@ =~= chord_strokes(keys@));
    Ok(out)
}

} // verus!
