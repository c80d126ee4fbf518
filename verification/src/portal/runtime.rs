//! The user's runtime directory, `/run/user/` and the real user id read from
//! the process status text.

use vstd::prelude::*;
use crate::adapters::keys::{is_white, is_white_char, leading_white, lemma_leading_white_bound};
use crate::portal::contract::Failure;

verus! {

/// The length of the first line of `s`: the characters before the first newline.
pub open spec fn line_len(s: Seq<char>) -> nat
    decreases s.len(),
{
    if s.len() > 0 && s[0] != '\n' { 1 + line_len(s.drop_first()) } else { 0 }
}

/// The number of leading characters of `s` that are not white space.
pub open spec fn word_len(s: Seq<char>) -> nat
    decreases s.len(),
{
    if s.len() > 0 && !is_white(s[0]) { 1 + word_len(s.drop_first()) } else { 0 }
}

/// The first line of `s` holds no newline and ends at a newline or at the end.
pub proof fn lemma_line_len(s: Seq<char>)
    ensures
        line_len(s) <= s.len(),
        forall|i: int| 0 <= i < line_len(s) ==> #[trigger] s[i] != '\n',
        line_len(s) < s.len() ==> s[line_len(s) as int] == '\n',
    decreases s.len(),
{
    if s.len() > 0 && s[0] != '\n' {
        lemma_line_len(s.drop_first());
        assert forall|i: int| 0 <= i < line_len(s) implies #[trigger] s[i] != '\n' by {
            if i > 0 {
                assert(s[i] == s.drop_first()[i - 1]);
            }
        }
        if line_len(s) < s.len() {
            assert(s[line_len(s) as int] == s.drop_first()[line_len(s.drop_first()) as int]);
        }
    }
}

proof fn lemma_word_len(s: Seq<char>)
    ensures
        word_len(s) <= s.len(),
        forall|i: int| 0 <= i < word_len(s) ==> !is_white(#[trigger] s[i]),
        word_len(s) < s.len() ==> is_white(s[word_len(s) as int]),
    decreases s.len(),
{
    if s.len() > 0 && !is_white(s[0]) {
        lemma_word_len(s.drop_first());
        assert forall|i: int| 0 <= i < word_len(s) implies !is_white(#[trigger] s[i]) by {
            if i > 0 {
                assert(s[i] == s.drop_first()[i - 1]);
            }
        }
        if word_len(s) < s.len() {
            assert(s[word_len(s) as int] == s.drop_first()[word_len(s.drop_first()) as int]);
        }
    }
}

/// The prefix of the status line that holds the user ids.
pub open spec fn uid_label() -> Seq<char> {
    seq!['U', 'i', 'd', ':']
}

/// What follows `Uid:` on the first line of `s` that starts with it.
pub open spec fn uid_rest(s: Seq<char>) -> Option<Seq<char>>
    decreases s.len(),
{
    let n = line_len(s);
    let line = s.take(n as int);
    if n >= 4 && line.take(4) == uid_label() {
        Some(line.skip(4))
    } else if n < s.len() {
        proof { lemma_line_len(s); }
        uid_rest(s.skip(n + 1 as int))
    } else {
        None
    }
}

/// The first white-space separated word of `s`.
pub open spec fn first_word(s: Seq<char>) -> Seq<char> {
    let t = s.skip(leading_white(s) as int);
    t.take(word_len(t) as int)
}

/// Whether every character is an ASCII digit.
pub open spec fn all_digits(s: Seq<char>) -> bool {
    forall|i: int| 0 <= i < s.len() ==> crate::text::is_ascii_digit(#[trigger] s[i])
}

/// The runtime directory named by a process status text: `/run/user/` and the
/// first word after `Uid:`, which must be a non-empty run of ASCII digits.
pub open spec fn runtime_directory_spec(status: Seq<char>) -> Option<Seq<char>> {
    match uid_rest(status) {
        Some(rest) => {
            let uid = first_word(rest);
            if uid.len() > 0 && all_digits(uid) {
                Some(seq!['/', 'r', 'u', 'n', '/', 'u', 's', 'e', 'r', '/'] + uid)
            } else {
                None
            }
        },
        None => None,
    }
}

/// The runtime directory from the text of the process status; without a
/// usable real user id the identity is unavailable at `stage`.
pub fn runtime_directory_from_status(status: &str, stage: &'static str) -> (r: Result<String, Failure>)
    ensures
        match runtime_directory_spec(status@) {
            Some(p) => r matches Ok(d) && d@ == p,
            None => r matches Err(f) && f.code@ == "RUNTIME_IDENTITY_UNAVAILABLE"@ && f.stage == stage,
        },
{
    let ghost s = status@;
    let n = status.unicode_len();
    let mut i: usize = 0;
    assert(s.skip(0) =~= s);
    let mut found: Option<(usize, usize)> = None;
    let mut searching = true;
    while searching
        invariant
            n == s.len(),
            s == status@,
            i <= n,
            searching ==> found is None && uid_rest(s) == uid_rest(s.skip(i as int)),
            !searching ==> match found {
                Some(p) => p.0 <= p.1 <= n && uid_rest(s) == Some(s.subrange(p.0 as int, p.1 as int)),
                None => uid_rest(s) is None,
            },
        decreases n - i, if searching { 1int } else { 0int },
    {
        let ghost t = s.skip(i as int);
        proof { lemma_line_len(t); }
        let mut j: usize = i;
        while j < n && status.get_char(j) != '\n'
            invariant
                n == s.len(),
                s == status@,
                i <= j <= n,
                t == s.skip(i as int),
                forall|k: int| i <= k < j ==> s[k] != '\n',
            decreases n - j,
        {
            j = j + 1;
        }
        proof {
            if j - i < line_len(t) {
                assert(t[j - i] == s[j as int]);
            }
            if j - i > line_len(t) {
                assert(t[line_len(t) as int] == s[i + line_len(t)]);
            }
            assert(line_len(t) == j - i);
        }
        let labelled = j - i >= 4 && status.get_char(i) == 'U' && status.get_char(i + 1) == 'i'
            && status.get_char(i + 2) == 'd' && status.get_char(i + 3) == ':';
        proof {
            let line = t.take(line_len(t) as int);
            if j - i >= 4 {
                assert(line.take(4)[0] == s[i as int]);
                assert(line.take(4)[1] == s[i + 1]);
                assert(line.take(4)[2] == s[i + 2]);
                assert(line.take(4)[3] == s[i + 3]);
                if labelled {
                    assert(line.take(4) =~= uid_label());
                    assert(line.skip(4) =~= s.subrange(i + 4, j as int));
                } else {
                    assert(line.take(4) != uid_label());
                }
            }
        }
        if labelled {
            found = Some((i + 4, j));
            searching = false;
        } else if j < n {
            assert(t.skip(line_len(t) as int + 1) =~= s.skip(j + 1));
            i = j + 1;
        } else {
            searching = false;
        }
    }
    let (from, to) = match found {
        Some(p) => p,
        None => {
            return Err(Failure::new("RUNTIME_IDENTITY_UNAVAILABLE", stage));
        },
    };
    let ghost rest = s.subrange(from as int, to as int);
    proof { lemma_leading_white_bound(rest); }
    let mut a: usize = from;
    while a < to && is_white_char(status.get_char(a))
        invariant
            n == s.len(),
            s == status@,
            from <= a <= to <= n,
            rest == s.subrange(from as int, to as int),
            a - from <= leading_white(rest),
            leading_white(rest) <= rest.len(),
            forall|k: int| 0 <= k < leading_white(rest) ==> is_white(#[trigger] rest[k]),
            leading_white(rest) < rest.len() ==> !is_white(rest[leading_white(rest) as int]),
        decreases to - a,
    {
        assert(rest[a - from] == s[a as int]);
        a = a + 1;
    }
    proof {
        if a < to {
            assert(rest[a - from] == s[a as int]);
        }
        assert(a - from == leading_white(rest));
    }
    let ghost w = rest.skip(leading_white(rest) as int);
    proof { lemma_word_len(w); }
    let mut c: usize = a;
    while c < to && !is_white_char(status.get_char(c))
        invariant
            n == s.len(),
            s == status@,
            a <= c <= to <= n,
            w == s.subrange(a as int, to as int),
            forall|k: int| a <= k < c ==> !is_white(#[trigger] s[k]),
        decreases to - c,
    {
        c = c + 1;
    }
    assert(w =~= s.subrange(a as int, to as int));
    proof {
        if c - a < word_len(w) {
            assert(w[c - a] == s[c as int]);
        }
        if c - a > word_len(w) {
            assert(w[word_len(w) as int] == s[a + word_len(w)]);
        }
        assert(word_len(w) == c - a);
    }
    let ghost uid = s.subrange(a as int, c as int);
    assert(first_word(rest) =~= uid);
    if c == a {
        return Err(Failure::new("RUNTIME_IDENTITY_UNAVAILABLE", stage));
    }
    let mut out = crate::text::owned("/run/user/");
    proof { reveal_strlit("/run/user/"); }
    let ghost head = out@;
    let mut k: usize = a;
    while k < c
        invariant
            n == s.len(),
            s == status@,
            a <= k <= c <= n,
            uid == s.subrange(a as int, c as int),
            uid_rest(s) == Some(rest),
            first_word(rest) == uid,
            uid.len() > 0,
            head == seq!['/', 'r', 'u', 'n', '/', 'u', 's', 'e', 'r', '/'],
            out@ == head + s.subrange(a as int, k as int),
            forall|q: int| a <= q < k ==> crate::text::is_ascii_digit(#[trigger] s[q]),
        decreases c - k,
    {
        let ch = status.get_char(k);
        if !('0' <= ch && ch <= '9') {
            assert(uid[k - a] == s[k as int]);
            return Err(Failure::new("RUNTIME_IDENTITY_UNAVAILABLE", stage));
        }
        out.push(ch);
        assert(out@ =~= head + s.subrange(a as int, k + 1));
        k = k + 1;
    }
    assert(forall|q: int| 0 <= q < uid.len() ==> uid[q] == s[a + q]);
    Ok(out)
}

} // verus!
