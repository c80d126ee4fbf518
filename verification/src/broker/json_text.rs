//! Canonical JSON text for the broker's request frames: escaped strings,
//! `key:value` members and objects whose members keep their order.

use vstd::prelude::*;
use crate::opaque_id::hex_digit;

verus! {

/// The escaped form of one character inside a JSON string: quote and
/// backslash get a backslash, control characters become `\u00XX`.
pub open spec fn escape_char(c: char) -> Seq<char> {
    if c == '"' {
        seq!['\\', '"']
    } else if c == '\\' {
        seq!['\\', '\\']
    } else if (c as u32) < 0x20 {
        seq!['\\', 'u', '0', '0', hex_digit((c as u64) / 16), hex_digit((c as u64) % 16)]
    } else {
        seq![c]
    }
}

/// The escaped form of a character sequence.
pub open spec fn escape(s: Seq<char>) -> Seq<char>
    decreases s.len(),
{
    if s.len() == 0 {
        Seq::empty()
    } else {
        escape(s.drop_last()) + escape_char(s.last())
    }
}

/// A JSON string literal.
pub open spec fn jstr(s: Seq<char>) -> Seq<char> {
    seq!['"'] + escape(s) + seq!['"']
}

/// An object member `"key":value`, the value already in JSON text.
pub open spec fn jfield(key: Seq<char>, value: Seq<char>) -> Seq<char> {
    jstr(key) + seq![':'] + value
}

/// Members joined by commas.
pub open spec fn join(members: Seq<Seq<char>>) -> Seq<char>
    decreases members.len(),
{
    if members.len() == 0 {
        Seq::empty()
    } else if members.len() == 1 {
        members[0]
    } else {
        join(members.drop_last()) + seq![','] + members.last()
    }
}

/// A JSON object with the given members, in order.
pub open spec fn obj(members: Seq<Seq<char>>) -> Seq<char> {
    seq!['{'] + join(members) + seq!['}']
}

/// The JSON text of a boolean.
pub open spec fn jbool(b: bool) -> Seq<char> {
    if b { "true"@ } else { "false"@ }
}

/// Appends the escaped form of one character.
pub fn push_escaped_char(out: &mut String, c: char)
    ensures
        final(out)@ == old(out)@ + escape_char(c),
{
    if c == '"' {
        out.push('\\');
        out.push('"');
        assert(final(out)@ =~= old(out)@ + escape_char(c));
    } else if c == '\\' {
        out.push('\\');
        out.push('\\');
        assert(final(out)@ =~= old(out)@ + escape_char(c));
    } else if (c as u32) < 0x20 {
        let n = c as u64;
        out.push('\\');
        out.push('u');
        out.push('0');
        out.push('0');
        out.push(crate::opaque_id::hex_char(n / 16));
        out.push(crate::opaque_id::hex_char(n % 16));
        assert(final(out)@ =~= old(out)@ + escape_char(c));
    } else {
        out.push(c);
        assert(final(out)@ =~= old(out)@ + escape_char(c));
    }
}

/// Appends a JSON string literal.
pub fn push_jstr(out: &mut String, s: &str)
    ensures
        final(out)@ == old(out)@ + jstr(s@),
{
    let ghost start = out@;
    out.push('"');
    let n = s.unicode_len();
    let mut i: usize = 0;
    while i < n
        invariant
            n == s@.len(),
            i <= n,
            out@ == start + seq!['"'] + escape(s@.take(i as int)),
        decreases n - i,
    {
        let c = s.get_char(i);
        push_escaped_char(out, c);
        proof {
            assert(s@.take(i + 1).drop_last() =~= s@.take(i as int));
            assert(s@.take(i + 1).last() == c);
            assert(out@ =~= start + seq!['"'] + escape(s@.take(i + 1)));
        }
        i = i + 1;
    }
    out.push('"');
    assert(s@.take(n as int) =~= s@);
    assert(out@ =~= start + jstr(s@));
}

/// Builds an object member by member.
pub struct ObjectWriter {
    pub text: String,
    pub empty: bool,
    pub members: Ghost<Seq<Seq<char>>>,
}

impl ObjectWriter {
    /// Whether the text is the opening brace followed by the members so far.
    pub open spec fn wf(&self) -> bool {
        &&& self.text@ == seq!['{'] + join(self.members@)
        &&& self.empty == (self.members@.len() == 0)
    }

    /// An object with no members yet.
    pub fn new() -> (r: Self)
        ensures
            r.wf(),
            r.members@ == Seq::<Seq<char>>::empty(),
    {
        let mut text = String::new();
        text.push('{');
        let r = ObjectWriter { text, empty: true, members: Ghost(Seq::empty()) };
        assert(r.text@ =~= seq!['{'] + join(r.members@));
        r
    }

    /// Appends the separator a new member needs.
    fn open_member(&mut self)
        requires
            old(self).wf(),
        ensures
            final(self).members@ == old(self).members@,
            final(self).empty == old(self).empty,
            old(self).members@.len() == 0 ==> final(self).text@ == old(self).text@,
            old(self).members@.len() > 0 ==> final(self).text@ == old(self).text@ + seq![','],
    {
        if !self.empty {
            self.text.push(',');
        }
    }

    /// Adds `"key":value` with the value already in JSON text.
    pub fn raw(&mut self, key: &str, value: &str)
        requires
            old(self).wf(),
        ensures
            final(self).wf(),
            final(self).members@ == old(self).members@.push(jfield(key@, value@)),
    {
        let ghost m = self.members@;
        let ghost before = self.text@;
        self.open_member();
        push_jstr(&mut self.text, key);
        self.text.push(':');
        self.text.append(value);
        self.members = Ghost(m.push(jfield(key@, value@)));
        self.empty = false;
        proof {
            let nm = m.push(jfield(key@, value@));
            assert(nm.drop_last() =~= m);
            if m.len() == 0 {
                assert(join(nm) == nm[0]);
                assert(self.text@ =~= seq!['{'] + join(nm));
            } else {
                assert(self.text@ =~= seq!['{'] + join(nm));
            }
        }
    }

    /// Adds `"key":"value"` with the value escaped.
    pub fn string(&mut self, key: &str, value: &str)
        requires
            old(self).wf(),
        ensures
            final(self).wf(),
            final(self).members@ == old(self).members@.push(jfield(key@, jstr(value@))),
    {
        let mut v = String::new();
        push_jstr(&mut v, value);
        assert(v@ =~= jstr(value@));
        self.raw(key, v.as_str());
    }

    /// Adds a boolean member.
    pub fn boolean(&mut self, key: &str, value: bool)
        requires
            old(self).wf(),
        ensures
            final(self).wf(),
            final(self).members@ == old(self).members@.push(jfield(key@, jbool(value))),
    {
        proof {
            reveal_strlit("true");
            reveal_strlit("false");
        }
        if value {
            self.raw(key, "true");
        } else {
            self.raw(key, "false");
        }
    }

    /// Adds a non-negative integer member.
    pub fn number(&mut self, key: &str, value: u64)
        requires
            old(self).wf(),
        ensures
            final(self).wf(),
            final(self).members@ == old(self).members@.push(
                jfield(key@, crate::text::decimal_digits(value as nat)),
            ),
    {
        let mut v = String::new();
        crate::text::push_decimal(&mut v, value);
        assert(v@ =~= crate::text::decimal_digits(value as nat));
        self.raw(key, v.as_str());
    }

    /// Closes the object and returns its text.
    pub fn finish(self) -> (r: String)
        requires
            self.wf(),
        ensures
            r@ == obj(self.members@),
    {
        let mut t = self.text;
        t.push('}');
        assert(t@ =~= obj(self.members@));
        t
    }
}

} // verus!
