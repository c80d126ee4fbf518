//! Laws of request frames across write attempts.

use vstd::prelude::*;
use crate::broker::json_text::{jfield, join, jstr, obj};
use crate::broker::request::{BrowserSessionBrokerRequestFrame, BrowserSessionExchange, built_frame, exchange_operation, request_members,
    request_text, semantic_fingerprint_of, target_members, args_members};
use crate::broker::protocol::is_command;
use crate::text::{decimal_digits, digit_char, is_ascii_digit};

verus! {

/// Every character of a decimal representation is a digit.
proof fn lemma_decimal_digits_are_digits(n: nat)
    ensures
        forall|i: int| 0 <= i < decimal_digits(n).len() ==> is_ascii_digit(#[trigger] decimal_digits(n)[i]),
        decimal_digits(n).len() >= 1,
        (decimal_digits(n).len() == 1) == (n < 10),
    decreases n,
{
    if n >= 10 {
        lemma_decimal_digits_are_digits(n / 10);
        let s = decimal_digits(n);
        assert forall|i: int| 0 <= i < s.len() implies is_ascii_digit(#[trigger] s[i]) by {
            if i < s.len() - 1 {
                assert(s[i] == decimal_digits(n / 10)[i]);
            }
        }
    }
}

/// Different numbers have different decimal representations.
proof fn lemma_decimal_digits_injective(a: nat, b: nat)
    requires
        decimal_digits(a) == decimal_digits(b),
    ensures
        a == b,
    decreases a,
{
    lemma_decimal_digits_are_digits(a);
    lemma_decimal_digits_are_digits(b);
    if a < 10 {
        assert(decimal_digits(a)[0] == digit_char(a));
        assert(decimal_digits(b)[0] == digit_char(b));
    } else {
        let da = decimal_digits(a);
        let db = decimal_digits(b);
        assert(da.last() == digit_char(a % 10));
        assert(db.last() == digit_char(b % 10));
        assert(da.drop_last() =~= decimal_digits(a / 10));
        assert(db.drop_last() =~= decimal_digits(b / 10));
        lemma_decimal_digits_injective(a / 10, b / 10);
    }
}

/// Joining two non-empty member lists puts one comma between them.
proof fn lemma_join_append(a: Seq<Seq<char>>, b: Seq<Seq<char>>)
    requires
        a.len() > 0,
        b.len() > 0,
    ensures
        join(a + b) == join(a) + seq![','] + join(b),
    decreases b.len(),
{
    if b.len() == 1 {
        assert((a + b).drop_last() =~= a);
        assert((a + b).last() == b[0]);
    } else {
        let b1 = b.drop_last();
        lemma_join_append(a, b1);
        assert((a + b).drop_last() =~= a + b1);
        assert((a + b).last() == b.last());
    }
}

/// Texts that differ only in two different digit strings, each followed by
/// the same text that starts with a comma, are different.
proof fn lemma_digits_in_context_differ(p: Seq<char>, d1: Seq<char>, d2: Seq<char>, q: Seq<char>)
    requires
        d1 != d2,
        forall|i: int| 0 <= i < d1.len() ==> is_ascii_digit(#[trigger] d1[i]),
        forall|i: int| 0 <= i < d2.len() ==> is_ascii_digit(#[trigger] d2[i]),
        q.len() > 0,
        q[0] == ',',
    ensures
        p + d1 + q != p + d2 + q,
{
    let t1 = p + d1 + q;
    let t2 = p + d2 + q;
    if d1.len() == d2.len() {
        let i = choose|i: int| 0 <= i < d1.len() && d1[i] != d2[i];
        assert(exists|i: int| 0 <= i < d1.len() && d1[i] != d2[i]) by {
            if !(exists|i: int| 0 <= i < d1.len() && d1[i] != d2[i]) {
                assert(d1 =~= d2);
            }
        }
        assert(t1[p.len() + i] == d1[i]);
        assert(t2[p.len() + i] == d2[i]);
    } else if d1.len() < d2.len() {
        assert(t1[(p.len() + d1.len()) as int] == ',');
        assert(t2[(p.len() + d1.len()) as int] == d2[d1.len() as int]);
    } else {
        assert(t2[(p.len() + d2.len()) as int] == ',');
        assert(t1[(p.len() + d2.len()) as int] == d1[d2.len() as int]);
    }
}

/// Two frames built for the same request, nonce and epoch with different
/// budgets carry the same operation, nonce, epoch and semantic fingerprint,
/// while their written texts differ: the broker sees the new budget of a
/// request it can still recognise.
pub proof fn lemma_rebuilt_frame_keeps_identity(
    c: BrowserSessionExchange,
    nonce: Seq<char>,
    epoch: Seq<char>,
    first_ms: u32,
    retry_ms: u32,
    first: BrowserSessionBrokerRequestFrame,
    retry: BrowserSessionBrokerRequestFrame,
)
    requires
        built_frame(first, c, nonce, epoch, first_ms),
        built_frame(retry, c, nonce, epoch, retry_ms),
        first_ms != retry_ms,
    ensures
        first.request.operation == retry.request.operation,
        first.request.request_nonce@ == retry.request.request_nonce@,
        first.request.broker_epoch@ == retry.request.broker_epoch@,
        first.request.semantic_fingerprint@ == retry.request.semantic_fingerprint@,
        first.text@ != retry.text@,
{
    let op = exchange_operation(c);
    let t = obj(target_members(c));
    let a = obj(args_members(c));
    let head = seq![
        jfield("kind"@, jstr("browser-session-request"@)),
        jfield("version"@, "1"@),
        jfield("operation"@, jstr(crate::broker::protocol::operation_name(op))),
        jfield("requestNonce"@, jstr(nonce)),
        jfield("brokerEpoch"@, jstr(epoch)),
    ];
    let tail = (if is_command(op) { seq![jfield("confirmed"@, "true"@)] } else { Seq::<Seq<char>>::empty() })
        + seq![jfield("target"@, t), jfield("args"@, a)];
    let key = jstr("remainingTimeoutMs"@) + seq![':'];
    let p = seq!['{'] + join(head) + seq![','] + key;
    let q = seq![','] + join(tail) + seq!['}'];
    assert forall|ms: u32| #![trigger decimal_digits(ms as nat)]
        request_text(c, nonce, epoch, Some(ms)) == p + decimal_digits(ms as nat) + q by {
        let f = seq![jfield("remainingTimeoutMs"@, decimal_digits(ms as nat))];
        assert(request_members(op, nonce, epoch, Some(ms), t, a) =~= head + (f + tail));
        lemma_join_append(f, tail);
        lemma_join_append(head, f + tail);
        assert(join(f) == f[0]);
        assert(request_text(c, nonce, epoch, Some(ms)) =~= p + decimal_digits(ms as nat) + q);
    }
    lemma_decimal_digits_are_digits(first_ms as nat);
    lemma_decimal_digits_are_digits(retry_ms as nat);
    if decimal_digits(first_ms as nat) == decimal_digits(retry_ms as nat) {
        lemma_decimal_digits_injective(first_ms as nat, retry_ms as nat);
    }
    assert(request_text(c, nonce, epoch, Some(first_ms)) == p + decimal_digits(first_ms as nat) + q);
    assert(request_text(c, nonce, epoch, Some(retry_ms)) == p + decimal_digits(retry_ms as nat) + q);
    lemma_digits_in_context_differ(p, decimal_digits(first_ms as nat), decimal_digits(retry_ms as nat), q);
}

} // verus!
