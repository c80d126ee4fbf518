//! The permitted argument set of the connectivity check and its output records.

use vstd::prelude::*;
use crate::text::{is_ascii_digit, str_eq};

verus! {

/// Version tag carried by every summary.
pub const CONTRACT_VERSION: &'static str = "linux-portal-eis-spike/v1";
/// Smallest accepted overall deadline in milliseconds.
pub const MINIMUM_TIMEOUT_MS: u32 = 10_000;
/// Largest accepted overall deadline in milliseconds.
pub const MAXIMUM_TIMEOUT_MS: u32 = 300_000;
/// Usage text printed for the help action.
pub const HELP: &'static str = "用法: ai-computer-toolkit-linux-portal-eis-spike --confirmed --allow-foreground --timeout-ms <10000..300000>";

/// Parameters of a run that passed the confirmation-first check.
#[derive(Clone, Copy, Debug, PartialEq, Eq)]
pub struct RunConfig {
    pub timeout_ms: u32,
}

/// Help output versus a real run; help never touches the session bus.
#[derive(Clone, Copy, Debug, PartialEq, Eq)]
pub enum CliAction {
    Help,
    Run(RunConfig),
}

/// A stable failure that carries neither caller strings nor infrastructure details.
#[derive(Clone, Copy, Debug, PartialEq, Eq)]
pub struct Failure {
    pub code: &'static str,
    pub stage: &'static str,
}

/// The code and stage of a failure, as character sequences.
pub open spec fn failure_view(f: Failure) -> (Seq<char>, Seq<char>) {
    (f.code@, f.stage@)
}

impl Failure {
    /// Builds a failure from its code and stage.
    pub fn new(code: &'static str, stage: &'static str) -> (r: Self)
        ensures
            r.code == code,
            r.stage == stage,
    {
        Failure { code, stage }
    }
}

/// Decimal value of a sequence of ASCII digits.
pub open spec fn decimal_value(s: Seq<char>) -> nat
    decreases s.len(),
{
    if s.len() == 0 {
        0
    } else {
        decimal_value(s.drop_last()) * 10 + ((s.last() as nat) - ('0' as nat)) as nat
    }
}

/// Whether every character of `s` is an ASCII digit.
pub open spec fn all_digits(s: Seq<char>) -> bool {
    forall|i: int| 0 <= i < s.len() ==> is_ascii_digit(#[trigger] s[i])
}

/// What `u32::from_str` accepts: an optional `+`, then at least one decimal digit,
/// with a value that fits in 32 bits.
pub open spec fn parse_u32_spec(s: Seq<char>) -> Option<u32> {
    let d = if s.len() > 0 && s[0] == '+' { s.drop_first() } else { s };
    if d.len() > 0 && all_digits(d) && decimal_value(d) <= u32::MAX {
        Some(decimal_value(d) as u32)
    } else {
        None
    }
}

proof fn lemma_decimal_prefix_le(s: Seq<char>, k: int)
    requires
        0 <= k <= s.len(),
        all_digits(s),
    ensures
        decimal_value(s.take(k)) <= decimal_value(s),
    decreases s.len(),
{
    if k < s.len() {
        let t = s.drop_last();
        assert(t.take(k) =~= s.take(k));
        assert(all_digits(t));
        lemma_decimal_prefix_le(t, k);
        assert(is_ascii_digit(s[s.len() - 1]));
    } else {
        assert(s.take(k) =~= s);
    }
}

/// Parses a decimal `u32` the way `str::parse::<u32>` does.
pub fn parse_u32(s: &str) -> (r: Option<u32>)
    ensures
        r == parse_u32_spec(s@),
{
    let n = s.unicode_len();
    let mut start: usize = 0;
    if n > 0 && s.get_char(0) == '+' {
        start = 1;
    }
    let ghost d = if s@.len() > 0 && s@[0] == '+' { s@.drop_first() } else { s@ };
    assert(d =~= s@.subrange(start as int, n as int));
    if start >= n {
        return None;
    }
    let mut acc: u64 = 0;
    let mut i: usize = start;
    while i < n
        invariant
            n == s@.len(),
            start <= i <= n,
            start < n,
            d == (if s@.len() > 0 && s@[0] == '+' { s@.drop_first() } else { s@ }),
            d =~= s@.subrange(start as int, n as int),
            all_digits(d.take(i - start)),
            acc == decimal_value(d.take(i - start)),
            acc <= u32::MAX,
        decreases n - i,
    {
        let c = s.get_char(i);
        if c < '0' || c > '9' {
            assert(!all_digits(d)) by {
                assert(d[i - start] == c);
            }
            return None;
        }
        let digit = (c as u32 - '0' as u32) as u64;
        let next = acc * 10 + digit;
        proof {
            let p = d.take(i - start + 1);
            assert(p.drop_last() =~= d.take(i - start));
            assert(p.last() == c);
            assert(all_digits(p)) by {
                assert forall|j: int| 0 <= j < p.len() implies is_ascii_digit(#[trigger] p[j]) by {
                    if j < p.len() - 1 {
                        assert(p[j] == d.take(i - start)[j]);
                    }
                }
            }
        }
        if next > u32::MAX as u64 {
            proof {
                let p = d.take(i - start + 1);
                if all_digits(d) {
                    lemma_decimal_prefix_le(d, i - start + 1);
                }
            }
            return None;
        }
        acc = next;
        i = i + 1;
    }
    assert(d.take(n - start) =~= d);
    Some(acc as u32)
}

/// The flags seen so far while scanning the argument list.
pub struct ScanState {
    pub confirmed: bool,
    pub foreground: bool,
    pub timeout_ms: Option<u32>,
}

/// Scans the arguments from position `i`: each flag may appear once, and
/// `--timeout-ms` must be followed by a value inside the permitted range.
/// `None` means the argument list is not in the permitted set.
pub open spec fn scan(args: Seq<Seq<char>>, i: int, st: ScanState) -> Option<ScanState>
    decreases args.len() - i,
{
    if i < 0 || i >= args.len() {
        Some(st)
    } else if args[i] == "--confirmed"@ && !st.confirmed {
        scan(args, i + 1, ScanState { confirmed: true, ..st })
    } else if args[i] == "--allow-foreground"@ && !st.foreground {
        scan(args, i + 1, ScanState { foreground: true, ..st })
    } else if args[i] == "--timeout-ms"@ && st.timeout_ms is None {
        if i + 1 < args.len() && parse_u32_spec(args[i + 1]) is Some
            && MINIMUM_TIMEOUT_MS <= parse_u32_spec(args[i + 1])->0
            && parse_u32_spec(args[i + 1])->0 <= MAXIMUM_TIMEOUT_MS {
            scan(args, i + 2, ScanState { timeout_ms: parse_u32_spec(args[i + 1]), ..st })
        } else {
            None
        }
    } else {
        None
    }
}

proof fn lemma_scan_facts(args: Seq<Seq<char>>, i: int, st: ScanState)
    requires
        0 <= i <= args.len(),
        scan(args, i, st) is Some,
    ensures
        scan(args, i, st)->0.timeout_ms matches Some(t) ==> (st.timeout_ms == Some(t)
            || exists|j: int| i <= j && j + 1 < args.len() && #[trigger] args[j] == "--timeout-ms"@
                && parse_u32_spec(args[j + 1]) == Some(t) && 10_000 <= t <= 300_000),
        scan(args, i, st)->0.confirmed ==> (st.confirmed
            || exists|j: int| i <= j < args.len() && #[trigger] args[j] == "--confirmed"@),
        scan(args, i, st)->0.foreground ==> (st.foreground
            || exists|j: int| i <= j < args.len() && #[trigger] args[j] == "--allow-foreground"@),
    decreases args.len() - i,
{
    if i < args.len() {
        if args[i] == "--confirmed"@ && !st.confirmed {
            lemma_scan_facts(args, i + 1, ScanState { confirmed: true, ..st });
        } else if args[i] == "--allow-foreground"@ && !st.foreground {
            lemma_scan_facts(args, i + 1, ScanState { foreground: true, ..st });
        } else if args[i] == "--timeout-ms"@ && st.timeout_ms is None {
            lemma_scan_facts(args, i + 2, ScanState { timeout_ms: parse_u32_spec(args[i + 1]), ..st });
        }
    }
}

/// A command line runs only when it carries `--confirmed`, `--allow-foreground`
/// and `--timeout-ms` followed by the run's deadline, which lies within
/// 10000..=300000 milliseconds.
pub proof fn lemma_cli_run_requirements(args: Seq<Seq<char>>)
    ensures
        cli_spec(args) matches Ok(CliAction::Run(c)) ==> {
            &&& 10_000 <= c.timeout_ms <= 300_000
            &&& exists|j: int| 0 <= j && j + 1 < args.len() && #[trigger] args[j] == "--timeout-ms"@
                && parse_u32_spec(args[j + 1]) == Some(c.timeout_ms)
            &&& exists|j: int| 0 <= j < args.len() && #[trigger] args[j] == "--confirmed"@
            &&& exists|j: int| 0 <= j < args.len() && #[trigger] args[j] == "--allow-foreground"@
        },
{
    let init = ScanState { confirmed: false, foreground: false, timeout_ms: None };
    if !(args == seq!["--help"@] || args == seq!["-h"@]) && scan(args, 0, init) is Some {
        lemma_scan_facts(args, 0, init);
    }
}

/// The views of an argument list.
pub open spec fn arg_views(args: Seq<&str>) -> Seq<Seq<char>> {
    args.map_values(|a: &str| a@)
}

/// What the command line means: help, a confirmed run, or the first failed check.
pub open spec fn cli_spec(args: Seq<Seq<char>>) -> Result<CliAction, (Seq<char>, Seq<char>)> {
    if args == seq!["--help"@] || args == seq!["-h"@] {
        Ok(CliAction::Help)
    } else {
        match scan(args, 0, ScanState { confirmed: false, foreground: false, timeout_ms: None }) {
            None => Err(("INVALID_ARGUMENT"@, "preflight"@)),
            Some(st) => if !st.confirmed {
                Err(("CONFIRMATION_REQUIRED"@, "preflight"@))
            } else if !st.foreground {
                Err(("FOREGROUND_CONSENT_REQUIRED"@, "preflight"@))
            } else if st.timeout_ms is None {
                Err(("INVALID_ARGUMENT"@, "preflight"@))
            } else {
                Ok(CliAction::Run(RunConfig { timeout_ms: st.timeout_ms->0 }))
            },
        }
    }
}

/// The result of `parse_cli` with failures taken by their views.
pub open spec fn cli_result_view(r: Result<CliAction, Failure>) -> Result<CliAction, (Seq<char>, Seq<char>)> {
    match r {
        Ok(a) => Ok(a),
        Err(f) => Err(failure_view(f)),
    }
}

fn is_single(args: &[&str], flag: &str) -> (r: bool)
    ensures
        r == (arg_views(args@) == seq![flag@]),
{
    let ghost v = arg_views(args@);
    if args.len() != 1 {
        assert(v.len() != 1);
        return false;
    }
    let r = str_eq(args[0], flag);
    assert(v[0] == args@[0]@);
    if r {
        assert(v =~= seq![flag@]);
    } else {
        assert(v[0] != seq![flag@][0]);
    }
    r
}

/// Parses the strict argument set; a missing permission fails before any
/// infrastructure is touched.
pub fn parse_cli(args: &[&str]) -> (r: Result<CliAction, Failure>)
    ensures
        cli_result_view(r) == cli_spec(arg_views(args@)),
        r matches Ok(CliAction::Run(c)) ==> 10_000 <= c.timeout_ms <= 300_000,
{
    proof { lemma_cli_run_requirements(arg_views(args@)); }
    let ghost v = arg_views(args@);
    if is_single(args, "--help") || is_single(args, "-h") {
        return Ok(CliAction::Help);
    }
    let ghost init = ScanState { confirmed: false, foreground: false, timeout_ms: None };
    let mut confirmed = false;
    let mut foreground = false;
    let mut timeout_ms: Option<u32> = None;
    let mut index: usize = 0;
    let n = args.len();
    while index < n
        invariant
            n == args@.len(),
            v == arg_views(args@),
            v.len() == n,
            v != seq!["--help"@],
            v != seq!["-h"@],
            init == (ScanState { confirmed: false, foreground: false, timeout_ms: None }),
            index <= n,
            scan(v, 0, init) == scan(v, index as int, ScanState { confirmed, foreground, timeout_ms }),
        decreases n - index,
    {
        let a = args[index];
        assert(v[index as int] == a@);
        if str_eq(a, "--confirmed") && !confirmed {
            confirmed = true;
        } else if str_eq(a, "--allow-foreground") && !foreground {
            foreground = true;
        } else if str_eq(a, "--timeout-ms") && timeout_ms.is_none() {
            if index + 1 >= n {
                return Err(Failure::new("INVALID_ARGUMENT", "preflight"));
            }
            index = index + 1;
            assert(v[index as int] == args@[index as int]@);
            match parse_u32(args[index]) {
                Some(value) => {
                    if value < MINIMUM_TIMEOUT_MS || value > MAXIMUM_TIMEOUT_MS {
                        return Err(Failure::new("INVALID_ARGUMENT", "preflight"));
                    }
                    timeout_ms = Some(value);
                }
                None => {
                    return Err(Failure::new("INVALID_ARGUMENT", "preflight"));
                }
            }
        } else {
            return Err(Failure::new("INVALID_ARGUMENT", "preflight"));
        }
        index = index + 1;
    }
    if !confirmed {
        return Err(Failure::new("CONFIRMATION_REQUIRED", "preflight"));
    }
    if !foreground {
        return Err(Failure::new("FOREGROUND_CONSENT_REQUIRED", "preflight"));
    }
    match timeout_ms {
        Some(t) => Ok(CliAction::Run(RunConfig { timeout_ms: t })),
        None => Err(Failure::new("INVALID_ARGUMENT", "preflight")),
    }
}

} // verus!

verus! {

/// The minimal facts that a verified portal and EIS run may publish.
#[derive(Clone, Debug, PartialEq, Eq)]
pub struct Verification {
    pub remote_desktop_version: u32,
    pub screen_cast_version: u32,
    pub authorized_device_classes: Vec<&'static str>,
    pub stream_count: usize,
    pub mapping_id_count: usize,
}

/// The success record; it carries no session, request, descriptor, node or
/// mapping identity.
#[derive(Clone, Debug, PartialEq, Eq)]
pub struct SuccessSummary {
    pub contract_version: &'static str,
    pub outcome: &'static str,
    pub remote_desktop_version: u32,
    pub screen_cast_version: u32,
    pub authorized_device_classes: Vec<&'static str>,
    pub stream_count: usize,
    pub mapping_id_count: usize,
    pub eis_handshake_complete: bool,
    pub pipe_wire_remote_obtained: bool,
    pub session_closed: bool,
    pub restore_token_retained: bool,
    pub input_events_sent: u32,
    pub pixels_consumed: u32,
}

/// The success record built from a verification: the verified facts, every
/// evidence flag set, no retained restore token and zero side effects.
pub open spec fn success_from_spec(v: Verification) -> SuccessSummary {
    SuccessSummary {
        contract_version: CONTRACT_VERSION,
        outcome: "verified",
        remote_desktop_version: v.remote_desktop_version,
        screen_cast_version: v.screen_cast_version,
        authorized_device_classes: v.authorized_device_classes,
        stream_count: v.stream_count,
        mapping_id_count: v.mapping_id_count,
        eis_handshake_complete: true,
        pipe_wire_remote_obtained: true,
        session_closed: true,
        restore_token_retained: false,
        input_events_sent: 0,
        pixels_consumed: 0,
    }
}

impl From<Verification> for SuccessSummary {
    fn from(value: Verification) -> (r: Self) {
        SuccessSummary {
            contract_version: CONTRACT_VERSION,
            outcome: "verified",
            remote_desktop_version: value.remote_desktop_version,
            screen_cast_version: value.screen_cast_version,
            authorized_device_classes: value.authorized_device_classes,
            stream_count: value.stream_count,
            mapping_id_count: value.mapping_id_count,
            eis_handshake_complete: true,
            pipe_wire_remote_obtained: true,
            session_closed: true,
            restore_token_retained: false,
            input_events_sent: 0,
            pixels_consumed: 0,
        }
    }
}

impl vstd::std_specs::convert::FromSpecImpl<Verification> for SuccessSummary {
    open spec fn obeys_from_spec() -> bool {
        true
    }

    open spec fn from_spec(v: Verification) -> SuccessSummary {
        success_from_spec(v)
    }
}

/// The failure record: only the stable stage, code and the session cleanup fact.
#[derive(Clone, Copy, Debug, PartialEq, Eq)]
pub struct FailureSummary {
    pub contract_version: &'static str,
    pub outcome: &'static str,
    pub code: &'static str,
    pub stage: &'static str,
    pub session_closed: bool,
    pub restore_token_retained: bool,
    pub input_events_sent: u32,
    pub pixels_consumed: u32,
}

impl FailureSummary {
    /// Projects a failure together with whether the session was confirmed closed.
    pub fn new(failure: Failure, session_closed: bool) -> (r: Self)
        ensures
            r.contract_version == CONTRACT_VERSION,
            r.outcome@ == "failed"@,
            r.code == failure.code,
            r.stage == failure.stage,
            r.session_closed == session_closed,
            !r.restore_token_retained,
            r.input_events_sent == 0,
            r.pixels_consumed == 0,
    {
        FailureSummary {
            contract_version: CONTRACT_VERSION,
            outcome: "failed",
            code: failure.code,
            stage: failure.stage,
            session_closed,
            restore_token_retained: false,
            input_events_sent: 0,
            pixels_consumed: 0,
        }
    }
}

} // verus!
