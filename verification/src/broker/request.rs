//! The fields a broker request may carry, and the strict builder of the
//! request frame that is written to the broker.

use vstd::prelude::*;
use vstd::string::StringSliceAdditionalSpecFns;
use crate::broker::json_text::{ObjectWriter, jbool, jfield, jstr, obj};
use crate::broker::protocol::{BrowserSessionBrokerOperation, BrowserSessionBrokerProtocolFailure,
    MAXIMUM_TIMEOUT_MS, ProtocolFailureCode, is_command, is_token, is_token_text, operation_name};
use crate::opaque_id::{fnv1a, fnv1a_hash, hex16, push_hex16, is_canonical_browser_session,
    is_canonical_browser_session_id};
use crate::text::{decimal_digits, str_starts_with};

verus! {

/// A provider-neutral element selector: at least one of role, accessible
/// name or text, each non-empty when given, and whether matching is exact.
pub struct BrowserSemanticSelector {
    pub role: Option<String>,
    pub name: Option<String>,
    pub text: Option<String>,
    pub exact: bool,
}

/// A finite condition a page wait ends on.
pub enum BrowserWaitCondition {
    DocumentReady,
    ElementPresent(BrowserSemanticSelector),
    TextPresent(String),
}

/// The five commands and four queries that a broker exchange may carry.
pub enum BrowserSessionExchange<'a> {
    OpenConfirmed,
    CloseConfirmed(&'a str),
    SessionInspect(&'a str),
    NavigateConfirmed { session_id: &'a str, url: &'a str },
    Wait { session_id: &'a str, page_id: &'a str, condition: &'a BrowserWaitCondition },
    Query {
        session_id: &'a str,
        page_id: &'a str,
        selector: &'a BrowserSemanticSelector,
        max_results: u16,
    },
    ClickConfirmed { session_id: &'a str, page_id: &'a str, element_id: &'a str },
    TypeConfirmed {
        session_id: &'a str,
        page_id: &'a str,
        element_id: &'a str,
        text: &'a str,
        replace: bool,
    },
    Screenshot { session_id: &'a str, page_id: &'a str },
}

/// Largest number of results a page query may ask for.
pub const MAXIMUM_QUERY_RESULTS: u16 = 100;
/// Largest UTF-8 size of text typed into an element.
pub const MAXIMUM_TYPE_BYTES: usize = 16_384;

/// The operation an exchange performs.
pub open spec fn exchange_operation(c: BrowserSessionExchange) -> BrowserSessionBrokerOperation {
    match c {
        BrowserSessionExchange::OpenConfirmed => BrowserSessionBrokerOperation::SessionOpen,
        BrowserSessionExchange::CloseConfirmed(_) => BrowserSessionBrokerOperation::SessionClose,
        BrowserSessionExchange::SessionInspect(_) => BrowserSessionBrokerOperation::SessionInspect,
        BrowserSessionExchange::NavigateConfirmed { .. } => BrowserSessionBrokerOperation::PageNavigate,
        BrowserSessionExchange::Wait { .. } => BrowserSessionBrokerOperation::PageWait,
        BrowserSessionExchange::Query { .. } => BrowserSessionBrokerOperation::PageQuery,
        BrowserSessionExchange::ClickConfirmed { .. } => BrowserSessionBrokerOperation::ElementClick,
        BrowserSessionExchange::TypeConfirmed { .. } => BrowserSessionBrokerOperation::ElementType,
        BrowserSessionExchange::Screenshot { .. } => BrowserSessionBrokerOperation::PageScreenshot,
    }
}

/// Whether an optional selector field is absent or non-empty.
pub open spec fn optional_nonempty(v: Option<String>) -> bool {
    v matches Some(s) ==> s@.len() > 0
}

/// Whether a selector names at least one non-empty property.
pub open spec fn selector_ok(s: BrowserSemanticSelector) -> bool {
    &&& (s.role is Some || s.name is Some || s.text is Some)
    &&& optional_nonempty(s.role)
    &&& optional_nonempty(s.name)
    &&& optional_nonempty(s.text)
}

/// Whether a wait condition is well formed.
pub open spec fn condition_ok(c: BrowserWaitCondition) -> bool {
    match c {
        BrowserWaitCondition::DocumentReady => true,
        BrowserWaitCondition::ElementPresent(s) => selector_ok(s),
        BrowserWaitCondition::TextPresent(t) => t@.len() > 0,
    }
}

/// Whether a URL is an absolute HTTP or HTTPS URL.
pub open spec fn is_http_url(url: Seq<char>) -> bool {
    ||| (url.len() > 7 && url.subrange(0, 7) == "http://"@)
    ||| (url.len() > 8 && url.subrange(0, 8) == "https://"@)
}

/// The first problem of an exchange's targets or arguments, if any.
pub open spec fn exchange_failure(c: BrowserSessionExchange) -> Option<ProtocolFailureCode> {
    match c {
        BrowserSessionExchange::OpenConfirmed => None,
        BrowserSessionExchange::CloseConfirmed(s) | BrowserSessionExchange::SessionInspect(s) =>
            if is_canonical_browser_session(s@) { None } else { Some(ProtocolFailureCode::InvalidTarget) },
        BrowserSessionExchange::NavigateConfirmed { session_id, url } =>
            if !is_canonical_browser_session(session_id@) {
                Some(ProtocolFailureCode::InvalidTarget)
            } else if !is_http_url(url@) {
                Some(ProtocolFailureCode::InvalidArgument)
            } else {
                None
            },
        BrowserSessionExchange::Wait { session_id, page_id, condition } =>
            if !is_canonical_browser_session(session_id@) || page_id@.len() == 0 {
                Some(ProtocolFailureCode::InvalidTarget)
            } else if !condition_ok(*condition) {
                Some(ProtocolFailureCode::InvalidArgument)
            } else {
                None
            },
        BrowserSessionExchange::Query { session_id, page_id, selector, max_results } =>
            if !is_canonical_browser_session(session_id@) || page_id@.len() == 0 {
                Some(ProtocolFailureCode::InvalidTarget)
            } else if !selector_ok(*selector) || max_results < 1 || max_results > MAXIMUM_QUERY_RESULTS {
                Some(ProtocolFailureCode::InvalidArgument)
            } else {
                None
            },
        BrowserSessionExchange::ClickConfirmed { session_id, page_id, element_id } =>
            if !is_canonical_browser_session(session_id@) || page_id@.len() == 0 || element_id@.len() == 0 {
                Some(ProtocolFailureCode::InvalidTarget)
            } else {
                None
            },
        BrowserSessionExchange::TypeConfirmed { session_id, page_id, element_id, text, replace } =>
            if !is_canonical_browser_session(session_id@) || page_id@.len() == 0 || element_id@.len() == 0 {
                Some(ProtocolFailureCode::InvalidTarget)
            } else if text.len() < 1 || text.len() > MAXIMUM_TYPE_BYTES {
                Some(ProtocolFailureCode::InvalidArgument)
            } else {
                None
            },
        BrowserSessionExchange::Screenshot { session_id, page_id } =>
            if !is_canonical_browser_session(session_id@) || page_id@.len() == 0 {
                Some(ProtocolFailureCode::InvalidTarget)
            } else {
                None
            },
    }
}

/// The first problem of a whole request, if any: nonce, then epoch, then the
/// remaining budget, then the exchange's own fields.
pub open spec fn build_failure(c: BrowserSessionExchange, nonce: Seq<char>, epoch: Seq<char>, remaining_ms: u32)
    -> Option<ProtocolFailureCode>
{
    if !is_token(nonce) {
        Some(ProtocolFailureCode::InvalidRequestNonce)
    } else if !is_token(epoch) {
        Some(ProtocolFailureCode::InvalidBrokerEpoch)
    } else if remaining_ms < 1 || remaining_ms > MAXIMUM_TIMEOUT_MS {
        Some(ProtocolFailureCode::InvalidTimeout)
    } else {
        exchange_failure(c)
    }
}

/// The member for an optional string.
pub open spec fn optional_member(key: Seq<char>, v: Option<String>) -> Seq<Seq<char>> {
    match v {
        Some(s) => seq![jfield(key, jstr(s@))],
        None => Seq::empty(),
    }
}

/// The members of a selector object.
pub open spec fn selector_members(s: BrowserSemanticSelector) -> Seq<Seq<char>> {
    optional_member("role"@, s.role) + optional_member("name"@, s.name)
        + optional_member("text"@, s.text) + seq![jfield("exact"@, jbool(s.exact))]
}

/// The members of a wait-condition object.
pub open spec fn condition_members(c: BrowserWaitCondition) -> Seq<Seq<char>> {
    match c {
        BrowserWaitCondition::DocumentReady => seq![jfield("kind"@, jstr("document-ready"@))],
        BrowserWaitCondition::ElementPresent(s) => seq![
            jfield("kind"@, jstr("element-present"@)),
            jfield("selector"@, obj(selector_members(s))),
        ],
        BrowserWaitCondition::TextPresent(t) => seq![
            jfield("kind"@, jstr("text-present"@)),
            jfield("text"@, jstr(t@)),
        ],
    }
}

/// The members of an exchange's target object.
pub open spec fn target_members(c: BrowserSessionExchange) -> Seq<Seq<char>> {
    match c {
        BrowserSessionExchange::OpenConfirmed => Seq::empty(),
        BrowserSessionExchange::CloseConfirmed(s) | BrowserSessionExchange::SessionInspect(s) =>
            seq![jfield("sessionId"@, jstr(s@))],
        BrowserSessionExchange::NavigateConfirmed { session_id, .. } =>
            seq![jfield("sessionId"@, jstr(session_id@))],
        BrowserSessionExchange::Wait { session_id, page_id, .. }
        | BrowserSessionExchange::Query { session_id, page_id, .. }
        | BrowserSessionExchange::Screenshot { session_id, page_id } =>
            seq![jfield("sessionId"@, jstr(session_id@)), jfield("pageId"@, jstr(page_id@))],
        BrowserSessionExchange::ClickConfirmed { session_id, page_id, element_id }
        | BrowserSessionExchange::TypeConfirmed { session_id, page_id, element_id, .. } => seq![
            jfield("sessionId"@, jstr(session_id@)),
            jfield("pageId"@, jstr(page_id@)),
            jfield("elementId"@, jstr(element_id@)),
        ],
    }
}

/// The members of an exchange's argument object.
pub open spec fn args_members(c: BrowserSessionExchange) -> Seq<Seq<char>> {
    match c {
        BrowserSessionExchange::NavigateConfirmed { url, .. } => seq![jfield("url"@, jstr(url@))],
        BrowserSessionExchange::Wait { condition, .. } =>
            seq![jfield("condition"@, obj(condition_members(*condition)))],
        BrowserSessionExchange::Query { selector, max_results, .. } => seq![
            jfield("selector"@, obj(selector_members(*selector))),
            jfield("maxResults"@, decimal_digits(max_results as nat)),
        ],
        BrowserSessionExchange::TypeConfirmed { text, replace, .. } =>
            seq![jfield("text"@, jstr(text@)), jfield("replace"@, jbool(replace))],
        _ => Seq::empty(),
    }
}

/// The members of a request object. The remaining budget is given for the
/// frame that is written and left out of the semantic form that identifies
/// the request.
pub open spec fn request_members(
    op: BrowserSessionBrokerOperation,
    nonce: Seq<char>,
    epoch: Seq<char>,
    remaining_ms: Option<u32>,
    target: Seq<char>,
    args: Seq<char>,
) -> Seq<Seq<char>> {
    seq![
        jfield("kind"@, jstr("browser-session-request"@)),
        jfield("version"@, "1"@),
        jfield("operation"@, jstr(operation_name(op))),
        jfield("requestNonce"@, jstr(nonce)),
        jfield("brokerEpoch"@, jstr(epoch)),
    ] + (match remaining_ms {
        Some(ms) => seq![jfield("remainingTimeoutMs"@, decimal_digits(ms as nat))],
        None => Seq::empty(),
    }) + (if is_command(op) { seq![jfield("confirmed"@, "true"@)] } else { Seq::empty() })
        + seq![jfield("target"@, target), jfield("args"@, args)]
}

/// The text of an exchange's request, with or without the remaining budget.
pub open spec fn request_text(
    c: BrowserSessionExchange,
    nonce: Seq<char>,
    epoch: Seq<char>,
    remaining_ms: Option<u32>,
) -> Seq<char> {
    obj(request_members(
        exchange_operation(c),
        nonce,
        epoch,
        remaining_ms,
        obj(target_members(c)),
        obj(args_members(c)),
    ))
}

/// The fingerprint that identifies a request across rebuilt frames: the
/// FNV-1a hash of the UTF-8 bytes of its semantic text, in hexadecimal.
pub open spec fn semantic_fingerprint_of(c: BrowserSessionExchange, nonce: Seq<char>, epoch: Seq<char>)
    -> Seq<char>
{
    hex16(fnv1a(vstd::utf8::encode_utf8(request_text(c, nonce, epoch, None))))
}

/// A strictly built request.
pub struct BrowserSessionBrokerRequest {
    pub operation: BrowserSessionBrokerOperation,
    pub request_nonce: String,
    pub broker_epoch: String,
    pub remaining_timeout_ms: u32,
    pub semantic_fingerprint: String,
}

impl BrowserSessionBrokerRequest {
    /// The operation.
    pub fn operation(&self) -> (r: BrowserSessionBrokerOperation)
        ensures
            r == self.operation,
    {
        self.operation
    }

    /// The request nonce.
    pub fn request_nonce(&self) -> (r: &str)
        ensures
            r@ == self.request_nonce@,
    {
        self.request_nonce.as_str()
    }

    /// The broker epoch the request is bound to.
    pub fn broker_epoch(&self) -> (r: &str)
        ensures
            r@ == self.broker_epoch@,
    {
        self.broker_epoch.as_str()
    }

    /// The budget the written frame carries.
    pub fn remaining_timeout_ms(&self) -> (r: u32)
        ensures
            r == self.remaining_timeout_ms,
    {
        self.remaining_timeout_ms
    }

    /// The fingerprint of the request's semantic form.
    pub fn semantic_fingerprint(&self) -> (r: &str)
        ensures
            r@ == self.semantic_fingerprint@,
    {
        self.semantic_fingerprint.as_str()
    }
}

/// A request together with the exact text written for it.
pub struct BrowserSessionBrokerRequestFrame {
    pub request: BrowserSessionBrokerRequest,
    pub text: String,
}

impl BrowserSessionBrokerRequestFrame {
    /// The request the frame carries.
    pub fn request(&self) -> (r: &BrowserSessionBrokerRequest)
        ensures
            *r == self.request,
    {
        &self.request
    }

    /// The frame's text.
    pub fn text(&self) -> (r: &str)
        ensures
            r@ == self.text@,
    {
        self.text.as_str()
    }
}

/// The JSON text of a selector.
pub fn selector_text(s: &BrowserSemanticSelector) -> (r: String)
    ensures
        r@ == obj(selector_members(*s)),
{
    let mut w = ObjectWriter::new();
    match &s.role {
        Some(v) => w.string("role", v.as_str()),
        None => {},
    }
    let ghost m1 = w.members@;
    match &s.name {
        Some(v) => w.string("name", v.as_str()),
        None => {},
    }
    let ghost m2 = w.members@;
    match &s.text {
        Some(v) => w.string("text", v.as_str()),
        None => {},
    }
    let ghost m3 = w.members@;
    w.boolean("exact", s.exact);
    proof {
        assert(m1 =~= optional_member("role"@, s.role));
        assert(m2 =~= m1 + optional_member("name"@, s.name));
        assert(m3 =~= m2 + optional_member("text"@, s.text));
        assert(w.members@ =~= selector_members(*s));
    }
    w.finish()
}

/// The JSON text of a wait condition.
pub fn condition_text(c: &BrowserWaitCondition) -> (r: String)
    ensures
        r@ == obj(condition_members(*c)),
{
    let mut w = ObjectWriter::new();
    match c {
        BrowserWaitCondition::DocumentReady => {
            w.string("kind", "document-ready");
        },
        BrowserWaitCondition::ElementPresent(s) => {
            w.string("kind", "element-present");
            let t = selector_text(s);
            w.raw("selector", t.as_str());
        },
        BrowserWaitCondition::TextPresent(t) => {
            w.string("kind", "text-present");
            w.string("text", t.as_str());
        },
    }
    assert(w.members@ =~= condition_members(*c));
    w.finish()
}

impl<'a> BrowserSessionExchange<'a> {
    /// The operation the exchange performs.
    pub fn operation(&self) -> (r: BrowserSessionBrokerOperation)
        ensures
            r == exchange_operation(*self),
    {
        match self {
            BrowserSessionExchange::OpenConfirmed => BrowserSessionBrokerOperation::SessionOpen,
            BrowserSessionExchange::CloseConfirmed(_) => BrowserSessionBrokerOperation::SessionClose,
            BrowserSessionExchange::SessionInspect(_) => BrowserSessionBrokerOperation::SessionInspect,
            BrowserSessionExchange::NavigateConfirmed { .. } => BrowserSessionBrokerOperation::PageNavigate,
            BrowserSessionExchange::Wait { .. } => BrowserSessionBrokerOperation::PageWait,
            BrowserSessionExchange::Query { .. } => BrowserSessionBrokerOperation::PageQuery,
            BrowserSessionExchange::ClickConfirmed { .. } => BrowserSessionBrokerOperation::ElementClick,
            BrowserSessionExchange::TypeConfirmed { .. } => BrowserSessionBrokerOperation::ElementType,
            BrowserSessionExchange::Screenshot { .. } => BrowserSessionBrokerOperation::PageScreenshot,
        }
    }

    /// Whether the exchange may change its target: true exactly for the five
    /// commands.
    pub fn may_mutate_target(&self) -> (r: bool)
        ensures
            r == is_command(exchange_operation(*self)),
    {
        self.operation().is_command()
    }
}

/// The JSON text of an exchange's target object.
pub fn target_text(c: &BrowserSessionExchange) -> (r: String)
    ensures
        r@ == obj(target_members(*c)),
{
    let mut w = ObjectWriter::new();
    match c {
        BrowserSessionExchange::OpenConfirmed => {},
        BrowserSessionExchange::CloseConfirmed(s) | BrowserSessionExchange::SessionInspect(s) => {
            w.string("sessionId", s);
        },
        BrowserSessionExchange::NavigateConfirmed { session_id, .. } => {
            w.string("sessionId", session_id);
        },
        BrowserSessionExchange::Wait { session_id, page_id, .. }
        | BrowserSessionExchange::Query { session_id, page_id, .. }
        | BrowserSessionExchange::Screenshot { session_id, page_id } => {
            w.string("sessionId", session_id);
            w.string("pageId", page_id);
        },
        BrowserSessionExchange::ClickConfirmed { session_id, page_id, element_id }
        | BrowserSessionExchange::TypeConfirmed { session_id, page_id, element_id, .. } => {
            w.string("sessionId", session_id);
            w.string("pageId", page_id);
            w.string("elementId", element_id);
        },
    }
    assert(w.members@ =~= target_members(*c));
    w.finish()
}

/// The JSON text of an exchange's argument object.
pub fn args_text(c: &BrowserSessionExchange) -> (r: String)
    ensures
        r@ == obj(args_members(*c)),
{
    let mut w = ObjectWriter::new();
    match c {
        BrowserSessionExchange::NavigateConfirmed { url, .. } => {
            w.string("url", url);
        },
        BrowserSessionExchange::Wait { condition, .. } => {
            let t = condition_text(condition);
            w.raw("condition", t.as_str());
        },
        BrowserSessionExchange::Query { selector, max_results, .. } => {
            let t = selector_text(selector);
            w.raw("selector", t.as_str());
            w.number("maxResults", *max_results as u64);
        },
        BrowserSessionExchange::TypeConfirmed { text, replace, .. } => {
            w.string("text", text);
            w.boolean("replace", *replace);
        },
        _ => {},
    }
    assert(w.members@ =~= args_members(*c));
    w.finish()
}

/// The text of a request object.
pub fn write_request(
    op: BrowserSessionBrokerOperation,
    nonce: &str,
    epoch: &str,
    remaining_ms: Option<u32>,
    target: &str,
    args: &str,
) -> (r: String)
    ensures
        r@ == obj(request_members(op, nonce@, epoch@, remaining_ms, target@, args@)),
{
    let mut w = ObjectWriter::new();
    w.string("kind", "browser-session-request");
    w.raw("version", "1");
    w.string("operation", op.as_str());
    w.string("requestNonce", nonce);
    w.string("brokerEpoch", epoch);
    let ghost head = w.members@;
    match remaining_ms {
        Some(ms) => w.number("remainingTimeoutMs", ms as u64),
        None => {},
    }
    let ghost with_budget = w.members@;
    if op.is_command() {
        w.raw("confirmed", "true");
    }
    let ghost with_confirmation = w.members@;
    w.raw("target", target);
    w.raw("args", args);
    proof {
        assert(with_budget =~= head + (match remaining_ms {
            Some(ms) => seq![jfield("remainingTimeoutMs"@, decimal_digits(ms as nat))],
            None => Seq::<Seq<char>>::empty(),
        }));
        assert(with_confirmation =~= with_budget + (if is_command(op) {
            seq![jfield("confirmed"@, "true"@)]
        } else {
            Seq::<Seq<char>>::empty()
        }));
        assert(w.members@ =~= request_members(op, nonce@, epoch@, remaining_ms, target@, args@));
    }
    w.finish()
}

/// Checks an exchange's targets and arguments.
pub fn check_exchange(c: &BrowserSessionExchange) -> (r: Option<ProtocolFailureCode>)
    ensures
        r == exchange_failure(*c),
{
    proof {
        reveal_strlit("http://");
        reveal_strlit("https://");
    }
    match c {
        BrowserSessionExchange::OpenConfirmed => None,
        BrowserSessionExchange::CloseConfirmed(s) | BrowserSessionExchange::SessionInspect(s) =>
            if is_canonical_browser_session_id(s) { None } else { Some(ProtocolFailureCode::InvalidTarget) },
        BrowserSessionExchange::NavigateConfirmed { session_id, url } =>
            if !is_canonical_browser_session_id(session_id) {
                Some(ProtocolFailureCode::InvalidTarget)
            } else if !is_http_url_text(url) {
                Some(ProtocolFailureCode::InvalidArgument)
            } else {
                None
            },
        BrowserSessionExchange::Wait { session_id, page_id, condition } =>
            if !is_canonical_browser_session_id(session_id) || page_id.unicode_len() == 0 {
                Some(ProtocolFailureCode::InvalidTarget)
            } else if !condition_is_ok(condition) {
                Some(ProtocolFailureCode::InvalidArgument)
            } else {
                None
            },
        BrowserSessionExchange::Query { session_id, page_id, selector, max_results } =>
            if !is_canonical_browser_session_id(session_id) || page_id.unicode_len() == 0 {
                Some(ProtocolFailureCode::InvalidTarget)
            } else if !selector_is_ok(selector) || *max_results < 1 || *max_results > MAXIMUM_QUERY_RESULTS {
                Some(ProtocolFailureCode::InvalidArgument)
            } else {
                None
            },
        BrowserSessionExchange::ClickConfirmed { session_id, page_id, element_id } =>
            if !is_canonical_browser_session_id(session_id) || page_id.unicode_len() == 0
                || element_id.unicode_len() == 0 {
                Some(ProtocolFailureCode::InvalidTarget)
            } else {
                None
            },
        BrowserSessionExchange::TypeConfirmed { session_id, page_id, element_id, text, .. } =>
            if !is_canonical_browser_session_id(session_id) || page_id.unicode_len() == 0
                || element_id.unicode_len() == 0 {
                Some(ProtocolFailureCode::InvalidTarget)
            } else if text.len() < 1 || text.len() > MAXIMUM_TYPE_BYTES {
                Some(ProtocolFailureCode::InvalidArgument)
            } else {
                None
            },
        BrowserSessionExchange::Screenshot { session_id, page_id } =>
            if !is_canonical_browser_session_id(session_id) || page_id.unicode_len() == 0 {
                Some(ProtocolFailureCode::InvalidTarget)
            } else {
                None
            },
    }
}

/// Whether a URL is an absolute HTTP or HTTPS URL.
pub fn is_http_url_text(url: &str) -> (r: bool)
    ensures
        r == is_http_url(url@),
{
    proof {
        reveal_strlit("http://");
        reveal_strlit("https://");
    }
    let n = url.unicode_len();
    (n > 7 && str_starts_with(url, "http://")) || (n > 8 && str_starts_with(url, "https://"))
}

/// Whether an optional selector field is absent or non-empty.
fn optional_is_nonempty(v: &Option<String>) -> (r: bool)
    ensures
        r == optional_nonempty(*v),
{
    match v {
        Some(s) => s.as_str().unicode_len() > 0,
        None => true,
    }
}

/// Whether a selector is well formed.
pub fn selector_is_ok(s: &BrowserSemanticSelector) -> (r: bool)
    ensures
        r == selector_ok(*s),
{
    (s.role.is_some() || s.name.is_some() || s.text.is_some()) && optional_is_nonempty(&s.role)
        && optional_is_nonempty(&s.name) && optional_is_nonempty(&s.text)
}

/// Whether a wait condition is well formed.
pub fn condition_is_ok(c: &BrowserWaitCondition) -> (r: bool)
    ensures
        r == condition_ok(*c),
{
    match c {
        BrowserWaitCondition::DocumentReady => true,
        BrowserWaitCondition::ElementPresent(s) => selector_is_ok(s),
        BrowserWaitCondition::TextPresent(t) => t.as_str().unicode_len() > 0,
    }
}

/// Whether `frame` is the frame of request `c` under `nonce` and `epoch` with
/// budget `ms`: the request's operation, nonce, epoch, budget and semantic
/// fingerprint, and the written text.
pub open spec fn built_frame(frame: BrowserSessionBrokerRequestFrame, c: BrowserSessionExchange, nonce: Seq<char>,
    epoch: Seq<char>, ms: u32) -> bool {
    &&& frame.request.operation == exchange_operation(c)
    &&& frame.request.request_nonce@ == nonce
    &&& frame.request.broker_epoch@ == epoch
    &&& frame.request.remaining_timeout_ms == ms
    &&& frame.request.semantic_fingerprint@ == semantic_fingerprint_of(c, nonce, epoch)
    &&& frame.text@ == request_text(c, nonce, epoch, Some(ms))
}

/// Builds the strict request frame of one write attempt. The frame text carries
/// the attempt's remaining budget; the semantic fingerprint leaves the budget
/// out, so frames rebuilt with a shorter budget keep the request's identity.
pub fn build_request_frame(
    command: &BrowserSessionExchange,
    nonce: &str,
    epoch: &str,
    remaining_timeout_ms: u32,
) -> (r: Result<BrowserSessionBrokerRequestFrame, BrowserSessionBrokerProtocolFailure>)
    ensures
        r is Ok <==> build_failure(*command, nonce@, epoch@, remaining_timeout_ms) is None,
        r matches Err(f) ==> build_failure(*command, nonce@, epoch@, remaining_timeout_ms) == Some(f.code),
        r matches Ok(frame) ==> {
            &&& frame.request.operation == exchange_operation(*command)
            &&& frame.request.request_nonce@ == nonce@
            &&& frame.request.broker_epoch@ == epoch@
            &&& frame.request.remaining_timeout_ms == remaining_timeout_ms
            &&& frame.request.semantic_fingerprint@ == semantic_fingerprint_of(*command, nonce@, epoch@)
            &&& frame.text@ == request_text(*command, nonce@, epoch@, Some(remaining_timeout_ms))
        },
        r matches Ok(frame) ==> built_frame(frame, *command, nonce@, epoch@, remaining_timeout_ms),
{
    if !is_token_text(nonce) {
        return Err(BrowserSessionBrokerProtocolFailure { code: ProtocolFailureCode::InvalidRequestNonce });
    }
    if !is_token_text(epoch) {
        return Err(BrowserSessionBrokerProtocolFailure { code: ProtocolFailureCode::InvalidBrokerEpoch });
    }
    if remaining_timeout_ms < 1 || remaining_timeout_ms > MAXIMUM_TIMEOUT_MS {
        return Err(BrowserSessionBrokerProtocolFailure { code: ProtocolFailureCode::InvalidTimeout });
    }
    match check_exchange(command) {
        Some(code) => { return Err(BrowserSessionBrokerProtocolFailure { code }); },
        None => {},
    }
    let op = command.operation();
    let target = target_text(command);
    let args = args_text(command);
    let semantic = write_request(op, nonce, epoch, None, target.as_str(), args.as_str());
    let text = write_request(op, nonce, epoch, Some(remaining_timeout_ms), target.as_str(), args.as_str());
    let hash = fnv1a_hash(semantic.as_str().as_bytes());
    let mut fingerprint = String::new();
    push_hex16(&mut fingerprint, hash);
    assert(fingerprint@ =~= hex16(hash));
    Ok(BrowserSessionBrokerRequestFrame {
        request: BrowserSessionBrokerRequest {
            operation: op,
            request_nonce: crate::text::owned(nonce),
            broker_epoch: crate::text::owned(epoch),
            remaining_timeout_ms,
            semantic_fingerprint: fingerprint,
        },
        text,
    })
}

} // verus!
