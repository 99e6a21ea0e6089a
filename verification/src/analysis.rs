//! Content analysis behind the streaming decisions: what a request's params
//! hold (long strings, binary payloads, deep nesting), what a byte payload
//! looks like, and which transfer strategy follows.
use vstd::prelude::*;
use crate::json::JsonValue;
use crate::protocol::JsonRpcRequest;
use crate::text::{utf8_of, has_infix, contains};

verus! {

broadcast use vstd::std_specs::vec::group_vec_axioms;

/// A string longer than this many bytes makes a request "large text".
pub const LARGE_STRING_BYTES: usize = 4096;

/// Payloads above this many bytes are streamed.
pub const STREAMING_THRESHOLD: usize = 8192;

/// Nesting deeper than this makes params "complex JSON".
pub const COMPLEX_DEPTH: usize = 5;

/// `b` may occur in base64 text: an ASCII letter or digit, `+`, `/` or `=`.
pub open spec fn is_base64_byte(b: u8) -> bool {
    (48 <= b <= 57) || (65 <= b <= 90) || (97 <= b <= 122) || b == 43 || b == 47 || b == 61
}

/// Every byte of `s` may occur in base64 text. (For the UTF-8 bytes of a
/// string this says the same as: every character is an ASCII letter or
/// digit, `+`, `/` or `=`.)
pub open spec fn all_base64(s: Seq<u8>) -> bool {
    forall|i: int| 0 <= i < s.len() ==> is_base64_byte(#[trigger] s[i])
}

/// Some string inside `v` is longer than `t` bytes.
pub open spec fn has_large_string(v: JsonValue, t: nat) -> bool
    decreases v,
{
    match v {
        JsonValue::Str(s) => utf8_of(s@).len() > t,
        JsonValue::Array(xs) => items_have_large_string(xs@, t),
        JsonValue::Object(es) => entries_have_large_string(es@, t),
        _ => false,
    }
}

/// Some item holds a string longer than `t` bytes.
pub open spec fn items_have_large_string(xs: Seq<JsonValue>, t: nat) -> bool
    decreases xs,
{
    if xs.len() == 0 {
        false
    } else {
        items_have_large_string(xs.drop_last(), t) || has_large_string(xs.last(), t)
    }
}

/// Some entry's value holds a string longer than `t` bytes.
pub open spec fn entries_have_large_string(es: Seq<(String, JsonValue)>, t: nat) -> bool
    decreases es,
{
    if es.len() == 0 {
        false
    } else {
        entries_have_large_string(es.drop_last(), t) || has_large_string(es.last().1, t)
    }
}

/// An object key that names binary content: it contains `data`, `blob` or
/// `binary`.
pub open spec fn is_binary_key(k: Seq<char>) -> bool {
    has_infix(utf8_of(k), utf8_of("data"@)) || has_infix(utf8_of(k), utf8_of("blob"@))
        || has_infix(utf8_of(k), utf8_of("binary"@))
}

/// `v` holds binary content: a string of more than 1000 bytes that looks like
/// base64, or an object key that names binary content, at any depth.
pub open spec fn has_binary_indicator(v: JsonValue) -> bool
    decreases v,
{
    match v {
        JsonValue::Str(s) => utf8_of(s@).len() > 1000 && all_base64(utf8_of(s@)),
        JsonValue::Array(xs) => items_have_binary_indicator(xs@),
        JsonValue::Object(es) => entries_have_binary_indicator(es@),
        _ => false,
    }
}

/// Some item holds binary content.
pub open spec fn items_have_binary_indicator(xs: Seq<JsonValue>) -> bool
    decreases xs,
{
    if xs.len() == 0 {
        false
    } else {
        items_have_binary_indicator(xs.drop_last()) || has_binary_indicator(xs.last())
    }
}

/// Some entry has a key naming binary content or a value holding it.
pub open spec fn entries_have_binary_indicator(es: Seq<(String, JsonValue)>) -> bool
    decreases es,
{
    if es.len() == 0 {
        false
    } else {
        entries_have_binary_indicator(es.drop_last()) || is_binary_key(es.last().0@)
            || has_binary_indicator(es.last().1)
    }
}

/// The nesting depth of `v` (arrays and objects count one level each).
pub open spec fn json_depth(v: JsonValue) -> nat
    decreases v,
{
    match v {
        JsonValue::Array(xs) => 1 + items_depth(xs@),
        JsonValue::Object(es) => 1 + entries_depth(es@),
        _ => 0,
    }
}

/// The greatest depth among items (0 when there is none).
pub open spec fn items_depth(xs: Seq<JsonValue>) -> nat
    decreases xs,
{
    if xs.len() == 0 {
        0
    } else {
        let a = items_depth(xs.drop_last());
        let b = json_depth(xs.last());
        if a >= b { a } else { b }
    }
}

/// The greatest depth among entry values (0 when there is none).
pub open spec fn entries_depth(es: Seq<(String, JsonValue)>) -> nat
    decreases es,
{
    if es.len() == 0 {
        0
    } else {
        let a = entries_depth(es.drop_last());
        let b = json_depth(es.last().1);
        if a >= b { a } else { b }
    }
}

proof fn lemma_items_large_prefix(xs: Seq<JsonValue>, j: int, t: nat)
    requires
        0 <= j <= xs.len(),
    ensures
        items_have_large_string(xs.take(j), t) ==> items_have_large_string(xs, t),
    decreases xs.len(),
{
    if j < xs.len() {
        assert(xs.drop_last().take(j) =~= xs.take(j));
        lemma_items_large_prefix(xs.drop_last(), j, t);
    } else {
        assert(xs.take(j) =~= xs);
    }
}

proof fn lemma_entries_large_prefix(es: Seq<(String, JsonValue)>, j: int, t: nat)
    requires
        0 <= j <= es.len(),
    ensures
        entries_have_large_string(es.take(j), t) ==> entries_have_large_string(es, t),
    decreases es.len(),
{
    if j < es.len() {
        assert(es.drop_last().take(j) =~= es.take(j));
        lemma_entries_large_prefix(es.drop_last(), j, t);
    } else {
        assert(es.take(j) =~= es);
    }
}

proof fn lemma_items_binary_prefix(xs: Seq<JsonValue>, j: int)
    requires
        0 <= j <= xs.len(),
    ensures
        items_have_binary_indicator(xs.take(j)) ==> items_have_binary_indicator(xs),
    decreases xs.len(),
{
    if j < xs.len() {
        assert(xs.drop_last().take(j) =~= xs.take(j));
        lemma_items_binary_prefix(xs.drop_last(), j);
    } else {
        assert(xs.take(j) =~= xs);
    }
}

proof fn lemma_entries_binary_prefix(es: Seq<(String, JsonValue)>, j: int)
    requires
        0 <= j <= es.len(),
    ensures
        entries_have_binary_indicator(es.take(j)) ==> entries_have_binary_indicator(es),
    decreases es.len(),
{
    if j < es.len() {
        assert(es.drop_last().take(j) =~= es.take(j));
        lemma_entries_binary_prefix(es.drop_last(), j);
    } else {
        assert(es.take(j) =~= es);
    }
}

proof fn lemma_items_depth_prefix(xs: Seq<JsonValue>, j: int)
    requires
        0 <= j <= xs.len(),
    ensures
        items_depth(xs.take(j)) <= items_depth(xs),
    decreases xs.len(),
{
    if j < xs.len() {
        assert(xs.drop_last().take(j) =~= xs.take(j));
        lemma_items_depth_prefix(xs.drop_last(), j);
    } else {
        assert(xs.take(j) =~= xs);
    }
}

proof fn lemma_entries_depth_prefix(es: Seq<(String, JsonValue)>, j: int)
    requires
        0 <= j <= es.len(),
    ensures
        entries_depth(es.take(j)) <= entries_depth(es),
    decreases es.len(),
{
    if j < es.len() {
        assert(es.drop_last().take(j) =~= es.take(j));
        lemma_entries_depth_prefix(es.drop_last(), j);
    } else {
        assert(es.take(j) =~= es);
    }
}

/// Whether some string inside `v` is longer than `threshold` bytes.
#[verifier::loop_isolation(false)]
pub fn find_large_strings(v: &JsonValue, threshold: usize) -> (r: bool)
    ensures
        r == has_large_string(*v, threshold as nat),
    decreases v,
{
    match v {
        JsonValue::Str(s) => s.as_str().as_bytes().len() > threshold,
        JsonValue::Array(xs) => {
            let n = xs.len();
            let mut i: usize = 0;
            while i < n
                invariant
                    n == xs@.len(),
                    i <= n,
                    !items_have_large_string(xs@.take(i as int), threshold as nat),
                decreases n - i,
            {
                assert(decreases_to!(*v => xs@[i as int]));
                let found = find_large_strings(&xs[i], threshold);
                assert(xs@.take(i + 1).drop_last() =~= xs@.take(i as int));
                if found {
                    proof { lemma_items_large_prefix(xs@, i + 1, threshold as nat); }
                    return true;
                }
                i = i + 1;
            }
            assert(xs@.take(n as int) =~= xs@);
            false
        },
        JsonValue::Object(es) => {
            let n = es.len();
            let mut i: usize = 0;
            while i < n
                invariant
                    n == es@.len(),
                    i <= n,
                    !entries_have_large_string(es@.take(i as int), threshold as nat),
                decreases n - i,
            {
                assert(decreases_to!(*v => es@[i as int].1));
                let found = find_large_strings(&es[i].1, threshold);
                assert(es@.take(i + 1).drop_last() =~= es@.take(i as int));
                if found {
                    proof { lemma_entries_large_prefix(es@, i + 1, threshold as nat); }
                    return true;
                }
                i = i + 1;
            }
            assert(es@.take(n as int) =~= es@);
            false
        },
        _ => false,
    }
}

/// Whether every byte looks like base64.
fn bytes_all_base64(b: &[u8]) -> (r: bool)
    ensures
        r == all_base64(b@),
{
    let mut i: usize = 0;
    while i < b.len()
        invariant
            i <= b@.len(),
            forall|j: int| 0 <= j < i ==> is_base64_byte(#[trigger] b@[j]),
        decreases b@.len() - i,
    {
        let c = b[i];
        let ok = (48 <= c && c <= 57) || (65 <= c && c <= 90) || (97 <= c && c <= 122) || c == 43 || c == 47 || c == 61;
        if !ok {
            return false;
        }
        i = i + 1;
    }
    true
}

/// Whether an object key names binary content.
pub fn binary_key(k: &str) -> (r: bool)
    ensures
        r == is_binary_key(k@),
{
    contains(k, "data") || contains(k, "blob") || contains(k, "binary")
}

/// Whether `v` holds binary content at any depth.
#[verifier::loop_isolation(false)]
pub fn find_binary_indicators(v: &JsonValue) -> (r: bool)
    ensures
        r == has_binary_indicator(*v),
    decreases v,
{
    match v {
        JsonValue::Str(s) => {
            let b = s.as_str().as_bytes();
            b.len() > 1000 && bytes_all_base64(b)
        },
        JsonValue::Array(xs) => {
            let n = xs.len();
            let mut i: usize = 0;
            while i < n
                invariant
                    n == xs@.len(),
                    i <= n,
                    !items_have_binary_indicator(xs@.take(i as int)),
                decreases n - i,
            {
                assert(decreases_to!(*v => xs@[i as int]));
                let found = find_binary_indicators(&xs[i]);
                assert(xs@.take(i + 1).drop_last() =~= xs@.take(i as int));
                if found {
                    proof { lemma_items_binary_prefix(xs@, i + 1); }
                    return true;
                }
                i = i + 1;
            }
            assert(xs@.take(n as int) =~= xs@);
            false
        },
        JsonValue::Object(es) => {
            let n = es.len();
            let mut i: usize = 0;
            while i < n
                invariant
                    n == es@.len(),
                    i <= n,
                    !entries_have_binary_indicator(es@.take(i as int)),
                decreases n - i,
            {
                assert(decreases_to!(*v => es@[i as int].1));
                let found = binary_key(es[i].0.as_str()) || find_binary_indicators(&es[i].1);
                assert(es@.take(i + 1).drop_last() =~= es@.take(i as int));
                if found {
                    proof { lemma_entries_binary_prefix(es@, i + 1); }
                    return true;
                }
                i = i + 1;
            }
            assert(es@.take(n as int) =~= es@);
            false
        },
        _ => false,
    }
}

/// Whether the nesting depth of `v` is greater than `k`.
#[verifier::loop_isolation(false)]
pub fn depth_exceeds(v: &JsonValue, k: usize) -> (r: bool)
    ensures
        r == (json_depth(*v) > k),
    decreases v,
{
    match v {
        JsonValue::Array(xs) => {
            if k == 0 {
                return true;
            }
            let n = xs.len();
            let mut i: usize = 0;
            while i < n
                invariant
                    n == xs@.len(),
                    i <= n,
                    k > 0,
                    items_depth(xs@.take(i as int)) <= k - 1,
                decreases n - i,
            {
                assert(decreases_to!(*v => xs@[i as int]));
                let found = depth_exceeds(&xs[i], k - 1);
                assert(xs@.take(i + 1).drop_last() =~= xs@.take(i as int));
                if found {
                    proof { lemma_items_depth_prefix(xs@, i + 1); }
                    return true;
                }
                i = i + 1;
            }
            assert(xs@.take(n as int) =~= xs@);
            false
        },
        JsonValue::Object(es) => {
            if k == 0 {
                return true;
            }
            let n = es.len();
            let mut i: usize = 0;
            while i < n
                invariant
                    n == es@.len(),
                    i <= n,
                    k > 0,
                    entries_depth(es@.take(i as int)) <= k - 1,
                decreases n - i,
            {
                assert(decreases_to!(*v => es@[i as int].1));
                let found = depth_exceeds(&es[i].1, k - 1);
                assert(es@.take(i + 1).drop_last() =~= es@.take(i as int));
                if found {
                    proof { lemma_entries_depth_prefix(es@, i + 1); }
                    return true;
                }
                i = i + 1;
            }
            assert(es@.take(n as int) =~= es@);
            false
        },
        _ => false,
    }
}

/// How a payload is classified.
#[derive(Clone, Copy, Debug, PartialEq, Eq, Structural)]
pub enum ContentType {
    Standard,
    LargeText,
    Binary,
    Json,
}

/// How a payload is best sent.
#[derive(Clone, Copy, Debug, PartialEq, Eq, Structural)]
pub enum StreamingStrategy {
    Traditional,
    ChunkedStreaming,
    Http2ServerPush,
    Http2Multiplexed,
    CompressedStreaming,
}

/// The outcome of analysing one request.
#[derive(Clone, Copy, Debug, PartialEq, Eq, Structural)]
pub struct StreamingAnalysis {
    pub should_stream: bool,
    pub estimated_size: usize,
    pub content_type: ContentType,
    pub recommended_strategy: StreamingStrategy,
    pub estimated_chunks: usize,
}

/// Counters kept by an analyzer. `total_size` is the sum of the analysed
/// sizes (saturating at `u64::MAX`); the mean size is `total_size /
/// total_requests`.
#[derive(Clone, Copy, Debug, PartialEq, Eq, Structural)]
pub struct AnalysisStats {
    pub total_requests: u64,
    pub large_requests: u64,
    pub binary_requests: u64,
    pub total_size: u64,
}

/// The analysis of a request of `size` serialized bytes whose params hold a
/// long string (`large`), binary content (`binary`) or deep nesting
/// (`complex`).
pub open spec fn spec_analysis(size: usize, large: bool, binary: bool, complex: bool) -> StreamingAnalysis {
    let should_stream = size > 8192 || large || binary;
    StreamingAnalysis {
        should_stream,
        estimated_size: size,
        content_type: if binary {
            ContentType::Binary
        } else if large {
            ContentType::LargeText
        } else if complex {
            ContentType::Json
        } else {
            ContentType::Standard
        },
        recommended_strategy: if binary {
            StreamingStrategy::CompressedStreaming
        } else if size > 100000 {
            StreamingStrategy::Http2Multiplexed
        } else if size > 32768 {
            StreamingStrategy::Http2ServerPush
        } else if should_stream {
            StreamingStrategy::ChunkedStreaming
        } else {
            StreamingStrategy::Traditional
        },
        estimated_chunks: if size / 16384 >= 1 { (size / 16384) as usize } else { 1 },
    }
}

/// The request's params hold a string longer than 4096 bytes.
pub open spec fn request_has_large_string(r: JsonRpcRequest) -> bool {
    match r.params {
        Some(p) => has_large_string(p, LARGE_STRING_BYTES as nat),
        None => false,
    }
}

/// The request's params hold binary content.
pub open spec fn request_has_binary(r: JsonRpcRequest) -> bool {
    match r.params {
        Some(p) => has_binary_indicator(p),
        None => false,
    }
}

/// The request's params nest deeper than five levels.
pub open spec fn request_is_complex(r: JsonRpcRequest) -> bool {
    match r.params {
        Some(p) => json_depth(p) > COMPLEX_DEPTH,
        None => false,
    }
}

/// Decides the analysis from the measured facts.
pub fn plan_analysis(size: usize, large: bool, binary: bool, complex: bool) -> (r: StreamingAnalysis)
    ensures
        r == spec_analysis(size, large, binary, complex),
{
    let should_stream = size > 8192 || large || binary;
    let content_type = if binary {
        ContentType::Binary
    } else if large {
        ContentType::LargeText
    } else if complex {
        ContentType::Json
    } else {
        ContentType::Standard
    };
    let recommended_strategy = if binary {
        StreamingStrategy::CompressedStreaming
    } else if size > 100000 {
        StreamingStrategy::Http2Multiplexed
    } else if size > 32768 {
        StreamingStrategy::Http2ServerPush
    } else if should_stream {
        StreamingStrategy::ChunkedStreaming
    } else {
        StreamingStrategy::Traditional
    };
    let chunks = size / 16384;
    StreamingAnalysis {
        should_stream,
        estimated_size: size,
        content_type,
        recommended_strategy,
        estimated_chunks: if chunks >= 1 { chunks } else { 1 },
    }
}

/// Number of zero bytes.
pub open spec fn zero_count(s: Seq<u8>) -> nat
    decreases s.len(),
{
    if s.len() == 0 {
        0
    } else {
        zero_count(s.drop_last()) + if s.last() == 0 { 1nat } else { 0nat }
    }
}

/// A control byte other than tab, line feed and carriage return.
pub open spec fn is_control_byte(b: u8) -> bool {
    b < 32 && b != 9 && b != 10 && b != 13
}

/// Number of control bytes other than tab, line feed and carriage return.
pub open spec fn control_count(s: Seq<u8>) -> nat
    decreases s.len(),
{
    if s.len() == 0 {
        0
    } else {
        control_count(s.drop_last()) + if is_control_byte(s.last()) { 1nat } else { 0nat }
    }
}

/// A payload looks binary: it holds a zero byte but is not more than 90%
/// zeros, or it holds no zero byte and more than 30% control bytes.
pub open spec fn looks_binary(s: Seq<u8>) -> bool {
    if s.len() == 0 {
        false
    } else if zero_count(s) > 0 {
        !(10 * zero_count(s) > 9 * s.len())
    } else {
        10 * control_count(s) > 3 * s.len()
    }
}

/// A payload is worth streaming: larger than 8 KiB, or binary.
pub open spec fn spec_should_stream(s: Seq<u8>) -> bool {
    s.len() > STREAMING_THRESHOLD || looks_binary(s)
}

/// Whether a payload looks binary.
pub fn is_binary_content(content: &[u8]) -> (r: bool)
    ensures
        r == looks_binary(content@),
{
    let n = content.len();
    if n == 0 {
        return false;
    }
    let mut zeros: usize = 0;
    let mut controls: usize = 0;
    let mut i: usize = 0;
    while i < n
        invariant
            n == content@.len(),
            i <= n,
            zeros == zero_count(content@.take(i as int)),
            controls == control_count(content@.take(i as int)),
            zeros <= i,
            controls <= i,
        decreases n - i,
    {
        let b = content[i];
        assert(content@.take(i + 1).drop_last() =~= content@.take(i as int));
        if b == 0 {
            zeros = zeros + 1;
        }
        if b < 32 && b != 9 && b != 10 && b != 13 {
            controls = controls + 1;
        }
        i = i + 1;
    }
    assert(content@.take(n as int) =~= content@);
    if zeros > 0 {
        !((zeros as u128) * 10 > (n as u128) * 9)
    } else {
        (controls as u128) * 10 > (n as u128) * 3
    }
}

/// Decides streaming for requests and payloads, and counts what it saw.
pub struct ContentAnalyzer {
    stats: AnalysisStats,
}

impl ContentAnalyzer {
    #[verifier::type_invariant]
    spec fn counts_bounded(self) -> bool {
        self.stats.large_requests <= self.stats.total_requests
            && self.stats.binary_requests <= self.stats.total_requests
    }

    /// The counters so far.
    pub closed spec fn spec_stats(self) -> AnalysisStats {
        self.stats
    }

    /// An analyzer that has seen nothing.
    pub fn new() -> (r: ContentAnalyzer)
        ensures
            r.spec_stats() == (AnalysisStats { total_requests: 0, large_requests: 0, binary_requests: 0, total_size: 0 }),
    {
        ContentAnalyzer { stats: AnalysisStats { total_requests: 0, large_requests: 0, binary_requests: 0, total_size: 0 } }
    }

    /// Analyses a request whose JSON text is `serialized_len` bytes long, and
    /// counts it (as large above 8 KiB, as binary when its params hold binary
    /// content).
    pub fn analyze_request(&mut self, request: &JsonRpcRequest, serialized_len: usize) -> (r: StreamingAnalysis)
        requires
            old(self).spec_stats().total_requests < u64::MAX,
        ensures
            r == spec_analysis(serialized_len, request_has_large_string(*request),
                request_has_binary(*request), request_is_complex(*request)),
            final(self).spec_stats() == (AnalysisStats {
                total_requests: (old(self).spec_stats().total_requests + 1) as u64,
                large_requests: (old(self).spec_stats().large_requests + if serialized_len > 8192 { 1int } else { 0int }) as u64,
                binary_requests: (old(self).spec_stats().binary_requests + if request_has_binary(*request) { 1int } else { 0int }) as u64,
                total_size: (if old(self).spec_stats().total_size + serialized_len > u64::MAX { u64::MAX as int }
                    else { old(self).spec_stats().total_size + serialized_len }) as u64,
            }),
    {
        proof { use_type_invariant(&*self); }
        let (large, binary, complex) = match &request.params {
            Some(p) => (find_large_strings(p, LARGE_STRING_BYTES), find_binary_indicators(p), depth_exceeds(p, COMPLEX_DEPTH)),
            None => (false, false, false),
        };
        let mut stats = self.stats;
        stats.total_requests = stats.total_requests + 1;
        if serialized_len > 8192 {
            stats.large_requests = stats.large_requests + 1;
        }
        if binary {
            stats.binary_requests = stats.binary_requests + 1;
        }
        stats.total_size = stats.total_size.saturating_add(serialized_len as u64);
        self.stats = stats;
        plan_analysis(serialized_len, large, binary, complex)
    }

    /// The counters so far.
    pub fn get_stats(&self) -> (r: AnalysisStats)
        ensures
            r == self.spec_stats(),
    {
        self.stats
    }

    /// Whether a payload is worth streaming.
    pub fn should_stream(&self, content: &[u8]) -> (r: bool)
        ensures
            r == spec_should_stream(content@),
    {
        if content.len() > STREAMING_THRESHOLD {
            return true;
        }
        is_binary_content(content)
    }

    /// The size above which payloads are streamed.
    pub fn streaming_threshold(&self) -> (r: usize)
        ensures
            r == STREAMING_THRESHOLD,
    {
        STREAMING_THRESHOLD
    }
}

impl Default for ContentAnalyzer {
    fn default() -> (r: ContentAnalyzer)
        ensures
            r.spec_stats() == (AnalysisStats { total_requests: 0, large_requests: 0, binary_requests: 0, total_size: 0 }),
    {
        ContentAnalyzer::new()
    }
}

/// A way of sending a request.
#[derive(Clone, Copy, Debug, PartialEq, Eq, Structural)]
pub enum SendMethod {
    Traditional,
    Chunked,
    Compressed,
    Http2,
}

/// The order in which a streaming client tries to send a request: the
/// recommended way first, then its fallbacks, always ending with a plain
/// request. Streaming is used only when the analysis recommends it and
/// chunked transfer is enabled.
pub open spec fn spec_send_plan(a: StreamingAnalysis, chunked_enabled: bool) -> Seq<SendMethod> {
    if a.should_stream && chunked_enabled {
        match a.recommended_strategy {
            StreamingStrategy::ChunkedStreaming => seq![SendMethod::Chunked, SendMethod::Traditional],
            StreamingStrategy::CompressedStreaming => seq![SendMethod::Compressed, SendMethod::Traditional],
            StreamingStrategy::Http2ServerPush => seq![SendMethod::Http2, SendMethod::Chunked, SendMethod::Traditional],
            StreamingStrategy::Http2Multiplexed => seq![SendMethod::Http2, SendMethod::Chunked, SendMethod::Traditional],
            StreamingStrategy::Traditional => seq![SendMethod::Traditional],
        }
    } else {
        seq![SendMethod::Traditional]
    }
}

/// The order in which to try sending a request.
pub fn send_plan(a: &StreamingAnalysis, chunked_enabled: bool) -> (r: Vec<SendMethod>)
    ensures
        r@ == spec_send_plan(*a, chunked_enabled),
{
    let mut v: Vec<SendMethod> = Vec::new();
    if a.should_stream && chunked_enabled {
        match a.recommended_strategy {
            StreamingStrategy::ChunkedStreaming => {
                v.push(SendMethod::Chunked);
            },
            StreamingStrategy::CompressedStreaming => {
                v.push(SendMethod::Compressed);
            },
            StreamingStrategy::Http2ServerPush | StreamingStrategy::Http2Multiplexed => {
                v.push(SendMethod::Http2);
                v.push(SendMethod::Chunked);
            },
            StreamingStrategy::Traditional => {},
        }
    }
    v.push(SendMethod::Traditional);
    proof {
        if a.should_stream && chunked_enabled {
            match a.recommended_strategy {
                StreamingStrategy::ChunkedStreaming => { assert(v@ =~= seq![SendMethod::Chunked, SendMethod::Traditional]); },
                StreamingStrategy::CompressedStreaming => { assert(v@ =~= seq![SendMethod::Compressed, SendMethod::Traditional]); },
                StreamingStrategy::Traditional => { assert(v@ =~= seq![SendMethod::Traditional]); },
                _ => { assert(v@ =~= seq![SendMethod::Http2, SendMethod::Chunked, SendMethod::Traditional]); },
            }
        } else {
            assert(v@ =~= seq![SendMethod::Traditional]);
        }
    }
    v
}

/// What makes a request streamed: a request above 8 KiB, one whose params
/// hold a long string and one whose params hold binary content are always
/// streamed, never the traditional way; a small request with neither is
/// never streamed and goes the traditional way. Binary content is compressed
/// as it streams, and a long string makes a text payload.
pub proof fn large_or_binary_requests_are_streamed(size: usize, large: bool, binary: bool, complex: bool)
    ensures
        (size > 8192 || large || binary) ==> spec_analysis(size, large, binary, complex).should_stream
            && spec_analysis(size, large, binary, complex).recommended_strategy != StreamingStrategy::Traditional,
        !(size > 8192 || large || binary) ==> !spec_analysis(size, large, binary, complex).should_stream
            && spec_analysis(size, large, binary, complex).recommended_strategy == StreamingStrategy::Traditional,
        spec_analysis(size, large, binary, complex).should_stream
            == (spec_analysis(size, large, binary, complex).recommended_strategy != StreamingStrategy::Traditional),
        binary ==> spec_analysis(size, large, binary, complex).content_type == ContentType::Binary
            && spec_analysis(size, large, binary, complex).recommended_strategy == StreamingStrategy::CompressedStreaming,
        (large && !binary) ==> spec_analysis(size, large, binary, complex).content_type == ContentType::LargeText,
        spec_analysis(size, large, binary, complex).estimated_size == size,
{
}

/// Text payloads are sent by size: above 100000 bytes over multiplexed
/// HTTP/2 streams, above 32 KiB with server push, otherwise in chunks when
/// streamed; binary content is always compressed. Nested params without
/// long strings or binary content make a JSON payload, and a payload with
/// none of these is standard. A request is cut into one chunk per full
/// 16 KiB, and at least one.
pub proof fn strategy_follows_size(size: usize, large: bool, binary: bool, complex: bool)
    ensures
        (!binary && size > 100000) ==> spec_analysis(size, large, binary, complex).recommended_strategy == StreamingStrategy::Http2Multiplexed,
        (!binary && 32768 < size <= 100000) ==> spec_analysis(size, large, binary, complex).recommended_strategy == StreamingStrategy::Http2ServerPush,
        (!binary && size <= 32768 && (size > 8192 || large)) ==> spec_analysis(size, large, binary, complex).recommended_strategy == StreamingStrategy::ChunkedStreaming,
        (!binary && !large && complex) ==> spec_analysis(size, large, binary, complex).content_type == ContentType::Json,
        (!binary && !large && !complex) ==> spec_analysis(size, large, binary, complex).content_type == ContentType::Standard,
        spec_analysis(size, large, binary, complex).estimated_chunks == (if size < 16384 { 1 } else { size / 16384 }),
{
}

/// Every send plan ends with a plain request and tries no way twice, so a
/// request is sent at most once per way and always has a last resort.
pub proof fn send_plan_ends_plain(a: StreamingAnalysis, chunked_enabled: bool)
    ensures
        spec_send_plan(a, chunked_enabled).len() >= 1,
        spec_send_plan(a, chunked_enabled).last() == SendMethod::Traditional,
        forall|i: int, j: int| 0 <= i < j < spec_send_plan(a, chunked_enabled).len()
            ==> spec_send_plan(a, chunked_enabled)[i] != spec_send_plan(a, chunked_enabled)[j],
{
}

} // verus!
