//! Failover across several endpoints: round-robin selection, a circuit per
//! endpoint that opens after consecutive recoverable failures and closes
//! after a cooldown, and replay only for requests that are safe to repeat.
//! Times are milliseconds on a monotonic clock, handed in by the caller.
use vstd::prelude::*;
use vstd::string::StringExecFns;
use crate::error::{McpError, spec_is_recoverable};
use crate::json::{JsonValue, json_get, json_get_str, get_str};
use crate::protocol::{JsonRpcRequest, TOOLS_CALL, PING, TOOLS_LIST, RESOURCES_LIST, RESOURCES_READ, RESOURCES_TEMPLATES_LIST,
    PROMPTS_LIST, PROMPTS_GET, RPC_DISCOVER};
use crate::text::text_eq;

verus! {

broadcast use vstd::std_specs::vec::group_vec_axioms;

/// When an endpoint's circuit opens, and for how long.
pub struct EndpointPoolConfig {
    /// Consecutive recoverable failures before an endpoint is set aside
    /// (a threshold of 0 acts as 1).
    pub failure_threshold: u32,
    /// How long a set-aside endpoint is skipped, in milliseconds.
    pub cooldown_ms: u64,
}

impl Default for EndpointPoolConfig {
    /// Three failures open a circuit for thirty seconds.
    fn default() -> (r: EndpointPoolConfig)
        ensures
            r.failure_threshold == 3,
            r.cooldown_ms == 30000,
    {
        EndpointPoolConfig { failure_threshold: 3, cooldown_ms: 30000 }
    }
}

/// The circuit state of one endpoint.
pub struct EndpointState {
    pub name: String,
    pub consecutive_failures: u32,
    pub open_until_ms: Option<u64>,
}

/// Methods that only read, and so may be sent again elsewhere.
pub open spec fn naturally_idempotent(m: Seq<char>) -> bool {
    m == PING@ || m == TOOLS_LIST@ || m == RESOURCES_LIST@ || m == RESOURCES_READ@
        || m == RESOURCES_TEMPLATES_LIST@ || m == PROMPTS_LIST@ || m == PROMPTS_GET@ || m == RPC_DISCOVER@
}

/// The idempotency key a request carries in `params._meta.idempotencyKey`.
pub open spec fn idempotency_key(r: JsonRpcRequest) -> Option<Seq<char>> {
    match r.params {
        Some(p) => match json_get(p, "_meta"@) {
            Some(m) => json_get_str(m, "idempotencyKey"@),
            None => None,
        },
        None => None,
    }
}

/// A request is safe to replay when its method only reads or it carries a
/// non-empty idempotency key.
pub open spec fn spec_is_idempotent(r: JsonRpcRequest) -> bool {
    naturally_idempotent(r.method@) || (idempotency_key(r) matches Some(k) && k.len() > 0)
}

/// How many of `selected` endpoints a request may be tried on: all of them
/// when it is safe to replay, else one (none when none is selected).
pub open spec fn spec_attempt_budget(request: JsonRpcRequest, selected: usize) -> int {
    if spec_is_idempotent(request) { selected as int } else if selected >= 1 { 1 } else { 0 }
}

/// Whether a request is safe to replay on another endpoint.
pub fn is_request_idempotent(request: &JsonRpcRequest) -> (r: bool)
    ensures
        r == spec_is_idempotent(*request),
{
    let m = request.method.as_str();
    let natural = text_eq(m, PING) || text_eq(m, TOOLS_LIST) || text_eq(m, RESOURCES_LIST)
        || text_eq(m, RESOURCES_READ) || text_eq(m, RESOURCES_TEMPLATES_LIST) || text_eq(m, PROMPTS_LIST)
        || text_eq(m, PROMPTS_GET) || text_eq(m, RPC_DISCOVER);
    if natural {
        return true;
    }
    let key = match &request.params {
        Some(p) => match p.get("_meta") {
            Some(meta) => get_str(meta, "idempotencyKey"),
            None => None,
        },
        None => None,
    };
    match key {
        Some(k) => k.as_str().unicode_len() > 0,
        None => false,
    }
}

/// The endpoints to try, in order: starting at `start` and going round,
/// those whose circuit is closed.
pub open spec fn rotation(open: Seq<bool>, start: int, k: int) -> Seq<usize>
    decreases open.len() - k,
{
    if k >= open.len() || k < 0 {
        Seq::empty()
    } else {
        let i = (start + k) % (open.len() as int);
        let rest = rotation(open, start, k + 1);
        if open[i] { rest } else { seq![i as usize] + rest }
    }
}

/// Which endpoints have an open circuit.
pub open spec fn open_flags(states: Seq<EndpointState>) -> Seq<bool> {
    states.map_values(|e: EndpointState| e.open_until_ms is Some)
}

/// What one attempt tells the pool to do next.
#[derive(Clone, Copy, Debug, PartialEq, Eq, Structural)]
pub enum AttemptOutcome {
    /// The request is answered (or refused for good); stop.
    Stop,
    /// The endpoint looks unhealthy; try the next one if any is left.
    TryNext,
}

/// Round-robin endpoint selection with a circuit per endpoint.
pub struct EndpointPoolTransport {
    endpoints: Vec<EndpointState>,
    config: EndpointPoolConfig,
    cursor: usize,
}

impl EndpointPoolTransport {
    /// The endpoints, in the order they were added.
    pub closed spec fn states(self) -> Seq<EndpointState> {
        self.endpoints@
    }

    /// The pool's configuration.
    pub closed spec fn spec_config(self) -> EndpointPoolConfig {
        self.config
    }

    /// Where the next round starts.
    pub closed spec fn spec_cursor(self) -> usize {
        self.cursor
    }

    /// An empty pool.
    pub fn new(config: EndpointPoolConfig) -> (r: EndpointPoolTransport)
        ensures
            r.states().len() == 0,
            r.spec_config() == config,
            r.spec_cursor() == 0,
    {
        EndpointPoolTransport { endpoints: Vec::new(), config, cursor: 0 }
    }

    /// Adds an endpoint with a closed circuit.
    pub fn add_endpoint(self, name: String) -> (r: EndpointPoolTransport)
        ensures
            r.states() == self.states().push(EndpointState { name, consecutive_failures: 0, open_until_ms: None }),
            r.spec_config() == self.spec_config(),
            r.spec_cursor() == self.spec_cursor(),
    {
        let mut s = self;
        s.endpoints.push(EndpointState { name, consecutive_failures: 0, open_until_ms: None });
        s
    }

    /// Number of endpoints.
    pub fn endpoint_count(&self) -> (r: usize)
        ensures
            r == self.states().len(),
    {
        self.endpoints.len()
    }

    /// Whether the circuit of endpoint `index` is open.
    pub fn circuit_open(&self, index: usize) -> (r: bool)
        requires
            index < self.states().len(),
        ensures
            r == self.states()[index as int].open_until_ms is Some,
    {
        self.endpoints[index].open_until_ms.is_some()
    }

    /// The endpoints to try for one request at `now_ms`: circuits whose
    /// cooldown has passed close (and forget their failures) first; then,
    /// going round from the cursor, every endpoint whose circuit is closed.
    /// The cursor moves on by one.
    pub fn selectable_indices(&mut self, now_ms: u64) -> (r: Vec<usize>)
        ensures
            final(self).states().len() == old(self).states().len(),
            final(self).spec_config() == old(self).spec_config(),
            forall|i: int| 0 <= i < old(self).states().len() ==> {
                let o = #[trigger] old(self).states()[i];
                let n = final(self).states()[i];
                &&& n.name == o.name
                &&& if o.open_until_ms matches Some(u) && u <= now_ms {
                    n.open_until_ms is None && n.consecutive_failures == 0
                } else {
                    n.open_until_ms == o.open_until_ms && n.consecutive_failures == o.consecutive_failures
                }
            },
            old(self).states().len() == 0 ==> r@.len() == 0 && final(self).spec_cursor() == old(self).spec_cursor(),
            old(self).states().len() > 0 ==> {
                let len = old(self).states().len() as int;
                &&& final(self).spec_cursor() == ((old(self).spec_cursor() as int) % len + 1) % len
                &&& r@ == rotation(open_flags(final(self).states()),
                    (old(self).spec_cursor() as int) % len, 0)
            },
    {
        let n = self.endpoints.len();
        let mut i: usize = 0;
        while i < n
            invariant
                n == self.endpoints@.len(),
                n == old(self).endpoints@.len(),
                i <= n,
                self.config == old(self).config,
                self.cursor == old(self).cursor,
                forall|j: int| 0 <= j < n ==> {
                    let o = #[trigger] old(self).endpoints@[j];
                    let e = self.endpoints@[j];
                    &&& e.name == o.name
                    &&& if j < i && (o.open_until_ms matches Some(u) && u <= now_ms) {
                        e.open_until_ms is None && e.consecutive_failures == 0
                    } else {
                        e.open_until_ms == o.open_until_ms && e.consecutive_failures == o.consecutive_failures
                    }
                },
            decreases n - i,
        {
            let expired = match self.endpoints[i].open_until_ms {
                Some(u) => u <= now_ms,
                None => false,
            };
            if expired {
                let mut e = self.endpoints.remove(i);
                e.open_until_ms = None;
                e.consecutive_failures = 0;
                self.endpoints.insert(i, e);
            }
            i = i + 1;
        }
        if n == 0 {
            return Vec::new();
        }
        let start = self.cursor % n;
        self.cursor = (start + 1) % n;
        let ghost open = open_flags(self.endpoints@);
        let mut out: Vec<usize> = Vec::new();
        let mut k: usize = n;
        while k > 0
            invariant
                n == self.endpoints@.len(),
                open == open_flags(self.endpoints@),
                start < n,
                k <= n,
                out@ == rotation(open, start as int, k as int),
            decreases k,
        {
            k = k - 1;
            let idx = if k >= n - start { k - (n - start) } else { start + k };
            assert(idx as int == (start + k) % (n as int)) by {
                if start + k >= n {
                    assert((start + k) as int == (start + k - n) as int + n as int);
                    vstd::arithmetic::div_mod::lemma_fundamental_div_mod_converse((start + k) as int, n as int, 1, (start + k - n) as int);
                } else {
                    vstd::arithmetic::div_mod::lemma_small_mod((start + k) as nat, n as nat);
                }
            }
            if self.endpoints[idx].open_until_ms.is_none() {
                let ghost before = out@;
                let mut next: Vec<usize> = Vec::new();
                next.push(idx);
                next.append(&mut out);
                out = next;
                assert(out@ =~= seq![idx] + before);
            }
        }
        out
    }

    /// The endpoint answered (or refused the request itself): its failures
    /// are forgotten and its circuit closes.
    pub fn record_success(&mut self, index: usize)
        requires
            index < old(self).states().len(),
        ensures
            final(self).states() == old(self).states().update(index as int, EndpointState {
                consecutive_failures: 0,
                open_until_ms: None,
                ..old(self).states()[index as int]
            }),
            final(self).spec_config() == old(self).spec_config(),
            final(self).spec_cursor() == old(self).spec_cursor(),
    {
        let mut e = self.endpoints.remove(index);
        e.consecutive_failures = 0;
        e.open_until_ms = None;
        self.endpoints.insert(index, e);
        assert(self.endpoints@ =~= old(self).endpoints@.update(index as int, e));
    }

    /// The endpoint failed recoverably at `now_ms`: one more consecutive
    /// failure (saturating); at the threshold its circuit opens until the
    /// cooldown has passed (saturating).
    pub fn record_failure(&mut self, index: usize, now_ms: u64)
        requires
            index < old(self).states().len(),
        ensures
            final(self).spec_config() == old(self).spec_config(),
            final(self).spec_cursor() == old(self).spec_cursor(),
            final(self).states().len() == old(self).states().len(),
            forall|j: int| 0 <= j < old(self).states().len() && j != index ==> #[trigger] final(self).states()[j] == old(self).states()[j],
            ({
                let o = old(self).states()[index as int];
                let n = final(self).states()[index as int];
                let f = if o.consecutive_failures == u32::MAX { u32::MAX } else { (o.consecutive_failures + 1) as u32 };
                let t = if old(self).spec_config().failure_threshold >= 1 { old(self).spec_config().failure_threshold } else { 1 };
                &&& n.name == o.name
                &&& n.consecutive_failures == f
                &&& n.open_until_ms == if f >= t {
                    Some(if now_ms + old(self).spec_config().cooldown_ms > u64::MAX { u64::MAX }
                        else { (now_ms + old(self).spec_config().cooldown_ms) as u64 })
                } else {
                    o.open_until_ms
                }
            }),
    {
        let mut e = self.endpoints.remove(index);
        e.consecutive_failures = e.consecutive_failures.saturating_add(1);
        let threshold = if self.config.failure_threshold >= 1 { self.config.failure_threshold } else { 1 };
        if e.consecutive_failures >= threshold {
            e.open_until_ms = Some(now_ms.saturating_add(self.config.cooldown_ms));
        }
        self.endpoints.insert(index, e);
        assert(self.endpoints@ =~= old(self).endpoints@.update(index as int, e));
    }

    /// How many of the selected endpoints a request may be tried on: all of
    /// them when it is safe to replay, else one.
    pub fn attempt_budget(request: &JsonRpcRequest, selected: usize) -> (r: usize)
        ensures
            r == spec_attempt_budget(*request, selected),
    {
        if is_request_idempotent(request) {
            selected
        } else if selected >= 1 {
            1
        } else {
            0
        }
    }

    /// Records what an attempt on endpoint `index` came to at `now_ms`: an
    /// answer, or a refusal by the endpoint itself, counts as health and
    /// stops; a recoverable failure counts against the endpoint and moves on.
    pub fn after_attempt(&mut self, index: usize, failure: Option<&McpError>, now_ms: u64) -> (r: AttemptOutcome)
        requires
            index < old(self).states().len(),
        ensures
            match failure {
                Some(e) => if spec_is_recoverable(*e) { r == AttemptOutcome::TryNext } else { r == AttemptOutcome::Stop },
                None => r == AttemptOutcome::Stop,
            },
            (failure matches Some(e) && spec_is_recoverable(*e)) ==> final(self).states()[index as int].consecutive_failures
                == (if old(self).states()[index as int].consecutive_failures == u32::MAX { u32::MAX }
                    else { (old(self).states()[index as int].consecutive_failures + 1) as u32 }),
            !(failure matches Some(e) && spec_is_recoverable(*e)) ==> final(self).states()[index as int].consecutive_failures == 0
                && final(self).states()[index as int].open_until_ms is None,
            final(self).states().len() == old(self).states().len(),
            forall|j: int| 0 <= j < old(self).states().len() && j != index ==> #[trigger] final(self).states()[j] == old(self).states()[j],
            final(self).spec_config() == old(self).spec_config(),
            final(self).spec_cursor() == old(self).spec_cursor(),
    {
        match failure {
            Some(e) => {
                if e.is_recoverable() {
                    self.record_failure(index, now_ms);
                    AttemptOutcome::TryNext
                } else {
                    self.record_success(index);
                    AttemptOutcome::Stop
                }
            },
            None => {
                self.record_success(index);
                AttemptOutcome::Stop
            },
        }
    }
}

/// The error a request fails with when no endpoint can be tried.
pub fn no_endpoint_error() -> (e: McpError)
    ensures
        e matches McpError::Connection(m) && m@ == "endpoint pool has no available endpoints"@,
{
    McpError::Connection(String::from_str("endpoint pool has no available endpoints"))
}

/// A request that is not safe to replay is tried on one endpoint at most;
/// in particular a tool call without an idempotency key is never replayed.
pub proof fn unsafe_requests_are_tried_once(request: JsonRpcRequest, selected: usize)
    ensures
        !spec_is_idempotent(request) ==> spec_attempt_budget(request, selected) <= 1,
        (request.method@ == TOOLS_CALL@ && idempotency_key(request) is None) ==> !spec_is_idempotent(request),
        spec_attempt_budget(request, selected) <= selected,
{
    reveal_strlit("tools/call");
    reveal_strlit("tools/list");
    reveal_strlit("ping");
    reveal_strlit("resources/list");
    reveal_strlit("resources/read");
    reveal_strlit("resources/templates/list");
    reveal_strlit("prompts/list");
    reveal_strlit("prompts/get");
    reveal_strlit("rpc.discover");
    if request.method@ == TOOLS_CALL@ {
        assert(TOOLS_CALL@[6] != TOOLS_LIST@[6]);
        assert(TOOLS_CALL@.len() != PING@.len());
        assert(TOOLS_CALL@.len() != RESOURCES_LIST@.len());
        assert(TOOLS_CALL@.len() != RESOURCES_READ@.len());
        assert(TOOLS_CALL@.len() != RESOURCES_TEMPLATES_LIST@.len());
        assert(TOOLS_CALL@.len() != PROMPTS_LIST@.len());
        assert(TOOLS_CALL@.len() != PROMPTS_GET@.len());
        assert(TOOLS_CALL@.len() != RPC_DISCOVER@.len());
    }
}

/// Read-only requests are safe to replay whatever their params: `ping`,
/// `tools/list`, `resources/list`, `resources/read`,
/// `resources/templates/list`, `prompts/list`, `prompts/get` and
/// `rpc.discover` are idempotent, so each selected endpoint may be tried in
/// turn.
pub proof fn read_only_requests_fail_over(request: JsonRpcRequest, selected: usize)
    requires
        request.method@ == "ping"@ || request.method@ == "tools/list"@ || request.method@ == "resources/list"@
            || request.method@ == "resources/read"@ || request.method@ == "resources/templates/list"@
            || request.method@ == "prompts/list"@ || request.method@ == "prompts/get"@
            || request.method@ == "rpc.discover"@,
    ensures
        spec_is_idempotent(request),
        spec_attempt_budget(request, selected) == selected,
{
}

/// Selection never picks an endpoint whose circuit is open: every index it
/// yields names an endpoint whose circuit is closed, and each such endpoint
/// is yielded at most once.
pub proof fn only_closed_circuits_are_selected(open: Seq<bool>, start: int)
    requires
        0 <= start < open.len(),
        open.len() <= usize::MAX,
    ensures
        forall|j: int| 0 <= j < rotation(open, start, 0).len() ==> {
            &&& (#[trigger] rotation(open, start, 0)[j]) < open.len()
            &&& !open[rotation(open, start, 0)[j] as int]
        },
        forall|a: int, b: int| 0 <= a < b < rotation(open, start, 0).len() ==>
            #[trigger] rotation(open, start, 0)[a] != #[trigger] rotation(open, start, 0)[b],
{
    lemma_rotation(open, start, 0);
}

proof fn lemma_rotation(open: Seq<bool>, start: int, k: int)
    requires
        0 <= start < open.len(),
        open.len() <= usize::MAX,
        0 <= k <= open.len(),
    ensures
        forall|j: int| 0 <= j < rotation(open, start, k).len() ==> {
            &&& (#[trigger] rotation(open, start, k)[j]) < open.len()
            &&& !open[rotation(open, start, k)[j] as int]
            &&& exists|m: int| k <= m < open.len() && rotation(open, start, k)[j] == #[trigger] slot(start, m, open.len() as int)
        },
        forall|a: int, b: int| 0 <= a < b < rotation(open, start, k).len() ==>
            #[trigger] rotation(open, start, k)[a] != #[trigger] rotation(open, start, k)[b],
    decreases open.len() - k,
{
    let len = open.len() as int;
    if k < len {
        lemma_rotation(open, start, k + 1);
        let i = (start + k) % len;
        assert(0 <= i < len);
        assert((i as usize) as int == i);
        let rest = rotation(open, start, k + 1);
        if !open[i] {
            let r = rotation(open, start, k);
            assert(r == seq![i as usize] + rest);
            assert forall|j: int| 0 <= j < r.len() implies {
                &&& (#[trigger] r[j]) < open.len()
                &&& !open[r[j] as int]
                &&& exists|m: int| k <= m < open.len() && r[j] == #[trigger] slot(start, m, len)
            } by {
                if j == 0 {
                    assert(r[0] == i as usize);
                    assert(k <= k < open.len() && r[0] == slot(start, k, len));
                } else {
                    assert(r[j] == rest[j - 1]);
                }
            }
            assert forall|a: int, b: int| 0 <= a < b < r.len() implies #[trigger] r[a] != #[trigger] r[b] by {
                if a == 0 {
                    assert(r[b] == rest[b - 1]);
                    let m = choose|m: int| k + 1 <= m < open.len() && rest[b - 1] == slot(start, m, len);
                    lemma_mod_distinct(start, k, m, len);
                } else {
                    assert(r[a] == rest[a - 1]);
                    assert(r[b] == rest[b - 1]);
                }
            }
        } else {
            assert forall|j: int| 0 <= j < rest.len() implies
                exists|m: int| k <= m < open.len() && (#[trigger] rest[j]) == slot(start, m, len) by {
                let m = choose|m: int| k + 1 <= m < open.len() && rest[j] == slot(start, m, len);
                assert(k <= m < open.len());
            }
        }
    }
}

/// The endpoint visited `m` steps after `start` in a round over `len`.
spec fn slot(start: int, m: int, len: int) -> int {
    (start + m) % len
}

proof fn lemma_mod_distinct(start: int, k: int, m: int, len: int)
    requires
        0 <= start < len,
        0 <= k < m < len,
    ensures
        (start + k) % len != (start + m) % len,
{
    assert((start + k) % len != (start + m) % len) by (nonlinear_arith)
        requires 0 <= start < len, 0 <= k < m < len;
}

} // verus!
