//! Runtime discovery (`rpc.discover`): a registry of the methods a server
//! speaks, the filters a client may ask for, and the grouped answer.
use vstd::prelude::*;
use vstd::string::StringExecFns;
use crate::error::McpError;
use crate::json::{JsonValue, json_get, json_get_str, json_same, json_clone, get_str};
use crate::protocol::{ServerCapabilities, Implementation, LATEST_PROTOCOL_VERSION};
use crate::protocol as p;
use crate::text::text_eq;

verus! {

broadcast use vstd::std_specs::vec::group_vec_axioms;

/// Who sends a method.
#[derive(Clone, Copy, Debug, PartialEq, Eq, Structural)]
pub enum MethodDirection {
    ClientToServer,
    ServerToClient,
    Bidirectional,
}

/// Whether a method is a request or a notification.
#[derive(Clone, Copy, Debug, PartialEq, Eq, Structural)]
pub enum MethodType {
    Request,
    Notification,
}

/// One method of the protocol as discovery reports it.
pub struct MethodInfo {
    pub name: String,
    pub description: Option<String>,
    pub direction: MethodDirection,
    pub method_type: MethodType,
    pub tags: Option<Vec<String>>,
    pub params_schema: Option<JsonValue>,
    pub result_schema: Option<JsonValue>,
}

/// The group a method is reported under: its first tag, or `uncategorized`.
pub open spec fn category_of(m: MethodInfo) -> Seq<char> {
    match m.tags {
        Some(t) => if t@.len() > 0 { t@[0]@ } else { "uncategorized"@ },
        None => "uncategorized"@,
    }
}

/// The method carries the tag `c`.
pub open spec fn has_tag(m: MethodInfo, c: Seq<char>) -> bool {
    m.tags matches Some(t) && exists|i: int| 0 <= i < t@.len() && (#[trigger] t@[i])@ == c
}

/// Which methods a discovery request asks for.
pub enum DiscoveryFilter {
    All,
    Client,
    Server,
    Notifications,
    Category(String),
}

/// A method passes a filter: by direction for `client` and `server`, by
/// type for `notifications`, by tag for a category.
pub open spec fn passes(m: MethodInfo, f: DiscoveryFilter) -> bool {
    match f {
        DiscoveryFilter::All => true,
        DiscoveryFilter::Client => m.direction == MethodDirection::ClientToServer,
        DiscoveryFilter::Server => m.direction == MethodDirection::ServerToClient,
        DiscoveryFilter::Notifications => m.method_type == MethodType::Notification,
        DiscoveryFilter::Category(c) => has_tag(m, c@),
    }
}

/// `b` reports the method `a`: the same name, description, direction, type
/// and tags, and its schemas when they are asked for (none otherwise).
pub open spec fn reports(b: MethodInfo, a: MethodInfo, with_schemas: bool) -> bool {
    &&& b.name == a.name
    &&& b.description == a.description
    &&& b.direction == a.direction
    &&& b.method_type == a.method_type
    &&& tag_views(b.tags) == tag_views(a.tags)
    &&& if with_schemas {
        opt_same(b.params_schema, a.params_schema) && opt_same(b.result_schema, a.result_schema)
    } else {
        b.params_schema is None && b.result_schema is None
    }
}

/// The tags of a method, as a sequence.
pub open spec fn tag_views(t: Option<Vec<String>>) -> Option<Seq<String>> {
    match t {
        Some(v) => Some(v@),
        None => None,
    }
}

/// Two optional JSON values are both absent or structurally equal.
pub open spec fn opt_same(a: Option<JsonValue>, b: Option<JsonValue>) -> bool {
    match (a, b) {
        (None, None) => true,
        (Some(x), Some(y)) => json_same(x, y),
        _ => false,
    }
}

/// The methods of `ms` reported under category `c`, in order.
pub open spec fn in_category(ms: Seq<MethodInfo>, c: Seq<char>) -> Seq<MethodInfo> {
    ms.filter(|m: MethodInfo| category_of(m) == c)
}

/// `groups` reports `selected` grouped by category: one non-empty group per
/// category that occurs, holding that category's methods in order.
pub open spec fn grouped(selected: Seq<MethodInfo>, groups: Seq<(String, Vec<MethodInfo>)>, with_schemas: bool) -> bool {
    &&& forall|g: int, h: int| 0 <= g < h < groups.len() ==> (#[trigger] groups[g]).0@ != (#[trigger] groups[h]).0@
    &&& forall|g: int| 0 <= g < groups.len() ==> {
        let members = in_category(selected, (#[trigger] groups[g]).0@);
        &&& groups[g].1@.len() == members.len()
        &&& members.len() > 0
        &&& forall|k: int| 0 <= k < members.len() ==> reports(#[trigger] groups[g].1@[k], members[k], with_schemas)
    }
    &&& forall|i: int| 0 <= i < selected.len() ==> #[trigger] has_group(groups, category_of(selected[i]))
}

/// Some group is named `c`.
pub open spec fn has_group(groups: Seq<(String, Vec<MethodInfo>)>, c: Seq<char>) -> bool {
    exists|g: int| 0 <= g < groups.len() && (#[trigger] groups[g]).0@ == c
}

fn copy_tags(t: &Option<Vec<String>>) -> (r: Option<Vec<String>>)
    ensures
        tag_views(r) == tag_views(*t),
{
    match t {
        Some(v) => {
            let mut out: Vec<String> = Vec::new();
            let n = v.len();
            let mut i: usize = 0;
            while i < n
                invariant
                    n == v@.len(),
                    i <= n,
                    out@ == v@.take(i as int),
                decreases n - i,
            {
                out.push(v[i].clone());
                assert(out@ =~= v@.take(i + 1));
                i = i + 1;
            }
            assert(v@.take(n as int) =~= v@);
            assert(out@ =~= v@);
            Some(out)
        },
        None => None,
    }
}

fn copy_opt_json(v: &Option<JsonValue>) -> (r: Option<JsonValue>)
    ensures
        opt_same(r, *v),
{
    match v {
        Some(x) => Some(json_clone(x)),
        None => None,
    }
}

/// A report of `m`, with or without its schemas.
pub fn report(m: &MethodInfo, with_schemas: bool) -> (r: MethodInfo)
    ensures
        reports(r, *m, with_schemas),
{
    MethodInfo {
        name: m.name.clone(),
        description: match &m.description {
            Some(d) => Some(d.clone()),
            None => None,
        },
        direction: m.direction,
        method_type: m.method_type,
        tags: copy_tags(&m.tags),
        params_schema: if with_schemas { copy_opt_json(&m.params_schema) } else { None },
        result_schema: if with_schemas { copy_opt_json(&m.result_schema) } else { None },
    }
}

/// The category a method is reported under.
pub fn method_category(m: &MethodInfo) -> (r: String)
    ensures
        r@ == category_of(*m),
{
    match &m.tags {
        Some(t) => if t.len() > 0 { t[0].clone() } else { String::from_str("uncategorized") },
        None => String::from_str("uncategorized"),
    }
}

/// Whether a method carries the tag `c`.
#[verifier::loop_isolation(false)]
pub fn method_has_tag(m: &MethodInfo, c: &str) -> (r: bool)
    ensures
        r == has_tag(*m, c@),
{
    match &m.tags {
        Some(t) => {
            let n = t.len();
            let mut i: usize = 0;
            while i < n
                invariant
                    n == t@.len(),
                    i <= n,
                    forall|j: int| 0 <= j < i ==> (#[trigger] t@[j])@ != c@,
                decreases n - i,
            {
                if text_eq(t[i].as_str(), c) {
                    assert((t@[i as int])@ == c@);
                    return true;
                }
                i = i + 1;
            }
            false
        },
        None => false,
    }
}

/// Whether a method passes a filter.
pub fn method_passes(m: &MethodInfo, f: &DiscoveryFilter) -> (r: bool)
    ensures
        r == passes(*m, *f),
{
    match f {
        DiscoveryFilter::All => true,
        DiscoveryFilter::Client => m.direction == MethodDirection::ClientToServer,
        DiscoveryFilter::Server => m.direction == MethodDirection::ServerToClient,
        DiscoveryFilter::Notifications => m.method_type == MethodType::Notification,
        DiscoveryFilter::Category(c) => method_has_tag(m, c.as_str()),
    }
}

/// Index of the group named `c`.
fn find_group(groups: &Vec<(String, Vec<MethodInfo>)>, c: &str) -> (r: Option<usize>)
    ensures
        r matches Some(g) ==> g < groups@.len() && groups@[g as int].0@ == c@,
        r is None ==> forall|g: int| 0 <= g < groups@.len() ==> (#[trigger] groups@[g]).0@ != c@,
{
    let n = groups.len();
    let mut i: usize = 0;
    while i < n
        invariant
            n == groups@.len(),
            i <= n,
            forall|g: int| 0 <= g < i ==> (#[trigger] groups@[g]).0@ != c@,
        decreases n - i,
    {
        if text_eq(groups[i].0.as_str(), c) {
            return Some(i);
        }
        i = i + 1;
    }
    None
}

proof fn lemma_category_push(before: Seq<MethodInfo>, m: MethodInfo, cat: Seq<char>)
    ensures
        in_category(before.push(m), cat) == if category_of(m) == cat {
            in_category(before, cat).push(m)
        } else {
            in_category(before, cat)
        },
{
    before.lemma_filter_push(m, |x: MethodInfo| category_of(x) == cat);
}

proof fn lemma_absent_category(before: Seq<MethodInfo>, prev: Seq<(String, Vec<MethodInfo>)>, c: Seq<char>, w: bool)
    requires
        grouped(before, prev, w),
        forall|g: int| 0 <= g < prev.len() ==> (#[trigger] prev[g]).0@ != c,
    ensures
        in_category(before, c).len() == 0,
{
    let f = |x: MethodInfo| category_of(x) == c;
    if in_category(before, c).len() > 0 {
        let x = before.filter(f)[0];
        before.lemma_filter_pred(f, 0);
        assert(before.filter(f).contains(x));
        before.lemma_filter_contains_rev(f, x);
        let k = choose|k: int| 0 <= k < before.len() && before[k] == x;
        assert(category_of(before[k]) == c);
        assert(has_group(prev, category_of(before[k])));
        let h = choose|h: int| 0 <= h < prev.len() && (#[trigger] prev[h]).0@ == category_of(before[k]);
        assert(false);
    }
}

proof fn lemma_group_step_existing(before: Seq<MethodInfo>, m: MethodInfo, prev: Seq<(String, Vec<MethodInfo>)>,
    g: int, item: MethodInfo, next: Seq<(String, Vec<MethodInfo>)>, w: bool)
    requires
        grouped(before, prev, w),
        0 <= g < prev.len(),
        prev[g].0@ == category_of(m),
        reports(item, m, w),
        next.len() == prev.len(),
        next[g].0 == prev[g].0,
        next[g].1@ == prev[g].1@.push(item),
        forall|h: int| 0 <= h < prev.len() && h != g ==> #[trigger] next[h] == prev[h],
    ensures
        grouped(before.push(m), next, w),
{
    let after = before.push(m);
    assert forall|h: int| 0 <= h < next.len() implies (#[trigger] next[h]).0@ == prev[h].0@ by {}
    assert forall|h: int| 0 <= h < next.len() implies {
        let members = in_category(after, (#[trigger] next[h]).0@);
        &&& next[h].1@.len() == members.len()
        &&& members.len() > 0
        &&& forall|k: int| 0 <= k < members.len() ==> reports(#[trigger] next[h].1@[k], members[k], w)
    } by {
        lemma_category_push(before, m, next[h].0@);
        if h != g {
            assert(next[h].0@ != category_of(m));
        } else {
            assert forall|k: int| 0 <= k < in_category(after, next[h].0@).len()
                implies reports(#[trigger] next[h].1@[k], in_category(after, next[h].0@)[k], w) by {
                if k < prev[g].1@.len() {
                    assert(next[h].1@[k] == prev[g].1@[k]);
                }
            }
        }
    }
    assert forall|i: int| 0 <= i < after.len() implies #[trigger] has_group(next, category_of(after[i])) by {
        if i < before.len() {
            assert(after[i] == before[i]);
            assert(has_group(prev, category_of(before[i])));
            let h = choose|h: int| 0 <= h < prev.len() && (#[trigger] prev[h]).0@ == category_of(before[i]);
            assert(next[h].0@ == prev[h].0@);
        } else {
            assert(after[i] == m);
            assert(next[g].0@ == category_of(m));
        }
    }
}

proof fn lemma_group_step_new(before: Seq<MethodInfo>, m: MethodInfo, prev: Seq<(String, Vec<MethodInfo>)>,
    c: String, members: Vec<MethodInfo>, item: MethodInfo, w: bool)
    requires
        grouped(before, prev, w),
        forall|g: int| 0 <= g < prev.len() ==> (#[trigger] prev[g]).0@ != c@,
        c@ == category_of(m),
        reports(item, m, w),
        members@ == seq![item],
    ensures
        grouped(before.push(m), prev.push((c, members)), w),
{
    let after = before.push(m);
    let next = prev.push((c, members));
    lemma_absent_category(before, prev, c@, w);
    assert forall|g: int, h: int| 0 <= g < h < next.len() implies (#[trigger] next[g]).0@ != (#[trigger] next[h]).0@ by {
        assert(next[g] == prev[g]);
        if h < prev.len() {
            assert(next[h] == prev[h]);
        }
    }
    assert forall|h: int| 0 <= h < next.len() implies {
        let ms = in_category(after, (#[trigger] next[h]).0@);
        &&& next[h].1@.len() == ms.len()
        &&& ms.len() > 0
        &&& forall|k: int| 0 <= k < ms.len() ==> reports(#[trigger] next[h].1@[k], ms[k], w)
    } by {
        lemma_category_push(before, m, next[h].0@);
        if h < prev.len() {
            assert(next[h] == prev[h]);
        } else {
            assert(in_category(before, c@) =~= Seq::<MethodInfo>::empty());
            assert(in_category(after, c@) =~= seq![m]);
        }
    }
    assert forall|i: int| 0 <= i < after.len() implies #[trigger] has_group(next, category_of(after[i])) by {
        if i < before.len() {
            assert(after[i] == before[i]);
            assert(has_group(prev, category_of(before[i])));
            let h = choose|h: int| 0 <= h < prev.len() && (#[trigger] prev[h]).0@ == category_of(before[i]);
            assert(next[h] == prev[h]);
        } else {
            assert(after[i] == m);
            assert(next[prev.len() as int].0@ == category_of(after[i]));
        }
    }
    assert(forall|g: int, h: int| 0 <= g < h < next.len() ==> (#[trigger] next[g]).0@ != (#[trigger] next[h]).0@);
    assert(forall|g: int| 0 <= g < next.len() ==> {
        let members = in_category(after, (#[trigger] next[g]).0@);
        &&& next[g].1@.len() == members.len()
        &&& members.len() > 0
        &&& forall|k: int| 0 <= k < members.len() ==> reports(#[trigger] next[g].1@[k], members[k], w)
    });
}

/// The methods of `ms` that pass `f`, in order.
pub open spec fn selected_by(ms: Seq<MethodInfo>, f: DiscoveryFilter) -> Seq<MethodInfo> {
    ms.filter(|m: MethodInfo| passes(m, f))
}

/// Groups the methods that pass `f` by category, in order of first
/// appearance.
pub fn group_selected(ms: &Vec<MethodInfo>, f: &DiscoveryFilter, with_schemas: bool) -> (r: Vec<(String, Vec<MethodInfo>)>)
    ensures
        grouped(selected_by(ms@, *f), r@, with_schemas),
{
    let mut groups: Vec<(String, Vec<MethodInfo>)> = Vec::new();
    let n = ms.len();
    let mut i: usize = 0;
    assert(ms@.take(0) =~= Seq::<MethodInfo>::empty());
    assert(selected_by(Seq::<MethodInfo>::empty(), *f) =~= Seq::<MethodInfo>::empty()) by {
        reveal(Seq::filter);
    }
    while i < n
        invariant
            n == ms@.len(),
            i <= n,
            grouped(selected_by(ms@.take(i as int), *f), groups@, with_schemas),
        decreases n - i,
    {
        let m = &ms[i];
        let ghost before = selected_by(ms@.take(i as int), *f);
        assert(ms@.take(i + 1) =~= ms@.take(i as int).push(ms@[i as int]));
        proof {
            ms@.take(i as int).lemma_filter_push(ms@[i as int], |x: MethodInfo| passes(x, *f));
        }
        if method_passes(m, f) {
            let c = method_category(m);
            let item = report(m, with_schemas);
            let ghost prev = groups@;
            match find_group(&groups, c.as_str()) {
                Some(g) => {
                    let mut entry = groups.remove(g);
                    entry.1.push(item);
                    groups.insert(g, entry);
                    proof {
                        lemma_group_step_existing(before, ms@[i as int], prev, g as int, item, groups@, with_schemas);
                    }
                },
                None => {
                    let mut members: Vec<MethodInfo> = Vec::new();
                    members.push(item);
                    let ghost mv = members;
                    let ghost cc = c;
                    groups.push((c, members));
                    proof {
                        assert(members@ =~= seq![item]);
                        lemma_group_step_new(before, ms@[i as int], prev, cc, mv, item, with_schemas);
                        assert(groups@ =~= prev.push((cc, mv)));
                    }
                },
            }
        }
        i = i + 1;
    }
    assert(ms@.take(n as int) =~= ms@);
    groups
}

/// A method's entry in the standard registry: name, direction, type and
/// category tag, for each method of the protocol.
pub open spec fn standard_entry(i: int) -> (Seq<char>, MethodDirection, MethodType, Seq<char>) {
    let c2s = MethodDirection::ClientToServer;
    let s2c = MethodDirection::ServerToClient;
    let both = MethodDirection::Bidirectional;
    let req = MethodType::Request;
    let note = MethodType::Notification;
    if i == 0 { (p::INITIALIZE@, c2s, req, "lifecycle"@) }
    else if i == 1 { (p::PING@, both, req, "lifecycle"@) }
    else if i == 2 { (p::TOOLS_LIST@, c2s, req, "tools"@) }
    else if i == 3 { (p::TOOLS_CALL@, c2s, req, "tools"@) }
    else if i == 4 { (p::RESOURCES_LIST@, c2s, req, "resources"@) }
    else if i == 5 { (p::RESOURCES_READ@, c2s, req, "resources"@) }
    else if i == 6 { (p::RESOURCES_SUBSCRIBE@, c2s, req, "resources"@) }
    else if i == 7 { (p::RESOURCES_UNSUBSCRIBE@, c2s, req, "resources"@) }
    else if i == 8 { (p::RESOURCES_TEMPLATES_LIST@, c2s, req, "resources"@) }
    else if i == 9 { (p::PROMPTS_LIST@, c2s, req, "prompts"@) }
    else if i == 10 { (p::PROMPTS_GET@, c2s, req, "prompts"@) }
    else if i == 11 { (p::COMPLETION_COMPLETE@, c2s, req, "completion"@) }
    else if i == 12 { (p::LOGGING_SET_LEVEL@, c2s, req, "logging"@) }
    else if i == 13 { (p::RPC_DISCOVER@, c2s, req, "discovery"@) }
    else if i == 14 { (p::SUBSCRIPTIONS_LISTEN@, c2s, req, "subscriptions"@) }
    else if i == 15 { (p::SAMPLING_CREATE_MESSAGE@, s2c, req, "sampling"@) }
    else if i == 16 { (p::ROOTS_LIST@, s2c, req, "roots"@) }
    else if i == 17 { (p::ELICITATION_CREATE@, s2c, req, "elicitation"@) }
    else if i == 18 { (p::INITIALIZED@, c2s, note, "notifications"@) }
    else if i == 19 { (p::CANCELLED@, both, note, "notifications"@) }
    else if i == 20 { (p::PROGRESS@, both, note, "notifications"@) }
    else if i == 21 { (p::LOGGING_MESSAGE@, s2c, note, "notifications"@) }
    else if i == 22 { (p::TOOLS_LIST_CHANGED@, s2c, note, "notifications"@) }
    else if i == 23 { (p::RESOURCES_LIST_CHANGED@, s2c, note, "notifications"@) }
    else if i == 24 { (p::RESOURCES_UPDATED@, s2c, note, "notifications"@) }
    else if i == 25 { (p::PROMPTS_LIST_CHANGED@, s2c, note, "notifications"@) }
    else if i == 26 { (p::ROOTS_LIST_CHANGED@, c2s, note, "notifications"@) }
    else { (p::TASKS_STATUS@, s2c, note, "notifications"@) }
}

/// Number of methods in the standard registry.
pub const STANDARD_METHOD_COUNT: usize = 28;

/// `m` is the registry entry `e`, with one tag, no description and no
/// schemas.
pub open spec fn is_entry(m: MethodInfo, e: (Seq<char>, MethodDirection, MethodType, Seq<char>)) -> bool {
    &&& m.name@ == e.0
    &&& m.direction == e.1
    &&& m.method_type == e.2
    &&& m.tags matches Some(t) && t@.len() == 1 && t@[0]@ == e.3
    &&& m.description is None
    &&& m.params_schema is None
    &&& m.result_schema is None
}

fn entry(name: &str, direction: MethodDirection, method_type: MethodType, tag: &str) -> (m: MethodInfo)
    ensures
        is_entry(m, (name@, direction, method_type, tag@)),
{
    let mut tags: Vec<String> = Vec::new();
    tags.push(String::from_str(tag));
    MethodInfo {
        name: String::from_str(name),
        description: None,
        direction,
        method_type,
        tags: Some(tags),
        params_schema: None,
        result_schema: None,
    }
}

/// The methods a server can describe.
pub struct MethodRegistry {
    methods: Vec<MethodInfo>,
}

impl MethodRegistry {
    /// The registered methods, in registration order.
    pub closed spec fn methods(self) -> Seq<MethodInfo> {
        self.methods@
    }

    /// An empty registry.
    pub fn new() -> (r: MethodRegistry)
        ensures
            r.methods().len() == 0,
    {
        MethodRegistry { methods: Vec::new() }
    }

    /// Adds a method at the end.
    pub fn register(&mut self, m: MethodInfo)
        ensures
            final(self).methods() == old(self).methods().push(m),
    {
        self.methods.push(m);
    }

    /// The registered methods.
    pub fn get_methods(&self) -> (r: &Vec<MethodInfo>)
        ensures
            r@ == self.methods(),
    {
        &self.methods
    }

    /// Every method of the protocol, with its direction, type and category.
    pub fn build_standard_registry() -> (r: MethodRegistry)
        ensures
            r.methods().len() == STANDARD_METHOD_COUNT,
            forall|i: int| 0 <= i < STANDARD_METHOD_COUNT ==> is_entry(#[trigger] r.methods()[i], standard_entry(i)),
    {
        let c2s = MethodDirection::ClientToServer;
        let s2c = MethodDirection::ServerToClient;
        let both = MethodDirection::Bidirectional;
        let req = MethodType::Request;
        let note = MethodType::Notification;
        let mut v: Vec<MethodInfo> = Vec::new();
        v.push(entry(p::INITIALIZE, c2s, req, "lifecycle"));
        v.push(entry(p::PING, both, req, "lifecycle"));
        v.push(entry(p::TOOLS_LIST, c2s, req, "tools"));
        v.push(entry(p::TOOLS_CALL, c2s, req, "tools"));
        v.push(entry(p::RESOURCES_LIST, c2s, req, "resources"));
        v.push(entry(p::RESOURCES_READ, c2s, req, "resources"));
        v.push(entry(p::RESOURCES_SUBSCRIBE, c2s, req, "resources"));
        v.push(entry(p::RESOURCES_UNSUBSCRIBE, c2s, req, "resources"));
        v.push(entry(p::RESOURCES_TEMPLATES_LIST, c2s, req, "resources"));
        v.push(entry(p::PROMPTS_LIST, c2s, req, "prompts"));
        v.push(entry(p::PROMPTS_GET, c2s, req, "prompts"));
        v.push(entry(p::COMPLETION_COMPLETE, c2s, req, "completion"));
        v.push(entry(p::LOGGING_SET_LEVEL, c2s, req, "logging"));
        v.push(entry(p::RPC_DISCOVER, c2s, req, "discovery"));
        v.push(entry(p::SUBSCRIPTIONS_LISTEN, c2s, req, "subscriptions"));
        v.push(entry(p::SAMPLING_CREATE_MESSAGE, s2c, req, "sampling"));
        v.push(entry(p::ROOTS_LIST, s2c, req, "roots"));
        v.push(entry(p::ELICITATION_CREATE, s2c, req, "elicitation"));
        v.push(entry(p::INITIALIZED, c2s, note, "notifications"));
        v.push(entry(p::CANCELLED, both, note, "notifications"));
        v.push(entry(p::PROGRESS, both, note, "notifications"));
        v.push(entry(p::LOGGING_MESSAGE, s2c, note, "notifications"));
        v.push(entry(p::TOOLS_LIST_CHANGED, s2c, note, "notifications"));
        v.push(entry(p::RESOURCES_LIST_CHANGED, s2c, note, "notifications"));
        v.push(entry(p::RESOURCES_UPDATED, s2c, note, "notifications"));
        v.push(entry(p::PROMPTS_LIST_CHANGED, s2c, note, "notifications"));
        v.push(entry(p::ROOTS_LIST_CHANGED, c2s, note, "notifications"));
        v.push(entry(p::TASKS_STATUS, s2c, note, "notifications"));
        MethodRegistry { methods: v }
    }
}

/// What a discovery request asks for.
pub struct DiscoverRequest {
    pub filter: Option<DiscoveryFilter>,
    pub include_schemas: bool,
    pub include_capabilities: bool,
}

/// How a filter reads from JSON: `all`, `client`, `server`,
/// `notifications`, or `{"category": name}`; absent or `null` is no filter.
pub open spec fn filter_of(v: Option<JsonValue>, f: Option<DiscoveryFilter>) -> bool {
    match v {
        None => f is None,
        Some(JsonValue::Null) => f is None,
        Some(JsonValue::Str(s)) => if s@ == "all"@ { f == Some(DiscoveryFilter::All) }
            else if s@ == "client"@ { f == Some(DiscoveryFilter::Client) }
            else if s@ == "server"@ { f == Some(DiscoveryFilter::Server) }
            else if s@ == "notifications"@ { f == Some(DiscoveryFilter::Notifications) }
            else { false },
        Some(o) => o is Object && (json_get_str(o, "category"@) matches Some(c)
            && (f matches Some(DiscoveryFilter::Category(x)) && x@ == c)),
    }
}

/// A filter value that reads.
pub open spec fn filter_readable(v: Option<JsonValue>) -> bool {
    match v {
        None => true,
        Some(JsonValue::Null) => true,
        Some(JsonValue::Str(s)) => s@ == "all"@ || s@ == "client"@ || s@ == "server"@ || s@ == "notifications"@,
        Some(o) => o is Object && json_get_str(o, "category"@) is Some,
    }
}

/// How a switch reads from JSON: absent or `null` is on, a boolean is
/// itself; anything else does not read.
pub open spec fn switch_of(v: Option<JsonValue>) -> Option<bool> {
    match v {
        None => Some(true),
        Some(JsonValue::Null) => Some(true),
        Some(JsonValue::Bool(b)) => Some(b),
        _ => None,
    }
}

/// The params of `rpc.discover` read as a request: no params ask for
/// everything; params must be an object with a readable `filter`,
/// `include_schemas` and `include_capabilities`.
pub open spec fn discover_request_of(params: Option<JsonValue>, r: Result<DiscoverRequest, McpError>) -> bool {
    match params {
        None => r matches Ok(q) && q.filter == Some(DiscoveryFilter::All) && q.include_schemas && q.include_capabilities,
        Some(v) => if v is Object && filter_readable(json_get(v, "filter"@))
            && switch_of(json_get(v, "include_schemas"@)) is Some
            && switch_of(json_get(v, "include_capabilities"@)) is Some {
            r matches Ok(q) && filter_of(json_get(v, "filter"@), q.filter)
                && Some(q.include_schemas) == switch_of(json_get(v, "include_schemas"@))
                && Some(q.include_capabilities) == switch_of(json_get(v, "include_capabilities"@))
        } else {
            r matches Err(McpError::Validation(m)) && m@ == "Invalid discover params"@
        },
    }
}

fn read_switch(v: Option<&JsonValue>) -> (r: Option<bool>)
    ensures
        r == switch_of(match v { Some(x) => Some(*x), None => None }),
{
    match v {
        None => Some(true),
        Some(JsonValue::Null) => Some(true),
        Some(JsonValue::Bool(b)) => Some(*b),
        _ => None,
    }
}

fn read_filter(v: Option<&JsonValue>) -> (r: Option<Option<DiscoveryFilter>>)
    ensures
        r is Some <==> filter_readable(match v { Some(x) => Some(*x), None => None }),
        r matches Some(f) ==> filter_of(match v { Some(x) => Some(*x), None => None }, f),
{
    match v {
        None => Some(None),
        Some(JsonValue::Null) => Some(None),
        Some(JsonValue::Str(s)) => {
            if text_eq(s.as_str(), "all") {
                Some(Some(DiscoveryFilter::All))
            } else if text_eq(s.as_str(), "client") {
                Some(Some(DiscoveryFilter::Client))
            } else if text_eq(s.as_str(), "server") {
                Some(Some(DiscoveryFilter::Server))
            } else if text_eq(s.as_str(), "notifications") {
                Some(Some(DiscoveryFilter::Notifications))
            } else {
                None
            }
        },
        Some(o) => {
            let is_object = match o {
                JsonValue::Object(_) => true,
                _ => false,
            };
            if !is_object {
                return None;
            }
            match get_str(o, "category") {
                Some(c) => Some(Some(DiscoveryFilter::Category(c.clone()))),
                None => None,
            }
        },
    }
}

/// Reads the params of `rpc.discover`.
pub fn read_discover_request(params: &Option<JsonValue>) -> (r: Result<DiscoverRequest, McpError>)
    ensures
        discover_request_of(*params, r),
{
    match params {
        None => Ok(DiscoverRequest { filter: Some(DiscoveryFilter::All), include_schemas: true, include_capabilities: true }),
        Some(v) => {
            let is_object = match v {
                JsonValue::Object(_) => true,
                _ => false,
            };
            let f = read_filter(v.get("filter"));
            let s = read_switch(v.get("include_schemas"));
            let c = read_switch(v.get("include_capabilities"));
            match (is_object, f, s, c) {
                (true, Some(f), Some(s), Some(c)) => Ok(DiscoverRequest { filter: f, include_schemas: s, include_capabilities: c }),
                _ => Err(McpError::Validation(String::from_str("Invalid discover params"))),
            }
        },
    }
}

/// What a server reports of its own capabilities.
pub struct ServerCapabilityInfo {
    pub tools: bool,
    pub resources: bool,
    pub prompts: bool,
    pub logging: bool,
    pub completions: bool,
    pub experimental: Option<Vec<String>>,
}

/// Client capabilities a server requires or can use.
pub struct ClientCapabilityInfo {
    pub sampling: bool,
    pub roots: bool,
    pub elicitation: bool,
    pub experimental: Option<Vec<String>>,
}

/// The capability part of a discovery answer.
pub struct DiscoveredCapabilities {
    pub server: Option<ServerCapabilityInfo>,
    pub required_client: Option<ClientCapabilityInfo>,
    pub optional_client: Option<ClientCapabilityInfo>,
}

/// Who answers.
pub struct DiscoveryMetadata {
    pub server_name: Option<String>,
    pub server_version: Option<String>,
    pub documentation_url: Option<String>,
    pub support_contact: Option<String>,
    pub rate_limits: Option<JsonValue>,
}

/// The answer to `rpc.discover`.
pub struct DiscoverResult {
    pub protocol_version: String,
    pub methods: Vec<(String, Vec<MethodInfo>)>,
    pub capabilities: Option<DiscoveredCapabilities>,
    pub metadata: Option<DiscoveryMetadata>,
}

/// The keys of an object's entries, in order.
pub open spec fn entry_keys(es: Seq<(String, JsonValue)>) -> Seq<String> {
    es.map_values(|e: (String, JsonValue)| e.0)
}

fn keys_of(es: &Vec<(String, JsonValue)>) -> (r: Vec<String>)
    ensures
        r@ == entry_keys(es@),
{
    let mut out: Vec<String> = Vec::new();
    let n = es.len();
    let mut i: usize = 0;
    while i < n
        invariant
            n == es@.len(),
            i <= n,
            out@ == entry_keys(es@.take(i as int)),
        decreases n - i,
    {
        out.push(es[i].0.clone());
        assert(entry_keys(es@.take(i + 1)) =~= entry_keys(es@.take(i as int)).push(es@[i as int].0));
        i = i + 1;
    }
    assert(es@.take(n as int) =~= es@);
    out
}

/// Answers `rpc.discover` requests from a method registry.
pub struct DiscoveryHandler {
    registry: MethodRegistry,
}

impl DiscoveryHandler {
    /// The registry the handler answers from.
    pub closed spec fn spec_registry(self) -> MethodRegistry {
        self.registry
    }

    /// A handler over the standard registry.
    pub fn new() -> (r: DiscoveryHandler)
        ensures
            r.spec_registry().methods().len() == STANDARD_METHOD_COUNT,
            forall|i: int| 0 <= i < STANDARD_METHOD_COUNT ==> is_entry(#[trigger] r.spec_registry().methods()[i], standard_entry(i)),
    {
        DiscoveryHandler { registry: MethodRegistry::build_standard_registry() }
    }

    /// A handler over a registry of the caller's.
    pub fn with_registry(registry: MethodRegistry) -> (r: DiscoveryHandler)
        ensures
            r.spec_registry() == registry,
    {
        DiscoveryHandler { registry }
    }

    /// Answers a discovery request: the methods that pass the filter (all
    /// without one), grouped by category, with schemas only when asked; the
    /// server's capabilities when asked; and who answers.
    pub fn handle(&self, server_info: &Implementation, capabilities: &ServerCapabilities, params: Option<JsonValue>) -> (r: Result<DiscoverResult, McpError>)
        ensures
            exists|q: Result<DiscoverRequest, McpError>| {
                &&& discover_request_of(params, q)
                &&& match q {
                    Err(e) => r == Err::<DiscoverResult, McpError>(e),
                    Ok(req) => r matches Ok(res) && {
                        let f = match req.filter { Some(f) => f, None => DiscoveryFilter::All };
                        &&& res.protocol_version@ == LATEST_PROTOCOL_VERSION@
                        &&& grouped(selected_by(self.spec_registry().methods(), f), res.methods@, req.include_schemas)
                        &&& (req.include_capabilities <==> res.capabilities is Some)
                        &&& res.capabilities matches Some(c) ==> {
                            &&& c.server matches Some(s) && {
                                &&& s.tools == capabilities.tools is Some
                                &&& s.resources == capabilities.resources is Some
                                &&& s.prompts == capabilities.prompts is Some
                                &&& s.logging == capabilities.logging is Some
                                &&& s.completions == capabilities.completions is Some
                                &&& match (s.experimental, capabilities.experimental) {
                                    (Some(k), Some(es)) => k@ == entry_keys(es@),
                                    (None, None) => true,
                                    _ => false,
                                }
                            }
                            &&& c.required_client is None
                            &&& c.optional_client matches Some(o) && o.sampling && o.roots && o.elicitation && o.experimental is None
                        }
                        &&& res.metadata matches Some(md) && {
                            &&& md.server_name == Some(server_info.name)
                            &&& md.server_version == Some(server_info.version)
                            &&& md.documentation_url is None
                            &&& md.support_contact is None
                            &&& md.rate_limits is None
                        }
                    },
                }
            },
    {
        let req = read_discover_request(&params);
        let ghost q = req;
        let req = match req {
            Ok(req) => req,
            Err(e) => return Err(e),
        };
        let f = match req.filter {
            Some(f) => f,
            None => DiscoveryFilter::All,
        };
        let methods = group_selected(&self.registry.methods, &f, req.include_schemas);
        let caps = if req.include_capabilities {
            Some(DiscoveredCapabilities {
                server: Some(ServerCapabilityInfo {
                    tools: capabilities.tools.is_some(),
                    resources: capabilities.resources.is_some(),
                    prompts: capabilities.prompts.is_some(),
                    logging: capabilities.logging.is_some(),
                    completions: capabilities.completions.is_some(),
                    experimental: match &capabilities.experimental {
                        Some(es) => Some(keys_of(es)),
                        None => None,
                    },
                }),
                required_client: None,
                optional_client: Some(ClientCapabilityInfo { sampling: true, roots: true, elicitation: true, experimental: None }),
            })
        } else {
            None
        };
        let metadata = DiscoveryMetadata {
            server_name: Some(server_info.name.clone()),
            server_version: Some(server_info.version.clone()),
            documentation_url: None,
            support_contact: None,
            rate_limits: None,
        };
        Ok(DiscoverResult {
            protocol_version: String::from_str(LATEST_PROTOCOL_VERSION),
            methods,
            capabilities: caps,
            metadata: Some(metadata),
        })
    }
}

} // verus!
