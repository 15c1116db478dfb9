//! The proxy core's controller data: proxy groups and nodes, which group and
//! node to use, and the paths used to address them.
use vstd::prelude::*;
use vstd::string::StringSliceAdditionalSpecFns;
use vstd::utf8::encode_utf8;

use crate::json::{
    as_str, as_string, get, get_opt, get_opt_ref, get_ref, member, member_ref, seq_lt, str_lt,
    lemma_seq_lt_irreflexive, lemma_seq_lt_total, lemma_seq_lt_transitive,
    opt_deref, JsonMember, JsonValue,
};
use crate::text::{
    dec_digits, dec_string, push_str, chars_of, eq_ignore_case, eq_ignore_case_str, hex_digit_upper, is_ascii_alnum, owned,
    str_eq, trim, trim_str,
};

verus! {

#[derive(Debug, Clone, PartialEq, Eq)]
pub struct ProxyState {
    pub groups: Vec<ProxyGroup>,
}

#[derive(Debug, Clone, PartialEq, Eq)]
pub struct ProxyGroup {
    pub name: String,
    pub selected: String,
    pub nodes: Vec<ProxyNode>,
}

#[derive(Debug, Clone, PartialEq, Eq)]
pub struct ProxyNode {
    pub name: String,
    pub kind: String,
}

#[derive(Debug, Clone, PartialEq, Eq)]
pub struct DelayResult {
    pub name: String,
    pub delay_ms: Option<u64>,
    pub error: Option<String>,
}

pub struct NodeView {
    pub name: Seq<char>,
    pub kind: Seq<char>,
}

pub struct GroupView {
    pub name: Seq<char>,
    pub selected: Seq<char>,
    pub nodes: Seq<NodeView>,
}

impl View for ProxyNode {
    type V = NodeView;

    open spec fn view(&self) -> NodeView {
        NodeView { name: self.name@, kind: self.kind@ }
    }
}

impl DeepView for ProxyNode {
    type V = NodeView;

    open spec fn deep_view(&self) -> NodeView {
        self@
    }
}

impl View for ProxyGroup {
    type V = GroupView;

    open spec fn view(&self) -> GroupView {
        GroupView { name: self.name@, selected: self.selected@, nodes: self.nodes.deep_view() }
    }
}

impl DeepView for ProxyGroup {
    type V = GroupView;

    open spec fn deep_view(&self) -> GroupView {
        self@
    }
}

impl View for ProxyState {
    type V = Seq<GroupView>;

    open spec fn view(&self) -> Seq<GroupView> {
        self.groups.deep_view()
    }
}

impl ProxyNode {
    pub fn duplicate(&self) -> (r: ProxyNode)
        ensures
            r@ == self@,
    {
        ProxyNode { name: self.name.clone(), kind: self.kind.clone() }
    }
}

impl ProxyGroup {
    pub fn duplicate(&self) -> (r: ProxyGroup)
        ensures
            r@ == self@,
    {
        let mut nodes: Vec<ProxyNode> = Vec::new();
        let mut i: usize = 0;
        while i < self.nodes.len()
            invariant
                i <= self.nodes.len(),
                nodes@.len() == i,
                forall|k: int| 0 <= k < i ==> (#[trigger] nodes@[k])@ == self.nodes@[k]@,
            decreases self.nodes.len() - i,
        {
            nodes.push(self.nodes[i].duplicate());
            i = i + 1;
        }
        assert(nodes.deep_view() =~= self.nodes.deep_view());
        ProxyGroup { name: self.name.clone(), selected: self.selected.clone(), nodes }
    }
}

#[derive(Debug, Clone, PartialEq, Eq)]
pub enum ControllerError {
    /// The response is not JSON; the payload is the parser's message.
    NotJson(String),
    /// The response has no `proxies` object.
    MissingProxies,
    /// No proxy lists a non-empty `all`.
    NoGroups,
}

impl ControllerError {
    pub fn message(&self) -> (r: String)
        ensures
            r@ == match self {
                ControllerError::NotJson(cause) => "mihomo proxy response is not JSON: "@ + cause@,
                ControllerError::MissingProxies =>
                    "mihomo proxy response is missing proxies object"@,
                ControllerError::NoGroups =>
                    "mihomo proxy response does not contain selectable proxy groups"@,
            },
    {
        match self {
            ControllerError::NotJson(cause) => {
                let mut r = String::from_str("mihomo proxy response is not JSON: ");
                crate::text::push_str(&mut r, cause.as_str());
                r
            },
            ControllerError::MissingProxies => String::from_str(
                "mihomo proxy response is missing proxies object",
            ),
            ControllerError::NoGroups => String::from_str(
                "mihomo proxy response does not contain selectable proxy groups",
            ),
        }
    }
}

// ---------------------------------------------------------------------------
// Proxy state from the controller's `/proxies` response
// ---------------------------------------------------------------------------

/// The `type` of the proxy named `name`, or `Unknown`.
pub open spec fn node_kind(proxies: Seq<JsonMember>, name: Seq<char>) -> Seq<char> {
    match as_str(get_opt(member(proxies, name), "type"@)) {
        Some(t) => t,
        None => "Unknown"@,
    }
}

/// The nodes of a group: the string entries of its `all` list.
pub open spec fn group_nodes(all: Seq<JsonValue>, proxies: Seq<JsonMember>) -> Seq<NodeView>
    decreases all.len(),
{
    if all.len() == 0 {
        Seq::empty()
    } else {
        let rest = group_nodes(all.drop_last(), proxies);
        match all.last() {
            JsonValue::String(n) => rest.push(NodeView { name: n@, kind: node_kind(proxies, n@) }),
            _ => rest,
        }
    }
}

/// A proxy with a non-empty `all` list is a group.
pub open spec fn group_of(m: JsonMember, proxies: Seq<JsonMember>) -> Option<GroupView> {
    match get(m.value, "all"@) {
        Some(JsonValue::Array(all)) => if all@.len() > 0 {
            Some(
                GroupView {
                    name: m.key@,
                    selected: match as_str(get(m.value, "now"@)) {
                        Some(s) => s,
                        None => Seq::empty(),
                    },
                    nodes: group_nodes(all@, proxies),
                },
            )
        } else {
            None
        },
        _ => None,
    }
}

/// The groups among `members`, in order.
pub open spec fn groups_of(members: Seq<JsonMember>, proxies: Seq<JsonMember>) -> Seq<GroupView>
    decreases members.len(),
{
    if members.len() == 0 {
        Seq::empty()
    } else {
        let rest = groups_of(members.drop_last(), proxies);
        match group_of(members.last(), proxies) {
            Some(g) => rest.push(g),
            None => rest,
        }
    }
}

// The members are walked in key order, as the collection into a sorted map
// does: a stable insertion sort of the member indices by key.

/// The first position in `order` whose key is greater than the key of
/// member `k` (the length when there is none).
pub open spec fn insert_position(order: Seq<int>, members: Seq<JsonMember>, k: int) -> int
    decreases order.len(),
{
    if order.len() == 0 {
        0
    } else if seq_lt(members[k].key@, members[order[0]].key@) {
        0
    } else {
        1 + insert_position(order.drop_first(), members, k)
    }
}

/// The indices of the first `n` members, sorted by key; members with equal
/// keys keep their order.
pub open spec fn key_order(members: Seq<JsonMember>, n: nat) -> Seq<int>
    decreases n,
{
    if n == 0 {
        Seq::empty()
    } else {
        let o = key_order(members, (n - 1) as nat);
        o.insert(insert_position(o, members, n - 1), n - 1)
    }
}

/// The members in key order.
pub open spec fn members_by_key(members: Seq<JsonMember>) -> Seq<JsonMember> {
    key_order(members, members.len()).map_values(|i: int| members[i])
}

/// Key `a` is not after key `b`.
pub open spec fn key_le(a: Seq<char>, b: Seq<char>) -> bool {
    !seq_lt(b, a)
}

/// The groups of a parsed `/proxies` response, in key order.
pub open spec fn spec_parse_proxy_state(root: Result<JsonValue, String>) -> Result<
    Seq<GroupView>,
    ControllerError,
> {
    match root {
        Err(cause) => Err(ControllerError::NotJson(cause)),
        Ok(r) => match get(r, "proxies"@) {
            Some(JsonValue::Object(members)) => {
                let groups = groups_of(members_by_key(members@), members@);
                if groups.len() == 0 {
                    Err(ControllerError::NoGroups)
                } else {
                    Ok(groups)
                }
            },
            _ => Err(ControllerError::MissingProxies),
        },
    }
}

proof fn lemma_insert_position(order: Seq<int>, members: Seq<JsonMember>, k: int)
    ensures
        0 <= insert_position(order, members, k) <= order.len(),
        forall|q: int|
            0 <= q < insert_position(order, members, k) ==> !seq_lt(
                members[k].key@,
                #[trigger] members[order[q]].key@,
            ),
        insert_position(order, members, k) < order.len() ==> seq_lt(
            members[k].key@,
            members[order[insert_position(order, members, k)]].key@,
        ),
    decreases order.len(),
{
    if order.len() > 0 && !seq_lt(members[k].key@, members[order[0]].key@) {
        lemma_insert_position(order.drop_first(), members, k);
        assert forall|q: int| 0 <= q < insert_position(order, members, k) implies !seq_lt(
            members[k].key@,
            #[trigger] members[order[q]].key@,
        ) by {
            if q > 0 {
                assert(order[q] == order.drop_first()[q - 1]);
            }
        }
    }
}

/// The key order of the first `n` members holds each of them once, sorted.
proof fn lemma_key_order(members: Seq<JsonMember>, n: nat)
    requires
        n <= members.len(),
    ensures
        key_order(members, n).len() == n,
        forall|i: int| 0 <= i < n ==> 0 <= #[trigger] key_order(members, n)[i] < n,
        forall|i: int, j: int|
            0 <= i < j < n ==> key_le(
                members[key_order(members, n)[i]].key@,
                members[key_order(members, n)[j]].key@,
            ),
    decreases n,
{
    if n > 0 {
        let k = n - 1;
        let o = key_order(members, k as nat);
        lemma_key_order(members, k as nat);
        lemma_insert_position(o, members, k);
        let p = insert_position(o, members, k);
        let r = o.insert(p, k);
        assert(r == key_order(members, n));
        assert forall|i: int| 0 <= i < n implies 0 <= #[trigger] r[i] < n by {
            if i < p {
                assert(r[i] == o[i]);
            } else if i > p {
                assert(r[i] == o[i - 1]);
            }
        }
        assert forall|i: int, j: int| 0 <= i < j < n implies key_le(
            members[r[i]].key@,
            members[r[j]].key@,
        ) by {
            let kk = members[k].key@;
            if j < p {
                assert(r[i] == o[i] && r[j] == o[j]);
            } else if i > p {
                assert(r[i] == o[i - 1] && r[j] == o[j - 1]);
            } else if i < p && j > p {
                assert(r[i] == o[i] && r[j] == o[j - 1]);
                // o[i] <= k < o[p] <= o[j - 1]
                let a = members[o[i]].key@;
                let b = members[o[j - 1]].key@;
                let c = members[o[p]].key@;
                lemma_seq_lt_total(kk, a);
                if seq_lt(b, a) {
                    if j - 1 > p {
                        assert(key_le(c, b));
                        lemma_seq_lt_total(c, b);
                        if seq_lt(c, b) {
                            lemma_seq_lt_transitive(c, b, a);
                        }
                    }
                    // now c < a or c == a, and a <= k < c
                    if seq_lt(a, kk) {
                        lemma_seq_lt_transitive(a, kk, c);
                        if seq_lt(c, a) {
                            lemma_seq_lt_transitive(a, c, a);
                            lemma_seq_lt_irreflexive(a);
                        } else {
                            lemma_seq_lt_irreflexive(a);
                        }
                    } else {
                        if seq_lt(c, a) {
                            lemma_seq_lt_transitive(kk, c, a);
                            lemma_seq_lt_irreflexive(kk);
                        } else {
                            lemma_seq_lt_irreflexive(kk);
                        }
                    }
                }
            } else if i == p {
                assert(r[i] == k && r[j] == o[j - 1]);
                let b = members[o[j - 1]].key@;
                let c = members[o[p]].key@;
                if seq_lt(b, kk) {
                    if j - 1 > p {
                        assert(key_le(c, b));
                        lemma_seq_lt_total(c, b);
                        if seq_lt(c, b) {
                            lemma_seq_lt_transitive(c, b, kk);
                        }
                        lemma_seq_lt_transitive(kk, c, kk);
                        lemma_seq_lt_irreflexive(kk);
                    } else {
                        lemma_seq_lt_transitive(kk, b, kk);
                        lemma_seq_lt_irreflexive(kk);
                    }
                }
            } else {
                assert(j == p && r[j] == k && r[i] == o[i]);
                let a = members[o[i]].key@;
                lemma_seq_lt_total(kk, a);
            }
        }
    }
}

/// Every group is named by the key of one of the members it came from.
proof fn lemma_group_names(ms: Seq<JsonMember>, proxies: Seq<JsonMember>)
    ensures
        forall|i: int|
            0 <= i < groups_of(ms, proxies).len() ==> exists|t: int|
                0 <= t < ms.len() && (#[trigger] groups_of(ms, proxies)[i]).name == ms[t].key@,
    decreases ms.len(),
{
    if ms.len() > 0 {
        let rest = ms.drop_last();
        lemma_group_names(rest, proxies);
        assert forall|i: int| 0 <= i < groups_of(ms, proxies).len() implies exists|t: int|
            0 <= t < ms.len() && (#[trigger] groups_of(ms, proxies)[i]).name == ms[t].key@ by {
            if i < groups_of(rest, proxies).len() {
                let t = choose|t: int| 0 <= t < rest.len() && groups_of(rest, proxies)[i].name == rest[t].key@;
                assert(ms[t] == rest[t]);
            } else {
                assert(ms[ms.len() - 1] == ms.last());
            }
        }
    }
}

/// Groups of members in key order come out in key order.
proof fn lemma_groups_sorted(ms: Seq<JsonMember>, proxies: Seq<JsonMember>)
    requires
        forall|i: int, j: int| 0 <= i < j < ms.len() ==> key_le(ms[i].key@, ms[j].key@),
    ensures
        forall|i: int, j: int|
            0 <= i < j < groups_of(ms, proxies).len() ==> key_le(
                groups_of(ms, proxies)[i].name,
                groups_of(ms, proxies)[j].name,
            ),
    decreases ms.len(),
{
    if ms.len() > 0 {
        let rest = ms.drop_last();
        assert forall|i: int, j: int| 0 <= i < j < rest.len() implies key_le(rest[i].key@, rest[j].key@) by {
            assert(rest[i] == ms[i] && rest[j] == ms[j]);
        }
        lemma_groups_sorted(rest, proxies);
        lemma_group_names(rest, proxies);
        let g = groups_of(ms, proxies);
        let gr = groups_of(rest, proxies);
        assert forall|i: int, j: int| 0 <= i < j < g.len() implies key_le(g[i].name, g[j].name) by {
            if j >= gr.len() {
                assert(g[j].name == ms.last().key@);
                assert(g[i] == gr[i]);
                let t = choose|t: int| 0 <= t < rest.len() && (#[trigger] gr[i]).name == rest[t].key@;
                assert(rest[t] == ms[t]);
                assert(key_le(ms[t].key@, ms[ms.len() - 1].key@));
            } else {
                assert(g[i] == gr[i] && g[j] == gr[j]);
            }
        }
    }
}

fn node_kind_exec(proxies: &Vec<JsonMember>, name: &String) -> (r: String)
    ensures
        r@ == node_kind(proxies@, name@),
{
    let node = member_ref(proxies, name.as_str());
    let ty = get_opt_ref(node, "type");
    match as_string(ty) {
        Some(t) => t,
        None => String::from_str("Unknown"),
    }
}

fn group_nodes_exec(all: &Vec<JsonValue>, proxies: &Vec<JsonMember>) -> (r: Vec<ProxyNode>)
    ensures
        r.deep_view() == group_nodes(all@, proxies@),
{
    let mut nodes: Vec<ProxyNode> = Vec::new();
    let mut i: usize = 0;
    while i < all.len()
        invariant
            i <= all.len(),
            nodes.deep_view() == group_nodes(all@.take(i as int), proxies@),
        decreases all.len() - i,
    {
        assert(all@.take(i + 1).drop_last() == all@.take(i as int));
        assert(all@.take(i + 1).last() == all@[i as int]);
        let ghost before = nodes.deep_view();
        match &all[i] {
            JsonValue::String(n) => {
                let kind = node_kind_exec(proxies, n);
                let node = ProxyNode { name: n.clone(), kind };
                nodes.push(node);
                assert(nodes.deep_view() =~= before.push(node@));
            },
            _ => {},
        }
        i = i + 1;
    }
    assert(all@.take(all@.len() as int) == all@);
    nodes
}

fn group_of_exec(m: &JsonMember, proxies: &Vec<JsonMember>) -> (r: Option<ProxyGroup>)
    ensures
        match r {
            Some(g) => group_of(*m, proxies@) == Some(g@),
            None => group_of(*m, proxies@) is None,
        },
{
    match get_ref(&m.value, "all") {
        Some(JsonValue::Array(all)) => {
            if all.len() == 0 {
                return None;
            }
            let selected = match as_string(get_ref(&m.value, "now")) {
                Some(s) => s,
                None => String::new(),
            };
            let nodes = group_nodes_exec(all, proxies);
            Some(ProxyGroup { name: m.key.clone(), selected, nodes })
        },
        _ => None,
    }
}

/// The selectable groups of a parsed `/proxies` response: every proxy with
/// a non-empty `all` list, in key order, with its current selection (`now`)
/// and its string members, each with its `type` or `Unknown`.
/// `root` is the response parsed as JSON, or the parser's message.
pub fn parse_proxy_state(root: &Result<JsonValue, String>) -> (r: Result<ProxyState, ControllerError>)
    ensures
        match r {
            Ok(state) => spec_parse_proxy_state(*root) == Ok::<Seq<GroupView>, ControllerError>(
                state@,
            ),
            Err(e) => spec_parse_proxy_state(*root) == Err::<Seq<GroupView>, ControllerError>(e),
        },
        r matches Ok(state) ==> forall|i: int, j: int|
            0 <= i < j < state@.len() ==> key_le(state@[i].name, state@[j].name),
{
    let root = match root {
        Ok(r) => r,
        Err(cause) => return Err(ControllerError::NotJson(cause.clone())),
    };
    let members = match get_ref(root, "proxies") {
        Some(JsonValue::Object(members)) => members,
        _ => return Err(ControllerError::MissingProxies),
    };
    let ghost ms = members@;
    // sort the member indices by key
    let mut order: Vec<usize> = Vec::new();
    let mut k: usize = 0;
    while k < members.len()
        invariant
            k <= members.len(),
            ms == members@,
            order@.map_values(|x: usize| x as int) == key_order(ms, k as nat),
        decreases members.len() - k,
    {
        let ghost o = key_order(ms, k as nat);
        proof {
            lemma_key_order(ms, k as nat);
            lemma_insert_position(o, ms, k as int);
        }
        assert forall|i: int| 0 <= i < order.len() implies #[trigger] order@[i] < k by {
            assert(o[i] == order@[i] as int);
        }
        let mut p: usize = 0;
        while p < order.len() && !str_lt(members[k].key.as_str(), members[order[p]].key.as_str())
            invariant
                ms == members@,
                k < members.len(),
                order@.map_values(|x: usize| x as int) == o,
                o.len() == k,
                forall|i: int| 0 <= i < k ==> 0 <= #[trigger] o[i] < k,
                p <= order.len(),
                forall|i: int| 0 <= i < order.len() ==> #[trigger] order@[i] < k,
                forall|q: int| 0 <= q < p ==> !seq_lt(ms[k as int].key@, #[trigger] ms[o[q]].key@),
            decreases order.len() - p,
        {
            assert(o[p as int] == order@[p as int] as int);
            p = p + 1;
        }
        proof {
            let pp = insert_position(o, ms, k as int);
            if p < order.len() {
                assert(o[p as int] == order@[p as int] as int);
            }
            if (p as int) < pp {
                assert(!seq_lt(ms[k as int].key@, ms[o[p as int]].key@));
            }
            if pp < (p as int) {
                assert(!seq_lt(ms[k as int].key@, ms[o[pp]].key@));
            }
            assert(p as int == pp);
        }
        order.insert(p, k);
        assert(order@.map_values(|x: usize| x as int) =~= o.insert(p as int, k as int));
        k = k + 1;
    }
    proof {
        lemma_key_order(ms, ms.len());
    }
    let ghost sorted = members_by_key(ms);
    let mut groups: Vec<ProxyGroup> = Vec::new();
    let mut i: usize = 0;
    while i < order.len()
        invariant
            i <= order.len(),
            ms == members@,
            order@.map_values(|x: usize| x as int) == key_order(ms, ms.len()),
            order.len() == ms.len(),
            forall|t: int| 0 <= t < ms.len() ==> 0 <= #[trigger] key_order(ms, ms.len())[t] < ms.len(),
            sorted == members_by_key(ms),
            sorted.len() == ms.len(),
            groups.deep_view() == groups_of(sorted.take(i as int), ms),
        decreases order.len() - i,
    {
        assert(sorted.take(i + 1).drop_last() == sorted.take(i as int));
        assert(key_order(ms, ms.len())[i as int] == order@[i as int] as int);
        let m = order[i];
        assert(sorted.take(i + 1).last() == ms[m as int]);
        let ghost before = groups.deep_view();
        match group_of_exec(&members[m], members) {
            Some(g) => {
                groups.push(g);
                assert(groups.deep_view() =~= before.push(g@));
            },
            None => {},
        }
        i = i + 1;
    }
    assert(sorted.take(sorted.len() as int) == sorted);
    proof {
        assert forall|a: int, b: int| 0 <= a < b < sorted.len() implies key_le(sorted[a].key@, sorted[b].key@) by {}
        lemma_groups_sorted(sorted, ms);
    }
    if groups.len() == 0 {
        return Err(ControllerError::NoGroups);
    }
    Ok(ProxyState { groups })
}

// ---------------------------------------------------------------------------
// Which group and node to use
// ---------------------------------------------------------------------------

/// `o` moved up by `d`.
pub open spec fn shifted(o: Option<int>, d: int) -> Option<int> {
    match o {
        Some(k) => Some(k + d),
        None => None,
    }
}

/// Index of the first group named `name`.
pub open spec fn find_group(groups: Seq<GroupView>, name: Seq<char>) -> Option<int>
    decreases groups.len(),
{
    if groups.len() == 0 {
        None
    } else if groups[0].name == name {
        Some(0)
    } else {
        match find_group(groups.drop_first(), name) {
            Some(i) => Some(i + 1),
            None => None,
        }
    }
}

/// Index of the first group not named `GLOBAL` (any ASCII case).
pub open spec fn first_non_global(groups: Seq<GroupView>) -> Option<int>
    decreases groups.len(),
{
    if groups.len() == 0 {
        None
    } else if !eq_ignore_case(groups[0].name, "GLOBAL"@) {
        Some(0)
    } else {
        match first_non_global(groups.drop_first()) {
            Some(i) => Some(i + 1),
            None => None,
        }
    }
}

/// The group to use: the saved one when it exists, else the first that is
/// not `GLOBAL`, else the first.
pub open spec fn spec_preferred_group(groups: Seq<GroupView>, saved: Seq<char>) -> Option<int> {
    let s = trim(saved);
    if s.len() > 0 && find_group(groups, s) is Some {
        find_group(groups, s)
    } else if first_non_global(groups) is Some {
        first_non_global(groups)
    } else if groups.len() > 0 {
        Some(0)
    } else {
        None
    }
}

/// Index of the first node named `name`.
pub open spec fn find_node(nodes: Seq<NodeView>, name: Seq<char>) -> Option<int>
    decreases nodes.len(),
{
    if nodes.len() == 0 {
        None
    } else if nodes[0].name == name {
        Some(0)
    } else {
        match find_node(nodes.drop_first(), name) {
            Some(i) => Some(i + 1),
            None => None,
        }
    }
}

/// Index of the first node not named `DIRECT` (any ASCII case).
pub open spec fn first_non_direct(nodes: Seq<NodeView>) -> Option<int>
    decreases nodes.len(),
{
    if nodes.len() == 0 {
        None
    } else if !eq_ignore_case(nodes[0].name, "DIRECT"@) {
        Some(0)
    } else {
        match first_non_direct(nodes.drop_first()) {
            Some(i) => Some(i + 1),
            None => None,
        }
    }
}

/// The node to use: the saved one when the group has it, else the group's
/// current selection when it is set, not `DIRECT` and in the group, else the
/// first node that is not `DIRECT`, else the first node.
pub open spec fn spec_preferred_node(group: GroupView, saved: Seq<char>) -> Option<int> {
    let s = trim(saved);
    if s.len() > 0 && find_node(group.nodes, s) is Some {
        find_node(group.nodes, s)
    } else if trim(group.selected).len() > 0 && !eq_ignore_case(group.selected, "DIRECT"@)
        && find_node(group.nodes, group.selected) is Some {
        find_node(group.nodes, group.selected)
    } else if first_non_direct(group.nodes) is Some {
        first_non_direct(group.nodes)
    } else if group.nodes.len() > 0 {
        Some(0)
    } else {
        None
    }
}

pub proof fn lemma_find_group(groups: Seq<GroupView>, name: Seq<char>)
    ensures
        find_group(groups, name) matches Some(i) ==> 0 <= i < groups.len() && groups[i].name
            == name,
    decreases groups.len(),
{
    if groups.len() > 0 && groups[0].name != name {
        lemma_find_group(groups.drop_first(), name);
    }
}

pub proof fn lemma_first_non_global(groups: Seq<GroupView>)
    ensures
        first_non_global(groups) matches Some(i) ==> 0 <= i < groups.len() && !eq_ignore_case(
            groups[i].name,
            "GLOBAL"@,
        ),
    decreases groups.len(),
{
    if groups.len() > 0 && eq_ignore_case(groups[0].name, "GLOBAL"@) {
        lemma_first_non_global(groups.drop_first());
    }
}

pub proof fn lemma_find_node(nodes: Seq<NodeView>, name: Seq<char>)
    ensures
        find_node(nodes, name) matches Some(i) ==> 0 <= i < nodes.len() && nodes[i].name == name,
    decreases nodes.len(),
{
    if nodes.len() > 0 && nodes[0].name != name {
        lemma_find_node(nodes.drop_first(), name);
    }
}

pub proof fn lemma_first_non_direct(nodes: Seq<NodeView>)
    ensures
        first_non_direct(nodes) matches Some(i) ==> 0 <= i < nodes.len() && !eq_ignore_case(
            nodes[i].name,
            "DIRECT"@,
        ),
    decreases nodes.len(),
{
    if nodes.len() > 0 && eq_ignore_case(nodes[0].name, "DIRECT"@) {
        lemma_first_non_direct(nodes.drop_first());
    }
}

fn find_group_exec(groups: &Vec<ProxyGroup>, name: &String) -> (r: Option<usize>)
    ensures
        r matches Some(i) ==> find_group(groups.deep_view(), name@) == Some(i as int) && i
            < groups.len(),
        r is None ==> find_group(groups.deep_view(), name@) is None,
{
    let ghost g = groups.deep_view();
    let mut i: usize = 0;
    assert(g.skip(0) == g);
    while i < groups.len()
        invariant
            i <= groups.len(),
            g == groups.deep_view(),
            find_group(g, name@) == shifted(find_group(g.skip(i as int), name@), i as int),
        decreases groups.len() - i,
    {
        assert(g.skip(i as int).drop_first() == g.skip(i + 1));
        assert(g.skip(i as int)[0] == groups@[i as int]@);
        if str_eq(groups[i].name.as_str(), name.as_str()) {
            return Some(i);
        }
        i = i + 1;
    }
    None
}

fn first_non_global_exec(groups: &Vec<ProxyGroup>) -> (r: Option<usize>)
    ensures
        r matches Some(i) ==> first_non_global(groups.deep_view()) == Some(i as int) && i
            < groups.len(),
        r is None ==> first_non_global(groups.deep_view()) is None,
{
    let ghost g = groups.deep_view();
    let mut i: usize = 0;
    assert(g.skip(0) == g);
    while i < groups.len()
        invariant
            i <= groups.len(),
            g == groups.deep_view(),
            first_non_global(g) == shifted(first_non_global(g.skip(i as int)), i as int),
        decreases groups.len() - i,
    {
        assert(g.skip(i as int).drop_first() == g.skip(i + 1));
        assert(g.skip(i as int)[0] == groups@[i as int]@);
        let n = chars_of(groups[i].name.as_str());
        if !eq_ignore_case_str(&n, "GLOBAL") {
            return Some(i);
        }
        i = i + 1;
    }
    None
}

fn find_node_exec(nodes: &Vec<ProxyNode>, name: &String) -> (r: Option<usize>)
    ensures
        r matches Some(i) ==> find_node(nodes.deep_view(), name@) == Some(i as int) && i
            < nodes.len(),
        r is None ==> find_node(nodes.deep_view(), name@) is None,
{
    let ghost g = nodes.deep_view();
    let mut i: usize = 0;
    assert(g.skip(0) == g);
    while i < nodes.len()
        invariant
            i <= nodes.len(),
            g == nodes.deep_view(),
            find_node(g, name@) == shifted(find_node(g.skip(i as int), name@), i as int),
        decreases nodes.len() - i,
    {
        assert(g.skip(i as int).drop_first() == g.skip(i + 1));
        assert(g.skip(i as int)[0] == nodes@[i as int]@);
        if str_eq(nodes[i].name.as_str(), name.as_str()) {
            return Some(i);
        }
        i = i + 1;
    }
    None
}

fn first_non_direct_exec(nodes: &Vec<ProxyNode>) -> (r: Option<usize>)
    ensures
        r matches Some(i) ==> first_non_direct(nodes.deep_view()) == Some(i as int) && i
            < nodes.len(),
        r is None ==> first_non_direct(nodes.deep_view()) is None,
{
    let ghost g = nodes.deep_view();
    let mut i: usize = 0;
    assert(g.skip(0) == g);
    while i < nodes.len()
        invariant
            i <= nodes.len(),
            g == nodes.deep_view(),
            first_non_direct(g) == shifted(first_non_direct(g.skip(i as int)), i as int),
        decreases nodes.len() - i,
    {
        assert(g.skip(i as int).drop_first() == g.skip(i + 1));
        assert(g.skip(i as int)[0] == nodes@[i as int]@);
        let n = chars_of(nodes[i].name.as_str());
        if !eq_ignore_case_str(&n, "DIRECT") {
            return Some(i);
        }
        i = i + 1;
    }
    None
}

/// Index of the group to use; see `spec_preferred_group`.
pub fn preferred_proxy_group_index(state: &ProxyState, saved_group: &str) -> (r: Option<usize>)
    ensures
        r matches Some(i) ==> i < state.groups.len() && spec_preferred_group(state@, saved_group@)
            == Some(i as int),
        r is None ==> spec_preferred_group(state@, saved_group@) is None,
{
    let saved = trim_str(saved_group);
    let sv = chars_of(saved.as_str());
    if sv.len() > 0 {
        match find_group_exec(&state.groups, &saved) {
            Some(i) => return Some(i),
            None => {},
        }
    }
    match first_non_global_exec(&state.groups) {
        Some(i) => Some(i),
        None => if state.groups.len() > 0 {
            Some(0)
        } else {
            None
        },
    }
}

/// The group to use: the saved one when it exists, else the first that is
/// not `GLOBAL`, else the first.
pub fn preferred_proxy_group<'a>(state: &'a ProxyState, saved_group: &str) -> (r: Option<
    &'a ProxyGroup,
>)
    ensures
        match spec_preferred_group(state@, saved_group@) {
            Some(i) => r matches Some(g) && *g == state.groups@[i],
            None => r is None,
        },
{
    match preferred_proxy_group_index(state, saved_group) {
        Some(i) => Some(&state.groups[i]),
        None => None,
    }
}

/// Index of the node to use; see `spec_preferred_node`.
pub fn preferred_proxy_node_index(group: &ProxyGroup, saved_proxy: &str) -> (r: Option<usize>)
    ensures
        r matches Some(i) ==> i < group.nodes.len() && spec_preferred_node(group@, saved_proxy@)
            == Some(i as int),
        r is None ==> spec_preferred_node(group@, saved_proxy@) is None,
{
    let saved = trim_str(saved_proxy);
    let sv = chars_of(saved.as_str());
    if sv.len() > 0 {
        match find_node_exec(&group.nodes, &saved) {
            Some(i) => return Some(i),
            None => {},
        }
    }
    let selected_trimmed = trim_str(group.selected.as_str());
    let st = chars_of(selected_trimmed.as_str());
    let sel = chars_of(group.selected.as_str());
    if st.len() > 0 && !eq_ignore_case_str(&sel, "DIRECT") {
        match find_node_exec(&group.nodes, &group.selected) {
            Some(i) => return Some(i),
            None => {},
        }
    }
    match first_non_direct_exec(&group.nodes) {
        Some(i) => Some(i),
        None => if group.nodes.len() > 0 {
            Some(0)
        } else {
            None
        },
    }
}

/// The node to use: the saved one when the group has it, else the current
/// selection unless it is `DIRECT`, else the first node that is not `DIRECT`,
/// else the first node.
pub fn preferred_proxy_node<'a>(group: &'a ProxyGroup, saved_proxy: &str) -> (r: Option<
    &'a ProxyNode,
>)
    ensures
        match spec_preferred_node(group@, saved_proxy@) {
            Some(i) => r matches Some(n) && *n == group.nodes@[i],
            None => r is None,
        },
{
    match preferred_proxy_node_index(group, saved_proxy) {
        Some(i) => Some(&group.nodes[i]),
        None => None,
    }
}

// ---------------------------------------------------------------------------
// Controller paths
// ---------------------------------------------------------------------------

/// Bytes left as they are by URL encoding.
pub open spec fn is_url_safe(b: u8) -> bool {
    ||| (48 <= b && b <= 57)
    ||| (65 <= b && b <= 90)
    ||| (97 <= b && b <= 122)
    ||| b == 45
    ||| b == 46
    ||| b == 95
    ||| b == 126
}

/// One byte, URL encoded: itself when safe, else `%` and two upper-case hex digits.
pub open spec fn url_encode_byte(b: u8) -> Seq<char> {
    if is_url_safe(b) {
        seq![b as char]
    } else {
        seq!['%', hex_digit_upper((b / 16) as int), hex_digit_upper((b % 16) as int)]
    }
}

/// Every byte URL encoded, in order.
pub open spec fn url_encode_bytes(bytes: Seq<u8>) -> Seq<char>
    decreases bytes.len(),
{
    if bytes.len() == 0 {
        Seq::empty()
    } else {
        url_encode_bytes(bytes.drop_last()) + url_encode_byte(bytes.last())
    }
}

/// Percent-encodes the UTF-8 bytes of `s` with `urlencoding::encode`, which
/// keeps ASCII letters, digits and `-`, `.`, `_`, `~` and writes every other
/// byte as `%` followed by two upper-case hexadecimal digits.
#[verifier::external_body]
pub(crate) fn url_encode(s: &str) -> (r: String)
    ensures
        r@ == url_encode_bytes(s.spec_bytes()),
{
    urlencoding::encode(s).into_owned()
}

/// A proxy or group name as a URL path segment.
pub fn format_proxy_path(name: &str) -> (r: String)
    ensures
        r@ == url_encode_bytes(name.spec_bytes()),
{
    url_encode(name)
}

/// The outcome of a delay test of `name`: the delay, or the error text.
pub fn delay_result(name: &str, outcome: Result<u64, String>) -> (r: DelayResult)
    ensures
        r.name@ == name@,
        outcome matches Ok(d) ==> r.delay_ms == Some(d) && r.error is None,
        outcome matches Err(e) ==> r.delay_ms is None && r.error == Some(e),
{
    match outcome {
        Ok(delay) => DelayResult { name: owned(name), delay_ms: Some(delay), error: None },
        Err(error) => DelayResult { name: owned(name), delay_ms: None, error: Some(error) },
    }
}

proof fn lemma_first_non_global_none(groups: Seq<GroupView>)
    ensures
        first_non_global(groups) is None ==> forall|k: int|
            0 <= k < groups.len() ==> eq_ignore_case(#[trigger] groups[k].name, "GLOBAL"@),
    decreases groups.len(),
{
    if groups.len() > 0 && eq_ignore_case(groups[0].name, "GLOBAL"@) {
        let t = groups.drop_first();
        lemma_first_non_global_none(t);
        if first_non_global(groups) is None {
            assert forall|k: int| 0 <= k < groups.len() implies eq_ignore_case(
                #[trigger] groups[k].name,
                "GLOBAL"@,
            ) by {
                if k > 0 {
                    assert(groups[k] == t[k - 1]);
                }
            }
        }
    }
}

proof fn lemma_first_non_direct_none(nodes: Seq<NodeView>)
    ensures
        first_non_direct(nodes) is None ==> forall|k: int|
            0 <= k < nodes.len() ==> eq_ignore_case(#[trigger] nodes[k].name, "DIRECT"@),
    decreases nodes.len(),
{
    if nodes.len() > 0 && eq_ignore_case(nodes[0].name, "DIRECT"@) {
        let t = nodes.drop_first();
        lemma_first_non_direct_none(t);
        if first_non_direct(nodes) is None {
            assert forall|k: int| 0 <= k < nodes.len() implies eq_ignore_case(
                #[trigger] nodes[k].name,
                "DIRECT"@,
            ) by {
                if k > 0 {
                    assert(nodes[k] == t[k - 1]);
                }
            }
        }
    }
}

/// A group is chosen whenever there is one. It is the saved group when that
/// exists; otherwise it is a `GLOBAL` group only when every group is.
pub proof fn law_preferred_group(groups: Seq<GroupView>, saved: Seq<char>)
    ensures
        spec_preferred_group(groups, saved) is Some <==> groups.len() > 0,
        spec_preferred_group(groups, saved) matches Some(i) ==> 0 <= i < groups.len(),
        trim(saved).len() > 0 && find_group(groups, trim(saved)) is Some ==> (spec_preferred_group(
            groups,
            saved,
        ) matches Some(i) && groups[i].name == trim(saved)),
        (spec_preferred_group(groups, saved) matches Some(i) && eq_ignore_case(
            groups[i].name,
            "GLOBAL"@,
        )) ==> groups[spec_preferred_group(groups, saved)->0].name == trim(saved) || forall|k: int|
            0 <= k < groups.len() ==> eq_ignore_case(#[trigger] groups[k].name, "GLOBAL"@),
{
    lemma_find_group(groups, trim(saved));
    lemma_first_non_global(groups);
    lemma_first_non_global_none(groups);
}

/// A node is chosen whenever the group has one. It is the saved node when
/// the group has it; otherwise it is a `DIRECT` node only when every node is.
pub proof fn law_preferred_node(group: GroupView, saved: Seq<char>)
    ensures
        spec_preferred_node(group, saved) is Some <==> group.nodes.len() > 0,
        spec_preferred_node(group, saved) matches Some(i) ==> 0 <= i < group.nodes.len(),
        trim(saved).len() > 0 && find_node(group.nodes, trim(saved)) is Some ==> (
        spec_preferred_node(group, saved) matches Some(i) && group.nodes[i].name == trim(saved)),
        (spec_preferred_node(group, saved) matches Some(i) && eq_ignore_case(
            group.nodes[i].name,
            "DIRECT"@,
        )) ==> group.nodes[spec_preferred_node(group, saved)->0].name == trim(saved) || forall|
            k: int,
        |
            0 <= k < group.nodes.len() ==> eq_ignore_case(#[trigger] group.nodes[k].name, "DIRECT"@),
{
    lemma_find_node(group.nodes, trim(saved));
    lemma_find_node(group.nodes, group.selected);
    lemma_first_non_direct(group.nodes);
    lemma_first_non_direct_none(group.nodes);
}

// ---------------------------------------------------------------------------
// Controller requests
// ---------------------------------------------------------------------------

pub open spec fn base_url_text(port: u16) -> Seq<char> {
    "http://127.0.0.1:"@ + dec_digits(port as nat)
}

/// Where the controller of a runtime on `port` answers.
pub fn controller_base_url(port: u16) -> (r: String)
    ensures
        r@ == base_url_text(port),
{
    let mut r = owned("http://127.0.0.1:");
    push_str(&mut r, dec_string(port as u64).as_str());
    r
}

pub open spec fn group_url_text(base: Seq<char>, group: Seq<char>) -> Seq<char> {
    base + "/proxies/"@ + url_encode_bytes(encode_utf8(group))
}

/// The address of one proxy group, its name URL encoded.
pub fn proxy_group_url(base_url: &str, group: &str) -> (r: String)
    ensures
        r@ == group_url_text(base_url@, group@),
{
    let mut r = owned(base_url);
    push_str(&mut r, "/proxies/");
    push_str(&mut r, format_proxy_path(group).as_str());
    r
}

pub open spec fn delay_url_text(base: Seq<char>, name: Seq<char>, test_url: Seq<char>, timeout_ms: u64) -> Seq<
    char,
> {
    group_url_text(base, name) + "/delay?url="@ + url_encode_bytes(encode_utf8(test_url))
        + "&timeout="@ + dec_digits(timeout_ms as nat)
}

/// The delay test URL asks the controller for `name`'s delay against the
/// percent-encoded test URL, and its `timeout` parameter is `timeout_ms`
/// itself in decimal: the URL ends with `&timeout=` and those digits.
pub proof fn law_delay_url_timeout_in_milliseconds(
    base: Seq<char>,
    name: Seq<char>,
    test_url: Seq<char>,
    timeout_ms: u64,
)
    ensures
        ({
            let u = delay_url_text(base, name, test_url, timeout_ms);
            let tail = "&timeout="@ + dec_digits(timeout_ms as nat);
            &&& u.len() >= tail.len()
            &&& u.subrange(u.len() - tail.len(), u.len() as int) == tail
            &&& u.take(group_url_text(base, name).len() as int) == group_url_text(base, name)
        }),
{
    let u = delay_url_text(base, name, test_url, timeout_ms);
    let tail = "&timeout="@ + dec_digits(timeout_ms as nat);
    let head = group_url_text(base, name) + "/delay?url="@ + url_encode_bytes(encode_utf8(test_url));
    assert(u =~= head + tail);
    assert(u.subrange(u.len() - tail.len(), u.len() as int) =~= tail);
    assert(u.take(group_url_text(base, name).len() as int) =~= group_url_text(base, name));
}

/// The delay test of proxy `name` against `test_url`.
pub fn delay_test_url(base_url: &str, name: &str, test_url: &str, timeout_ms: u64) -> (r: String)
    ensures
        r@ == delay_url_text(base_url@, name@, test_url@, timeout_ms),
{
    let mut r = proxy_group_url(base_url, name);
    push_str(&mut r, "/delay?url=");
    push_str(&mut r, url_encode(test_url).as_str());
    push_str(&mut r, "&timeout=");
    push_str(&mut r, dec_string(timeout_ms).as_str());
    r
}

} // verus!
