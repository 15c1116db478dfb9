//! Keeping the proxy usable: which group and node to select, the order in
//! which a repair tries nodes, and the proxy settings handed to the HTTP
//! client and the browser.
use vstd::prelude::*;

use crate::controller::{
    preferred_proxy_group_index, preferred_proxy_node_index,
    spec_preferred_group, spec_preferred_node, GroupView, NodeView, ProxyGroup, ProxyState,
};
use crate::settings::{ProxyMode, ProxyScheme, ProxySettings};
use crate::text::{
    chars_of, eq_ignore_case, eq_ignore_case_str, is_blank, owned, push_str, str_eq, str_is_blank,
    trim, trim_str,
};

verus! {

/// A group and one of its nodes.
pub type Candidate = (Seq<char>, Seq<char>);

pub open spec fn candidate_views(c: Seq<(String, String)>) -> Seq<Candidate> {
    c.map_values(|p: (String, String)| (p.0@, p.1@))
}

/// The group's nodes as candidates, in order, without `DIRECT` when
/// `skip_direct`.
pub open spec fn node_pairs(name: Seq<char>, nodes: Seq<NodeView>, skip_direct: bool) -> Seq<Candidate>
    decreases nodes.len(),
{
    if nodes.len() == 0 {
        Seq::empty()
    } else {
        let rest = node_pairs(name, nodes.drop_last(), skip_direct);
        if skip_direct && eq_ignore_case(nodes.last().name, "DIRECT"@) {
            rest
        } else {
            rest.push((name, nodes.last().name))
        }
    }
}

/// A group's candidates: its preferred node, then its nodes that are not
/// `DIRECT`, then all its nodes.
pub open spec fn group_candidates(g: GroupView, saved_proxy: Seq<char>) -> Seq<Candidate> {
    let first = match spec_preferred_node(g, saved_proxy) {
        Some(i) => seq![(g.name, g.nodes[i].name)],
        None => Seq::empty(),
    };
    first + node_pairs(g.name, g.nodes, true) + node_pairs(g.name, g.nodes, false)
}

/// The candidates of the groups in order, without `GLOBAL` when
/// `skip_global`.
pub open spec fn groups_candidates(groups: Seq<GroupView>, saved_proxy: Seq<char>, skip_global: bool) -> Seq<
    Candidate,
>
    decreases groups.len(),
{
    if groups.len() == 0 {
        Seq::empty()
    } else {
        let rest = groups_candidates(groups.drop_last(), saved_proxy, skip_global);
        if skip_global && eq_ignore_case(groups.last().name, "GLOBAL"@) {
            rest
        } else {
            rest + group_candidates(groups.last(), saved_proxy)
        }
    }
}

/// `s` without items equal to the one before them (`Vec::dedup`).
pub open spec fn dedup<T>(s: Seq<T>) -> Seq<T>
    decreases s.len(),
{
    if s.len() <= 1 {
        s
    } else if s.last() == s[s.len() - 2] {
        dedup(s.drop_last())
    } else {
        dedup(s.drop_last()).push(s.last())
    }
}

/// Every candidate a repair tries, in order: those of the preferred group,
/// then those of every group but `GLOBAL`, then those of every group, with
/// repeats in a row removed.
pub open spec fn proxy_candidates(groups: Seq<GroupView>, saved_group: Seq<char>, saved_proxy: Seq<char>) -> Seq<
    Candidate,
> {
    let first = match spec_preferred_group(groups, saved_group) {
        Some(i) => group_candidates(groups[i], saved_proxy),
        None => Seq::empty(),
    };
    dedup(
        first + groups_candidates(groups, saved_proxy, true) + groups_candidates(
            groups,
            saved_proxy,
            false,
        ),
    )
}

fn push_pair(out: &mut Vec<(String, String)>, group: &str, node: &str)
    ensures
        candidate_views(final(out)@) == candidate_views(old(out)@).push((group@, node@)),
{
    let ghost before = out@;
    out.push((owned(group), owned(node)));
    assert(candidate_views(out@) =~= candidate_views(before).push((group@, node@)));
}

fn push_node_pairs(out: &mut Vec<(String, String)>, group: &ProxyGroup, skip_direct: bool)
    ensures
        candidate_views(final(out)@) == candidate_views(old(out)@) + node_pairs(
            group@.name,
            group@.nodes,
            skip_direct,
        ),
{
    let ghost start = candidate_views(out@);
    let ghost nodes = group@.nodes;
    let mut i: usize = 0;
    while i < group.nodes.len()
        invariant
            i <= group.nodes.len(),
            nodes == group@.nodes,
            nodes.len() == group.nodes.len(),
            candidate_views(out@) == start + node_pairs(group@.name, nodes.take(i as int), skip_direct),
        decreases group.nodes.len() - i,
    {
        assert(nodes.take(i + 1).drop_last() =~= nodes.take(i as int));
        assert(nodes.take(i + 1).last() == group.nodes@[i as int]@);
        let node = &group.nodes[i];
        let nv = chars_of(node.name.as_str());
        if !(skip_direct && eq_ignore_case_str(&nv, "DIRECT")) {
            let ghost before = candidate_views(out@);
            push_pair(out, group.name.as_str(), node.name.as_str());
            assert(candidate_views(out@) =~= start + node_pairs(
                group@.name,
                nodes.take(i + 1),
                skip_direct,
            ));
        }
        i = i + 1;
    }
    assert(nodes.take(nodes.len() as int) =~= nodes);
}

/// Appends the group's candidates; see `group_candidates`.
pub fn push_group_candidates(candidates: &mut Vec<(String, String)>, group: &ProxyGroup, saved_proxy: &str)
    ensures
        candidate_views(final(candidates)@) == candidate_views(old(candidates)@) + group_candidates(
            group@,
            saved_proxy@,
        ),
{
    let ghost start = candidate_views(candidates@);
    match preferred_proxy_node_index(group, saved_proxy) {
        Some(i) => {
            push_pair(candidates, group.name.as_str(), group.nodes[i].name.as_str());
        },
        None => {},
    }
    let ghost first = candidate_views(candidates@);
    push_node_pairs(candidates, group, true);
    push_node_pairs(candidates, group, false);
    proof {
        let f = match spec_preferred_node(group@, saved_proxy@) {
            Some(i) => seq![(group@.name, group@.nodes[i].name)],
            None => Seq::<Candidate>::empty(),
        };
        assert(first =~= start + f);
        assert(candidate_views(candidates@) =~= start + group_candidates(group@, saved_proxy@));
    }
}

fn push_groups_candidates(
    out: &mut Vec<(String, String)>,
    groups: &Vec<ProxyGroup>,
    saved_proxy: &str,
    skip_global: bool,
)
    ensures
        candidate_views(final(out)@) == candidate_views(old(out)@) + groups_candidates(
            groups.deep_view(),
            saved_proxy@,
            skip_global,
        ),
{
    let ghost start = candidate_views(out@);
    let ghost gs = groups.deep_view();
    let mut i: usize = 0;
    while i < groups.len()
        invariant
            i <= groups.len(),
            gs == groups.deep_view(),
            gs.len() == groups.len(),
            candidate_views(out@) == start + groups_candidates(gs.take(i as int), saved_proxy@, skip_global),
        decreases groups.len() - i,
    {
        assert(gs.take(i + 1).drop_last() =~= gs.take(i as int));
        assert(gs.take(i + 1).last() == groups@[i as int]@);
        let g = &groups[i];
        let gv = chars_of(g.name.as_str());
        if !(skip_global && eq_ignore_case_str(&gv, "GLOBAL")) {
            push_group_candidates(out, g, saved_proxy);
            assert(candidate_views(out@) =~= start + groups_candidates(
                gs.take(i + 1),
                saved_proxy@,
                skip_global,
            ));
        }
        i = i + 1;
    }
    assert(gs.take(gs.len() as int) =~= gs);
}

fn pair_eq(a: &(String, String), b: &(String, String)) -> (r: bool)
    ensures
        r == ((a.0@, a.1@) == (b.0@, b.1@)),
{
    str_eq(a.0.as_str(), b.0.as_str()) && str_eq(a.1.as_str(), b.1.as_str())
}

fn dedup_pairs(v: Vec<(String, String)>) -> (r: Vec<(String, String)>)
    ensures
        candidate_views(r@) == dedup(candidate_views(v@)),
{
    let ghost vs = candidate_views(v@);
    let mut out: Vec<(String, String)> = Vec::new();
    let mut i: usize = 0;
    while i < v.len()
        invariant
            i <= v.len(),
            vs == candidate_views(v@),
            vs.len() == v.len(),
            candidate_views(out@) == dedup(vs.take(i as int)),
            i > 0 ==> candidate_views(out@).len() > 0 && candidate_views(out@).last() == vs[i - 1],
        decreases v.len() - i,
    {
        let ghost t = vs.take(i + 1);
        assert(t.drop_last() =~= vs.take(i as int));
        assert(t.last() == vs[i as int]);
        assert(vs[i as int] == (v@[i as int].0@, v@[i as int].1@));
        if i > 0 {
            assert(t[t.len() - 2] == vs[i - 1]);
            assert(vs[i - 1] == (v@[i - 1].0@, v@[i - 1].1@));
        }
        let keep = i == 0 || !pair_eq(&v[i], &v[i - 1]);
        if keep {
            push_pair(&mut out, v[i].0.as_str(), v[i].1.as_str());
        } else {
            proof {
                lemma_dedup_last(vs.take(i as int));
            }
        }
        proof {
            if i == 0 {
                assert(candidate_views(out@) =~= dedup(t));
            }
        }
        i = i + 1;
    }
    assert(vs.take(vs.len() as int) =~= vs);
    out
}

proof fn lemma_dedup_last<T>(s: Seq<T>)
    requires
        s.len() > 0,
    ensures
        dedup(s).len() > 0,
        dedup(s).last() == s.last(),
    decreases s.len(),
{
    if s.len() > 1 {
        lemma_dedup_last(s.drop_last());
    }
}

/// Every group and node a repair tries, in order; see `proxy_candidates`.
pub fn ordered_proxy_candidates(groups: &Vec<ProxyGroup>, saved_group: &str, saved_proxy: &str) -> (r: Vec<
    (String, String),
>)
    ensures
        candidate_views(r@) == proxy_candidates(groups.deep_view(), saved_group@, saved_proxy@),
{
    let mut candidates: Vec<(String, String)> = Vec::new();
    let state = ProxyState { groups: copy_groups(groups) };
    match preferred_proxy_group_index(&state, saved_group) {
        Some(i) => {
            push_group_candidates(&mut candidates, &groups[i], saved_proxy);
        },
        None => {},
    }
    let ghost first = candidate_views(candidates@);
    push_groups_candidates(&mut candidates, groups, saved_proxy, true);
    push_groups_candidates(&mut candidates, groups, saved_proxy, false);
    proof {
        let f = match spec_preferred_group(groups.deep_view(), saved_group@) {
            Some(i) => group_candidates(groups.deep_view()[i], saved_proxy@),
            None => Seq::<Candidate>::empty(),
        };
        assert(first =~= f);
        assert(candidate_views(candidates@) =~= f + groups_candidates(
            groups.deep_view(),
            saved_proxy@,
            true,
        ) + groups_candidates(groups.deep_view(), saved_proxy@, false));
    }
    dedup_pairs(candidates)
}

fn copy_groups(groups: &Vec<ProxyGroup>) -> (r: Vec<ProxyGroup>)
    ensures
        r.deep_view() == groups.deep_view(),
{
    let mut r: Vec<ProxyGroup> = Vec::new();
    let mut i: usize = 0;
    while i < groups.len()
        invariant
            i <= groups.len(),
            r@.len() == i,
            forall|k: int| 0 <= k < i ==> (#[trigger] r@[k])@ == groups@[k]@,
        decreases groups.len() - i,
    {
        r.push(groups[i].duplicate());
        i = i + 1;
    }
    assert(r.deep_view() =~= groups.deep_view());
    r
}

// ---------------------------------------------------------------------------
// Keeping the selection valid
// ---------------------------------------------------------------------------

/// What to do so that the selection is valid: the group and node to use,
/// whether the node must be selected in the core, and whether the settings
/// must be saved.
#[derive(Debug, Clone, PartialEq, Eq)]
pub struct SelectionPlan {
    pub group: String,
    pub node: String,
    pub needs_select: bool,
    pub needs_save: bool,
}

/// The plan: `None` when there is no group or node to use.
pub open spec fn selection_plan_of(groups: Seq<GroupView>, selected_group: Seq<char>, selected_proxy: Seq<char>) -> Option<
    (Seq<char>, Seq<char>, bool, bool),
> {
    match spec_preferred_group(groups, selected_group) {
        None => None,
        Some(gi) => match spec_preferred_node(groups[gi], selected_proxy) {
            None => None,
            Some(ni) => {
                let g = groups[gi];
                let n = g.nodes[ni].name;
                Some((g.name, n, g.selected != n, selected_group != g.name || selected_proxy != n))
            },
        },
    }
}

pub fn proxy_selection_plan(state: &ProxyState, selected_group: &str, selected_proxy: &str) -> (r: Option<
    SelectionPlan,
>)
    ensures
        match r {
            Some(p) => selection_plan_of(state@, selected_group@, selected_proxy@) == Some(
                (p.group@, p.node@, p.needs_select, p.needs_save),
            ),
            None => selection_plan_of(state@, selected_group@, selected_proxy@) is None,
        },
{
    let gi = match preferred_proxy_group_index(state, selected_group) {
        Some(i) => i,
        None => {
            return None;
        },
    };
    let group = &state.groups[gi];
    assert(state@[gi as int] == group@);
    let ni = match preferred_proxy_node_index(group, selected_proxy) {
        Some(i) => i,
        None => {
            return None;
        },
    };
    let node = &group.nodes[ni];
    assert(group@.nodes[ni as int] == node@);
    let needs_select = !str_eq(group.selected.as_str(), node.name.as_str());
    let needs_save = !str_eq(selected_group, group.name.as_str()) || !str_eq(
        selected_proxy,
        node.name.as_str(),
    );
    Some(
        SelectionPlan {
            group: owned(group.name.as_str()),
            node: owned(node.name.as_str()),
            needs_select,
            needs_save,
        },
    )
}

// ---------------------------------------------------------------------------
// Repairing the proxy
// ---------------------------------------------------------------------------

/// A repair in progress: the candidates, how many were handed out, and the
/// last error seen.
#[derive(Debug)]
pub struct ProxyRepair {
    pub candidates: Vec<(String, String)>,
    pub next: usize,
    pub last_error: Option<String>,
}

/// The next thing a repair does: try a group and node, or give up.
#[derive(Debug, Clone, PartialEq, Eq)]
pub enum RepairStep {
    Try { group: String, proxy: String },
    GiveUp { message: String },
}

pub open spec fn give_up_message(last_error: Option<Seq<char>>) -> Seq<char> {
    match last_error {
        Some(e) => "no usable proxy node reached ChatGPT: "@ + e,
        None => "no usable proxy node reached ChatGPT"@,
    }
}

impl ProxyRepair {
    pub fn new(candidates: Vec<(String, String)>) -> (r: ProxyRepair)
        ensures
            r.candidates == candidates,
            r.next == 0,
            r.last_error is None,
    {
        ProxyRepair { candidates, next: 0, last_error: None }
    }

    /// The next candidate, in order; once all were tried, giving up with the
    /// last error.
    pub fn next_step(&mut self) -> (r: RepairStep)
        ensures
            final(self).candidates == old(self).candidates,
            final(self).last_error == old(self).last_error,
            old(self).next < old(self).candidates.len() ==> final(self).next == old(self).next + 1
                && (r matches RepairStep::Try { group, proxy } && (group@, proxy@)
                == candidate_views(old(self).candidates@)[old(self).next as int]),
            old(self).next >= old(self).candidates.len() ==> final(self).next == old(self).next
                && (r matches RepairStep::GiveUp { message } && message@ == give_up_message(
                crate::text::opt_string_view(old(self).last_error),
            )),
    {
        if self.next < self.candidates.len() {
            let c = &self.candidates[self.next];
            let step = RepairStep::Try { group: owned(c.0.as_str()), proxy: owned(c.1.as_str()) };
            self.next = self.next + 1;
            step
        } else {
            let message = match &self.last_error {
                Some(e) => {
                    let mut m = owned("no usable proxy node reached ChatGPT: ");
                    push_str(&mut m, e.as_str());
                    m
                },
                None => owned("no usable proxy node reached ChatGPT"),
            };
            RepairStep::GiveUp { message }
        }
    }

    /// What trying the last handed-out pair gave: the error of selecting it,
    /// else the error of its delay test (`None` when the test reached
    /// ChatGPT). The pair is accepted exactly when both are `None`; otherwise
    /// the error is kept for the final message and the next pair is tried.
    pub fn report(&mut self, select_error: Option<String>, delay_error: Option<String>) -> (accepted: bool)
        ensures
            final(self).candidates == old(self).candidates,
            final(self).next == old(self).next,
            accepted == (select_error is None && delay_error is None),
            final(self).last_error == match select_error {
                Some(e) => Some(e),
                None => match delay_error {
                    Some(e) => Some(e),
                    None => old(self).last_error,
                },
            },
    {
        match select_error {
            Some(e) => {
                self.last_error = Some(e);
                false
            },
            None => match delay_error {
                Some(e) => {
                    self.last_error = Some(e);
                    false
                },
                None => true,
            },
        }
    }
}

// ---------------------------------------------------------------------------
// Proxy settings for the HTTP client and the browser
// ---------------------------------------------------------------------------

pub open spec fn proxy_url_text(p: crate::settings::ProxySettingsView) -> Option<Seq<char>> {
    if is_blank(p.host) || is_blank(p.port) {
        None
    } else {
        Some(
            (match p.scheme {
                ProxyScheme::Http => "http"@,
                ProxyScheme::Socks5 => "socks5h"@,
            }) + "://"@ + trim(p.host) + ":"@ + trim(p.port),
        )
    }
}

/// The proxy as a URL for the HTTP client; `None` when the host or the port
/// is blank.
pub fn proxy_url(proxy_settings: &ProxySettings) -> (r: Option<String>)
    ensures
        crate::text::opt_string_view(r) == proxy_url_text(proxy_settings@),
{
    if str_is_blank(proxy_settings.host.as_str()) || str_is_blank(proxy_settings.port.as_str()) {
        return None;
    }
    let mut r = owned(
        match proxy_settings.scheme {
            ProxyScheme::Http => "http",
            ProxyScheme::Socks5 => "socks5h",
        },
    );
    push_str(&mut r, "://");
    push_str(&mut r, trim_str(proxy_settings.host.as_str()).as_str());
    push_str(&mut r, ":");
    push_str(&mut r, trim_str(proxy_settings.port.as_str()).as_str());
    Some(r)
}

pub open spec fn browser_args_text(
    proxy: Option<crate::settings::ProxySettingsView>,
    remote_debug_port: Option<Seq<char>>,
) -> Seq<char> {
    "--disable-features=msWebOOUI,msPdfOOUI,msSmartScreenProtection --autoplay-policy=no-user-gesture-required --js-flags=--expose-gc"@
        + (match remote_debug_port {
        Some(port) => " --remote-debugging-port="@ + port,
        None => Seq::empty(),
    }) + (match proxy {
        Some(p) => " --proxy-server="@ + (match p.scheme {
            ProxyScheme::Http => "http"@,
            ProxyScheme::Socks5 => "socks5"@,
        }) + "://"@ + p.host + ":"@ + p.port,
        None => Seq::empty(),
    })
}

/// With a proxy, the browser arguments end with its `--proxy-server` switch,
/// whose scheme word is the proxy's own: `socks5` for a SOCKS5 proxy, `http`
/// for an HTTP one, followed by `://`, the host, `:` and the port. Without a
/// proxy there is no such switch at the end.
pub proof fn law_browser_proxy_matches_scheme(
    proxy: Option<crate::settings::ProxySettingsView>,
    remote_debug_port: Option<Seq<char>>,
)
    ensures
        ({
            let args = browser_args_text(proxy, remote_debug_port);
            match proxy {
                Some(p) => {
                    let switch = " --proxy-server="@ + (if p.scheme == ProxyScheme::Socks5 {
                        "socks5"@
                    } else {
                        "http"@
                    }) + "://"@ + p.host + ":"@ + p.port;
                    &&& args.len() >= switch.len()
                    &&& args.subrange(args.len() - switch.len(), args.len() as int) == switch
                },
                None => args == "--disable-features=msWebOOUI,msPdfOOUI,msSmartScreenProtection --autoplay-policy=no-user-gesture-required --js-flags=--expose-gc"@
                    + (match remote_debug_port {
                    Some(port) => " --remote-debugging-port="@ + port,
                    None => Seq::empty(),
                }),
            }
        }),
{
    let args = browser_args_text(proxy, remote_debug_port);
    if let Some(p) = proxy {
        let switch = " --proxy-server="@ + (if p.scheme == ProxyScheme::Socks5 {
            "socks5"@
        } else {
            "http"@
        }) + "://"@ + p.host + ":"@ + p.port;
        let head = "--disable-features=msWebOOUI,msPdfOOUI,msSmartScreenProtection --autoplay-policy=no-user-gesture-required --js-flags=--expose-gc"@
            + (match remote_debug_port {
            Some(port) => " --remote-debugging-port="@ + port,
            None => Seq::empty(),
        });
        assert(args =~= head + switch);
        assert(args.subrange(args.len() - switch.len(), args.len() as int) =~= switch);
    }
}

/// The extra arguments of the browser engine: its feature switches, the
/// remote debugging port when one is given, and the proxy.
pub fn windows_browser_args(proxy_settings: Option<&ProxySettings>, remote_debug_port: Option<&str>) -> (r: String)
    ensures
        r@ == browser_args_text(
            match proxy_settings {
                Some(p) => Some(p@),
                None => None,
            },
            crate::jsontext::opt_str_view(remote_debug_port),
        ),
{
    let mut debug = String::new();
    match remote_debug_port {
        Some(port) => {
            push_str(&mut debug, " --remote-debugging-port=");
            push_str(&mut debug, port);
        },
        None => {},
    }
    let mut proxy = String::new();
    match proxy_settings {
        Some(p) => {
            push_str(&mut proxy, " --proxy-server=");
            push_str(
                &mut proxy,
                match p.scheme {
                    ProxyScheme::Http => "http",
                    ProxyScheme::Socks5 => "socks5",
                },
            );
            push_str(&mut proxy, "://");
            push_str(&mut proxy, p.host.as_str());
            push_str(&mut proxy, ":");
            push_str(&mut proxy, p.port.as_str());
        },
        None => {},
    }
    proof {
        if remote_debug_port is None {
            assert(debug@ =~= Seq::<char>::empty());
        }
        if proxy_settings is None {
            assert(proxy@ =~= Seq::<char>::empty());
        }
    }
    let mut r = owned(
        "--disable-features=msWebOOUI,msPdfOOUI,msSmartScreenProtection --autoplay-policy=no-user-gesture-required --js-flags=--expose-gc",
    );
    push_str(&mut r, debug.as_str());
    push_str(&mut r, proxy.as_str());
    r
}

// ---------------------------------------------------------------------------
// Laws
// ---------------------------------------------------------------------------

proof fn lemma_dedup_first<T>(s: Seq<T>)
    requires
        s.len() > 0,
    ensures
        dedup(s).len() > 0,
        dedup(s)[0] == s[0],
    decreases s.len(),
{
    if s.len() > 1 {
        lemma_dedup_first(s.drop_last());
        assert(s.drop_last()[0] == s[0]);
    }
}

proof fn lemma_dedup_no_repeats<T>(s: Seq<T>)
    ensures
        forall|k: int| 0 <= k < dedup(s).len() - 1 ==> #[trigger] dedup(s)[k] != dedup(s)[k + 1],
    decreases s.len(),
{
    if s.len() > 1 {
        lemma_dedup_no_repeats(s.drop_last());
        let d = dedup(s.drop_last());
        if s.last() != s[s.len() - 2] {
            lemma_dedup_last(s.drop_last());
            assert(s.drop_last().last() == s[s.len() - 2]);
            assert forall|k: int| 0 <= k < dedup(s).len() - 1 implies #[trigger] dedup(s)[k] != dedup(
                s,
            )[k + 1] by {
                if k + 1 < d.len() {
                    assert(dedup(s)[k] == d[k]);
                    assert(dedup(s)[k + 1] == d[k + 1]);
                }
            }
        }
    }
}

/// A repair first tries the node that the selection would keep: the
/// preferred node of the preferred group.
pub proof fn law_repair_starts_with_selection(groups: Seq<GroupView>, saved_group: Seq<char>, saved_proxy: Seq<char>)
    requires
        selection_plan_of(groups, saved_group, saved_proxy) is Some,
    ensures
        proxy_candidates(groups, saved_group, saved_proxy).len() > 0,
        selection_plan_of(groups, saved_group, saved_proxy) matches Some(p) ==> proxy_candidates(
            groups,
            saved_group,
            saved_proxy,
        )[0] == (p.0, p.1),
{
    let gi = spec_preferred_group(groups, saved_group)->0;
    let g = groups[gi];
    let first = group_candidates(g, saved_proxy);
    let all = first + groups_candidates(groups, saved_proxy, true) + groups_candidates(
        groups,
        saved_proxy,
        false,
    );
    assert(first[0] == (g.name, g.nodes[spec_preferred_node(g, saved_proxy)->0].name));
    assert(all[0] == first[0]);
    lemma_dedup_first(all);
}

/// A repair never tries the same group and node twice in a row.
pub proof fn law_repair_no_repeats(groups: Seq<GroupView>, saved_group: Seq<char>, saved_proxy: Seq<char>)
    ensures
        forall|k: int|
            0 <= k < proxy_candidates(groups, saved_group, saved_proxy).len() - 1 ==> #[trigger] proxy_candidates(
                groups,
                saved_group,
                saved_proxy,
            )[k] != proxy_candidates(groups, saved_group, saved_proxy)[k + 1],
{
    let first = match spec_preferred_group(groups, saved_group) {
        Some(i) => group_candidates(groups[i], saved_proxy),
        None => Seq::empty(),
    };
    lemma_dedup_no_repeats(
        first + groups_candidates(groups, saved_proxy, true) + groups_candidates(
            groups,
            saved_proxy,
            false,
        ),
    );
}

// ---------------------------------------------------------------------------
// Runtime health
// ---------------------------------------------------------------------------

/// What the client last knew of the internal runtime.
#[derive(Debug, Clone, Copy, PartialEq, Eq, Structural)]
pub enum RuntimeHealth {
    Unknown,
    Running,
    Degraded,
    Stopped,
}

pub open spec fn health_text(h: RuntimeHealth) -> Seq<char> {
    match h {
        RuntimeHealth::Unknown => "unknown"@,
        RuntimeHealth::Running => "running"@,
        RuntimeHealth::Degraded => "degraded"@,
        RuntimeHealth::Stopped => "stopped"@,
    }
}

/// The health as the settings panel shows it.
pub fn health_label(health: RuntimeHealth) -> (r: &'static str)
    ensures
        r@ == health_text(health),
{
    match health {
        RuntimeHealth::Unknown => "unknown",
        RuntimeHealth::Running => "running",
        RuntimeHealth::Degraded => "degraded",
        RuntimeHealth::Stopped => "stopped",
    }
}

/// The health after a restart: stopped outside internal mode, running when
/// the runtime started, degraded when it did not.
pub fn health_after_restart(mode: ProxyMode, started: bool) -> (r: RuntimeHealth)
    ensures
        r == if mode != ProxyMode::InternalClash {
            RuntimeHealth::Stopped
        } else if started {
            RuntimeHealth::Running
        } else {
            RuntimeHealth::Degraded
        },
{
    if mode != ProxyMode::InternalClash {
        RuntimeHealth::Stopped
    } else if started {
        RuntimeHealth::Running
    } else {
        RuntimeHealth::Degraded
    }
}

/// What the watchdog does after a health check.
#[derive(Debug, Clone, Copy, PartialEq, Eq, Structural)]
pub enum WatchdogAction {
    /// Outside internal mode: the runtime counts as stopped.
    MarkStopped,
    /// The controller answered: clear the error, the runtime runs.
    MarkRunning,
    /// The controller did not answer: restart the runtime.
    Restart,
}

pub fn watchdog_action(mode: ProxyMode, healthy: bool) -> (r: WatchdogAction)
    ensures
        r == if mode != ProxyMode::InternalClash {
            WatchdogAction::MarkStopped
        } else if healthy {
            WatchdogAction::MarkRunning
        } else {
            WatchdogAction::Restart
        },
{
    if mode != ProxyMode::InternalClash {
        WatchdogAction::MarkStopped
    } else if healthy {
        WatchdogAction::MarkRunning
    } else {
        WatchdogAction::Restart
    }
}

} // verus!
