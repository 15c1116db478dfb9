//! Application settings: proxy mode, subscriptions, data directories and the
//! parsing of system proxy strings.
use vstd::prelude::*;
use vstd::string::StringSliceAdditionalSpecFns;

use crate::text::{chars_contain, chars_of, chars_starts_with, dec_digits, dec_string, eq_ignore_case, eq_ignore_case_str, hex_fixed, hex_fixed_chars, is_blank, push_char, push_chars, push_str, rsplit_once, rsplit_once_chars, slice_chars, split_chars, split_on, split_once, split_once_chars, starts_with, str_eq, str_is_blank, string_from, trim, trim_chars};
use crate::{APP_DIR_NAME, PORTABLE_DATA_DIR_NAME, WEBVIEW_PROFILE_DIR_NAME};

verus! {

// ---------------------------------------------------------------------------
// Types
// ---------------------------------------------------------------------------

#[derive(Debug, Clone, Copy, PartialEq, Eq, Structural)]
pub enum ProxyScheme {
    Http,
    Socks5,
}

#[derive(Debug, Clone, PartialEq, Eq)]
pub struct ProxySettings {
    pub scheme: ProxyScheme,
    pub host: String,
    pub port: String,
}

pub struct ProxySettingsView {
    pub scheme: ProxyScheme,
    pub host: Seq<char>,
    pub port: Seq<char>,
}

impl View for ProxySettings {
    type V = ProxySettingsView;

    open spec fn view(&self) -> ProxySettingsView {
        ProxySettingsView { scheme: self.scheme, host: self.host@, port: self.port@ }
    }
}

impl DeepView for ProxySettings {
    type V = ProxySettingsView;

    open spec fn deep_view(&self) -> ProxySettingsView {
        self@
    }
}

#[derive(Debug, Clone, Copy, PartialEq, Eq, Structural)]
pub enum ProxyMode {
    System,
    Direct,
    InternalClash,
}

#[derive(Debug, Clone, PartialEq, Eq)]
pub struct ProxySubscription {
    pub id: String,
    pub name: String,
    pub url: String,
}

pub struct SubscriptionView {
    pub id: Seq<char>,
    pub name: Seq<char>,
    pub url: Seq<char>,
}

impl View for ProxySubscription {
    type V = SubscriptionView;

    open spec fn view(&self) -> SubscriptionView {
        SubscriptionView { id: self.id@, name: self.name@, url: self.url@ }
    }
}

impl DeepView for ProxySubscription {
    type V = SubscriptionView;

    open spec fn deep_view(&self) -> SubscriptionView {
        self@
    }
}

#[derive(Debug, Clone, PartialEq, Eq)]
pub struct ProxyUiSettings {
    pub mode: ProxyMode,
    pub subscription_url: String,
    pub active_subscription_id: String,
    pub subscriptions: Vec<ProxySubscription>,
    pub mixed_port: u16,
    pub controller_port: u16,
    pub auto_update_subscription: bool,
    pub selected_group: String,
    pub selected_proxy: String,
}

pub struct ProxyUiView {
    pub mode: ProxyMode,
    pub subscription_url: Seq<char>,
    pub active_subscription_id: Seq<char>,
    pub subscriptions: Seq<SubscriptionView>,
    pub mixed_port: u16,
    pub controller_port: u16,
    pub auto_update_subscription: bool,
    pub selected_group: Seq<char>,
    pub selected_proxy: Seq<char>,
}

impl View for ProxyUiSettings {
    type V = ProxyUiView;

    open spec fn view(&self) -> ProxyUiView {
        ProxyUiView {
            mode: self.mode,
            subscription_url: self.subscription_url@,
            active_subscription_id: self.active_subscription_id@,
            subscriptions: self.subscriptions.deep_view(),
            mixed_port: self.mixed_port,
            controller_port: self.controller_port,
            auto_update_subscription: self.auto_update_subscription,
            selected_group: self.selected_group@,
            selected_proxy: self.selected_proxy@,
        }
    }
}

#[derive(Debug, Clone, PartialEq, Eq)]
pub struct AppSettings {
    pub proxy: ProxyUiSettings,
}

impl View for AppSettings {
    type V = ProxyUiView;

    open spec fn view(&self) -> ProxyUiView {
        self.proxy@
    }
}

// ---------------------------------------------------------------------------
// Specifications
// ---------------------------------------------------------------------------

pub open spec fn fnv_offset() -> u64 {
    0xcbf29ce484222325u64
}

pub open spec fn fnv_prime() -> u64 {
    0x100000001b3u64
}

/// 64-bit FNV-1a over `bytes`.
pub open spec fn fnv1a(bytes: Seq<u8>) -> u64
    decreases bytes.len(),
{
    if bytes.len() == 0 {
        fnv_offset()
    } else {
        (fnv1a(bytes.drop_last()) ^ (bytes.last() as u64)).wrapping_mul(fnv_prime())
    }
}

/// The identifier derived from a subscription URL: `sub-` and sixteen hex digits.
pub open spec fn spec_stable_subscription_id(url: Seq<char>) -> Seq<char> {
    "sub-"@ + hex_fixed(fnv1a(vstd::utf8::encode_utf8(url)) as nat, 16)
}

/// Index of the first subscription whose id is `id`.
pub open spec fn find_subscription(subs: Seq<SubscriptionView>, id: Seq<char>) -> Option<int>
    decreases subs.len(),
{
    if subs.len() == 0 {
        None
    } else if subs[0].id == id {
        Some(0)
    } else {
        match find_subscription(subs.drop_first(), id) {
            Some(i) => Some(i + 1),
            None => None,
        }
    }
}

/// The URL that the settings currently point at.
pub open spec fn spec_active_subscription_url(s: ProxyUiView) -> Seq<char> {
    match find_subscription(s.subscriptions, s.active_subscription_id) {
        Some(i) => if !is_blank(s.subscriptions[i].url) {
            s.subscriptions[i].url
        } else {
            s.subscription_url
        },
        None => s.subscription_url,
    }
}

/// The subscriptions whose URL is not blank, in order.
pub open spec fn keep_nonblank(subs: Seq<SubscriptionView>) -> Seq<SubscriptionView>
    decreases subs.len(),
{
    if subs.len() == 0 {
        subs
    } else if is_blank(subs.last().url) {
        keep_nonblank(subs.drop_last())
    } else {
        keep_nonblank(subs.drop_last()).push(subs.last())
    }
}

pub open spec fn default_subscription_name() -> Seq<char> {
    "默认订阅"@
}

/// The subscription list after normalisation.
pub open spec fn normalized_subscriptions(s: ProxyUiView) -> Seq<SubscriptionView> {
    let kept = keep_nonblank(s.subscriptions);
    if kept.len() == 0 && !is_blank(s.subscription_url) {
        seq![
            SubscriptionView {
                id: spec_stable_subscription_id(s.subscription_url),
                name: default_subscription_name(),
                url: s.subscription_url,
            },
        ]
    } else {
        kept
    }
}

/// The active id after normalisation.
pub open spec fn normalized_active_id(s: ProxyUiView) -> Seq<char> {
    let subs = normalized_subscriptions(s);
    if is_blank(s.active_subscription_id) || find_subscription(
        subs,
        s.active_subscription_id,
    ) is None {
        if subs.len() > 0 {
            subs[0].id
        } else {
            Seq::empty()
        }
    } else {
        s.active_subscription_id
    }
}

/// Settings after `normalize_subscriptions_with_previous_active(previous)`.
pub open spec fn spec_normalized(s: ProxyUiView, previous: Option<Seq<char>>) -> ProxyUiView {
    let subs = normalized_subscriptions(s);
    let active = normalized_active_id(s);
    let url = match find_subscription(subs, active) {
        Some(i) => subs[i].url,
        None => s.subscription_url,
    };
    let reset = previous matches Some(p) && p != active;
    ProxyUiView {
        mode: s.mode,
        subscription_url: url,
        active_subscription_id: active,
        subscriptions: subs,
        mixed_port: s.mixed_port,
        controller_port: s.controller_port,
        auto_update_subscription: s.auto_update_subscription,
        selected_group: if reset { Seq::empty() } else { s.selected_group },
        selected_proxy: if reset { Seq::empty() } else { s.selected_proxy },
    }
}

/// `Path::join` for a relative segment, with `/` as separator.
pub open spec fn path_join(base: Seq<char>, segment: Seq<char>) -> Seq<char> {
    if base.len() == 0 {
        segment
    } else if base.last() == '/' || base.last() == '\\' {
        base + segment
    } else {
        base + seq!['/'] + segment
    }
}

/// Strips every trailing `a` or `b`.
pub open spec fn strip_end_pair(s: Seq<char>, a: char, b: char) -> Seq<char>
    decreases s.len(),
{
    if s.len() > 0 && (s.last() == a || s.last() == b) {
        strip_end_pair(s.drop_last(), a, b)
    } else {
        s
    }
}

/// Strips every leading `a` or `b`.
pub open spec fn strip_start_pair(s: Seq<char>, a: char, b: char) -> Seq<char>
    decreases s.len(),
{
    if s.len() > 0 && (s[0] == a || s[0] == b) {
        strip_start_pair(s.drop_first(), a, b)
    } else {
        s
    }
}

/// The scheme prefix of an endpoint and what follows it.
pub open spec fn endpoint_scheme(e: Seq<char>, fallback: ProxyScheme) -> (ProxyScheme, Seq<char>) {
    if starts_with(e, "http://"@) {
        (ProxyScheme::Http, e.skip(7))
    } else if starts_with(e, "https://"@) {
        (ProxyScheme::Http, e.skip(8))
    } else if starts_with(e, "socks5://"@) {
        (ProxyScheme::Socks5, e.skip(9))
    } else if starts_with(e, "socks://"@) {
        (ProxyScheme::Socks5, e.skip(8))
    } else {
        (fallback, e)
    }
}

/// A `host:port` endpoint, with an optional scheme prefix.
pub open spec fn spec_parse_proxy_endpoint(value: Seq<char>, fallback: ProxyScheme) -> Option<
    ProxySettingsView,
> {
    let e = trim(value);
    if e.len() == 0 {
        None
    } else {
        let (scheme, rest) = endpoint_scheme(e, fallback);
        let rest = strip_end_pair(rest, '/', '/');
        match rsplit_once(rest, ':') {
            None => None,
            Some((host, port)) => if host.len() == 0 || port.len() == 0 {
                None
            } else {
                Some(
                    ProxySettingsView {
                        scheme,
                        host: strip_end_pair(strip_start_pair(host, '[', ']'), '[', ']'),
                        port,
                    },
                )
            },
        }
    }
}

pub open spec fn spec_scheme_for_key(key: Seq<char>) -> ProxyScheme {
    if eq_ignore_case(key, "socks"@) || eq_ignore_case(key, "socks5"@) {
        ProxyScheme::Socks5
    } else {
        ProxyScheme::Http
    }
}

/// The `key=endpoint` pairs among `pieces`, in order.
pub open spec fn key_value_pairs(pieces: Seq<Seq<char>>) -> Seq<(Seq<char>, Seq<char>)>
    decreases pieces.len(),
{
    if pieces.len() == 0 {
        Seq::empty()
    } else {
        let rest = key_value_pairs(pieces.drop_last());
        match split_once(pieces.last(), '=') {
            Some(kv) => rest.push(kv),
            None => rest,
        }
    }
}

/// The endpoint of the first pair whose trimmed key equals `key` up to ASCII case.
pub open spec fn endpoint_for_key(pairs: Seq<(Seq<char>, Seq<char>)>, key: Seq<char>) -> Option<
    Seq<char>,
>
    decreases pairs.len(),
{
    if pairs.len() == 0 {
        None
    } else {
        match endpoint_for_key(pairs.drop_last(), key) {
            Some(e) => Some(e),
            None => if eq_ignore_case(trim(pairs.last().0), key) {
                Some(pairs.last().1)
            } else {
                None
            },
        }
    }
}

/// A proxy server setting as Windows stores it: `host:port`, or
/// `http=host:port;https=...;socks=...` with keys preferred in that order.
pub open spec fn spec_parse_proxy_server(value: Seq<char>) -> Option<ProxySettingsView> {
    let v = trim(value);
    if v.len() == 0 {
        None
    } else if v.contains('=') {
        let pairs = key_value_pairs(split_on(v, ';'));
        if let Some(e) = endpoint_for_key(pairs, "http"@) {
            spec_parse_proxy_endpoint(e, ProxyScheme::Http)
        } else if let Some(e) = endpoint_for_key(pairs, "https"@) {
            spec_parse_proxy_endpoint(e, ProxyScheme::Http)
        } else if let Some(e) = endpoint_for_key(pairs, "socks"@) {
            spec_parse_proxy_endpoint(e, ProxyScheme::Socks5)
        } else if let Some(e) = endpoint_for_key(pairs, "socks5"@) {
            spec_parse_proxy_endpoint(e, ProxyScheme::Socks5)
        } else {
            None
        }
    } else {
        spec_parse_proxy_endpoint(v, ProxyScheme::Http)
    }
}

pub open spec fn local_http_proxy_view(port: u16) -> ProxySettingsView {
    ProxySettingsView {
        scheme: ProxyScheme::Http,
        host: "127.0.0.1"@,
        port: dec_digits(port as nat),
    }
}

pub open spec fn opt_view(p: Option<ProxySettings>) -> Option<ProxySettingsView> {
    match p {
        Some(p) => Some(p@),
        None => None,
    }
}

// ---------------------------------------------------------------------------
// Lemmas
// ---------------------------------------------------------------------------

proof fn lemma_find_subscription_at(subs: Seq<SubscriptionView>, id: Seq<char>, i: int)
    requires
        0 <= i <= subs.len(),
        forall|k: int| 0 <= k < i ==> subs[k].id != id,
        i < subs.len() ==> subs[i].id == id,
    ensures
        i < subs.len() ==> find_subscription(subs, id) == Some(i),
        i == subs.len() ==> find_subscription(subs, id) is None,
    decreases i,
{
    if i > 0 {
        let t = subs.drop_first();
        assert forall|k: int| 0 <= k < i - 1 implies t[k].id != id by {
            assert(t[k] == subs[k + 1]);
        }
        if i < subs.len() {
            assert(t[i - 1] == subs[i]);
        }
        lemma_find_subscription_at(t, id, i - 1);
    }
}

pub proof fn lemma_find_subscription_bounds(subs: Seq<SubscriptionView>, id: Seq<char>)
    ensures
        find_subscription(subs, id) matches Some(i) ==> 0 <= i < subs.len() && subs[i].id == id,
        find_subscription(subs, id) is None ==> forall|k: int|
            0 <= k < subs.len() ==> subs[k].id != id,
    decreases subs.len(),
{
    if subs.len() > 0 && subs[0].id != id {
        lemma_find_subscription_bounds(subs.drop_first(), id);
        assert forall|k: int| 1 <= k < subs.len() implies subs[k] == subs.drop_first()[k - 1] by {}
    }
}

pub proof fn lemma_keep_nonblank(subs: Seq<SubscriptionView>)
    ensures
        forall|k: int|
            0 <= k < keep_nonblank(subs).len() ==> !is_blank(#[trigger] keep_nonblank(subs)[k].url),
        keep_nonblank(subs).len() <= subs.len(),
    decreases subs.len(),
{
    if subs.len() > 0 {
        lemma_keep_nonblank(subs.drop_last());
    }
}

proof fn lemma_keep_nonblank_all(subs: Seq<SubscriptionView>)
    requires
        forall|k: int| 0 <= k < subs.len() ==> !is_blank(#[trigger] subs[k].url),
    ensures
        keep_nonblank(subs) == subs,
    decreases subs.len(),
{
    if subs.len() > 0 {
        lemma_keep_nonblank_all(subs.drop_last());
        assert(subs.drop_last().push(subs.last()) == subs);
    }
}

// ---------------------------------------------------------------------------
// Executable code
// ---------------------------------------------------------------------------

impl ProxySubscription {
    /// A field-by-field copy.
    pub fn duplicate(&self) -> (r: ProxySubscription)
        ensures
            r@ == self@,
    {
        ProxySubscription { id: self.id.clone(), name: self.name.clone(), url: self.url.clone() }
    }
}

impl ProxySettings {
    /// A field-by-field copy.
    pub fn duplicate(&self) -> (r: ProxySettings)
        ensures
            r@ == self@,
    {
        ProxySettings { scheme: self.scheme, host: self.host.clone(), port: self.port.clone() }
    }
}

impl Default for AppSettings {
    fn default() -> (r: AppSettings)
        ensures
            r@.mode == ProxyMode::System,
            r@.subscription_url == Seq::<char>::empty(),
            r@.active_subscription_id == Seq::<char>::empty(),
            r@.subscriptions == Seq::<SubscriptionView>::empty(),
            r@.mixed_port == 17898,
            r@.controller_port == 17899,
            r@.auto_update_subscription,
            r@.selected_group == Seq::<char>::empty(),
            r@.selected_proxy == Seq::<char>::empty(),
    {
        let subscriptions: Vec<ProxySubscription> = Vec::new();
        let r = AppSettings {
            proxy: ProxyUiSettings {
                mode: ProxyMode::System,
                subscription_url: String::new(),
                active_subscription_id: String::new(),
                subscriptions,
                mixed_port: 17898,
                controller_port: 17899,
                auto_update_subscription: default_auto_update_subscription(),
                selected_group: String::new(),
                selected_proxy: String::new(),
            },
        };
        assert(r@.subscriptions =~= Seq::<SubscriptionView>::empty());
        r
    }
}

/// Settings files written before the field existed update subscriptions automatically.
pub fn default_auto_update_subscription() -> (r: bool)
    ensures
        r,
{
    true
}

impl AppSettings {
    /// The settings with their subscription list normalised.
    pub fn normalized(self) -> (r: AppSettings)
        ensures
            r@ == spec_normalized(self@, None),
            spec_normalized(r@, None) == r@,
    {
        let mut s = self;
        s.proxy.normalize_subscriptions();
        s
    }
}

impl ProxyUiSettings {
    /// Index of the first subscription with the given id.
    fn find_subscription_index(&self, id: &String) -> (r: Option<usize>)
        ensures
            r matches Some(i) ==> find_subscription(self@.subscriptions, id@) == Some(i as int)
                && i < self.subscriptions.len(),
            r is None ==> find_subscription(self@.subscriptions, id@) is None,
    {
        let mut i: usize = 0;
        while i < self.subscriptions.len()
            invariant
                i <= self.subscriptions.len(),
                forall|k: int|
                    0 <= k < i ==> (#[trigger] self@.subscriptions[k]).id != id@,
            decreases self.subscriptions.len() - i,
        {
            if str_eq(self.subscriptions[i].id.as_str(), id.as_str()) {
                proof { lemma_find_subscription_at(self@.subscriptions, id@, i as int); }
                return Some(i);
            }
            i = i + 1;
        }
        proof {
            lemma_find_subscription_at(
                self@.subscriptions,
                id@,
                self@.subscriptions.len() as int,
            );
        }
        None
    }

    /// The URL of the active subscription, or the stored URL when the active
    /// subscription is missing or has a blank URL.
    pub fn active_subscription_url(&self) -> (r: String)
        ensures
            r@ == spec_active_subscription_url(self@),
    {
        match self.find_subscription_index(&self.active_subscription_id) {
            Some(i) => {
                if !str_is_blank(self.subscriptions[i].url.as_str()) {
                    self.subscriptions[i].url.clone()
                } else {
                    self.subscription_url.clone()
                }
            },
            None => self.subscription_url.clone(),
        }
    }

    /// Normalises the subscription list, keeping the current selection.
    pub fn normalize_subscriptions(&mut self)
        ensures
            final(self)@ == spec_normalized(old(self)@, None),
            spec_normalized(final(self)@, None) == final(self)@,
    {
        self.normalize_subscriptions_with_previous_active(None);
        proof {
            law_normalize_subscriptions_idempotent(old(self)@);
        }
    }

    /// Drops subscriptions with a blank URL, turns a lone stored URL into a
    /// subscription, makes the active id point at an existing subscription,
    /// copies its URL into `subscription_url`, and clears the selected group
    /// and proxy when the active subscription differs from `previous_active`.
    pub fn normalize_subscriptions_with_previous_active(&mut self, previous_active: Option<&str>)
        ensures
            final(self)@ == spec_normalized(
                old(self)@,
                match previous_active {
                    Some(p) => Some(p@),
                    None => None,
                },
            ),
    {
        let ghost old_view = self@;
        // keep subscriptions with a non-blank URL
        let mut kept: Vec<ProxySubscription> = Vec::new();
        let mut i: usize = 0;
        while i < self.subscriptions.len()
            invariant
                i <= self.subscriptions.len(),
                self@ == old_view,
                kept.deep_view() == keep_nonblank(old_view.subscriptions.take(i as int)),
            decreases self.subscriptions.len() - i,
        {
            let ghost before = kept.deep_view();
            assert(old_view.subscriptions.take(i + 1).drop_last() == old_view.subscriptions.take(
                i as int,
            ));
            assert(old_view.subscriptions.take(i + 1).last() == self.subscriptions@[i as int]@);
            if !str_is_blank(self.subscriptions[i].url.as_str()) {
                let copy = self.subscriptions[i].duplicate();
                kept.push(copy);
                assert(kept.deep_view() =~= before.push(copy@));
            }
            i = i + 1;
        }
        assert(old_view.subscriptions.take(self.subscriptions.len() as int)
            == old_view.subscriptions);
        if kept.len() == 0 && !str_is_blank(self.subscription_url.as_str()) {
            let name = String::from_str("默认订阅");
            let sub = ProxySubscription {
                id: stable_subscription_id(self.subscription_url.as_str()),
                name,
                url: self.subscription_url.clone(),
            };
            kept.push(sub);
            assert(kept.deep_view() =~= normalized_subscriptions(old_view));
        }
        assert(kept.deep_view() =~= normalized_subscriptions(old_view));
        self.subscriptions = kept;

        let blank_active = str_is_blank(self.active_subscription_id.as_str());
        let found = self.find_subscription_index(&self.active_subscription_id);
        if blank_active || found.is_none() {
            if self.subscriptions.len() > 0 {
                self.active_subscription_id = self.subscriptions[0].id.clone();
            } else {
                self.active_subscription_id = String::new();
            }
        }
        assert(self@.active_subscription_id == normalized_active_id(old_view));

        match self.find_subscription_index(&self.active_subscription_id) {
            Some(k) => {
                self.subscription_url = self.subscriptions[k].url.clone();
            },
            None => {},
        }

        let reset = match previous_active {
            Some(previous) => !str_eq(previous, self.active_subscription_id.as_str()),
            None => false,
        };
        if reset {
            self.selected_group = String::new();
            self.selected_proxy = String::new();
        }
    }
}

/// A stable identifier for a subscription URL: `sub-` followed by the 64-bit
/// FNV-1a hash of its UTF-8 bytes as sixteen lower-case hex digits.
pub fn stable_subscription_id(url: &str) -> (r: String)
    ensures
        r@ == spec_stable_subscription_id(url@),
{
    let bytes = url.as_bytes();
    let mut hash: u64 = 0xcbf29ce484222325u64;
    let mut i: usize = 0;
    while i < bytes.len()
        invariant
            i <= bytes@.len(),
            bytes@ == url.spec_bytes(),
            hash == fnv1a(bytes@.take(i as int)),
        decreases bytes.len() - i,
    {
        assert(bytes@.take(i + 1).drop_last() == bytes@.take(i as int));
        hash = (hash ^ (bytes[i] as u64)).wrapping_mul(0x100000001b3u64);
        i = i + 1;
    }
    assert(bytes@.take(bytes@.len() as int) == bytes@);
    let mut r = String::from_str("sub-");
    let digits = hex_fixed_chars(hash, 16);
    push_chars(&mut r, &digits);
    r
}

/// `base` joined with a relative segment.
pub fn join_path(base: &str, segment: &str) -> (r: String)
    ensures
        r@ == path_join(base@, segment@),
{
    let b = chars_of(base);
    let mut r = string_from(&b);
    if b.len() > 0 && b[b.len() - 1] != '/' && b[b.len() - 1] != '\\' {
        push_char(&mut r, '/');
    }
    push_str(&mut r, segment);
    r
}

/// The data directory: the one named by `EASYGPT_DATA_DIR` when that is set
/// and not empty (`env_data_dir` is its value), else the `data` directory
/// beside the executable.
pub open spec fn data_dir_of(env_data_dir: Option<Seq<char>>, executable_dir: Seq<char>) -> Seq<char> {
    match env_data_dir {
        Some(v) if v.len() > 0 => v,
        _ => path_join(executable_dir, PORTABLE_DATA_DIR_NAME@),
    }
}

pub open spec fn opt_str_seq(s: Option<&str>) -> Option<Seq<char>> {
    match s {
        Some(v) => Some(v@),
        None => None,
    }
}

/// The WebView profile directory inside the application data directory.
pub fn webview_profile_dir(env_data_dir: Option<&str>, executable_dir: &str) -> (r: String)
    ensures
        r@ == path_join(data_dir_of(opt_str_seq(env_data_dir), executable_dir@), WEBVIEW_PROFILE_DIR_NAME@),
{
    let data = app_data_dir(env_data_dir, executable_dir);
    join_path(data.as_str(), WEBVIEW_PROFILE_DIR_NAME)
}

/// The application data directory: `EASYGPT_DATA_DIR` when it is set, else
/// the portable data directory.
pub fn app_data_dir(env_data_dir: Option<&str>, executable_dir: &str) -> (r: String)
    ensures
        r@ == data_dir_of(opt_str_seq(env_data_dir), executable_dir@),
{
    match env_data_dir {
        Some(v) => if chars_of(v).len() > 0 {
            crate::text::owned(v)
        } else {
            portable_data_dir(executable_dir)
        },
        None => portable_data_dir(executable_dir),
    }
}

/// The `data` directory beside the executable.
pub fn portable_data_dir(executable_dir: &str) -> (r: String)
    ensures
        r@ == path_join(executable_dir@, PORTABLE_DATA_DIR_NAME@),
{
    join_path(executable_dir, PORTABLE_DATA_DIR_NAME)
}

/// The per-user data directory used by earlier layouts.
pub fn legacy_app_data_dir(local_data_dir: &str) -> (r: String)
    ensures
        r@ == path_join(local_data_dir@, APP_DIR_NAME@),
{
    join_path(local_data_dir, APP_DIR_NAME)
}

/// The WebView profile directory used by earlier layouts.
pub fn legacy_webview_profile_dir(local_data_dir: &str) -> (r: String)
    ensures
        r@ == path_join(path_join(local_data_dir@, APP_DIR_NAME@), WEBVIEW_PROFILE_DIR_NAME@),
{
    let legacy = legacy_app_data_dir(local_data_dir);
    join_path(legacy.as_str(), WEBVIEW_PROFILE_DIR_NAME)
}

/// The settings file inside the application data directory.
pub fn settings_path(env_data_dir: Option<&str>, executable_dir: &str) -> (r: String)
    ensures
        r@ == path_join(data_dir_of(opt_str_seq(env_data_dir), executable_dir@), "settings.toml"@),
{
    let data = app_data_dir(env_data_dir, executable_dir);
    join_path(data.as_str(), "settings.toml")
}

/// The HTTP proxy that the internal runtime listens on.
pub fn local_http_proxy(port: u16) -> (r: ProxySettings)
    ensures
        r@ == local_http_proxy_view(port),
{
    ProxySettings {
        scheme: ProxyScheme::Http,
        host: String::from_str("127.0.0.1"),
        port: dec_string(port as u64),
    }
}

/// The proxy that web views start with: none in direct mode, the detected
/// system proxy in system mode, the local runtime's HTTP port in internal mode.
pub fn startup_proxy(settings: &AppSettings, system_proxy: Option<ProxySettings>) -> (r: Option<
    ProxySettings,
>)
    ensures
        opt_view(r) == match settings@.mode {
            ProxyMode::Direct => None,
            ProxyMode::System => opt_view(system_proxy),
            ProxyMode::InternalClash => Some(local_http_proxy_view(settings@.mixed_port)),
        },
{
    match settings.proxy.mode {
        ProxyMode::Direct => None,
        ProxyMode::System => system_proxy,
        ProxyMode::InternalClash => Some(local_http_proxy(settings.proxy.mixed_port)),
    }
}

/// The proxy named by the environment override when it parses, else the system proxy.
pub fn detected_proxy(env_override: Option<&str>, system_proxy: Option<ProxySettings>) -> (r:
    Option<ProxySettings>)
    ensures
        opt_view(r) == match env_override {
            Some(v) => match spec_parse_proxy_server(v@) {
                Some(p) => Some(p),
                None => opt_view(system_proxy),
            },
            None => opt_view(system_proxy),
        },
{
    match env_override {
        Some(v) => match parse_proxy_server(v) {
            Some(p) => Some(p),
            None => system_proxy,
        },
        None => system_proxy,
    }
}

/// The proxy configured in the Windows Internet settings, given the
/// `ProxyEnable` and `ProxyServer` values read from the registry.
pub fn windows_system_proxy(proxy_enable: Option<u32>, proxy_server: Option<&str>) -> (r: Option<
    ProxySettings,
>)
    ensures
        opt_view(r) == match (proxy_enable, proxy_server) {
            (Some(e), Some(s)) => if e == 0 {
                None
            } else {
                spec_parse_proxy_server(s@)
            },
            _ => None,
        },
{
    match (proxy_enable, proxy_server) {
        (Some(e), Some(s)) => if e == 0 {
            None
        } else {
            parse_proxy_server(s)
        },
        _ => None,
    }
}

pub fn strip_end_pair_chars(v: &Vec<char>, a: char, b: char) -> (r: Vec<char>)
    ensures
        r@ == strip_end_pair(v@, a, b),
{
    let mut j: usize = v.len();
    assert(v@.subrange(0, v@.len() as int) == v@);
    while j > 0 && (v[j - 1] == a || v[j - 1] == b)
        invariant
            j <= v.len(),
            strip_end_pair(v@, a, b) == strip_end_pair(v@.subrange(0, j as int), a, b),
        decreases j,
    {
        assert(v@.subrange(0, j as int).drop_last() == v@.subrange(0, j - 1));
        j = j - 1;
    }
    slice_chars(v, 0, j)
}

pub fn strip_start_pair_chars(v: &Vec<char>, a: char, b: char) -> (r: Vec<char>)
    ensures
        r@ == strip_start_pair(v@, a, b),
{
    let mut i: usize = 0;
    assert(v@.subrange(0, v@.len() as int) == v@);
    while i < v.len() && (v[i] == a || v[i] == b)
        invariant
            i <= v.len(),
            strip_start_pair(v@, a, b) == strip_start_pair(v@.subrange(i as int, v.len() as int), a, b),
        decreases v.len() - i,
    {
        assert(v@.subrange(i as int, v.len() as int).drop_first() == v@.subrange(i + 1, v.len() as int));
        i = i + 1;
    }
    slice_chars(v, i, v.len())
}

/// Parses an endpoint such as `http://host:port/` or `host:port`.
pub fn parse_proxy_endpoint(value: &str, fallback_scheme: ProxyScheme) -> (r: Option<ProxySettings>)
    ensures
        opt_view(r) == spec_parse_proxy_endpoint(value@, fallback_scheme),
{
    let v = chars_of(value);
    parse_proxy_endpoint_chars(&v, fallback_scheme)
}

fn parse_proxy_endpoint_chars(value: &Vec<char>, fallback_scheme: ProxyScheme) -> (r: Option<
    ProxySettings,
>)
    ensures
        opt_view(r) == spec_parse_proxy_endpoint(value@, fallback_scheme),
{
    let e = trim_chars(value);
    if e.len() == 0 {
        return None;
    }
    proof {
        reveal_strlit("http://");
        reveal_strlit("https://");
        reveal_strlit("socks5://");
        reveal_strlit("socks://");
    }
    let (scheme, rest) = if chars_starts_with(&e, "http://") {
        (ProxyScheme::Http, slice_chars(&e, 7, e.len()))
    } else if chars_starts_with(&e, "https://") {
        (ProxyScheme::Http, slice_chars(&e, 8, e.len()))
    } else if chars_starts_with(&e, "socks5://") {
        (ProxyScheme::Socks5, slice_chars(&e, 9, e.len()))
    } else if chars_starts_with(&e, "socks://") {
        (ProxyScheme::Socks5, slice_chars(&e, 8, e.len()))
    } else {
        (fallback_scheme, slice_chars(&e, 0, e.len()))
    };
    proof {
        reveal_strlit("http://");
        reveal_strlit("https://");
        reveal_strlit("socks5://");
        reveal_strlit("socks://");
        assert(e@.subrange(0, e@.len() as int) == e@);
    }
    assert((scheme, rest@) == endpoint_scheme(e@, fallback_scheme));
    let rest = strip_end_pair_chars(&rest, '/', '/');
    match rsplit_once_chars(&rest, ':') {
        None => None,
        Some((host, port)) => {
            if host.len() == 0 || port.len() == 0 {
                None
            } else {
                let h1 = strip_start_pair_chars(&host, '[', ']');
                let h2 = strip_end_pair_chars(&h1, '[', ']');
                Some(ProxySettings { scheme, host: string_from(&h2), port: string_from(&port) })
            }
        },
    }
}

/// `socks` and `socks5` (any ASCII case) select SOCKS5; every other key HTTP.
pub fn scheme_for_key(key: &str) -> (r: ProxyScheme)
    ensures
        r == spec_scheme_for_key(key@),
{
    let k = chars_of(key);
    if eq_ignore_case_str(&k, "socks") || eq_ignore_case_str(&k, "socks5") {
        ProxyScheme::Socks5
    } else {
        ProxyScheme::Http
    }
}

proof fn lemma_preferred_key_schemes()
    ensures
        spec_scheme_for_key("http"@) == ProxyScheme::Http,
        spec_scheme_for_key("https"@) == ProxyScheme::Http,
        spec_scheme_for_key("socks"@) == ProxyScheme::Socks5,
        spec_scheme_for_key("socks5"@) == ProxyScheme::Socks5,
{
    reveal_strlit("http");
    reveal_strlit("https");
    reveal_strlit("socks");
    reveal_strlit("socks5");
    assert(crate::text::ascii_lower("https"@[0]) != crate::text::ascii_lower("socks"@[0]));
}

/// Parses a proxy server setting: either a single endpoint, or a list of
/// `key=endpoint` pairs separated by `;` from which `http`, `https`, `socks`
/// and `socks5` are tried in that order.
pub fn parse_proxy_server(value: &str) -> (r: Option<ProxySettings>)
    ensures
        opt_view(r) == spec_parse_proxy_server(value@),
{
    let raw = chars_of(value);
    let v = trim_chars(&raw);
    if v.len() == 0 {
        return None;
    }
    if !chars_contain(&v, '=') {
        return parse_proxy_endpoint_chars(&v, ProxyScheme::Http);
    }
    let pieces = split_chars(&v, ';');
    let ghost spec_pieces = split_on(v@, ';');
    // collect the key/value pairs
    let mut keys: Vec<Vec<char>> = Vec::new();
    let mut endpoints: Vec<Vec<char>> = Vec::new();
    let mut i: usize = 0;
    while i < pieces.len()
        invariant
            i <= pieces.len(),
            pieces@.len() == spec_pieces.len(),
            forall|m: int| 0 <= m < pieces@.len() ==> #[trigger] pieces@[m]@ == spec_pieces[m],
            keys@.len() == endpoints@.len(),
            keys@.len() == key_value_pairs(spec_pieces.take(i as int)).len(),
            forall|m: int|
                0 <= m < keys@.len() ==> (#[trigger] keys@[m])@ == key_value_pairs(
                    spec_pieces.take(i as int),
                )[m].0 && endpoints@[m]@ == key_value_pairs(spec_pieces.take(i as int))[m].1,
        decreases pieces.len() - i,
    {
        assert(spec_pieces.take(i + 1).drop_last() == spec_pieces.take(i as int));
        assert(spec_pieces.take(i + 1).last() == pieces@[i as int]@);
        match split_once_chars(&pieces[i], '=') {
            Some((k, e)) => {
                keys.push(k);
                endpoints.push(e);
            },
            None => {},
        }
        i = i + 1;
    }
    assert(spec_pieces.take(pieces.len() as int) == spec_pieces);
    let ghost pairs = key_value_pairs(spec_pieces);
    let preferred = ["http", "https", "socks", "socks5"];
    let mut p: usize = 0;
    while p < 4
        invariant
            p <= 4,
            keys@.len() == endpoints@.len() == pairs.len(),
            forall|m: int|
                0 <= m < keys@.len() ==> (#[trigger] keys@[m])@ == pairs[m].0 && endpoints@[m]@
                    == pairs[m].1,
            p >= 1 ==> endpoint_for_key(pairs, "http"@) is None,
            p >= 2 ==> endpoint_for_key(pairs, "https"@) is None,
            p >= 3 ==> endpoint_for_key(pairs, "socks"@) is None,
            p >= 4 ==> endpoint_for_key(pairs, "socks5"@) is None,
            preferred@ == seq!["http", "https", "socks", "socks5"],
            v@.contains('='),
            v@ == trim(value@),
            v@.len() > 0,
            pairs == key_value_pairs(split_on(v@, ';')),
        decreases 4 - p,
    {
        let key = preferred[p];
        let mut found: Option<usize> = None;
        let mut m: usize = 0;
        assert(pairs.take(0) == Seq::<(Seq<char>, Seq<char>)>::empty());
        while m < keys.len()
            invariant
                m <= keys.len(),
                keys@.len() == endpoints@.len() == pairs.len(),
                forall|q: int|
                    0 <= q < keys@.len() ==> (#[trigger] keys@[q])@ == pairs[q].0 && endpoints@[q]@
                        == pairs[q].1,
                match found {
                    Some(f) => f < keys.len() && endpoint_for_key(pairs.take(m as int), key@)
                        == Some(pairs[f as int].1),
                    None => endpoint_for_key(pairs.take(m as int), key@) is None,
                },
            decreases keys.len() - m,
        {
            assert(pairs.take(m + 1).drop_last() == pairs.take(m as int));
            assert(pairs.take(m + 1).last() == pairs[m as int]);
            if found.is_none() {
                let kt = trim_chars(&keys[m]);
                if eq_ignore_case_str(&kt, key) {
                    found = Some(m);
                }
            }
            m = m + 1;
        }
        assert(pairs.take(keys.len() as int) == pairs);
        if let Some(f) = found {
            proof {
                lemma_preferred_key_schemes();
            }
            assert(key@ == seq!["http", "https", "socks", "socks5"][p as int]@);
            let scheme = scheme_for_key(key);
            assert(keys@[f as int]@ == pairs[f as int].0);
            return parse_proxy_endpoint_chars(&endpoints[f], scheme);
        }
        p = p + 1;
    }
    None
}

} // verus!

verus! {

// ---------------------------------------------------------------------------
// Laws
// ---------------------------------------------------------------------------

/// After normalisation every subscription has a non-blank URL, the active id
/// names a subscription whenever there is one (and is empty otherwise), and a
/// missing list means the stored URL is blank.
pub proof fn law_normalized_is_well_formed(s: ProxyUiView, previous: Option<Seq<char>>)
    ensures
        forall|k: int|
            0 <= k < spec_normalized(s, previous).subscriptions.len() ==> !is_blank(
                #[trigger] spec_normalized(s, previous).subscriptions[k].url,
            ),
        spec_normalized(s, previous).subscriptions.len() > 0 ==> find_subscription(
            spec_normalized(s, previous).subscriptions,
            spec_normalized(s, previous).active_subscription_id,
        ) is Some,
        spec_normalized(s, previous).subscriptions.len() == 0 ==> spec_normalized(
            s,
            previous,
        ).active_subscription_id.len() == 0 && is_blank(spec_normalized(s, previous).subscription_url),
{
    let n = spec_normalized(s, previous);
    lemma_keep_nonblank(s.subscriptions);
    lemma_find_subscription_bounds(n.subscriptions, s.active_subscription_id);
    if n.subscriptions.len() > 0 {
        lemma_find_subscription_bounds(n.subscriptions, n.subscriptions[0].id);
    }
}

/// After normalisation the active subscription URL is the stored URL.
pub proof fn law_active_url_after_normalize(s: ProxyUiView, previous: Option<Seq<char>>)
    ensures
        spec_active_subscription_url(spec_normalized(s, previous)) == spec_normalized(
            s,
            previous,
        ).subscription_url,
{
    let n = spec_normalized(s, previous);
    law_normalized_is_well_formed(s, previous);
    lemma_find_subscription_bounds(n.subscriptions, n.active_subscription_id);
}

/// Normalising twice with the same previous id is the same as normalising once.
pub proof fn law_normalize_idempotent(s: ProxyUiView, previous: Option<Seq<char>>)
    ensures
        spec_normalized(spec_normalized(s, previous), previous) == spec_normalized(s, previous),
{
    let n = spec_normalized(s, previous);
    law_normalized_is_well_formed(s, previous);
    lemma_keep_nonblank_all(n.subscriptions);
    assert(normalized_subscriptions(n) == n.subscriptions);
    lemma_find_subscription_bounds(n.subscriptions, n.active_subscription_id);
    if n.subscriptions.len() > 0 {
        lemma_find_subscription_bounds(n.subscriptions, n.subscriptions[0].id);
        lemma_find_subscription_bounds(n.subscriptions, s.active_subscription_id);
    }
    assert(normalized_active_id(n) == n.active_subscription_id);
    let m = spec_normalized(n, previous);
    assert(m.subscriptions == n.subscriptions);
    assert(m.active_subscription_id == n.active_subscription_id);
    lemma_find_subscription_bounds(normalized_subscriptions(s), normalized_active_id(s));
    assert(m.subscription_url == n.subscription_url);
    assert(m == n);
}

/// A second `normalize_subscriptions` (or `normalized`) changes nothing:
/// the subscriptions, the active id, the stored URL and the selected group
/// and proxy all stay as the first one left them.
pub proof fn law_normalize_subscriptions_idempotent(s: ProxyUiView)
    ensures
        spec_normalized(spec_normalized(s, None), None) == spec_normalized(s, None),
{
    law_normalize_idempotent(s, None);
}

/// A pair whose trimmed key is `key` (up to ASCII case) makes the lookup
/// find an endpoint.
proof fn lemma_endpoint_for_key_found(pairs: Seq<(Seq<char>, Seq<char>)>, key: Seq<char>, i: int)
    requires
        0 <= i < pairs.len(),
        eq_ignore_case(trim(pairs[i].0), key),
    ensures
        endpoint_for_key(pairs, key) is Some,
    decreases pairs.len(),
{
    if i < pairs.len() - 1 {
        assert(pairs.drop_last()[i] == pairs[i]);
        lemma_endpoint_for_key_found(pairs.drop_last(), key, i);
    }
}

/// In a `key=endpoint` list (a Windows per-protocol setting) the keys are
/// tried in the order `http`, `https`, `socks`, `socks5`. Whenever an `http`
/// entry is listed, the result is its endpoint with the HTTP scheme,
/// whatever `socks` entries are also listed; `https` decides next, also
/// with HTTP; only without both does a `socks` or `socks5` entry decide,
/// with the SOCKS5 scheme; with none of the four there is no proxy.
pub proof fn law_proxy_server_key_precedence(value: Seq<char>)
    requires
        trim(value).len() > 0,
        trim(value).contains('='),
    ensures
        ({
            let pairs = key_value_pairs(split_on(trim(value), ';'));
            let http = endpoint_for_key(pairs, "http"@);
            let https = endpoint_for_key(pairs, "https"@);
            let socks = endpoint_for_key(pairs, "socks"@);
            let socks5 = endpoint_for_key(pairs, "socks5"@);
            &&& (forall|i: int|
                0 <= i < pairs.len() && eq_ignore_case(trim(#[trigger] pairs[i].0), "http"@) ==> http is Some)
            &&& http matches Some(e) ==> spec_parse_proxy_server(value) == spec_parse_proxy_endpoint(
                e,
                ProxyScheme::Http,
            )
            &&& http is None ==> (https matches Some(e) ==> spec_parse_proxy_server(value)
                == spec_parse_proxy_endpoint(e, ProxyScheme::Http))
            &&& (http is None && https is None) ==> (socks matches Some(e) ==> spec_parse_proxy_server(value)
                == spec_parse_proxy_endpoint(e, ProxyScheme::Socks5))
            &&& (http is None && https is None && socks is None) ==> (socks5 matches Some(e)
                ==> spec_parse_proxy_server(value) == spec_parse_proxy_endpoint(e, ProxyScheme::Socks5))
            &&& http is None && https is None && socks is None && socks5 is None
                ==> spec_parse_proxy_server(value) is None
        }),
{
    let pairs = key_value_pairs(split_on(trim(value), ';'));
    assert forall|i: int|
        0 <= i < pairs.len() && eq_ignore_case(trim(#[trigger] pairs[i].0), "http"@) implies endpoint_for_key(
        pairs,
        "http"@,
    ) is Some by {
        lemma_endpoint_for_key_found(pairs, "http"@, i);
    }
}

} // verus!
