//! Decisions of the internal proxy runtime: cache locations, local ports,
//! where the subscription comes from, and the configuration handed to the
//! proxy core.
use vstd::prelude::*;

use crate::settings::{
    path_join, spec_active_subscription_url, spec_stable_subscription_id, stable_subscription_id,
    join_path, strip_end_pair, strip_start_pair, strip_start_pair_chars, strip_end_pair_chars,
    AppSettings, ProxyMode, ProxyUiView,
};
use crate::text::{
    chars_of, dec_digits, dec_string, is_ascii_alnum, is_blank, push_char, push_str, str_is_blank,
    string_from, trim, trim_chars, trim_str, owned, hex_digits, hex_string_u128,
};
use crate::yaml::{
    into_untagged, is_plain_str, is_plain_str_exec, lemma_lookup_step, lookup, lookup_ref, untag,
    untag_ref, yaml_str, YamlEntry, YamlValue,
};

verus! {

// ---------------------------------------------------------------------------
// Directories and cache files
// ---------------------------------------------------------------------------

/// The runtime directory inside the application data directory.
pub fn clash_runtime_dir(app_data_dir: &str) -> (r: String)
    ensures
        r@ == path_join(app_data_dir@, "clash"@),
{
    join_path(app_data_dir, "clash")
}

/// The cache identifier of the active subscription: its trimmed id, else the
/// stable id of its trimmed URL, else empty.
pub open spec fn spec_cache_id(s: ProxyUiView) -> Seq<char> {
    let active = trim(s.active_subscription_id);
    if active.len() > 0 {
        active
    } else {
        let url = trim(spec_active_subscription_url(s));
        if url.len() == 0 {
            Seq::empty()
        } else {
            spec_stable_subscription_id(url)
        }
    }
}

pub open spec fn sanitize_id_char(c: char) -> char {
    if is_ascii_alnum(c) || c == '-' || c == '_' {
        c
    } else {
        '_'
    }
}

/// A file name for a cache id: unsafe characters become `_`, surrounding
/// underscores are dropped, an empty result becomes `subscription`, and
/// `.yaml` is appended.
pub open spec fn spec_cache_file_name(id: Seq<char>) -> Seq<char> {
    let mapped = id.map_values(|c: char| sanitize_id_char(c));
    let stripped = strip_end_pair(strip_start_pair(mapped, '_', '_'), '_', '_');
    let base = if stripped.len() == 0 {
        "subscription"@
    } else {
        stripped
    };
    base + ".yaml"@
}

pub open spec fn spec_cache_path(runtime_dir: Seq<char>, s: ProxyUiView) -> Seq<char> {
    let id = spec_cache_id(s);
    if id.len() == 0 {
        path_join(runtime_dir, "subscription.yaml"@)
    } else {
        path_join(path_join(runtime_dir, "subscriptions"@), spec_cache_file_name(id))
    }
}

/// The cache identifier of the active subscription.
pub fn active_subscription_cache_id(settings: &AppSettings) -> (r: String)
    ensures
        r@ == spec_cache_id(settings@),
{
    let active = trim_str(settings.proxy.active_subscription_id.as_str());
    let av = chars_of(active.as_str());
    if av.len() > 0 {
        return active;
    }
    let url = settings.proxy.active_subscription_url();
    let url = trim_str(url.as_str());
    let uv = chars_of(url.as_str());
    if uv.len() == 0 {
        String::new()
    } else {
        stable_subscription_id(url.as_str())
    }
}

fn sanitize_id_char_exec(c: char) -> (r: char)
    ensures
        r == sanitize_id_char(c),
{
    if ('0' <= c && c <= '9') || ('a' <= c && c <= 'z') || ('A' <= c && c <= 'Z') || c == '-' || c
        == '_' {
        c
    } else {
        '_'
    }
}

/// The cache file name for a subscription id.
pub fn subscription_cache_file_name(cache_id: &str) -> (r: String)
    ensures
        r@ == spec_cache_file_name(cache_id@),
{
    let v = chars_of(cache_id);
    let mut mapped: Vec<char> = Vec::new();
    let mut i: usize = 0;
    while i < v.len()
        invariant
            i <= v.len(),
            mapped@ == v@.take(i as int).map_values(|c: char| sanitize_id_char(c)),
        decreases v.len() - i,
    {
        mapped.push(sanitize_id_char_exec(v[i]));
        assert(v@.take(i + 1).map_values(|c: char| sanitize_id_char(c)) == v@.take(
            i as int,
        ).map_values(|c: char| sanitize_id_char(c)).push(sanitize_id_char(v@[i as int])));
        i = i + 1;
    }
    assert(v@.take(v@.len() as int) == v@);
    let s1 = strip_start_pair_chars(&mapped, '_', '_');
    let s2 = strip_end_pair_chars(&s1, '_', '_');
    let mut r = if s2.len() == 0 {
        String::from_str("subscription")
    } else {
        string_from(&s2)
    };
    push_str(&mut r, ".yaml");
    r
}

/// Where the active subscription is cached inside `runtime_dir`.
pub fn active_subscription_cache_path(runtime_dir: &str, settings: &AppSettings) -> (r: String)
    ensures
        r@ == spec_cache_path(runtime_dir@, settings@),
{
    let id = active_subscription_cache_id(settings);
    let idv = chars_of(id.as_str());
    if idv.len() == 0 {
        join_path(runtime_dir, "subscription.yaml")
    } else {
        let dir = join_path(runtime_dir, "subscriptions");
        let name = subscription_cache_file_name(id.as_str());
        join_path(dir.as_str(), name.as_str())
    }
}

// ---------------------------------------------------------------------------
// Ports
// ---------------------------------------------------------------------------

#[derive(Debug, Clone, Copy, PartialEq, Eq, Structural)]
pub struct RuntimePorts {
    pub mixed_port: u16,
    pub controller_port: u16,
}

#[derive(Debug, Clone, Copy, PartialEq, Eq, Structural)]
pub enum PortError {
    /// The configured proxy and controller ports are equal.
    SamePorts,
    /// No free local port could be found.
    NoFreePort,
    /// Resolution ended with equal ports.
    Collision,
}

impl PortError {
    pub fn message(&self) -> (r: String)
        ensures
            r@ == match self {
                PortError::SamePorts =>
                    "internal Clash proxy port and controller port must be different"@,
                PortError::NoFreePort => "could not find an available local port"@,
                PortError::Collision =>
                    "could not resolve different ports for internal Clash runtime"@,
            },
    {
        match self {
            PortError::SamePorts => String::from_str(
                "internal Clash proxy port and controller port must be different",
            ),
            PortError::NoFreePort => String::from_str("could not find an available local port"),
            PortError::Collision => String::from_str(
                "could not resolve different ports for internal Clash runtime",
            ),
        }
    }
}

/// What the local port probes reported: whether each configured port is free,
/// and the free port the system offered for each when asked.
#[derive(Debug, Clone, Copy, PartialEq, Eq, Structural)]
pub struct PortProbe {
    pub mixed_port_available: bool,
    pub controller_port_available: bool,
    pub spare_for_mixed: Option<u16>,
    pub spare_for_controller: Option<u16>,
}

/// The configured ports, which must differ.
pub fn configured_runtime_ports(settings: &AppSettings) -> (r: Result<(u16, u16), PortError>)
    ensures
        settings@.mixed_port == settings@.controller_port ==> r == Err::<(u16, u16), PortError>(
            PortError::SamePorts,
        ),
        settings@.mixed_port != settings@.controller_port ==> r == Ok::<(u16, u16), PortError>(
            (settings@.mixed_port, settings@.controller_port),
        ),
{
    let mixed_port = settings.proxy.mixed_port;
    let controller_port = settings.proxy.controller_port;
    if mixed_port == controller_port {
        return Err(PortError::SamePorts);
    }
    Ok((mixed_port, controller_port))
}

pub open spec fn spec_resolve_port(preferred: u16, available: bool, spare: Option<u16>) -> Result<
    u16,
    PortError,
> {
    if available {
        Ok(preferred)
    } else {
        match spare {
            Some(p) => Ok(p),
            None => Err(PortError::NoFreePort),
        }
    }
}

/// The preferred port when it is free, else the spare one.
pub fn resolve_available_port(preferred_port: u16, available: bool, spare: Option<u16>) -> (r:
    Result<u16, PortError>)
    ensures
        r == spec_resolve_port(preferred_port, available, spare),
{
    if available {
        return Ok(preferred_port);
    }
    match spare {
        Some(p) => Ok(p),
        None => Err(PortError::NoFreePort),
    }
}

pub open spec fn spec_resolved_ports(s: ProxyUiView, probe: PortProbe) -> Result<
    RuntimePorts,
    PortError,
> {
    if s.mixed_port == s.controller_port {
        Err(PortError::SamePorts)
    } else {
        match spec_resolve_port(s.mixed_port, probe.mixed_port_available, probe.spare_for_mixed) {
            Err(e) => Err(e),
            Ok(mixed) => {
                let controller = if s.controller_port == mixed {
                    match probe.spare_for_controller {
                        Some(p) => Ok(p),
                        None => Err(PortError::NoFreePort),
                    }
                } else {
                    spec_resolve_port(
                        s.controller_port,
                        probe.controller_port_available,
                        probe.spare_for_controller,
                    )
                };
                match controller {
                    Err(e) => Err(e),
                    Ok(c) => if c == mixed {
                        Err(PortError::Collision)
                    } else {
                        Ok(RuntimePorts { mixed_port: mixed, controller_port: c })
                    },
                }
            },
        }
    }
}

/// The ports the runtime listens on: the configured ones where they are free,
/// spare ones otherwise, and never the same port twice.
pub fn resolved_runtime_ports(settings: &AppSettings, probe: &PortProbe) -> (r: Result<
    RuntimePorts,
    PortError,
>)
    ensures
        r == spec_resolved_ports(settings@, *probe),
        r matches Ok(p) ==> p.mixed_port != p.controller_port,
{
    let (mixed_port, controller_port) = match configured_runtime_ports(settings) {
        Ok(p) => p,
        Err(e) => return Err(e),
    };
    let mixed_port = match resolve_available_port(
        mixed_port,
        probe.mixed_port_available,
        probe.spare_for_mixed,
    ) {
        Ok(p) => p,
        Err(e) => return Err(e),
    };
    let controller_port = if controller_port == mixed_port {
        match probe.spare_for_controller {
            Some(p) => p,
            None => return Err(PortError::NoFreePort),
        }
    } else {
        match resolve_available_port(
            controller_port,
            probe.controller_port_available,
            probe.spare_for_controller,
        ) {
            Ok(p) => p,
            Err(e) => return Err(e),
        }
    };
    if mixed_port == controller_port {
        return Err(PortError::Collision);
    }
    Ok(RuntimePorts { mixed_port, controller_port })
}

// ---------------------------------------------------------------------------
// Where the subscription comes from
// ---------------------------------------------------------------------------

/// The cached subscription file as found on disk.
#[derive(Debug)]
pub enum CachedSubscription {
    /// No cache file exists.
    Missing,
    /// The file exists but could not be read; the payload describes why.
    Unreadable(String),
    /// The file's text, and whether it is a usable Clash configuration.
    Present { text: String, valid: bool },
}

#[derive(Debug)]
pub enum SubscriptionError {
    /// No URL and no cache.
    MissingSource,
    /// The cache could not be read.
    CacheUnreadable(String),
    /// The download failed and there is no cache to fall back on.
    Download(String),
    /// The download failed and the cache is not a usable configuration.
    InvalidCacheNotRefreshed(String),
    /// Both the download and the cache read failed.
    DownloadAndCacheFailed { download: String, cache: String },
}

/// The words shown for a subscription error; `cache_path` is where the
/// cached subscription lives.
pub open spec fn subscription_error_text(e: SubscriptionError, cache_path: Seq<char>) -> Seq<char> {
    match e {
        SubscriptionError::MissingSource =>
            "internal Clash mode requires a subscription URL, or an existing cached subscription with auto-update disabled"@,
        SubscriptionError::CacheUnreadable(cause) => "could not read "@ + cache_path + ": "@ + cause@,
        SubscriptionError::Download(cause) => cause@,
        SubscriptionError::InvalidCacheNotRefreshed(cause) => "cached subscription at "@ + cache_path
            + " is not valid Clash YAML and could not be refreshed: "@ + cause@,
        SubscriptionError::DownloadAndCacheFailed { download, cache } =>
            "could not download subscription ("@ + download@ + ") or use cached subscription: could not read "@
            + cache_path + ": "@ + cache@,
    }
}

impl SubscriptionError {
    pub fn message(&self, cache_path: &str) -> (r: String)
        ensures
            r@ == subscription_error_text(*self, cache_path@),
    {
        match self {
            SubscriptionError::MissingSource => String::from_str(
                "internal Clash mode requires a subscription URL, or an existing cached subscription with auto-update disabled",
            ),
            SubscriptionError::CacheUnreadable(cause) => {
                let mut r = String::from_str("could not read ");
                push_str(&mut r, cache_path);
                push_str(&mut r, ": ");
                push_str(&mut r, cause.as_str());
                r
            },
            SubscriptionError::Download(cause) => owned(cause.as_str()),
            SubscriptionError::InvalidCacheNotRefreshed(cause) => {
                let mut r = String::from_str("cached subscription at ");
                push_str(&mut r, cache_path);
                push_str(&mut r, " is not valid Clash YAML and could not be refreshed: ");
                push_str(&mut r, cause.as_str());
                r
            },
            SubscriptionError::DownloadAndCacheFailed { download, cache } => {
                let mut r = String::from_str("could not download subscription (");
                push_str(&mut r, download.as_str());
                push_str(&mut r, ") or use cached subscription: could not read ");
                push_str(&mut r, cache_path);
                push_str(&mut r, ": ");
                push_str(&mut r, cache.as_str());
                r
            },
        }
    }
}

impl CachedSubscription {
    pub open spec fn is_present(&self) -> bool {
        !(self is Missing)
    }
}

/// Fails exactly when there is neither a cache nor a URL.
pub fn ensure_subscription_source_available(url: &str, cache_exists: bool) -> (r: Result<
    (),
    SubscriptionError,
>)
    ensures
        r is Err <==> (!cache_exists && is_blank(url@)),
        r matches Err(e) ==> e is MissingSource,
{
    if cache_exists {
        return Ok(());
    }
    if str_is_blank(url) {
        return Err(SubscriptionError::MissingSource);
    }
    Ok(())
}

/// Whether startup has to download the subscription before deciding.
pub open spec fn spec_startup_needs_download(
    url: Seq<char>,
    cache: CachedSubscription,
    auto_update: bool,
) -> bool {
    match cache {
        CachedSubscription::Missing => !is_blank(url),
        CachedSubscription::Unreadable(_) => false,
        CachedSubscription::Present { .. } => auto_update && !is_blank(url),
    }
}

/// The subscription text used at startup, given the cache and (when needed)
/// the download result: an auto-updating setup refreshes from the URL and
/// falls back to a valid cache; otherwise the cache is used as is.
pub open spec fn spec_load_startup(
    url: Seq<char>,
    cache: CachedSubscription,
    auto_update: bool,
    downloaded: Option<Result<String, String>>,
) -> Result<String, SubscriptionError> {
    match cache {
        CachedSubscription::Missing => if is_blank(url) {
            Err(SubscriptionError::MissingSource)
        } else {
            match downloaded {
                Some(Ok(s)) => Ok(s),
                Some(Err(e)) => Err(SubscriptionError::Download(e)),
                None => Err(SubscriptionError::MissingSource),
            }
        },
        CachedSubscription::Unreadable(e) => Err(SubscriptionError::CacheUnreadable(e)),
        CachedSubscription::Present { text, valid } => if !auto_update || is_blank(url) {
            Ok(text)
        } else {
            match downloaded {
                Some(Ok(s)) => Ok(s),
                Some(Err(e)) => if valid {
                    Ok(text)
                } else {
                    Err(SubscriptionError::InvalidCacheNotRefreshed(e))
                },
                None => Ok(text),
            }
        },
    }
}

/// Whether startup has to download before deciding.
pub fn startup_needs_download(url: &str, cache: &CachedSubscription, auto_update: bool) -> (r: bool)
    ensures
        r == spec_startup_needs_download(url@, *cache, auto_update),
{
    match cache {
        CachedSubscription::Missing => !str_is_blank(url),
        CachedSubscription::Unreadable(_) => false,
        CachedSubscription::Present { .. } => auto_update && !str_is_blank(url),
    }
}

/// The subscription used at startup. `downloaded` holds the download result
/// exactly when `startup_needs_download` asks for one.
pub fn load_startup_subscription_with(
    url: &str,
    cache: CachedSubscription,
    auto_update: bool,
    downloaded: Option<Result<String, String>>,
) -> (r: Result<String, SubscriptionError>)
    requires
        downloaded is Some <==> spec_startup_needs_download(url@, cache, auto_update),
    ensures
        r == spec_load_startup(url@, cache, auto_update, downloaded),
{
    let blank = str_is_blank(url);
    match cache {
        CachedSubscription::Missing => {
            if blank {
                return Err(SubscriptionError::MissingSource);
            }
            match downloaded {
                Some(Ok(s)) => Ok(s),
                Some(Err(e)) => Err(SubscriptionError::Download(e)),
                None => Err(SubscriptionError::MissingSource),
            }
        },
        CachedSubscription::Unreadable(e) => Err(SubscriptionError::CacheUnreadable(e)),
        CachedSubscription::Present { text, valid } => {
            if !auto_update || blank {
                return Ok(text);
            }
            match downloaded {
                Some(Ok(s)) => Ok(s),
                Some(Err(e)) => if valid {
                    Ok(text)
                } else {
                    Err(SubscriptionError::InvalidCacheNotRefreshed(e))
                },
                None => Ok(text),
            }
        },
    }
}

/// Whether a refresh has to download before deciding.
pub open spec fn spec_load_needs_download(
    url: Seq<char>,
    cache: CachedSubscription,
    auto_update: bool,
) -> bool {
    !is_blank(url) && (auto_update || !cache.is_present())
}

/// The subscription text for a refresh: the cache when updates are off or no
/// URL is set, else the download, falling back to the cache when it fails.
pub open spec fn spec_load_or_download(
    url: Seq<char>,
    cache: CachedSubscription,
    auto_update: bool,
    downloaded: Option<Result<String, String>>,
) -> Result<String, SubscriptionError> {
    if !cache.is_present() && is_blank(url) {
        Err(SubscriptionError::MissingSource)
    } else if (!auto_update && cache.is_present()) || is_blank(url) {
        match cache {
            CachedSubscription::Present { text, .. } => Ok(text),
            CachedSubscription::Unreadable(e) => Err(SubscriptionError::CacheUnreadable(e)),
            CachedSubscription::Missing => Err(SubscriptionError::MissingSource),
        }
    } else {
        match downloaded {
            Some(Ok(s)) => Ok(s),
            Some(Err(d)) => match cache {
                CachedSubscription::Present { text, .. } => Ok(text),
                CachedSubscription::Unreadable(c) => Err(
                    SubscriptionError::DownloadAndCacheFailed { download: d, cache: c },
                ),
                CachedSubscription::Missing => Err(SubscriptionError::Download(d)),
            },
            None => Err(SubscriptionError::MissingSource),
        }
    }
}

/// Whether a refresh has to download before deciding.
pub fn load_needs_download(url: &str, cache: &CachedSubscription, auto_update: bool) -> (r: bool)
    ensures
        r == spec_load_needs_download(url@, *cache, auto_update),
{
    let missing = match cache {
        CachedSubscription::Missing => true,
        _ => false,
    };
    !str_is_blank(url) && (auto_update || missing)
}

/// The subscription text for a refresh. `downloaded` holds the download
/// result exactly when `load_needs_download` asks for one.
pub fn load_or_download_subscription_with(
    url: &str,
    cache: CachedSubscription,
    auto_update: bool,
    downloaded: Option<Result<String, String>>,
) -> (r: Result<String, SubscriptionError>)
    requires
        downloaded is Some <==> spec_load_needs_download(url@, cache, auto_update),
    ensures
        r == spec_load_or_download(url@, cache, auto_update, downloaded),
{
    let blank = str_is_blank(url);
    let exists = match cache {
        CachedSubscription::Missing => false,
        _ => true,
    };
    if !exists && blank {
        return Err(SubscriptionError::MissingSource);
    }
    if (!auto_update && exists) || blank {
        return match cache {
            CachedSubscription::Present { text, .. } => Ok(text),
            CachedSubscription::Unreadable(e) => Err(SubscriptionError::CacheUnreadable(e)),
            CachedSubscription::Missing => Err(SubscriptionError::MissingSource),
        };
    }
    match downloaded {
        Some(Ok(s)) => Ok(s),
        Some(Err(d)) => match cache {
            CachedSubscription::Present { text, .. } => Ok(text),
            CachedSubscription::Unreadable(c) => Err(
                SubscriptionError::DownloadAndCacheFailed { download: d, cache: c },
            ),
            CachedSubscription::Missing => Err(SubscriptionError::Download(d)),
        },
        None => Err(SubscriptionError::MissingSource),
    }
}

/// One downloaded subscription text and whether it is a usable configuration.
pub struct SubscriptionCandidate {
    pub text: String,
    pub valid: bool,
}

pub open spec fn first_valid(c: Seq<SubscriptionCandidate>) -> Option<int>
    decreases c.len(),
{
    if c.len() == 0 {
        None
    } else if c[0].valid {
        Some(0)
    } else {
        match first_valid(c.drop_first()) {
            Some(i) => Some(i + 1),
            None => None,
        }
    }
}

proof fn lemma_first_valid_at(c: Seq<SubscriptionCandidate>, i: int)
    requires
        0 <= i <= c.len(),
        forall|k: int| 0 <= k < i ==> !(#[trigger] c[k]).valid,
        i < c.len() ==> c[i].valid,
    ensures
        i < c.len() ==> first_valid(c) == Some(i),
        i == c.len() ==> first_valid(c) is None,
    decreases i,
{
    if i > 0 {
        let t = c.drop_first();
        assert forall|k: int| 0 <= k < i - 1 implies !(#[trigger] t[k]).valid by {
            assert(t[k] == c[k + 1]);
        }
        if i < c.len() {
            assert(t[i - 1] == c[i]);
        }
        lemma_first_valid_at(t, i - 1);
    }
}

/// The first usable download; when none is usable, the first download.
pub open spec fn spec_preferred_download(c: Seq<SubscriptionCandidate>) -> Option<String> {
    match first_valid(c) {
        Some(i) => Some(c[i].text),
        None => if c.len() > 0 {
            Some(c[0].text)
        } else {
            None
        },
    }
}

/// The first usable download; when none is usable, the first download.
pub fn preferred_subscription_download(candidates: Vec<SubscriptionCandidate>) -> (r: Option<
    String,
>)
    ensures
        r == spec_preferred_download(candidates@),
{
    let mut found: Option<usize> = None;
    let mut i: usize = 0;
    while i < candidates.len()
        invariant
            i <= candidates.len(),
            found is None ==> forall|k: int| 0 <= k < i ==> !(#[trigger] candidates@[k]).valid,
            found matches Some(f) ==> f < candidates.len() && first_valid(candidates@) == Some(
                f as int,
            ),
        decreases candidates.len() - i,
    {
        if found.is_none() && candidates[i].valid {
            proof { lemma_first_valid_at(candidates@, i as int); }
            found = Some(i);
        }
        i = i + 1;
    }
    let ghost orig = candidates@;
    let mut pool = candidates;
    match found {
        Some(f) => {
            let c = pool.swap_remove(f);
            Some(c.text)
        },
        None => {
            proof { lemma_first_valid_at(orig, orig.len() as int); }
            if pool.len() > 0 {
                let c = pool.swap_remove(0);
                Some(c.text)
            } else {
                None
            }
        },
    }
}

/// The saved group and proxy, trimmed, when both are present.
pub fn saved_proxy_selection(settings: &AppSettings) -> (r: Option<(String, String)>)
    ensures
        r matches Some(p) ==> p.0@ == trim(settings@.selected_group) && p.1@ == trim(
            settings@.selected_proxy,
        ) && p.0@.len() > 0 && p.1@.len() > 0,
        r is None <==> (trim(settings@.selected_group).len() == 0 || trim(
            settings@.selected_proxy,
        ).len() == 0),
{
    let group = trim_str(settings.proxy.selected_group.as_str());
    let proxy = trim_str(settings.proxy.selected_proxy.as_str());
    let gv = chars_of(group.as_str());
    let pv = chars_of(proxy.as_str());
    if gv.len() == 0 || pv.len() == 0 {
        return None;
    }
    Some((group, proxy))
}

// ---------------------------------------------------------------------------
// Subscription text and the proxy core configuration
// ---------------------------------------------------------------------------

/// `s` without leading byte order marks.
pub open spec fn strip_bom(s: Seq<char>) -> Seq<char>
    decreases s.len(),
{
    if s.len() > 0 && s[0] == '\u{feff}' {
        strip_bom(s.drop_first())
    } else {
        s
    }
}

/// A leading byte order mark changes nothing: the text handed to the YAML
/// parser, and so the configuration built from it, is the same with or
/// without it.
pub proof fn law_leading_bom_ignored(s: Seq<char>)
    ensures
        strip_bom(seq!['\u{feff}'] + s) == strip_bom(s),
{
    assert((seq!['\u{feff}'] + s).drop_first() =~= s);
}

/// The subscription text without leading byte order marks.
pub fn normalize_subscription_text(subscription_text: &str) -> (r: String)
    ensures
        r@ == strip_bom(subscription_text@),
{
    let v = chars_of(subscription_text);
    let mut i: usize = 0;
    assert(v@.subrange(0, v@.len() as int) == v@);
    while i < v.len() && v[i] == '\u{feff}'
        invariant
            i <= v.len(),
            strip_bom(v@) == strip_bom(v@.subrange(i as int, v.len() as int)),
        decreases v.len() - i,
    {
        assert(v@.subrange(i as int, v.len() as int).drop_first() == v@.subrange(
            i + 1,
            v.len() as int,
        ));
        i = i + 1;
    }
    crate::text::string_from_range(&v, i, v.len())
}

#[derive(Debug, Clone, PartialEq, Eq)]
pub enum ConfigError {
    /// The text is not YAML; the payload is the parser's message.
    InvalidYaml(String),
    /// The document is not a mapping.
    NotClashYaml,
    /// Required keys are missing: `proxy-groups`, and/or both `proxies` and `proxy-providers`.
    MissingRoutingKeys { groups: bool, proxies: bool },
    /// The first proxy group has no name.
    MissingGroupName,
}

impl ConfigError {
    pub fn message(&self) -> (r: String)
        ensures
            r@ == spec_config_error_message(*self),
    {
        match self {
            ConfigError::InvalidYaml(cause) => {
                let mut r = String::from_str("subscription is not valid YAML: ");
                push_str(&mut r, cause.as_str());
                r
            },
            ConfigError::NotClashYaml => String::from_str(
                "subscription response is not Clash YAML; provider may require Clash User-Agent or a Clash-format subscription URL",
            ),
            ConfigError::MissingRoutingKeys { groups, proxies } => {
                let mut r = String::from_str("subscription is missing required Clash routing keys: ");
                if *groups {
                    push_str(&mut r, "proxy-groups");
                    if *proxies {
                        push_str(&mut r, ", ");
                    }
                }
                if *proxies {
                    push_str(&mut r, "proxies or proxy-providers");
                }
                r
            },
            ConfigError::MissingGroupName => String::from_str("first proxy group is missing a name"),
        }
    }
}

pub open spec fn spec_config_error_message(e: ConfigError) -> Seq<char> {
    match e {
        ConfigError::InvalidYaml(cause) => "subscription is not valid YAML: "@ + cause@,
        ConfigError::NotClashYaml =>
            "subscription response is not Clash YAML; provider may require Clash User-Agent or a Clash-format subscription URL"@,
        ConfigError::MissingRoutingKeys { groups, proxies } =>
            "subscription is missing required Clash routing keys: "@ + (if groups {
                "proxy-groups"@ + (if proxies {
                    ", "@
                } else {
                    Seq::empty()
                })
            } else {
                Seq::empty()
            }) + (if proxies {
                "proxies or proxy-providers"@
            } else {
                Seq::empty()
            }),
        ConfigError::MissingGroupName => "first proxy group is missing a name"@,
    }
}

/// The node is a non-empty sequence (after untagging).
pub open spec fn is_nonempty_sequence(v: Option<YamlValue>) -> bool {
    v matches Some(x) && untag(x) matches YamlValue::Sequence(items) && items@.len() > 0
}

/// The node is a non-empty mapping (after untagging).
pub open spec fn is_nonempty_mapping(v: Option<YamlValue>) -> bool {
    v matches Some(x) && untag(x) matches YamlValue::Mapping(items) && items@.len() > 0
}

/// The name of the first proxy group, when the groups are a sequence whose
/// first item is a mapping with a string `name`.
pub open spec fn first_group_name(groups: Option<YamlValue>) -> Option<Seq<char>> {
    match groups {
        Some(g) => match untag(g) {
            YamlValue::Sequence(items) => if items@.len() > 0 {
                match untag(items@[0]) {
                    YamlValue::Mapping(entries) => match lookup(entries@, "name"@) {
                        Some(n) => match untag(n) {
                            YamlValue::String(s) => Some(s@),
                            _ => None,
                        },
                        None => None,
                    },
                    _ => None,
                }
            } else {
                None
            },
            _ => None,
        },
        None => None,
    }
}

/// Whether a parsed subscription can drive the proxy core, and the name of
/// the group that all traffic is routed to.
pub open spec fn spec_config_check(parsed: Result<YamlValue, String>) -> Result<Seq<char>, ConfigError> {
    match parsed {
        Err(cause) => Err(ConfigError::InvalidYaml(cause)),
        Ok(doc) => match untag(doc) {
            YamlValue::Mapping(entries) => {
                let groups = lookup(entries@, "proxy-groups"@);
                let missing_groups = !is_nonempty_sequence(groups);
                let missing_proxies = !is_nonempty_sequence(lookup(entries@, "proxies"@))
                    && !is_nonempty_mapping(lookup(entries@, "proxy-providers"@));
                if missing_groups || missing_proxies {
                    Err(
                        ConfigError::MissingRoutingKeys {
                            groups: missing_groups,
                            proxies: missing_proxies,
                        },
                    )
                } else {
                    match first_group_name(groups) {
                        Some(n) => Ok(n),
                        None => Err(ConfigError::MissingGroupName),
                    }
                }
            },
            _ => Err(ConfigError::NotClashYaml),
        },
    }
}

/// The copied `(key, value)` pairs that the subscription has.
pub open spec fn copied_entries(entries: Seq<YamlEntry>) -> Seq<(Seq<char>, YamlValue)> {
    let a = match lookup(entries, "proxies"@) {
        Some(v) => seq![("proxies"@, v)],
        None => Seq::empty(),
    };
    let b = match lookup(entries, "proxy-providers"@) {
        Some(v) => seq![("proxy-providers"@, v)],
        None => Seq::empty(),
    };
    let c = match lookup(entries, "proxy-groups"@) {
        Some(v) => seq![("proxy-groups"@, v)],
        None => Seq::empty(),
    };
    a + b + c
}

/// A number node written as `text`.
pub open spec fn is_number_text(v: YamlValue, text: Seq<char>) -> bool {
    v matches YamlValue::Number(n) && n@ == text
}

/// A sequence holding exactly the plain string `s`.
pub open spec fn is_single_str_sequence(v: YamlValue, s: Seq<char>) -> bool {
    v matches YamlValue::Sequence(items) && items@.len() == 1 && is_plain_str(items@[0], s)
}

pub open spec fn entry_is_str(e: YamlEntry, key: Seq<char>, value: Seq<char>) -> bool {
    is_plain_str(e.key, key) && is_plain_str(e.value, value)
}

/// The configuration written for the proxy core: the copied proxies,
/// providers and groups, then a local-only listener on `mixed_port`, the
/// controller on `controller_port` with `secret`, and one rule sending all
/// traffic to `group`.
pub open spec fn is_sanitized_config(
    out: YamlValue,
    copied: Seq<(Seq<char>, YamlValue)>,
    group: Seq<char>,
    mixed_port: u16,
    controller_port: u16,
    secret: Seq<char>,
) -> bool {
    out matches YamlValue::Mapping(entries) && {
        let e = entries@;
        let c = copied.len() as int;
        &&& e.len() == c + 8
        &&& forall|k: int|
            0 <= k < c ==> is_plain_str(#[trigger] e[k].key, copied[k].0) && e[k].value
                == copied[k].1
        &&& entry_is_str(e[c], "mode"@, "rule"@)
        &&& entry_is_str(e[c + 1], "log-level"@, "warning"@)
        &&& is_plain_str(e[c + 2].key, "allow-lan"@) && e[c + 2].value == YamlValue::Bool(false)
        &&& entry_is_str(e[c + 3], "bind-address"@, "127.0.0.1"@)
        &&& is_plain_str(e[c + 4].key, "mixed-port"@) && is_number_text(
            e[c + 4].value,
            dec_digits(mixed_port as nat),
        )
        &&& entry_is_str(
            e[c + 5],
            "external-controller"@,
            "127.0.0.1:"@ + dec_digits(controller_port as nat),
        )
        &&& entry_is_str(e[c + 6], "secret"@, secret)
        &&& is_plain_str(e[c + 7].key, "rules"@) && is_single_str_sequence(
            e[c + 7].value,
            "MATCH,"@ + group,
        )
    }
}

fn nonempty_sequence(v: Option<&YamlValue>) -> (r: bool)
    ensures
        r == is_nonempty_sequence(
            match v {
                Some(x) => Some(*x),
                None => None,
            },
        ),
{
    match v {
        Some(x) => match untag_ref(x) {
            YamlValue::Sequence(items) => items.len() > 0,
            _ => false,
        },
        None => false,
    }
}

fn nonempty_mapping(v: Option<&YamlValue>) -> (r: bool)
    ensures
        r == is_nonempty_mapping(
            match v {
                Some(x) => Some(*x),
                None => None,
            },
        ),
{
    match v {
        Some(x) => match untag_ref(x) {
            YamlValue::Mapping(items) => items.len() > 0,
            _ => false,
        },
        None => false,
    }
}

fn first_proxy_group_name(groups: Option<&YamlValue>) -> (r: Option<String>)
    ensures
        match r {
            Some(s) => first_group_name(
                match groups {
                    Some(x) => Some(*x),
                    None => None,
                },
            ) == Some(s@),
            None => first_group_name(
                match groups {
                    Some(x) => Some(*x),
                    None => None,
                },
            ) is None,
        },
{
    let g = match groups {
        Some(g) => g,
        None => return None,
    };
    let items = match untag_ref(g) {
        YamlValue::Sequence(items) => items,
        _ => return None,
    };
    if items.len() == 0 {
        return None;
    }
    let entries = match untag_ref(&items[0]) {
        YamlValue::Mapping(entries) => entries,
        _ => return None,
    };
    let name = match lookup_ref(entries, "name") {
        Some(n) => n,
        None => return None,
    };
    match untag_ref(name) {
        YamlValue::String(s) => Some(s.clone()),
        _ => None,
    }
}

/// Checks a parsed subscription and returns the name of its first proxy group.
/// `parsed` is the subscription parsed as YAML, or the parser's message.
pub fn config_check(parsed: &Result<YamlValue, String>) -> (r: Result<String, ConfigError>)
    ensures
        match r {
            Ok(s) => spec_config_check(*parsed) == Ok::<Seq<char>, ConfigError>(s@),
            Err(e) => spec_config_check(*parsed) == Err::<Seq<char>, ConfigError>(e),
        },
{
    let doc = match parsed {
        Ok(doc) => doc,
        Err(cause) => return Err(ConfigError::InvalidYaml(cause.clone())),
    };
    let entries = match untag_ref(doc) {
        YamlValue::Mapping(entries) => entries,
        _ => return Err(ConfigError::NotClashYaml),
    };
    let groups = lookup_ref(entries, "proxy-groups");
    let missing_groups = !nonempty_sequence(groups);
    let missing_proxies = !nonempty_sequence(lookup_ref(entries, "proxies")) && !nonempty_mapping(
        lookup_ref(entries, "proxy-providers"),
    );
    if missing_groups || missing_proxies {
        return Err(ConfigError::MissingRoutingKeys { groups: missing_groups, proxies: missing_proxies });
    }
    match first_proxy_group_name(groups) {
        Some(n) => Ok(n),
        None => Err(ConfigError::MissingGroupName),
    }
}

/// Whether a parsed subscription is a usable Clash configuration.
pub fn subscription_is_valid_clash_config(parsed: &Result<YamlValue, String>) -> (r: bool)
    ensures
        r == (spec_config_check(*parsed) is Ok),
{
    config_check(parsed).is_ok()
}

/// Takes the values of the copied keys out of a mapping.
fn take_copied_values(entries: Vec<YamlEntry>) -> (r: (Option<YamlValue>, Option<YamlValue>, Option<
    YamlValue,
>))
    ensures
        r.0 == lookup(entries@, "proxies"@),
        r.1 == lookup(entries@, "proxy-providers"@),
        r.2 == lookup(entries@, "proxy-groups"@),
{
    let ghost orig = entries@;
    let mut entries = entries;
    let mut proxies: Option<YamlValue> = None;
    let mut providers: Option<YamlValue> = None;
    let mut groups: Option<YamlValue> = None;
    assert(orig.subrange(orig.len() as int, orig.len() as int).len() == 0);
    while entries.len() > 0
        invariant
            entries@ == orig.subrange(0, entries@.len() as int),
            entries@.len() <= orig.len(),
            proxies == lookup(orig.subrange(entries@.len() as int, orig.len() as int), "proxies"@),
            providers == lookup(
                orig.subrange(entries@.len() as int, orig.len() as int),
                "proxy-providers"@,
            ),
            groups == lookup(
                orig.subrange(entries@.len() as int, orig.len() as int),
                "proxy-groups"@,
            ),
        decreases entries.len(),
    {
        let j = entries.len();
        proof {
            lemma_lookup_step(orig, "proxies"@, j as int);
            lemma_lookup_step(orig, "proxy-providers"@, j as int);
            lemma_lookup_step(orig, "proxy-groups"@, j as int);
        }
        proof {
            reveal_strlit("proxies");
            reveal_strlit("proxy-providers");
            reveal_strlit("proxy-groups");
            assert("proxies"@.len() != "proxy-providers"@.len());
            assert("proxies"@.len() != "proxy-groups"@.len());
            assert("proxy-groups"@.len() != "proxy-providers"@.len());
        }
        let e = entries.pop().unwrap();
        assert(e == orig[j - 1]);
        let YamlEntry { key, value } = e;
        if is_plain_str_exec(&key, "proxies") {
            proxies = Some(value);
        } else if is_plain_str_exec(&key, "proxy-providers") {
            providers = Some(value);
        } else if is_plain_str_exec(&key, "proxy-groups") {
            groups = Some(value);
        }
    }
    assert(orig.subrange(0, orig.len() as int) == orig);
    (proxies, providers, groups)
}

fn entry(key: &str, value: YamlValue) -> (r: YamlEntry)
    ensures
        is_plain_str(r.key, key@),
        r.value == value,
{
    YamlEntry { key: yaml_str(key), value }
}

/// The configuration for the proxy core built from a parsed subscription.
pub fn build_sanitized_config(
    parsed: Result<YamlValue, String>,
    mixed_port: u16,
    controller_port: u16,
    secret: &str,
) -> (r: Result<YamlValue, ConfigError>)
    ensures
        match spec_config_check(parsed) {
            Err(e) => r == Err::<YamlValue, ConfigError>(e),
            Ok(group) => r matches Ok(out) && parsed matches Ok(doc) && untag(
                doc,
            ) matches YamlValue::Mapping(entries) && is_sanitized_config(
                out,
                copied_entries(entries@),
                group,
                mixed_port,
                controller_port,
                secret@,
            ),
        },
{
    let group = match config_check(&parsed) {
        Ok(g) => g,
        Err(e) => return Err(e),
    };
    let doc = match parsed {
        Ok(doc) => doc,
        Err(cause) => return Err(ConfigError::InvalidYaml(cause)),
    };
    let ghost doc_view = doc;
    let untagged = into_untagged(doc);
    let entries = match untagged {
        YamlValue::Mapping(entries) => entries,
        _ => return Err(ConfigError::NotClashYaml),
    };
    let ghost src = entries@;
    let (proxies, providers, groups) = take_copied_values(entries);
    let mut out: Vec<YamlEntry> = Vec::new();
    proof {
        reveal_strlit("proxies");
        reveal_strlit("proxy-providers");
        reveal_strlit("proxy-groups");
    }
    let ghost copied = copied_entries(src);
    match proxies {
        Some(v) => out.push(entry("proxies", v)),
        None => {},
    }
    match providers {
        Some(v) => out.push(entry("proxy-providers", v)),
        None => {},
    }
    match groups {
        Some(v) => out.push(entry("proxy-groups", v)),
        None => {},
    }
    assert(out@.len() == copied.len());
    assert forall|k: int| 0 <= k < copied.len() implies is_plain_str(
        #[trigger] out@[k].key,
        copied[k].0,
    ) && out@[k].value == copied[k].1 by {}
    out.push(entry("mode", yaml_str("rule")));
    out.push(entry("log-level", yaml_str("warning")));
    out.push(entry("allow-lan", YamlValue::Bool(false)));
    out.push(entry("bind-address", yaml_str("127.0.0.1")));
    out.push(entry("mixed-port", YamlValue::Number(dec_string(mixed_port as u64))));
    let mut controller = String::from_str("127.0.0.1:");
    let port_text = dec_string(controller_port as u64);
    push_str(&mut controller, port_text.as_str());
    out.push(entry("external-controller", YamlValue::String(controller)));
    out.push(entry("secret", yaml_str(secret)));
    let mut rule = String::from_str("MATCH,");
    push_str(&mut rule, group.as_str());
    let mut rules: Vec<YamlValue> = Vec::new();
    rules.push(YamlValue::String(rule));
    out.push(entry("rules", YamlValue::Sequence(rules)));
    let ghost c = copied.len() as int;
    assert forall|k: int| 0 <= k < c implies is_plain_str(#[trigger] out@[k].key, copied[k].0)
        && out@[k].value == copied[k].1 by {}
    Ok(YamlValue::Mapping(out))
}

// ---------------------------------------------------------------------------
// Log tail
// ---------------------------------------------------------------------------

/// `str::lines`: split after each `\n`, then drop the `\n` and a `\r` before it.
pub open spec fn spec_lines(s: Seq<char>) -> Seq<Seq<char>>
    decreases s.len(),
{
    if s.len() == 0 {
        Seq::empty()
    } else {
        match crate::text::first_index(s, '\n') {
            Some(i) => if 0 <= i < s.len() {
                let line = s.subrange(0, i);
                let line = if line.len() > 0 && line.last() == '\r' {
                    line.drop_last()
                } else {
                    line
                };
                seq![line] + spec_lines(s.subrange(i + 1, s.len() as int))
            } else {
                seq![s]
            },
            None => seq![s],
        }
    }
}

/// The pieces joined with `sep` between them.
pub open spec fn join_with(pieces: Seq<Seq<char>>, sep: Seq<char>) -> Seq<char>
    decreases pieces.len(),
{
    if pieces.len() == 0 {
        Seq::empty()
    } else if pieces.len() == 1 {
        pieces[0]
    } else {
        join_with(pieces.drop_last(), sep) + sep + pieces.last()
    }
}

/// The last `max_lines` lines of a log, joined with `\n`.
pub open spec fn spec_log_tail(contents: Seq<char>, max_lines: nat) -> Seq<char> {
    let lines = spec_lines(contents);
    let start = if lines.len() > max_lines {
        lines.len() - max_lines
    } else {
        0
    };
    join_with(lines.skip(start as int), "\n"@)
}

fn lines_of(v: &Vec<char>) -> (r: Vec<Vec<char>>)
    ensures
        r@.len() == spec_lines(v@).len(),
        forall|k: int| 0 <= k < r@.len() ==> #[trigger] r@[k]@ == spec_lines(v@)[k],
    decreases v.len(),
{
    if v.len() == 0 {
        return Vec::new();
    }
    match crate::text::find_char(v, '\n') {
        Some(i) => {
            let mut line = crate::text::slice_chars(v, 0, i);
            if line.len() > 0 && line[line.len() - 1] == '\r' {
                line.pop();
            }
            let tail = crate::text::slice_chars(v, i + 1, v.len());
            let rest = lines_of(&tail);
            let ghost expect = spec_lines(v@);
            let mut r: Vec<Vec<char>> = Vec::new();
            r.push(line);
            let mut k: usize = 0;
            while k < rest.len()
                invariant
                    k <= rest.len(),
                    r@.len() == k + 1,
                    rest@.len() == spec_lines(tail@).len(),
                    forall|m: int|
                        0 <= m < rest@.len() ==> #[trigger] rest@[m]@ == spec_lines(tail@)[m],
                    expect.len() == rest@.len() + 1,
                    forall|m: int| 0 <= m < r@.len() ==> #[trigger] r@[m]@ == expect[m],
                    expect == seq![expect[0]] + spec_lines(tail@),
                decreases rest.len() - k,
            {
                let piece = crate::text::slice_chars(&rest[k], 0, rest[k].len());
                assert(rest@[k as int]@.subrange(0, rest@[k as int]@.len() as int)
                    == rest@[k as int]@);
                r.push(piece);
                k = k + 1;
            }
            r
        },
        None => {
            let mut r: Vec<Vec<char>> = Vec::new();
            r.push(crate::text::slice_chars(v, 0, v.len()));
            assert(v@.subrange(0, v@.len() as int) == v@);
            r
        },
    }
}

/// The last `max_lines` lines of the proxy core's log text.
pub fn mihomo_log_tail(contents: &str, max_lines: usize) -> (r: String)
    ensures
        r@ == spec_log_tail(contents@, max_lines as nat),
{
    let v = chars_of(contents);
    let lines = lines_of(&v);
    let start: usize = if lines.len() > max_lines {
        lines.len() - max_lines
    } else {
        0
    };
    let ghost all = spec_lines(v@);
    let ghost tail = all.skip(start as int);
    let mut r = String::new();
    let mut k: usize = start;
    while k < lines.len()
        invariant
            start <= k <= lines.len(),
            lines@.len() == all.len(),
            forall|m: int| 0 <= m < lines@.len() ==> #[trigger] lines@[m]@ == all[m],
            tail == all.skip(start as int),
            r@ == join_with(tail.take(k - start), "\n"@),
        decreases lines.len() - k,
    {
        let ghost before = tail.take(k - start);
        assert(tail.take(k - start + 1).drop_last() == before);
        assert(tail.take(k - start + 1).last() == lines@[k as int]@);
        if k > start {
            push_char(&mut r, '\n');
            proof { reveal_strlit("\n"); }
        } else {
            assert(tail.take(1) == seq![lines@[k as int]@]);
        }
        crate::text::push_chars(&mut r, &lines[k]);
        k = k + 1;
    }
    assert(tail.take(lines.len() - start) == tail);
    r
}

/// Resolved ports are never the same port twice.
pub proof fn law_resolved_ports_differ(s: ProxyUiView, probe: PortProbe)
    ensures
        spec_resolved_ports(s, probe) matches Ok(p) ==> p.mixed_port != p.controller_port,
{
}

/// Distinct configured ports that are both free are kept as they are.
pub proof fn law_free_ports_kept(s: ProxyUiView, probe: PortProbe)
    requires
        s.mixed_port != s.controller_port,
        probe.mixed_port_available,
        probe.controller_port_available,
    ensures
        spec_resolved_ports(s, probe) == Ok::<RuntimePorts, PortError>(
            RuntimePorts { mixed_port: s.mixed_port, controller_port: s.controller_port },
        ),
{
}

/// A valid cached subscription always lets startup go on: whatever the
/// download gives, startup yields a subscription text.
pub proof fn law_valid_cache_always_starts(
    url: Seq<char>,
    text: String,
    auto_update: bool,
    downloaded: Option<Result<String, String>>,
)
    ensures
        spec_load_startup(url, CachedSubscription::Present { text, valid: true }, auto_update, downloaded) is Ok,
        (downloaded matches Some(Err(_))) ==> spec_load_startup(
            url,
            CachedSubscription::Present { text, valid: true },
            auto_update,
            downloaded,
        ) == Ok::<String, SubscriptionError>(text),
{
}

// ---------------------------------------------------------------------------
// Runtime start-up helpers
// ---------------------------------------------------------------------------

/// The configured ports replaced by the resolved ones when the internal
/// runtime is used; other modes keep the settings as they are.
pub fn heal_runtime_ports(settings: &mut AppSettings, probe: &PortProbe) -> (r: Result<(), PortError>)
    ensures
        old(settings)@.mode != ProxyMode::InternalClash ==> r is Ok && final(settings)@ == old(
            settings,
        )@,
        old(settings)@.mode == ProxyMode::InternalClash ==> match spec_resolved_ports(
            old(settings)@,
            *probe,
        ) {
            Ok(p) => r is Ok && final(settings)@ == (ProxyUiView {
                mixed_port: p.mixed_port,
                controller_port: p.controller_port,
                ..old(settings)@
            }),
            Err(e) => r == Err::<(), PortError>(e) && final(settings)@ == old(settings)@,
        },
{
    if settings.proxy.mode != ProxyMode::InternalClash {
        return Ok(());
    }
    match resolved_runtime_ports(settings, probe) {
        Ok(ports) => {
            settings.proxy.mixed_port = ports.mixed_port;
            settings.proxy.controller_port = ports.controller_port;
            Ok(())
        },
        Err(e) => Err(e),
    }
}

/// The secret of a runtime's controller: the start time in nanoseconds as
/// hexadecimal, a dash, and the process id.
pub fn controller_secret(nanos: u128, process_id: u32) -> (r: String)
    ensures
        r@ == hex_digits(nanos as nat) + "-"@ + dec_digits(process_id as nat),
{
    let mut r = hex_string_u128(nanos);
    push_str(&mut r, "-");
    push_str(&mut r, dec_string(process_id as u64).as_str());
    r
}

/// A text with every `'` doubled, as PowerShell quotes it.
pub open spec fn double_quotes(s: Seq<char>) -> Seq<char>
    decreases s.len(),
{
    if s.len() == 0 {
        s
    } else if s.last() == '\'' {
        double_quotes(s.drop_last()) + "\'\'"@
    } else {
        double_quotes(s.drop_last()).push(s.last())
    }
}

pub open spec fn cleanup_script_text(target: Seq<char>) -> Seq<char> {
    "$target = '"@ + double_quotes(target)
        + "'; Get-CimInstance Win32_Process -Filter \"Name = 'mihomo.exe'\" | Where-Object { $_.ExecutablePath -eq $target } | ForEach-Object { Stop-Process -Id $_.ProcessId -Force -ErrorAction SilentlyContinue }"@
}

/// The PowerShell script that stops a leftover core started from `target`.
pub fn mihomo_cleanup_script(target: &str) -> (r: String)
    ensures
        r@ == cleanup_script_text(target@),
{
    let v = chars_of(target);
    let mut quoted = String::new();
    let mut i: usize = 0;
    while i < v.len()
        invariant
            i <= v.len(),
            quoted@ == double_quotes(v@.take(i as int)),
        decreases v.len() - i,
    {
        if v[i] == '\'' {
            push_str(&mut quoted, "\'\'");
        } else {
            crate::text::push_char(&mut quoted, v[i]);
        }
        proof {
            assert(v@.take(i + 1).drop_last() =~= v@.take(i as int));
            assert(v@.take(i + 1).last() == v@[i as int]);
        }
        i = i + 1;
    }
    assert(v@.take(v@.len() as int) =~= v@);
    let mut r = String::from_str("$target = '");
    push_str(&mut r, quoted.as_str());
    push_str(
        &mut r,
        "'; Get-CimInstance Win32_Process -Filter \"Name = 'mihomo.exe'\" | Where-Object { $_.ExecutablePath -eq $target } | ForEach-Object { Stop-Process -Id $_.ProcessId -Force -ErrorAction SilentlyContinue }",
    );
    r
}

} // verus!
