//! The download history: one record per download, newest first, updated as
//! downloads start, finish or fail, capped in length, and stored between runs.
use vstd::prelude::*;

use crate::filenames::{cross_platform_file_name, file_name_of, url_tail, url_tail_name};
use crate::jsontext::{
    array_text, dec_string_u128, json_array, json_member, json_object, json_quote, member_text,
    object_text, opt_str_json, opt_str_text, quote_json, views,
};
use crate::text::{dec_digits, dec_string, opt_string_view, owned};

verus! {

/// How many records the history keeps unless told otherwise.
pub const DEFAULT_MAX_DOWNLOAD_RECORDS: usize = 500;

/// The message given to a download that was still running when the client
/// last exited.
pub const INTERRUPTED_MESSAGE: &'static str = "上次退出时下载未完成";

#[derive(Debug, Clone, Copy, PartialEq, Eq, Structural)]
pub enum DownloadEventKind {
    Started,
    Completed,
    Failed,
    Diagnostic,
}

/// Something that happened to a download, as reported by a view or by the
/// code that saves files.
#[derive(Debug, Clone, PartialEq, Eq)]
pub struct DownloadEvent {
    pub kind: DownloadEventKind,
    pub status: String,
    pub path: Option<String>,
    pub url: Option<String>,
    pub bytes: Option<u64>,
    pub success: bool,
}

pub struct DownloadEventView {
    pub kind: DownloadEventKind,
    pub status: Seq<char>,
    pub path: Option<Seq<char>>,
    pub url: Option<Seq<char>>,
    pub bytes: Option<u64>,
    pub success: bool,
}

impl View for DownloadEvent {
    type V = DownloadEventView;

    open spec fn view(&self) -> DownloadEventView {
        DownloadEventView {
            kind: self.kind,
            status: self.status@,
            path: opt_string_view(self.path),
            url: opt_string_view(self.url),
            bytes: self.bytes,
            success: self.success,
        }
    }
}

#[derive(Debug, Clone, Copy, PartialEq, Eq, Structural)]
pub enum DownloadRecordStatus {
    Started,
    Completed,
    Failed,
    Diagnostic,
    Cancelled,
    Missing,
}

pub open spec fn status_text(s: DownloadRecordStatus) -> Seq<char> {
    match s {
        DownloadRecordStatus::Started => "started"@,
        DownloadRecordStatus::Completed => "completed"@,
        DownloadRecordStatus::Failed => "failed"@,
        DownloadRecordStatus::Diagnostic => "diagnostic"@,
        DownloadRecordStatus::Cancelled => "cancelled"@,
        DownloadRecordStatus::Missing => "missing"@,
    }
}

impl DownloadRecordStatus {
    /// The status as the pages name it.
    pub fn as_str(self) -> (r: &'static str)
        ensures
            r@ == status_text(self),
    {
        match self {
            DownloadRecordStatus::Started => "started",
            DownloadRecordStatus::Completed => "completed",
            DownloadRecordStatus::Failed => "failed",
            DownloadRecordStatus::Diagnostic => "diagnostic",
            DownloadRecordStatus::Cancelled => "cancelled",
            DownloadRecordStatus::Missing => "missing",
        }
    }
}

/// One line of the history.
#[derive(Debug, Clone, PartialEq, Eq)]
pub struct DownloadRecord {
    pub id: u64,
    pub filename: String,
    pub status: DownloadRecordStatus,
    pub path: Option<String>,
    pub url: Option<String>,
    pub bytes: Option<u64>,
    pub message: String,
    pub timestamp_ms: u128,
}

pub struct DownloadRecordView {
    pub id: u64,
    pub filename: Seq<char>,
    pub status: DownloadRecordStatus,
    pub path: Option<Seq<char>>,
    pub url: Option<Seq<char>>,
    pub bytes: Option<u64>,
    pub message: Seq<char>,
    pub timestamp_ms: u128,
}

impl View for DownloadRecord {
    type V = DownloadRecordView;

    open spec fn view(&self) -> DownloadRecordView {
        DownloadRecordView {
            id: self.id,
            filename: self.filename@,
            status: self.status,
            path: opt_string_view(self.path),
            url: opt_string_view(self.url),
            bytes: self.bytes,
            message: self.message@,
            timestamp_ms: self.timestamp_ms,
        }
    }
}

pub open spec fn record_views(rs: Seq<DownloadRecord>) -> Seq<DownloadRecordView> {
    rs.map_values(|r: DownloadRecord| r@)
}

/// The history: the last id handed out, the most records it keeps, and the
/// records, newest first.
#[derive(Debug)]
pub struct DownloadHistory {
    pub next_id: u64,
    pub max_records: usize,
    pub records: Vec<DownloadRecord>,
}

pub struct DownloadHistoryView {
    pub next_id: u64,
    pub max_records: usize,
    pub records: Seq<DownloadRecordView>,
}

impl View for DownloadHistory {
    type V = DownloadHistoryView;

    open spec fn view(&self) -> DownloadHistoryView {
        DownloadHistoryView {
            next_id: self.next_id,
            max_records: self.max_records,
            records: record_views(self.records@),
        }
    }
}

/// What is written to disk between runs.
#[derive(Debug)]
pub struct DownloadHistoryStore {
    pub version: u32,
    pub next_id: u64,
    pub records: Vec<DownloadRecord>,
}

// ---------------------------------------------------------------------------
// Specifications
// ---------------------------------------------------------------------------

/// A history keeps at least one record and no more than its limit.
pub open spec fn history_wf(h: DownloadHistoryView) -> bool {
    1 <= h.max_records && h.records.len() <= h.max_records
}

/// Every record has an id no greater than the last one handed out, and no
/// two records share an id.
pub open spec fn ids_consistent(h: DownloadHistoryView) -> bool {
    &&& forall|k: int| 0 <= k < h.records.len() ==> #[trigger] h.records[k].id <= h.next_id
    &&& forall|i: int, j: int|
        0 <= i < j < h.records.len() ==> #[trigger] h.records[i].id != #[trigger] h.records[j].id
}

/// The status a record takes from an event.
pub open spec fn event_record_status(e: DownloadEventView) -> DownloadRecordStatus {
    match e.kind {
        DownloadEventKind::Started => DownloadRecordStatus::Started,
        DownloadEventKind::Completed => if e.success {
            DownloadRecordStatus::Completed
        } else {
            DownloadRecordStatus::Failed
        },
        DownloadEventKind::Failed => DownloadRecordStatus::Failed,
        DownloadEventKind::Diagnostic => DownloadRecordStatus::Diagnostic,
    }
}

/// The file name of a new record: that of the path, else the last segment of
/// the URL, else `download`.
pub open spec fn event_file_name(e: DownloadEventView) -> Seq<char> {
    let from_path = match e.path {
        Some(p) => file_name_of(p),
        None => None,
    };
    let from_url = match e.url {
        Some(u) => url_tail(u),
        None => None,
    };
    match from_path {
        Some(n) => n,
        None => match from_url {
            Some(n) => n,
            None => "download"@,
        },
    }
}

/// A started download that the event finishes: same path, or same URL.
pub open spec fn record_matches(r: DownloadRecordView, e: DownloadEventView) -> bool {
    &&& r.status == DownloadRecordStatus::Started
    &&& ((e.path is Some && r.path == e.path) || (e.url is Some && r.url == e.url))
}

/// The position of the first record that the event finishes.
pub open spec fn first_match(rs: Seq<DownloadRecordView>, e: DownloadEventView) -> Option<int>
    decreases rs.len(),
{
    if rs.len() == 0 {
        None
    } else if record_matches(rs[0], e) {
        Some(0)
    } else {
        match first_match(rs.drop_first(), e) {
            Some(i) => Some(i + 1),
            None => None,
        }
    }
}

/// A completion or failure updates the started record it belongs to.
pub open spec fn updates_existing(h: DownloadHistoryView, e: DownloadEventView) -> bool {
    (e.kind == DownloadEventKind::Completed || e.kind == DownloadEventKind::Failed) && first_match(
        h.records,
        e,
    ) is Some
}

/// `s` cut to at most `n` items.
pub open spec fn capped<T>(s: Seq<T>, n: int) -> Seq<T> {
    if s.len() <= n {
        s
    } else {
        s.subrange(0, n)
    }
}

/// The history after `e`, at time `now`: the matching started record is
/// updated in place, or a new record with the next id goes first and the
/// list is cut to its limit.
pub open spec fn recorded(h: DownloadHistoryView, e: DownloadEventView, now: u128) -> DownloadHistoryView {
    if updates_existing(h, e) {
        let i = first_match(h.records, e)->0;
        let old = h.records[i];
        DownloadHistoryView {
            records: h.records.update(
                i,
                DownloadRecordView {
                    status: event_record_status(e),
                    path: e.path,
                    url: e.url,
                    bytes: e.bytes,
                    message: e.status,
                    timestamp_ms: now,
                    ..old
                },
            ),
            ..h
        }
    } else {
        let rec = DownloadRecordView {
            id: (h.next_id + 1) as u64,
            filename: event_file_name(e),
            status: event_record_status(e),
            path: e.path,
            url: e.url,
            bytes: e.bytes,
            message: e.status,
            timestamp_ms: now,
        };
        DownloadHistoryView {
            next_id: (h.next_id + 1) as u64,
            max_records: h.max_records,
            records: capped(seq![rec] + h.records, h.max_records as int),
        }
    }
}

/// The records that are not completed, in order.
pub open spec fn without_completed(rs: Seq<DownloadRecordView>) -> Seq<DownloadRecordView>
    decreases rs.len(),
{
    if rs.len() == 0 {
        rs
    } else if rs.last().status == DownloadRecordStatus::Completed {
        without_completed(rs.drop_last())
    } else {
        without_completed(rs.drop_last()).push(rs.last())
    }
}

/// The records whose id is not `id`, in order.
pub open spec fn without_id(rs: Seq<DownloadRecordView>, id: u64) -> Seq<DownloadRecordView>
    decreases rs.len(),
{
    if rs.len() == 0 {
        rs
    } else if rs.last().id == id {
        without_id(rs.drop_last(), id)
    } else {
        without_id(rs.drop_last(), id).push(rs.last())
    }
}

/// A record as loaded: one that was still running is marked failed.
pub open spec fn loaded_record(r: DownloadRecordView) -> DownloadRecordView {
    if r.status == DownloadRecordStatus::Started {
        DownloadRecordView { status: DownloadRecordStatus::Failed, message: INTERRUPTED_MESSAGE@, ..r }
    } else {
        r
    }
}

pub open spec fn effective_max(max_records: usize) -> usize {
    if max_records < 1 {
        1
    } else {
        max_records
    }
}

/// The history rebuilt from what was stored.
pub open spec fn history_from_store(
    next_id: u64,
    records: Seq<DownloadRecordView>,
    max_records: usize,
) -> DownloadHistoryView {
    DownloadHistoryView {
        next_id,
        max_records: effective_max(max_records),
        records: capped(
            Seq::new(records.len(), |k: int| loaded_record(records[k])),
            effective_max(max_records) as int,
        ),
    }
}

pub open spec fn opt_u64_text(b: Option<u64>) -> Seq<char> {
    match b {
        Some(n) => dec_digits(n as nat),
        None => "null"@,
    }
}

/// One record as JSON, its keys in `serde_json`'s order.
pub open spec fn record_payload_text(r: DownloadRecordView) -> Seq<char> {
    object_text(
        seq![
            member_text("bytes"@, opt_u64_text(r.bytes)),
            member_text("filename"@, json_quote(r.filename)),
            member_text("id"@, dec_digits(r.id as nat)),
            member_text("message"@, json_quote(r.message)),
            member_text("path"@, opt_str_text(r.path)),
            member_text("status"@, json_quote(status_text(r.status))),
            member_text("timestamp_ms"@, dec_digits(r.timestamp_ms as nat)),
            member_text("url"@, opt_str_text(r.url)),
        ],
    )
}

/// The history as the pages read it: `{"downloads": [...]}`.
pub open spec fn history_payload_text(rs: Seq<DownloadRecordView>) -> Seq<char> {
    object_text(
        seq![
            member_text(
                "downloads"@,
                array_text(Seq::new(rs.len(), |k: int| record_payload_text(rs[k]))),
            ),
        ],
    )
}

// ---------------------------------------------------------------------------
// Lemmas
// ---------------------------------------------------------------------------

proof fn lemma_first_match_at(rs: Seq<DownloadRecordView>, e: DownloadEventView, i: int)
    requires
        0 <= i <= rs.len(),
        forall|k: int| 0 <= k < i ==> !record_matches(#[trigger] rs[k], e),
        i == rs.len() || record_matches(rs[i], e),
    ensures
        first_match(rs, e) == if i < rs.len() {
            Some(i)
        } else {
            None::<int>
        },
    decreases rs.len(),
{
    if rs.len() == 0 {
    } else if i == 0 {
    } else {
        assert(!record_matches(rs[0], e));
        assert forall|k: int| 0 <= k < i - 1 implies !record_matches(#[trigger] rs.drop_first()[k], e) by {
            assert(rs.drop_first()[k] == rs[k + 1]);
        }
        if i < rs.len() {
            assert(rs.drop_first()[i - 1] == rs[i]);
        }
        lemma_first_match_at(rs.drop_first(), e, i - 1);
    }
}

proof fn lemma_first_match_bounds(rs: Seq<DownloadRecordView>, e: DownloadEventView)
    ensures
        first_match(rs, e) matches Some(i) ==> 0 <= i < rs.len() && record_matches(rs[i], e),
    decreases rs.len(),
{
    if rs.len() > 0 {
        lemma_first_match_bounds(rs.drop_first(), e);
    }
}

proof fn lemma_record_views_remove(rs: Seq<DownloadRecord>, i: int)
    requires
        0 <= i < rs.len(),
    ensures
        record_views(rs.remove(i)) == record_views(rs).remove(i),
{
    assert(record_views(rs.remove(i)) =~= record_views(rs).remove(i));
}

proof fn lemma_record_views_insert(rs: Seq<DownloadRecord>, i: int, r: DownloadRecord)
    requires
        0 <= i <= rs.len(),
    ensures
        record_views(rs.insert(i, r)) == record_views(rs).insert(i, r@),
{
    assert(record_views(rs.insert(i, r)) =~= record_views(rs).insert(i, r@));
}

proof fn lemma_without_completed_props(rs: Seq<DownloadRecordView>)
    ensures
        forall|k: int|
            0 <= k < without_completed(rs).len() ==> #[trigger] without_completed(rs)[k].status
                != DownloadRecordStatus::Completed,
        without_completed(rs).len() <= rs.len(),
    decreases rs.len(),
{
    if rs.len() > 0 {
        lemma_without_completed_props(rs.drop_last());
        let w = without_completed(rs);
        let p = without_completed(rs.drop_last());
        assert forall|k: int| 0 <= k < w.len() implies #[trigger] w[k].status
            != DownloadRecordStatus::Completed by {
            if k < p.len() {
                assert(w[k] == p[k]);
            }
        }
    }
}

// ---------------------------------------------------------------------------
// Executable functions
// ---------------------------------------------------------------------------

/// The time of day as milliseconds since the Unix epoch, from the system
/// clock (`SystemTime::now`); nothing is promised of the value.
#[verifier::external_body]
fn now_millis() -> (r: u128) {
    std::time::SystemTime::now().duration_since(std::time::UNIX_EPOCH).unwrap_or_default().as_millis()
}

fn copy_opt(s: &Option<String>) -> (r: Option<String>)
    ensures
        opt_string_view(r) == opt_string_view(*s),
{
    match s {
        Some(t) => Some(owned(t.as_str())),
        None => None,
    }
}

/// A copy of a record.
pub fn copy_record(r: &DownloadRecord) -> (c: DownloadRecord)
    ensures
        c@ == r@,
{
    DownloadRecord {
        id: r.id,
        filename: owned(r.filename.as_str()),
        status: r.status,
        path: copy_opt(&r.path),
        url: copy_opt(&r.url),
        bytes: r.bytes,
        message: owned(r.message.as_str()),
        timestamp_ms: r.timestamp_ms,
    }
}

fn opt_eq(a: &Option<String>, b: &Option<String>) -> (r: bool)
    ensures
        r == (opt_string_view(*a) == opt_string_view(*b)),
{
    match (a, b) {
        (Some(x), Some(y)) => crate::text::str_eq(x.as_str(), y.as_str()),
        (None, None) => true,
        _ => false,
    }
}

fn event_status_exec(e: &DownloadEvent) -> (s: DownloadRecordStatus)
    ensures
        s == event_record_status(e@),
{
    match e.kind {
        DownloadEventKind::Started => DownloadRecordStatus::Started,
        DownloadEventKind::Completed => if e.success {
            DownloadRecordStatus::Completed
        } else {
            DownloadRecordStatus::Failed
        },
        DownloadEventKind::Failed => DownloadRecordStatus::Failed,
        DownloadEventKind::Diagnostic => DownloadRecordStatus::Diagnostic,
    }
}

/// The file name that a new record of `e` gets.
pub fn event_filename(e: &DownloadEvent) -> (r: String)
    ensures
        r@ == event_file_name(e@),
{
    let from_path = match &e.path {
        Some(p) => cross_platform_file_name(p.as_str()),
        None => None,
    };
    match from_path {
        Some(n) => n,
        None => {
            let from_url = match &e.url {
                Some(u) => url_tail_name(u.as_str()),
                None => None,
            };
            match from_url {
                Some(n) => n,
                None => owned("download"),
            }
        },
    }
}

impl Default for DownloadHistory {
    fn default() -> (h: DownloadHistory)
        ensures
            h@ == (DownloadHistoryView {
                next_id: 0,
                max_records: DEFAULT_MAX_DOWNLOAD_RECORDS,
                records: Seq::empty(),
            }),
    {
        DownloadHistory::new(DEFAULT_MAX_DOWNLOAD_RECORDS)
    }
}

impl DownloadHistory {
    /// An empty history that keeps up to `max_records` records (at least one).
    pub fn new(max_records: usize) -> (h: DownloadHistory)
        ensures
            h@ == (DownloadHistoryView {
                next_id: 0,
                max_records: effective_max(max_records),
                records: Seq::empty(),
            }),
    {
        let records: Vec<DownloadRecord> = Vec::new();
        let h = DownloadHistory {
            next_id: 0,
            max_records: if max_records < 1 {
                1
            } else {
                max_records
            },
            records,
        };
        assert(record_views(h.records@) =~= Seq::<DownloadRecordView>::empty());
        h
    }

    /// The position of the first started record that `event` finishes.
    pub fn matching_active_record(&self, event: &DownloadEvent) -> (r: Option<usize>)
        ensures
            r matches Some(i) ==> first_match(self@.records, event@) == Some(i as int),
            r is None ==> first_match(self@.records, event@) is None,
    {
        let ghost rs = self@.records;
        let mut i: usize = 0;
        while i < self.records.len()
            invariant
                i <= self.records.len(),
                rs == record_views(self.records@),
                forall|k: int| 0 <= k < i ==> !record_matches(#[trigger] rs[k], event@),
            decreases self.records.len() - i,
        {
            let rec = &self.records[i];
            assert(rs[i as int] == rec@);
            let m = rec.status == DownloadRecordStatus::Started && ((event.path.is_some() && opt_eq(
                &rec.path,
                &event.path,
            )) || (event.url.is_some() && opt_eq(&rec.url, &event.url)));
            if m {
                proof {
                    lemma_first_match_at(rs, event@, i as int);
                }
                return Some(i);
            }
            i = i + 1;
        }
        proof {
            lemma_first_match_at(rs, event@, i as int);
        }
        None
    }

    /// Records `event` at time `now_ms`; see `recorded`.
    pub fn record_at(&mut self, event: DownloadEvent, now_ms: u128)
        requires
            updates_existing(old(self)@, event@) || old(self).next_id < u64::MAX,
        ensures
            final(self)@ == recorded(old(self)@, event@, now_ms),
    {
        let ghost h0 = self@;
        let ghost e = event@;
        let status = event_status_exec(&event);
        let filename = event_filename(&event);
        if event.kind == DownloadEventKind::Completed || event.kind == DownloadEventKind::Failed {
            match self.matching_active_record(&event) {
                Some(i) => {
                    proof {
                        lemma_first_match_bounds(h0.records, e);
                    }
                    let existing = self.records.remove(i);
                    proof {
                        lemma_record_views_remove(old(self).records@, i as int);
                    }
                    let rec = DownloadRecord {
                        id: existing.id,
                        filename: existing.filename,
                        status,
                        path: event.path,
                        url: event.url,
                        bytes: event.bytes,
                        message: event.status,
                        timestamp_ms: now_ms,
                    };
                    let ghost before = self.records@;
                    self.records.insert(i, rec);
                    proof {
                        lemma_record_views_insert(before, i as int, rec);
                        assert(self@.records =~= recorded(h0, e, now_ms).records);
                    }
                    return;
                },
                None => {},
            }
        }
        self.next_id = self.next_id + 1;
        let rec = DownloadRecord {
            id: self.next_id,
            filename,
            status,
            path: event.path,
            url: event.url,
            bytes: event.bytes,
            message: event.status,
            timestamp_ms: now_ms,
        };
        let ghost before = self.records@;
        self.records.insert(0, rec);
        proof {
            lemma_record_views_insert(before, 0, rec);
            assert(record_views(before).insert(0, rec@) =~= seq![rec@] + h0.records);
        }
        let ghost inserted = self.records@;
        self.records.truncate(self.max_records);
        proof {
            if self.max_records <= inserted.len() {
                assert(record_views(inserted.subrange(0, self.max_records as int)) =~= record_views(
                    inserted,
                ).subrange(0, self.max_records as int));
            }
            assert(self@.records =~= recorded(h0, e, now_ms).records);
        }
    }

    /// Records `event` at the current time: as `record_at`, whatever time
    /// the clock gives.
    pub fn record(&mut self, event: DownloadEvent)
        requires
            updates_existing(old(self)@, event@) || old(self).next_id < u64::MAX,
        ensures
            exists|t: u128| final(self)@ == recorded(old(self)@, event@, t),
    {
        let now = now_millis();
        self.record_at(event, now);
    }

    /// Drops every completed record and keeps the others in order.
    pub fn clear_completed(&mut self)
        ensures
            final(self)@ == (DownloadHistoryView {
                records: without_completed(old(self)@.records),
                ..old(self)@
            }),
    {
        let ghost orig = self@.records;
        let mut i: usize = 0;
        let ghost mut j: int = 0;
        while i < self.records.len()
            invariant
                0 <= j <= orig.len(),
                i <= self.records.len(),
                orig == old(self)@.records,
                self.next_id == old(self).next_id,
                self.max_records == old(self).max_records,
                record_views(self.records@) == without_completed(orig.take(j)) + orig.skip(j),
                i == without_completed(orig.take(j)).len(),
            decreases self.records.len() - i,
        {
            assert(orig.take(j + 1).drop_last() == orig.take(j));
            assert(record_views(self.records@)[i as int] == orig[j]);
            assert(orig.take(j + 1).last() == orig[j]);
            if self.records[i].status == DownloadRecordStatus::Completed {
                let ghost before = self.records@;
                self.records.remove(i);
                proof {
                    lemma_record_views_remove(before, i as int);
                    assert(record_views(self.records@) =~= without_completed(orig.take(j + 1))
                        + orig.skip(j + 1));
                }
            } else {
                proof {
                    assert(record_views(self.records@) =~= without_completed(orig.take(j + 1))
                        + orig.skip(j + 1));
                }
                i = i + 1;
            }
            proof {
                j = j + 1;
            }
        }
        proof {
            assert(orig.skip(j).len() == 0);
            assert(j == orig.len());
            assert(orig.take(j) == orig);
            assert(record_views(self.records@) =~= without_completed(orig));
        }
    }

    /// Drops the records with id `id`; whether there was one.
    pub fn delete_record(&mut self, id: u64) -> (removed: bool)
        ensures
            final(self)@ == (DownloadHistoryView { records: without_id(old(self)@.records, id), ..old(self)@ }),
            removed == (without_id(old(self)@.records, id).len() != old(self)@.records.len()),
    {
        let ghost orig = self@.records;
        let before_len = self.records.len();
        let mut i: usize = 0;
        let ghost mut j: int = 0;
        while i < self.records.len()
            invariant
                0 <= j <= orig.len(),
                i <= self.records.len(),
                orig == old(self)@.records,
                before_len == orig.len(),
                self.next_id == old(self).next_id,
                self.max_records == old(self).max_records,
                record_views(self.records@) == without_id(orig.take(j), id) + orig.skip(j),
                i == without_id(orig.take(j), id).len(),
            decreases self.records.len() - i,
        {
            assert(orig.take(j + 1).drop_last() == orig.take(j));
            assert(record_views(self.records@)[i as int] == orig[j]);
            assert(orig.take(j + 1).last() == orig[j]);
            if self.records[i].id == id {
                let ghost before = self.records@;
                self.records.remove(i);
                proof {
                    lemma_record_views_remove(before, i as int);
                    assert(record_views(self.records@) =~= without_id(orig.take(j + 1), id)
                        + orig.skip(j + 1));
                }
            } else {
                proof {
                    assert(record_views(self.records@) =~= without_id(orig.take(j + 1), id)
                        + orig.skip(j + 1));
                }
                i = i + 1;
            }
            proof {
                j = j + 1;
            }
        }
        proof {
            assert(orig.skip(j).len() == 0);
            assert(j == orig.len());
            assert(orig.take(j) == orig);
            assert(record_views(self.records@) =~= without_id(orig, id));
        }
        before_len != self.records.len()
    }

    /// The history as JSON for the pages.
    pub fn payload(&self) -> (r: String)
        ensures
            r@ == history_payload_text(self@.records),
    {
        let mut items: Vec<String> = Vec::new();
        let mut i: usize = 0;
        while i < self.records.len()
            invariant
                i <= self.records.len(),
                items@.len() == i,
                forall|k: int|
                    0 <= k < i ==> (#[trigger] items@[k])@ == record_payload_text(
                        self.records@[k]@,
                    ),
            decreases self.records.len() - i,
        {
            items.push(download_record_payload(&self.records[i]));
            i = i + 1;
        }
        let arr = json_array(&items);
        assert(views(items@) =~= Seq::new(
            self@.records.len(),
            |k: int| record_payload_text(self@.records[k]),
        ));
        let mut members: Vec<String> = Vec::new();
        members.push(json_member("downloads", arr.as_str()));
        let r = json_object(&members);
        assert(views(members@) =~= seq![
            member_text(
                "downloads"@,
                array_text(Seq::new(self@.records.len(), |k: int| record_payload_text(self@.records[k]))),
            ),
        ]);
        r
    }
}

fn opt_u64_json(b: Option<u64>) -> (r: String)
    ensures
        r@ == opt_u64_text(b),
{
    match b {
        Some(n) => dec_string(n),
        None => owned("null"),
    }
}

fn opt_ref(s: &Option<String>) -> (r: Option<&str>)
    ensures
        crate::jsontext::opt_str_view(r) == opt_string_view(*s),
{
    match s {
        Some(t) => Some(t.as_str()),
        None => None,
    }
}

/// One record as JSON.
pub fn download_record_payload(record: &DownloadRecord) -> (r: String)
    ensures
        r@ == record_payload_text(record@),
{
    let mut members: Vec<String> = Vec::new();
    members.push(json_member("bytes", opt_u64_json(record.bytes).as_str()));
    members.push(json_member("filename", quote_json(record.filename.as_str()).as_str()));
    members.push(json_member("id", dec_string(record.id).as_str()));
    members.push(json_member("message", quote_json(record.message.as_str()).as_str()));
    members.push(json_member("path", opt_str_json(opt_ref(&record.path)).as_str()));
    members.push(json_member("status", quote_json(record.status.as_str()).as_str()));
    members.push(json_member("timestamp_ms", dec_string_u128(record.timestamp_ms).as_str()));
    members.push(json_member("url", opt_str_json(opt_ref(&record.url)).as_str()));
    let r = json_object(&members);
    assert(views(members@) =~= seq![
        member_text("bytes"@, opt_u64_text(record@.bytes)),
        member_text("filename"@, json_quote(record@.filename)),
        member_text("id"@, dec_digits(record@.id as nat)),
        member_text("message"@, json_quote(record@.message)),
        member_text("path"@, opt_str_text(record@.path)),
        member_text("status"@, json_quote(status_text(record@.status))),
        member_text("timestamp_ms"@, dec_digits(record@.timestamp_ms as nat)),
        member_text("url"@, opt_str_text(record@.url)),
    ]);
    r
}

/// The history rebuilt from a store: running downloads become failed ones,
/// and at most `max_records` (at least one) records are kept.
pub fn download_history_from_store(store: DownloadHistoryStore, max_records: usize) -> (h: DownloadHistory)
    ensures
        h@ == history_from_store(store.next_id, record_views(store.records@), max_records),
{
    let ghost orig = record_views(store.records@);
    let mut records = store.records;
    let mut out: Vec<DownloadRecord> = Vec::new();
    let n = records.len();
    let mut i: usize = 0;
    while i < n
        invariant
            n == orig.len(),
            i <= n,
            records@.len() == n - i,
            record_views(records@) == orig.skip(i as int),
            out@.len() == i,
            forall|k: int| 0 <= k < i ==> (#[trigger] out@[k])@ == loaded_record(orig[k]),
        decreases n - i,
    {
        let ghost before = records@;
        let mut rec = records.remove(0);
        proof {
            lemma_record_views_remove(before, 0);
            assert(record_views(before)[0] == before[0]@);
            assert(orig.skip(i as int)[0] == orig[i as int]);
            assert(rec@ == orig[i as int]);
            assert(orig.skip(i as int).remove(0) =~= orig.skip(i + 1));
        }
        if rec.status == DownloadRecordStatus::Started {
            rec.status = DownloadRecordStatus::Failed;
            rec.message = owned(INTERRUPTED_MESSAGE);
        }
        out.push(rec);
        i = i + 1;
    }
    let max = if max_records < 1 {
        1
    } else {
        max_records
    };
    let ghost full = out@;
    out.truncate(max);
    let h = DownloadHistory { next_id: store.next_id, max_records: max, records: out };
    proof {
        assert(record_views(full) =~= Seq::new(orig.len(), |k: int| loaded_record(orig[k])));
        if max <= full.len() {
            assert(record_views(full.subrange(0, max as int)) =~= record_views(full).subrange(
                0,
                max as int,
            ));
        }
        assert(h@.records =~= history_from_store(store.next_id, orig, max_records).records);
    }
    h
}

/// What is stored of a history: its last id and a copy of its records.
pub fn download_history_store(history: &DownloadHistory) -> (s: DownloadHistoryStore)
    ensures
        s.version == 1,
        s.next_id == history.next_id,
        record_views(s.records@) == history@.records,
{
    let mut records: Vec<DownloadRecord> = Vec::new();
    let mut i: usize = 0;
    while i < history.records.len()
        invariant
            i <= history.records.len(),
            record_views(records@) == history@.records.take(i as int),
        decreases history.records.len() - i,
    {
        let c = copy_record(&history.records[i]);
        let ghost before = records@;
        records.push(c);
        proof {
            assert(record_views(records@) =~= record_views(before).push(c@));
            assert(history@.records.take(i + 1) =~= history@.records.take(i as int).push(
                history@.records[i as int],
            ));
        }
        i = i + 1;
    }
    assert(history@.records.take(history@.records.len() as int) =~= history@.records);
    DownloadHistoryStore { version: 1, next_id: history.next_id, records }
}

// ---------------------------------------------------------------------------
// Laws
// ---------------------------------------------------------------------------

/// Recording an event keeps a well-formed history well formed: the limit
/// holds and is never below one.
pub proof fn law_record_keeps_limit(h: DownloadHistoryView, e: DownloadEventView, now: u128)
    requires
        history_wf(h),
    ensures
        history_wf(recorded(h, e, now)),
{
    if updates_existing(h, e) {
        lemma_first_match_bounds(h.records, e);
    }
}

/// Recording an event hands out a fresh id: ids stay distinct and no greater
/// than the last one handed out.
pub proof fn law_record_keeps_ids(h: DownloadHistoryView, e: DownloadEventView, now: u128)
    requires
        ids_consistent(h),
        updates_existing(h, e) || h.next_id < u64::MAX,
    ensures
        ids_consistent(recorded(h, e, now)),
{
    let r = recorded(h, e, now);
    if updates_existing(h, e) {
        lemma_first_match_bounds(h.records, e);
        let i = first_match(h.records, e)->0;
        assert forall|k: int| 0 <= k < r.records.len() implies #[trigger] r.records[k].id
            == h.records[k].id by {}
        assert forall|a: int, b: int| 0 <= a < b < r.records.len() implies #[trigger] r.records[a].id
            != #[trigger] r.records[b].id by {
            assert(r.records[a].id == h.records[a].id);
            assert(r.records[b].id == h.records[b].id);
        }
    } else {
        let all = seq![r.records[0]] + h.records;
        assert forall|k: int| 0 <= k < r.records.len() implies #[trigger] r.records[k].id <= r.next_id by {
            if k > 0 {
                assert(r.records[k] == h.records[k - 1]);
            }
        }
        assert forall|a: int, b: int| 0 <= a < b < r.records.len() implies #[trigger] r.records[a].id
            != #[trigger] r.records[b].id by {
            assert(r.records[b] == h.records[b - 1]);
            if a > 0 {
                assert(r.records[a] == h.records[a - 1]);
            } else {
                assert(h.records[b - 1].id <= h.next_id);
            }
        }
    }
}

/// After clearing, no completed record is left, and nothing was added.
pub proof fn law_clear_completed(h: DownloadHistoryView)
    ensures
        forall|k: int|
            0 <= k < without_completed(h.records).len() ==> #[trigger] without_completed(
                h.records,
            )[k].status != DownloadRecordStatus::Completed,
        without_completed(h.records).len() <= h.records.len(),
{
    lemma_without_completed_props(h.records);
}

/// A loaded history holds no running download and respects its limit.
pub proof fn law_loaded_history(next_id: u64, records: Seq<DownloadRecordView>, max_records: usize)
    ensures
        history_wf(history_from_store(next_id, records, max_records)),
        forall|k: int|
            0 <= k < history_from_store(next_id, records, max_records).records.len()
                ==> #[trigger] history_from_store(next_id, records, max_records).records[k].status
                != DownloadRecordStatus::Started,
{
    let h = history_from_store(next_id, records, max_records);
    assert forall|k: int| 0 <= k < h.records.len() implies #[trigger] h.records[k].status
        != DownloadRecordStatus::Started by {
        assert(h.records[k] == loaded_record(records[k]));
    }
}

/// Storing a well-formed history with no running download and loading it
/// back with the same limit gives the same history.
pub proof fn law_store_round_trip(h: DownloadHistoryView)
    requires
        history_wf(h),
        forall|k: int| 0 <= k < h.records.len() ==> #[trigger] h.records[k].status
            != DownloadRecordStatus::Started,
    ensures
        history_from_store(h.next_id, h.records, h.max_records) == h,
{
    let r = history_from_store(h.next_id, h.records, h.max_records);
    assert(r.records =~= h.records);
}

} // verus!
