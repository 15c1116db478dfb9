//! The names under which downloads and exports are saved: the last segment
//! of a path or URL, the name in a `Content-Disposition` header, and the
//! clean-up that makes any of them a valid Windows file name.
use vstd::prelude::*;

use crate::text::{
    dec_digits, ascii_lower, chars_are_blank, chars_eq_ignore_case, chars_of, chars_starts_with, eq_ignore_case,
    is_blank, last_index, last_path_segment, lemma_last_index_at, owned, push_str, rfind_char,
    slice_chars, split_chars, split_on, starts_with, str_is_blank, string_from, trim, trim_chars,
    trim_str,
};
use crate::settings::{join_path, path_join};

verus! {

// ---------------------------------------------------------------------------
// Specifications
// ---------------------------------------------------------------------------

pub open spec fn is_path_sep(c: char) -> bool {
    c == '/' || c == '\\'
}

/// The file name at the end of a Windows or Unix path, as
/// `rsplit(['/', '\\']).next()`, unless it is blank.
pub open spec fn file_name_of(path: Seq<char>) -> Option<Seq<char>> {
    if is_blank(last_path_segment(path)) {
        None
    } else {
        Some(last_path_segment(path))
    }
}

/// The text after the last `c`, or all of `s` when there is none
/// (`rsplit(c).next()`).
pub open spec fn after_last(s: Seq<char>, c: char) -> Seq<char> {
    match last_index(s, c) {
        Some(i) => s.subrange(i + 1, s.len() as int),
        None => s,
    }
}

/// The last segment of a URL's text, unless it is blank.
pub open spec fn url_tail(url: Seq<char>) -> Option<Seq<char>> {
    if is_blank(after_last(url, '/')) {
        None
    } else {
        Some(after_last(url, '/'))
    }
}

/// `s` up to its first `?` or `#` (`split(['?', '#']).next()`).
pub open spec fn before_query(s: Seq<char>) -> Seq<char>
    decreases s.len(),
{
    if s.len() == 0 {
        s
    } else if s[0] == '?' || s[0] == '#' {
        Seq::empty()
    } else {
        seq![s[0]] + before_query(s.drop_first())
    }
}

/// The file name a URL points at, or `download`.
pub open spec fn url_file_name(url: Seq<char>) -> Seq<char> {
    let seg = after_last(before_query(url), '/');
    if is_blank(seg) {
        "download"@
    } else {
        seg
    }
}

/// A character that Windows does not allow in a file name becomes `_`.
pub open spec fn sanitize_char(c: char) -> char {
    if c == '<' || c == '>' || c == ':' || c == '"' || c == '/' || c == '\\' || c == '|' || c == '?'
        || c == '*' || (c as u32) <= 0x1f {
        '_'
    } else {
        c
    }
}

pub open spec fn sanitize_chars(s: Seq<char>) -> Seq<char> {
    Seq::new(s.len(), |k: int| sanitize_char(s[k]))
}

/// `s` without trailing spaces and dots.
pub open spec fn strip_trailing_dots(s: Seq<char>) -> Seq<char>
    decreases s.len(),
{
    if s.len() > 0 && (s.last() == ' ' || s.last() == '.') {
        strip_trailing_dots(s.drop_last())
    } else {
        s
    }
}

/// The device names that Windows reserves.
pub open spec fn reserved_names() -> Seq<Seq<char>> {
    seq![
        "CON"@, "PRN"@, "AUX"@, "NUL"@, "COM1"@, "COM2"@, "COM3"@, "COM4"@, "COM5"@, "COM6"@,
        "COM7"@, "COM8"@, "COM9"@, "LPT1"@, "LPT2"@, "LPT3"@, "LPT4"@, "LPT5"@, "LPT6"@, "LPT7"@,
        "LPT8"@, "LPT9"@,
    ]
}

pub open spec fn is_reserved(s: Seq<char>) -> bool {
    exists|k: int| 0 <= k < reserved_names().len() && eq_ignore_case(s, #[trigger] reserved_names()[k])
}

/// The last path segment, trimmed, with forbidden characters replaced and
/// trailing spaces and dots removed; `download` when that leaves nothing or
/// a reserved device name.
pub open spec fn sanitized_file_name(name: Seq<char>) -> Seq<char> {
    let s = strip_trailing_dots(sanitize_chars(trim(last_path_segment(name))));
    if s.len() == 0 || is_reserved(s) {
        "download"@
    } else {
        s
    }
}

/// `s` without leading `c`.
pub open spec fn trim_start_char(s: Seq<char>, c: char) -> Seq<char>
    decreases s.len(),
{
    if s.len() > 0 && s[0] == c {
        trim_start_char(s.drop_first(), c)
    } else {
        s
    }
}

/// `s` without trailing `c`.
pub open spec fn trim_end_char(s: Seq<char>, c: char) -> Seq<char>
    decreases s.len(),
{
    if s.len() > 0 && s.last() == c {
        trim_end_char(s.drop_last(), c)
    } else {
        s
    }
}

pub open spec fn utf8_mark() -> Seq<char> {
    "UTF-8''"@
}

/// `s` without leading repetitions of `UTF-8''`.
pub open spec fn strip_utf8_marks(s: Seq<char>) -> Seq<char>
    decreases s.len(),
{
    if utf8_mark().len() > 0 && starts_with(s, utf8_mark()) {
        strip_utf8_marks(s.subrange(utf8_mark().len() as int, s.len() as int))
    } else {
        s
    }
}

/// The file name that one `;`-separated part of a `Content-Disposition`
/// header gives, if it is a `filename*=` or `filename=` part with a name.
pub open spec fn disposition_part_name(part: Seq<char>) -> Option<Seq<char>> {
    let p = trim(part);
    let rest = if starts_with(p, "filename*="@) {
        Some(p.subrange(10, p.len() as int))
    } else if starts_with(p, "filename="@) {
        Some(p.subrange(9, p.len() as int))
    } else {
        None
    };
    match rest {
        Some(r) => {
            let name = trim(strip_utf8_marks(trim_end_char(trim_start_char(r, '"'), '"')));
            if name.len() == 0 {
                None
            } else {
                Some(name)
            }
        },
        None => None,
    }
}

/// The first part, in order, that gives a file name.
pub open spec fn first_disposition_name(parts: Seq<Seq<char>>) -> Option<Seq<char>>
    decreases parts.len(),
{
    if parts.len() == 0 {
        None
    } else {
        match disposition_part_name(parts[0]) {
            Some(n) => Some(n),
            None => first_disposition_name(parts.drop_first()),
        }
    }
}

// ---------------------------------------------------------------------------
// Lemmas
// ---------------------------------------------------------------------------

proof fn lemma_last_segment_at(s: Seq<char>, j: int)
    requires
        0 <= j <= s.len(),
        forall|k: int| j <= k < s.len() ==> !is_path_sep(#[trigger] s[k]),
        j == 0 || is_path_sep(s[j - 1]),
    ensures
        last_path_segment(s) == s.subrange(j, s.len() as int),
    decreases s.len(),
{
    if s.len() == 0 {
    } else if j == s.len() {
        assert(is_path_sep(s.last()));
    } else {
        assert(!is_path_sep(s[s.len() - 1]));
        lemma_last_segment_at(s.drop_last(), j);
        assert(s.subrange(j, s.len() as int) == s.drop_last().subrange(j, s.len() - 1).push(
            s.last(),
        ));
    }
}

proof fn lemma_before_query_at(s: Seq<char>, i: int)
    requires
        0 <= i <= s.len(),
        forall|k: int| 0 <= k < i ==> #[trigger] s[k] != '?' && s[k] != '#',
        i == s.len() || s[i] == '?' || s[i] == '#',
    ensures
        before_query(s) == s.subrange(0, i),
    decreases s.len(),
{
    if s.len() == 0 {
    } else if i == 0 {
    } else {
        assert(s[0] != '?' && s[0] != '#');
        assert forall|k: int| 0 <= k < i - 1 implies #[trigger] s.drop_first()[k] != '?'
            && s.drop_first()[k] != '#' by {
            assert(s.drop_first()[k] == s[k + 1]);
        }
        lemma_before_query_at(s.drop_first(), i - 1);
        assert(s.subrange(0, i) == seq![s[0]] + s.drop_first().subrange(0, i - 1));
    }
}

proof fn lemma_strip_dots_at(s: Seq<char>, j: int)
    requires
        0 <= j <= s.len(),
        forall|k: int| j <= k < s.len() ==> #[trigger] s[k] == ' ' || s[k] == '.',
        j == 0 || (s[j - 1] != ' ' && s[j - 1] != '.'),
    ensures
        strip_trailing_dots(s) == s.subrange(0, j),
    decreases s.len(),
{
    if s.len() == j {
        assert(s.subrange(0, j) == s);
    } else {
        assert(s.last() == ' ' || s.last() == '.');
        lemma_strip_dots_at(s.drop_last(), j);
    }
}

proof fn lemma_trim_start_char_at(s: Seq<char>, c: char, i: int)
    requires
        0 <= i <= s.len(),
        forall|k: int| 0 <= k < i ==> #[trigger] s[k] == c,
        i == s.len() || s[i] != c,
    ensures
        trim_start_char(s, c) == s.subrange(i, s.len() as int),
    decreases s.len(),
{
    if i == 0 {
        assert(s.subrange(0, s.len() as int) == s);
    } else {
        assert(s[0] == c);
        assert forall|k: int| 0 <= k < i - 1 implies #[trigger] s.drop_first()[k] == c by {
            assert(s.drop_first()[k] == s[k + 1]);
        }
        lemma_trim_start_char_at(s.drop_first(), c, i - 1);
        assert(s.drop_first().subrange(i - 1, s.len() - 1) == s.subrange(i, s.len() as int));
    }
}

proof fn lemma_trim_end_char_at(s: Seq<char>, c: char, j: int)
    requires
        0 <= j <= s.len(),
        forall|k: int| j <= k < s.len() ==> #[trigger] s[k] == c,
        j == 0 || s[j - 1] != c,
    ensures
        trim_end_char(s, c) == s.subrange(0, j),
    decreases s.len(),
{
    if s.len() == j {
        assert(s.subrange(0, j) == s);
    } else {
        assert(s.last() == c);
        lemma_trim_end_char_at(s.drop_last(), c, j);
    }
}

// ---------------------------------------------------------------------------
// Executable functions
// ---------------------------------------------------------------------------

/// The last segment of a path, after any `/` or `\`.
pub fn last_segment_chars(v: &Vec<char>) -> (r: Vec<char>)
    ensures
        r@ == last_path_segment(v@),
{
    let mut j: usize = v.len();
    while j > 0 && v[j - 1] != '/' && v[j - 1] != '\\'
        invariant
            j <= v.len(),
            forall|k: int| j <= k < v.len() ==> !is_path_sep(#[trigger] v@[k]),
        decreases j,
    {
        j = j - 1;
    }
    proof {
        lemma_last_segment_at(v@, j as int);
    }
    slice_chars(v, j, v.len())
}

/// The file name at the end of `path`, on either kind of separator, unless
/// it is blank.
pub fn cross_platform_file_name(path: &str) -> (r: Option<String>)
    ensures
        r matches Some(n) ==> file_name_of(path@) == Some(n@),
        r is None ==> file_name_of(path@) is None,
{
    let v = chars_of(path);
    let seg = last_segment_chars(&v);
    if chars_are_blank(&seg) {
        None
    } else {
        Some(string_from(&seg))
    }
}

/// The text after the last `c`.
pub fn after_last_chars(v: &Vec<char>, c: char) -> (r: Vec<char>)
    ensures
        r@ == after_last(v@, c),
{
    match rfind_char(v, c) {
        Some(i) => slice_chars(v, i + 1, v.len()),
        None => slice_chars(v, 0, v.len()),
    }
}

/// The last segment of a URL, unless it is blank.
pub fn url_tail_name(url: &str) -> (r: Option<String>)
    ensures
        r matches Some(n) ==> url_tail(url@) == Some(n@),
        r is None ==> url_tail(url@) is None,
{
    let v = chars_of(url);
    let seg = after_last_chars(&v, '/');
    if chars_are_blank(&seg) {
        None
    } else {
        Some(string_from(&seg))
    }
}

/// The file name that a download URL points at, or `download`.
pub fn filename_from_url(url: &str) -> (r: String)
    ensures
        r@ == url_file_name(url@),
{
    let v = chars_of(url);
    let mut i: usize = 0;
    while i < v.len() && v[i] != '?' && v[i] != '#'
        invariant
            i <= v.len(),
            forall|k: int| 0 <= k < i ==> #[trigger] v@[k] != '?' && v@[k] != '#',
        decreases v.len() - i,
    {
        i = i + 1;
    }
    proof {
        lemma_before_query_at(v@, i as int);
    }
    let head = slice_chars(&v, 0, i);
    let seg = after_last_chars(&head, '/');
    if chars_are_blank(&seg) {
        owned("download")
    } else {
        string_from(&seg)
    }
}

pub fn sanitize_char_exec(c: char) -> (r: char)
    ensures
        r == sanitize_char(c),
{
    if c == '<' || c == '>' || c == ':' || c == '"' || c == '/' || c == '\\' || c == '|' || c == '?'
        || c == '*' || c <= '\u{1f}' {
        '_'
    } else {
        c
    }
}

fn is_reserved_exec(v: &Vec<char>) -> (r: bool)
    ensures
        r == is_reserved(v@),
{
    let names: [&str; 22] = [
        "CON", "PRN", "AUX", "NUL", "COM1", "COM2", "COM3", "COM4", "COM5", "COM6", "COM7", "COM8",
        "COM9", "LPT1", "LPT2", "LPT3", "LPT4", "LPT5", "LPT6", "LPT7", "LPT8", "LPT9",
    ];
    let mut i: usize = 0;
    while i < 22
        invariant
            i <= 22,
            forall|k: int| 0 <= k < 22 ==> (#[trigger] names@[k])@ == reserved_names()[k],
            forall|k: int| 0 <= k < i ==> !eq_ignore_case(v@, #[trigger] reserved_names()[k]),
        decreases 22 - i,
    {
        if chars_eq_ignore_case(v, &chars_of(names[i])) {
            return true;
        }
        i = i + 1;
    }
    false
}

/// A name that is safe to create on Windows: see `sanitized_file_name`.
pub fn sanitize_download_filename(filename: &str) -> (r: String)
    ensures
        r@ == sanitized_file_name(filename@),
{
    let v = chars_of(filename);
    let seg = last_segment_chars(&v);
    let candidate = trim_chars(&seg);
    let mut mapped: Vec<char> = Vec::new();
    let mut i: usize = 0;
    while i < candidate.len()
        invariant
            i <= candidate.len(),
            mapped@ == sanitize_chars(candidate@).subrange(0, i as int),
        decreases candidate.len() - i,
    {
        mapped.push(sanitize_char_exec(candidate[i]));
        assert(sanitize_chars(candidate@).subrange(0, i + 1) == sanitize_chars(candidate@).subrange(
            0,
            i as int,
        ).push(sanitize_char(candidate@[i as int])));
        i = i + 1;
    }
    assert(mapped@ == sanitize_chars(candidate@));
    let mut j: usize = mapped.len();
    while j > 0 && (mapped[j - 1] == ' ' || mapped[j - 1] == '.')
        invariant
            j <= mapped.len(),
            forall|k: int| j <= k < mapped.len() ==> #[trigger] mapped@[k] == ' ' || mapped@[k] == '.',
        decreases j,
    {
        j = j - 1;
    }
    proof {
        lemma_strip_dots_at(mapped@, j as int);
    }
    let s = slice_chars(&mapped, 0, j);
    if s.len() == 0 || is_reserved_exec(&s) {
        owned("download")
    } else {
        string_from(&s)
    }
}

fn disposition_part(part: &Vec<char>) -> (r: Option<String>)
    ensures
        r matches Some(n) ==> disposition_part_name(part@) == Some(n@),
        r is None ==> disposition_part_name(part@) is None,
{
    let p = trim_chars(part);
    let rest = if chars_starts_with(&p, "filename*=") {
        proof {
            reveal_strlit("filename*=");
        }
        slice_chars(&p, 10, p.len())
    } else if chars_starts_with(&p, "filename=") {
        proof {
            reveal_strlit("filename=");
        }
        slice_chars(&p, 9, p.len())
    } else {
        return None;
    };
    let mut i: usize = 0;
    while i < rest.len() && rest[i] == '"'
        invariant
            i <= rest.len(),
            forall|k: int| 0 <= k < i ==> #[trigger] rest@[k] == '"',
        decreases rest.len() - i,
    {
        i = i + 1;
    }
    proof {
        lemma_trim_start_char_at(rest@, '"', i as int);
    }
    let a = slice_chars(&rest, i, rest.len());
    let mut j: usize = a.len();
    while j > 0 && a[j - 1] == '"'
        invariant
            j <= a.len(),
            forall|k: int| j <= k < a.len() ==> #[trigger] a@[k] == '"',
        decreases j,
    {
        j = j - 1;
    }
    proof {
        lemma_trim_end_char_at(a@, '"', j as int);
    }
    let b = slice_chars(&a, 0, j);
    let c = strip_marks(&b);
    let name = trim_chars(&c);
    if name.len() == 0 {
        None
    } else {
        Some(string_from(&name))
    }
}

fn strip_marks(v: &Vec<char>) -> (r: Vec<char>)
    ensures
        r@ == strip_utf8_marks(v@),
    decreases v.len(),
{
    proof {
        reveal_strlit("UTF-8''");
    }
    if chars_starts_with(v, "UTF-8''") {
        let rest = slice_chars(v, 7, v.len());
        strip_marks(&rest)
    } else {
        slice_chars(v, 0, v.len())
    }
}

/// The file name in a `Content-Disposition` header value: the first
/// `filename*=` or `filename=` part that names one, unquoted and without
/// the `UTF-8''` marker.
pub fn filename_from_content_disposition(value: &str) -> (r: Option<String>)
    ensures
        r matches Some(n) ==> first_disposition_name(split_on(value@, ';')) == Some(n@),
        r is None ==> first_disposition_name(split_on(value@, ';')) is None,
{
    let v = chars_of(value);
    let parts = split_chars(&v, ';');
    let ghost ps = split_on(v@, ';');
    let mut i: usize = 0;
    assert(ps.subrange(0, ps.len() as int) == ps);
    while i < parts.len()
        invariant
            i <= parts.len(),
            ps == split_on(v@, ';'),
            v@ == value@,
            parts@.len() == ps.len(),
            forall|k: int| 0 <= k < parts@.len() ==> #[trigger] parts@[k]@ == ps[k],
            first_disposition_name(ps) == first_disposition_name(ps.subrange(i as int, ps.len() as int)),
        decreases parts.len() - i,
    {
        let ghost tail = ps.subrange(i as int, ps.len() as int);
        assert(tail[0] == ps[i as int]);
        assert(tail.drop_first() == ps.subrange(i + 1, ps.len() as int));
        assert(tail.len() > 0);
        match disposition_part(&parts[i]) {
            Some(n) => {
                assert(first_disposition_name(tail) == Some(n@));
                return Some(n);
            },
            None => {
                assert(first_disposition_name(tail) == first_disposition_name(tail.drop_first()));
            },
        }
        i = i + 1;
    }
    None
}

// ---------------------------------------------------------------------------
// Laws
// ---------------------------------------------------------------------------

proof fn lemma_strip_dots_prefix(s: Seq<char>)
    ensures
        strip_trailing_dots(s).len() <= s.len(),
        strip_trailing_dots(s) == s.subrange(0, strip_trailing_dots(s).len() as int),
        strip_trailing_dots(s).len() > 0 ==> strip_trailing_dots(s).last() != ' '
            && strip_trailing_dots(s).last() != '.',
    decreases s.len(),
{
    if s.len() > 0 && (s.last() == ' ' || s.last() == '.') {
        lemma_strip_dots_prefix(s.drop_last());
        let t = strip_trailing_dots(s.drop_last());
        assert(s.drop_last().subrange(0, t.len() as int) == s.subrange(0, t.len() as int));
    } else {
        assert(s.subrange(0, s.len() as int) == s);
    }
}

proof fn lemma_download_is_safe()
    ensures
        !is_reserved("download"@),
        forall|k: int| 0 <= k < "download"@.len() ==> sanitize_char(#[trigger] "download"@[k]) == "download"@[k],
        "download"@.len() > 0,
        "download"@.last() != ' ' && "download"@.last() != '.',
{
    reveal_strlit("download");
    reveal_strlit("CON");
    reveal_strlit("PRN");
    reveal_strlit("AUX");
    reveal_strlit("NUL");
    reveal_strlit("COM1");
    reveal_strlit("COM2");
    reveal_strlit("COM3");
    reveal_strlit("COM4");
    reveal_strlit("COM5");
    reveal_strlit("COM6");
    reveal_strlit("COM7");
    reveal_strlit("COM8");
    reveal_strlit("COM9");
    reveal_strlit("LPT1");
    reveal_strlit("LPT2");
    reveal_strlit("LPT3");
    reveal_strlit("LPT4");
    reveal_strlit("LPT5");
    reveal_strlit("LPT6");
    reveal_strlit("LPT7");
    reveal_strlit("LPT8");
    reveal_strlit("LPT9");
    assert forall|k: int| 0 <= k < reserved_names().len() implies !eq_ignore_case(
        "download"@,
        #[trigger] reserved_names()[k],
    ) by {
        assert(reserved_names()[k].len() <= 4);
    }
}

/// A sanitized name can always be created on Windows: it is not empty, holds
/// none of the characters that Windows forbids, does not end in a space or a
/// dot, and is not a reserved device name.
pub proof fn law_sanitized_name_is_safe(name: Seq<char>)
    ensures
        sanitized_file_name(name).len() > 0,
        forall|k: int|
            0 <= k < sanitized_file_name(name).len() ==> sanitize_char(
                #[trigger] sanitized_file_name(name)[k],
            ) == sanitized_file_name(name)[k],
        sanitized_file_name(name).last() != ' ' && sanitized_file_name(name).last() != '.',
        !is_reserved(sanitized_file_name(name)),
{
    let m = sanitize_chars(trim(last_path_segment(name)));
    let s = strip_trailing_dots(m);
    lemma_strip_dots_prefix(m);
    lemma_download_is_safe();
    if !(s.len() == 0 || is_reserved(s)) {
        assert forall|k: int| 0 <= k < s.len() implies sanitize_char(#[trigger] s[k]) == s[k] by {
            assert(s[k] == m[k]);
        }
    }
}

/// The name tried when a file of that name exists: `stem (n).ext`, or
/// `stem (n)` without an extension.
pub open spec fn numbered_name(stem: Seq<char>, counter: u32, extension: Option<Seq<char>>) -> Seq<char> {
    stem + " ("@ + dec_digits(counter as nat) + ")"@ + match extension {
        Some(e) => if e.len() > 0 {
            "."@ + e
        } else {
            Seq::empty()
        },
        None => Seq::empty(),
    }
}

/// A numbered name keeps the file's extension last: with an extension `e`
/// it is `stem (n).e`, so it ends in `.e` and starts with the stem; without
/// one it is `stem (n)`. The number is the counter in decimal.
pub proof fn law_numbered_name_keeps_extension(stem: Seq<char>, counter: u32, extension: Option<Seq<char>>)
    ensures
        ({
            let n = numbered_name(stem, counter, extension);
            let middle = " ("@ + dec_digits(counter as nat) + ")"@;
            &&& n.take(stem.len() as int) == stem
            &&& (extension matches Some(e) && e.len() > 0) ==> n == stem + middle + "."@ + extension->0
                && n.len() > extension->0.len() && n.subrange(
                n.len() - extension->0.len() - 1,
                n.len() as int,
            ) == "."@ + extension->0
            &&& !(extension matches Some(e) && e.len() > 0) ==> n == stem + middle
        }),
{
    let n = numbered_name(stem, counter, extension);
    let middle = " ("@ + dec_digits(counter as nat) + ")"@;
    assert(n.take(stem.len() as int) =~= stem);
    if extension matches Some(e) && e.len() > 0 {
        let e = extension->0;
        reveal_strlit(".");
        let a = stem + middle;
        assert(n =~= a + ("."@ + e));
        assert(n =~= stem + middle + "."@ + e);
        assert(n.subrange(n.len() - e.len() - 1, n.len() as int) =~= "."@ + e);
    } else {
        assert(n =~= stem + middle);
    }
}

pub fn numbered_download_name(stem: &str, counter: u32, extension: Option<&str>) -> (r: String)
    ensures
        r@ == numbered_name(stem@, counter, crate::jsontext::opt_str_view(extension)),
{
    let mut suffix = String::new();
    match extension {
        Some(e) => {
            if !e.is_empty() {
                push_str(&mut suffix, ".");
                push_str(&mut suffix, e);
            }
        },
        None => {},
    }
    proof {
        if !(extension matches Some(e) && e@.len() > 0) {
            assert(suffix@ =~= Seq::<char>::empty());
        }
    }
    let mut r = owned(stem);
    push_str(&mut r, " (");
    push_str(&mut r, crate::text::dec_string(counter as u64).as_str());
    push_str(&mut r, ")");
    push_str(&mut r, suffix.as_str());
    r
}

// ---------------------------------------------------------------------------
// Download directory
// ---------------------------------------------------------------------------

/// Where downloads go: a fixed directory, or the directory of the last one.
#[derive(Debug, Clone, Copy, PartialEq, Eq, Structural)]
pub enum DownloadSaveMode {
    Fixed,
    LastDir,
}

/// The download directory: the last one in last-directory mode when it is
/// known; else `Downloads` in the data directory when no fixed directory is
/// set; else the fixed directory, under `base_dir` (the directory that holds
/// the data directory) unless it is absolute. Every directory the user gave
/// is taken trimmed.
pub open spec fn download_directory_of(
    mode: DownloadSaveMode,
    fixed_dir: Seq<char>,
    last_dir: Seq<char>,
    base_dir: Seq<char>,
    data_dir: Seq<char>,
    fixed_is_absolute: bool,
) -> Seq<char> {
    if mode == DownloadSaveMode::LastDir && !is_blank(last_dir) {
        trim(last_dir)
    } else if is_blank(fixed_dir) {
        path_join(data_dir, "Downloads"@)
    } else if fixed_is_absolute {
        trim(fixed_dir)
    } else {
        path_join(base_dir, trim(fixed_dir))
    }
}

/// `fixed_is_absolute` says whether the trimmed fixed directory is an
/// absolute path on this system.
pub fn download_directory(
    mode: DownloadSaveMode,
    fixed_dir: &str,
    last_dir: &str,
    base_dir: &str,
    data_dir: &str,
    fixed_is_absolute: bool,
) -> (r: String)
    ensures
        r@ == download_directory_of(mode, fixed_dir@, last_dir@, base_dir@, data_dir@, fixed_is_absolute),
{
    if mode == DownloadSaveMode::LastDir && !str_is_blank(last_dir) {
        trim_str(last_dir)
    } else if str_is_blank(fixed_dir) {
        join_path(data_dir, "Downloads")
    } else if fixed_is_absolute {
        trim_str(fixed_dir)
    } else {
        let fixed = trim_str(fixed_dir);
        join_path(base_dir, fixed.as_str())
    }
}

} // verus!
