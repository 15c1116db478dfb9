//! A small PDF writer for conversation exports: the text wrapped into lines
//! and pages, each line written as UTF-16 with a CJK font, and the objects
//! laid out with their cross-reference table.
use vstd::prelude::*;
use vstd::string::{StrSliceExecFns, StringSliceAdditionalSpecFns};
use vstd::utf8::encode_utf8;

use crate::jsontext::{dec_string_u128, views};
use crate::text::{
    chars_of, dec_digits, hex_digit_upper, hex_char_upper, is_ws, is_ws_char, lemma_trim_end_at,
    owned, push_char, push_chars, push_str, slice_chars, split_chars, split_on, string_from,
    trim_end, utf16_units,
};

verus! {

/// How many characters a PDF line holds.
pub const PDF_LINE_CHARS: usize = 58;

/// How many lines a PDF page holds.
pub const PDF_PAGE_LINES: usize = 48;

// ---------------------------------------------------------------------------
// Lines and pages
// ---------------------------------------------------------------------------

/// A line without the `\r` of a `\r\n` ending.
pub open spec fn strip_cr(l: Seq<char>) -> Seq<char> {
    if l.len() > 0 && l.last() == '\r' {
        l.drop_last()
    } else {
        l
    }
}

/// `str::lines`: the text split at `\n`, a final empty piece dropped, and
/// `\r` before a `\n` removed.
pub open spec fn text_lines(s: Seq<char>) -> Seq<Seq<char>> {
    let p = split_on(s, '\n');
    let q = if p.len() > 0 && p.last().len() == 0 {
        p.drop_last()
    } else {
        p
    };
    Seq::new(q.len(), |k: int| strip_cr(q[k]))
}

/// A non-empty line cut into pieces of `k` characters (the last may be
/// shorter), each without trailing white space.
pub open spec fn chunks(l: Seq<char>, k: nat) -> Seq<Seq<char>>
    decreases l.len(),
{
    if l.len() == 0 || k == 0 {
        Seq::empty()
    } else if l.len() <= k {
        seq![trim_end(l)]
    } else {
        seq![trim_end(l.take(k as int))] + chunks(l.skip(k as int), k)
    }
}

/// The wrapped lines of one line: an empty line stays one empty line.
pub open spec fn line_chunks(l: Seq<char>, max_chars: nat) -> Seq<Seq<char>> {
    if l.len() == 0 {
        seq![Seq::empty()]
    } else {
        chunks(
            l,
            if max_chars == 0 {
                1
            } else {
                max_chars
            },
        )
    }
}

pub open spec fn wrapped(lines: Seq<Seq<char>>, max_chars: nat) -> Seq<Seq<char>>
    decreases lines.len(),
{
    if lines.len() == 0 {
        Seq::empty()
    } else {
        wrapped(lines.drop_last(), max_chars) + line_chunks(lines.last(), max_chars)
    }
}

/// The text's lines wrapped at `max_chars` characters.
pub open spec fn wrapped_text(text: Seq<char>, max_chars: nat) -> Seq<Seq<char>> {
    wrapped(text_lines(text), max_chars)
}

/// `s` cut into groups of `n`.
pub open spec fn groups<T>(s: Seq<T>, n: nat) -> Seq<Seq<T>>
    decreases s.len(),
{
    if s.len() == 0 || n == 0 {
        Seq::empty()
    } else if s.len() <= n {
        seq![s]
    } else {
        seq![s.take(n as int)] + groups(s.skip(n as int), n)
    }
}

/// The pages of a document: its wrapped lines in groups, or one page saying
/// `(empty)`.
pub open spec fn pdf_pages(text: Seq<char>) -> Seq<Seq<Seq<char>>> {
    let lines = wrapped_text(text, PDF_LINE_CHARS as nat);
    if lines.len() == 0 {
        seq![seq!["(empty)"@]]
    } else {
        groups(lines, PDF_PAGE_LINES as nat)
    }
}

// ---------------------------------------------------------------------------
// Text as UTF-16 hexadecimal
// ---------------------------------------------------------------------------

/// A code unit as four upper-case hexadecimal digits.
pub open spec fn hex4(u: u16) -> Seq<char> {
    seq![
        hex_digit_upper(((u / 4096) % 16) as int),
        hex_digit_upper(((u / 256) % 16) as int),
        hex_digit_upper(((u / 16) % 16) as int),
        hex_digit_upper((u % 16) as int),
    ]
}

pub open spec fn char_hex(c: char) -> Seq<char> {
    let units = utf16_units(c);
    if units.len() == 1 {
        hex4(units[0])
    } else {
        hex4(units[0]) + hex4(units[1])
    }
}

pub open spec fn utf16_hex(s: Seq<char>) -> Seq<char>
    decreases s.len(),
{
    if s.len() == 0 {
        Seq::empty()
    } else {
        utf16_hex(s.drop_last()) + char_hex(s.last())
    }
}

/// A text string of the PDF: the byte order mark and the UTF-16 units.
pub open spec fn pdf_hex_text(s: Seq<char>) -> Seq<char> {
    "FEFF"@ + utf16_hex(s)
}

// ---------------------------------------------------------------------------
// Objects and the file
// ---------------------------------------------------------------------------

/// The length in bytes of the UTF-8 text, as `str::len` gives it.
pub open spec fn byte_len(s: Seq<char>) -> nat {
    (encode_utf8(s).len() as usize) as nat
}

pub open spec fn stream_lines(lines: Seq<Seq<char>>) -> Seq<char>
    decreases lines.len(),
{
    if lines.len() == 0 {
        Seq::empty()
    } else {
        stream_lines(lines.drop_last()) + "<"@ + pdf_hex_text(lines.last()) + "> Tj\n"@ + "0 -14 Td\n"@
    }
}

/// The content stream of a page: the heading, then one line after another.
pub open spec fn page_stream_text(title: Seq<char>, lines: Seq<Seq<char>>) -> Seq<char> {
    "BT\n/F1 10 Tf\n50 800 Td\n"@ + "<"@ + pdf_hex_text(title + " - EasyGPT Export"@) + "> Tj\n"@
        + "0 -18 Td\n"@ + stream_lines(lines) + "ET"@
}

pub open spec fn kid(i: nat) -> Seq<char> {
    dec_digits(3 + 2 * i) + " 0 R"@
}

pub open spec fn kids_text(n: nat) -> Seq<char>
    decreases n,
{
    if n == 0 {
        Seq::empty()
    } else if n == 1 {
        kid(0)
    } else {
        kids_text((n - 1) as nat) + " "@ + kid((n - 1) as nat)
    }
}

pub open spec fn catalog_object() -> Seq<char> {
    "<< /Type /Catalog /Pages 2 0 R >>"@
}

pub open spec fn pages_object(n: nat) -> Seq<char> {
    "<< /Type /Pages /Kids ["@ + kids_text(n) + "] /Count "@ + dec_digits(n) + " >>"@
}

pub open spec fn page_object(page_id: nat, font_id: nat) -> Seq<char> {
    "<< /Type /Page /Parent 2 0 R /MediaBox [0 0 595 842] /Resources << /Font << /F1 "@
        + dec_digits(font_id) + " 0 R >> >> /Contents "@ + dec_digits(page_id + 1) + " 0 R >>"@
}

pub open spec fn content_object(stream: Seq<char>) -> Seq<char> {
    "<< /Length "@ + dec_digits(byte_len(stream)) + " >>\nstream\n"@ + stream + "\nendstream"@
}

pub open spec fn font_object(font_id: nat) -> Seq<char> {
    "<< /Type /Font /Subtype /Type0 /BaseFont /STSong-Light /Encoding /UniGB-UCS2-H /DescendantFonts ["@
        + dec_digits(font_id + 1) + " 0 R] >>"@
}

pub open spec fn descendant_font_object(font_id: nat) -> Seq<char> {
    "<< /Type /Font /Subtype /CIDFontType0 /BaseFont /STSong-Light /CIDSystemInfo "@ + dec_digits(
        font_id + 2,
    ) + " 0 R /DW 1000 /W [1 [500]] >>"@
}

pub open spec fn cid_info_object() -> Seq<char> {
    "<< /Registry (Adobe) /Ordering (GB1) /Supplement 5 >>"@
}

/// Two objects per page, the page and its content, in page order.
pub open spec fn page_objects(title: Seq<char>, pages: Seq<Seq<Seq<char>>>, font_id: nat) -> Seq<
    Seq<char>,
>
    decreases pages.len(),
{
    if pages.len() == 0 {
        Seq::empty()
    } else {
        page_objects(title, pages.drop_last(), font_id) + seq![
            page_object((3 + 2 * (pages.len() - 1)) as nat, font_id),
            content_object(page_stream_text(title, pages.last())),
        ]
    }
}

/// Every object of the file, in order: catalog, page tree, the pages, and
/// the three font objects.
pub open spec fn pdf_objects(title: Seq<char>, pages: Seq<Seq<Seq<char>>>) -> Seq<Seq<char>> {
    let font_id = 3 + 2 * pages.len();
    seq![catalog_object(), pages_object(pages.len())] + page_objects(title, pages, font_id) + seq![
        font_object(font_id),
        descendant_font_object(font_id),
        cid_info_object(),
    ]
}

pub open spec fn pdf_header() -> Seq<char> {
    "%PDF-1.4\n% EasyGPT\n"@
}

pub open spec fn object_entry(number: nat, object: Seq<char>) -> Seq<char> {
    dec_digits(number) + " 0 obj\n"@ + object + "\nendobj\n"@
}

/// The header and the numbered objects.
pub open spec fn pdf_body(objects: Seq<Seq<char>>) -> Seq<char>
    decreases objects.len(),
{
    if objects.len() == 0 {
        pdf_header()
    } else {
        pdf_body(objects.drop_last()) + object_entry(objects.len(), objects.last())
    }
}

/// `n` in decimal, zero padded to ten digits.
pub open spec fn pad10(n: nat) -> Seq<char> {
    let d = dec_digits(n);
    if d.len() >= 10 {
        d
    } else {
        Seq::new((10 - d.len()) as nat, |k: int| '0') + d
    }
}

/// One cross-reference line per object: where its entry begins, in bytes.
pub open spec fn xref_entries(objects: Seq<Seq<char>>) -> Seq<char>
    decreases objects.len(),
{
    if objects.len() == 0 {
        Seq::empty()
    } else {
        xref_entries(objects.drop_last()) + pad10(byte_len(pdf_body(objects.drop_last())))
            + " 00000 n \n"@
    }
}

pub open spec fn pdf_file_text(objects: Seq<Seq<char>>) -> Seq<char> {
    pdf_body(objects) + "xref\n0 "@ + dec_digits(objects.len() + 1) + "\n0000000000 65535 f \n"@
        + xref_entries(objects) + "trailer\n<< /Size "@ + dec_digits(objects.len() + 1)
        + " /Root 1 0 R >>\nstartxref\n"@ + dec_digits(byte_len(pdf_body(objects))) + "\n%%EOF\n"@
}

/// The bytes of the PDF export of `text` under `title`.
pub open spec fn pdf_document_bytes(title: Seq<char>, text: Seq<char>) -> Seq<u8> {
    encode_utf8(pdf_file_text(pdf_objects(title, pdf_pages(text))))
}

// ---------------------------------------------------------------------------
// Lemmas
// ---------------------------------------------------------------------------

proof fn lemma_split_nonempty(s: Seq<char>, c: char)
    ensures
        split_on(s, c).len() >= 1,
{
}

proof fn lemma_groups_step<T>(s: Seq<T>, n: nat, i: int)
    requires
        n > 0,
        0 <= i < s.len(),
        s.len() - i > n,
    ensures
        groups(s.skip(i), n) == seq![s.skip(i).take(n as int)] + groups(s.skip(i + n), n),
{
    assert(s.skip(i).skip(n as int) =~= s.skip(i + n));
}

proof fn lemma_chunks_step(l: Seq<char>, k: nat, i: int)
    requires
        k > 0,
        0 <= i < l.len(),
        l.len() - i > k,
    ensures
        chunks(l.skip(i), k) == seq![trim_end(l.skip(i).take(k as int))] + chunks(l.skip(i + k), k),
{
    assert(l.skip(i).skip(k as int) =~= l.skip(i + k));
}

// ---------------------------------------------------------------------------
// Executable functions
// ---------------------------------------------------------------------------

/// `v` without trailing white space.
pub fn trim_end_chars(v: &Vec<char>) -> (r: Vec<char>)
    ensures
        r@ == trim_end(v@),
{
    let mut j: usize = v.len();
    while j > 0 && is_ws_char(v[j - 1])
        invariant
            j <= v.len(),
            forall|k: int| j <= k < v.len() ==> is_ws(v@[k]),
        decreases j,
    {
        j = j - 1;
    }
    proof {
        lemma_trim_end_at(v@, j as int);
    }
    slice_chars(v, 0, j)
}

/// The lines of `v`, as `str::lines` gives them.
pub fn text_lines_chars(v: &Vec<char>) -> (r: Vec<Vec<char>>)
    ensures
        r@.len() == text_lines(v@).len(),
        forall|k: int| 0 <= k < r@.len() ==> #[trigger] r@[k]@ == text_lines(v@)[k],
{
    let pieces = split_chars(v, '\n');
    let ghost p = split_on(v@, '\n');
    proof {
        lemma_split_nonempty(v@, '\n');
    }
    let mut n = pieces.len();
    if n > 0 && pieces[n - 1].len() == 0 {
        n = n - 1;
    }
    let ghost q = if p.len() > 0 && p.last().len() == 0 {
        p.drop_last()
    } else {
        p
    };
    assert(n == q.len());
    let mut r: Vec<Vec<char>> = Vec::new();
    let mut i: usize = 0;
    while i < n
        invariant
            n == q.len() <= pieces.len(),
            i <= n,
            pieces@.len() == p.len(),
            forall|k: int| 0 <= k < pieces@.len() ==> #[trigger] pieces@[k]@ == p[k],
            forall|k: int| 0 <= k < q.len() ==> #[trigger] q[k] == p[k],
            r@.len() == i,
            forall|k: int| 0 <= k < i ==> #[trigger] r@[k]@ == strip_cr(q[k]),
        decreases n - i,
    {
        let piece = &pieces[i];
        let m = piece.len();
        if m > 0 && piece[m - 1] == '\r' {
            r.push(slice_chars(piece, 0, m - 1));
        } else {
            r.push(slice_chars(piece, 0, m));
        }
        i = i + 1;
    }
    r
}

fn push_chunks(out: &mut Vec<Vec<char>>, line: &Vec<char>, k: usize)
    requires
        k > 0,
        line.len() > 0,
    ensures
        final(out)@.len() == old(out)@.len() + chunks(line@, k as nat).len(),
        forall|j: int| 0 <= j < old(out)@.len() ==> #[trigger] final(out)@[j] == old(out)@[j],
        forall|j: int|
            0 <= j < chunks(line@, k as nat).len() ==> #[trigger] final(out)@[old(out)@.len() + j]@
                == chunks(line@, k as nat)[j],
{
    let ghost start = out@;
    let ghost all = chunks(line@, k as nat);
    let mut i: usize = 0;
    let ghost mut done: Seq<Seq<char>> = Seq::empty();
    assert(line@.skip(0) =~= line@);
    while line.len() - i > k
        invariant
            k > 0,
            i < line.len(),
            all == chunks(line@, k as nat),
            all == done + chunks(line@.skip(i as int), k as nat),
            out@.len() == start.len() + done.len(),
            forall|j: int| 0 <= j < start.len() ==> #[trigger] out@[j] == start[j],
            forall|j: int| 0 <= j < done.len() ==> #[trigger] out@[start.len() + j]@ == done[j],
        decreases line.len() - i,
    {
        proof {
            lemma_chunks_step(line@, k as nat, i as int);
        }
        let piece = slice_chars(line, i, i + k);
        assert(piece@ == line@.skip(i as int).take(k as int));
        out.push(trim_end_chars(&piece));
        proof {
            done = done.push(trim_end(line@.skip(i as int).take(k as int)));
            assert(all =~= done + chunks(line@.skip(i + k), k as nat));
        }
        i = i + k;
    }
    let rest = slice_chars(line, i, line.len());
    assert(rest@ == line@.skip(i as int));
    out.push(trim_end_chars(&rest));
    proof {
        assert(chunks(line@.skip(i as int), k as nat) == seq![trim_end(line@.skip(i as int))]);
        done = done.push(trim_end(line@.skip(i as int)));
        assert(all =~= done);
    }
}

/// The text's lines cut at `max_chars` characters; see `wrapped_text`.
pub fn wrap_pdf_lines(text: &str, max_chars: usize) -> (r: Vec<String>)
    ensures
        views(r@) == wrapped_text(text@, max_chars as nat),
{
    let v = chars_of(text);
    let lines = text_lines_chars(&v);
    let ghost ls = text_lines(v@);
    let k: usize = if max_chars == 0 {
        1
    } else {
        max_chars
    };
    let mut out: Vec<Vec<char>> = Vec::new();
    let mut i: usize = 0;
    while i < lines.len()
        invariant
            k > 0,
            k == (if max_chars == 0 { 1 } else { max_chars }),
            i <= lines.len(),
            ls == text_lines(v@),
            lines@.len() == ls.len(),
            forall|j: int| 0 <= j < lines@.len() ==> #[trigger] lines@[j]@ == ls[j],
            out@.len() == wrapped(ls.take(i as int), max_chars as nat).len(),
            forall|j: int|
                0 <= j < out@.len() ==> #[trigger] out@[j]@ == wrapped(ls.take(i as int), max_chars as nat)[j],
        decreases lines.len() - i,
    {
        let ghost before = out@;
        let ghost w0 = wrapped(ls.take(i as int), max_chars as nat);
        assert(ls.take(i + 1).drop_last() =~= ls.take(i as int));
        assert(ls.take(i + 1).last() == ls[i as int]);
        let line = &lines[i];
        if line.len() == 0 {
            out.push(Vec::new());
            proof {
                assert(line_chunks(ls[i as int], max_chars as nat) == seq![Seq::<char>::empty()]);
                assert(wrapped(ls.take(i + 1), max_chars as nat) =~= w0 + seq![Seq::<char>::empty()]);
                assert forall|j: int| 0 <= j < out@.len() implies #[trigger] out@[j]@ == wrapped(
                    ls.take(i + 1),
                    max_chars as nat,
                )[j] by {
                    if j < before.len() {
                        assert(out@[j] == before[j]);
                    } else {
                        assert(out@[j]@ =~= Seq::<char>::empty());
                    }
                }
            }
        } else {
            push_chunks(&mut out, line, k);
            proof {
                let c = chunks(ls[i as int], k as nat);
                assert(line_chunks(ls[i as int], max_chars as nat) == c);
                assert(wrapped(ls.take(i + 1), max_chars as nat) =~= w0 + c);
                assert forall|j: int| 0 <= j < out@.len() implies #[trigger] out@[j]@ == wrapped(
                    ls.take(i + 1),
                    max_chars as nat,
                )[j] by {
                    if j < before.len() {
                        assert(out@[j] == before[j]);
                    } else {
                        assert(out@[before.len() + (j - before.len())]@ == c[j - before.len()]);
                    }
                }
            }
        }
        i = i + 1;
    }
    assert(ls.take(ls.len() as int) =~= ls);
    let mut r: Vec<String> = Vec::new();
    let mut j: usize = 0;
    while j < out.len()
        invariant
            j <= out.len(),
            r@.len() == j,
            forall|m: int| 0 <= m < j ==> #[trigger] r@[m]@ == out@[m]@,
        decreases out.len() - j,
    {
        r.push(string_from(&out[j]));
        j = j + 1;
    }
    assert(views(r@) =~= wrapped_text(text@, max_chars as nat));
    r
}

fn hex4_push(out: &mut String, u: u16)
    ensures
        final(out)@ == old(out)@ + hex4(u),
{
    let ghost start = out@;
    push_char(out, hex_char_upper(((u / 4096) % 16) as u64));
    push_char(out, hex_char_upper(((u / 256) % 16) as u64));
    push_char(out, hex_char_upper(((u / 16) % 16) as u64));
    push_char(out, hex_char_upper((u % 16) as u64));
    assert(out@ =~= start + hex4(u));
}

/// The text as a PDF hexadecimal string: `FEFF` and the UTF-16 code units.
pub fn pdf_utf16be_hex(value: &str) -> (r: String)
    ensures
        r@ == pdf_hex_text(value@),
{
    let v = chars_of(value);
    let mut r = owned("FEFF");
    let mut i: usize = 0;
    while i < v.len()
        invariant
            i <= v.len(),
            r@ == "FEFF"@ + utf16_hex(v@.take(i as int)),
        decreases v.len() - i,
    {
        let c = v[i];
        let ghost before = r@;
        let x = c as u32;
        if x < 0x10000 {
            hex4_push(&mut r, x as u16);
        } else {
            let w = x - 0x10000;
            hex4_push(&mut r, (0xD800 + w / 1024) as u16);
            hex4_push(&mut r, (0xDC00 + w % 1024) as u16);
        }
        proof {
            assert(v@.take(i + 1).drop_last() =~= v@.take(i as int));
            assert(v@.take(i + 1).last() == c);
            assert(r@ =~= before + char_hex(c));
        }
        i = i + 1;
    }
    assert(v@.take(v@.len() as int) =~= v@);
    r
}

/// The content stream of one page.
pub fn pdf_page_stream(title: &str, lines: &Vec<String>) -> (r: String)
    ensures
        r@ == page_stream_text(title@, views(lines@)),
{
    let mut heading = owned(title);
    push_str(&mut heading, " - EasyGPT Export");
    let mut body = String::new();
    let ghost ls = views(lines@);
    let mut i: usize = 0;
    while i < lines.len()
        invariant
            i <= lines.len(),
            ls == views(lines@),
            body@ == stream_lines(ls.take(i as int)),
        decreases lines.len() - i,
    {
        let ghost before = body@;
        push_str(&mut body, "<");
        push_str(&mut body, pdf_utf16be_hex(lines[i].as_str()).as_str());
        push_str(&mut body, "> Tj\n");
        push_str(&mut body, "0 -14 Td\n");
        proof {
            assert(ls.take(i + 1).drop_last() =~= ls.take(i as int));
            assert(ls.take(i + 1).last() == lines@[i as int]@);
        }
        i = i + 1;
    }
    assert(ls.take(ls.len() as int) =~= ls);
    let mut r = owned("BT\n/F1 10 Tf\n50 800 Td\n");
    push_str(&mut r, "<");
    push_str(&mut r, pdf_utf16be_hex(heading.as_str()).as_str());
    push_str(&mut r, "> Tj\n");
    push_str(&mut r, "0 -18 Td\n");
    push_str(&mut r, body.as_str());
    push_str(&mut r, "ET");
    r
}

/// The pages, each seen as its lines.
pub open spec fn page_views(pages: Seq<Vec<String>>) -> Seq<Seq<Seq<char>>> {
    Seq::new(pages.len(), |k: int| views(pages[k]@))
}

fn copy_strings(v: &Vec<String>, from: usize, to: usize) -> (r: Vec<String>)
    requires
        from <= to <= v.len(),
    ensures
        views(r@) == views(v@).subrange(from as int, to as int),
{
    let mut r: Vec<String> = Vec::new();
    let mut i: usize = from;
    while i < to
        invariant
            from <= i <= to <= v.len(),
            views(r@) == views(v@).subrange(from as int, i as int),
        decreases to - i,
    {
        let ghost before = r@;
        r.push(owned(v[i].as_str()));
        proof {
            assert(views(r@) =~= views(before).push(v@[i as int]@));
            assert(views(v@).subrange(from as int, i + 1) =~= views(v@).subrange(from as int, i as int).push(
                v@[i as int]@,
            ));
        }
        i = i + 1;
    }
    r
}

/// The lines in groups of `n`.
fn group_lines(lines: &Vec<String>, n: usize) -> (r: Vec<Vec<String>>)
    requires
        n > 0,
    ensures
        page_views(r@) == groups(views(lines@), n as nat),
{
    let ghost ls = views(lines@);
    let mut r: Vec<Vec<String>> = Vec::new();
    let mut i: usize = 0;
    let ghost mut done: Seq<Seq<Seq<char>>> = Seq::empty();
    assert(ls.skip(0) =~= ls);
    if lines.len() == 0 {
        assert(page_views(r@) =~= groups(ls, n as nat));
        return r;
    }
    while lines.len() - i > n
        invariant
            n > 0,
            i < lines.len(),
            ls == views(lines@),
            groups(ls, n as nat) == done + groups(ls.skip(i as int), n as nat),
            page_views(r@) == done,
        decreases lines.len() - i,
    {
        proof {
            lemma_groups_step(ls, n as nat, i as int);
        }
        let g = copy_strings(lines, i, i + n);
        let ghost before = r@;
        r.push(g);
        proof {
            assert(ls.skip(i as int).take(n as int) =~= ls.subrange(i as int, i + n));
            done = done.push(ls.skip(i as int).take(n as int));
            assert(page_views(r@) =~= page_views(before).push(views(g@)));
            assert(groups(ls, n as nat) =~= done + groups(ls.skip(i + n), n as nat));
        }
        i = i + n;
    }
    let g = copy_strings(lines, i, lines.len());
    let ghost before = r@;
    r.push(g);
    proof {
        assert(ls.skip(i as int) =~= ls.subrange(i as int, ls.len() as int));
        assert(groups(ls.skip(i as int), n as nat) == seq![ls.skip(i as int)]);
        assert(page_views(r@) =~= page_views(before).push(views(g@)));
        assert(page_views(r@) =~= groups(ls, n as nat));
    }
    r
}

/// The references to the first `n` pages.
fn kids_exec(n: usize) -> (r: String)
    ensures
        r@ == kids_text(n as nat),
{
    let mut r = String::new();
    let mut i: usize = 0;
    assert(r@ =~= kids_text(0));
    while i < n
        invariant
            i <= n,
            r@ == kids_text(i as nat),
        decreases n - i,
    {
        if i > 0 {
            push_str(&mut r, " ");
        }
        push_str(&mut r, dec_string_u128(3 + 2 * (i as u128)).as_str());
        push_str(&mut r, " 0 R");
        proof {
            if i == 0 {
                assert(r@ =~= kid(0));
            }
        }
        i = i + 1;
    }
    r
}

fn page_object_exec(page_id: u128, font_id: u128) -> (r: String)
    requires
        page_id < u128::MAX,
    ensures
        r@ == page_object(page_id as nat, font_id as nat),
{
    let mut r = owned(
        "<< /Type /Page /Parent 2 0 R /MediaBox [0 0 595 842] /Resources << /Font << /F1 ",
    );
    push_str(&mut r, dec_string_u128(font_id).as_str());
    push_str(&mut r, " 0 R >> >> /Contents ");
    push_str(&mut r, dec_string_u128(page_id + 1).as_str());
    push_str(&mut r, " 0 R >>");
    r
}

fn content_object_exec(stream: &str) -> (r: String)
    ensures
        r@ == content_object(stream@),
{
    let mut r = owned("<< /Length ");
    push_str(&mut r, dec_string_u128(stream.len() as u128).as_str());
    push_str(&mut r, " >>\nstream\n");
    push_str(&mut r, stream);
    push_str(&mut r, "\nendstream");
    r
}

/// Every object of the file; see `pdf_objects`.
fn pdf_objects_exec(title: &str, pages: &Vec<Vec<String>>) -> (r: Vec<String>)
    ensures
        views(r@) == pdf_objects(title@, page_views(pages@)),
{
    let ghost pv = page_views(pages@);
    let n = pages.len();
    let font_id: u128 = 3 + 2 * (n as u128);
    let mut objects: Vec<String> = Vec::new();
    objects.push(owned("<< /Type /Catalog /Pages 2 0 R >>"));
    let mut po = owned("<< /Type /Pages /Kids [");
    push_str(&mut po, kids_exec(n).as_str());
    push_str(&mut po, "] /Count ");
    push_str(&mut po, dec_string_u128(n as u128).as_str());
    push_str(&mut po, " >>");
    objects.push(po);
    let ghost head = seq![catalog_object(), pages_object(n as nat)];
    assert(views(objects@) =~= head + page_objects(title@, pv.take(0), font_id as nat));
    let mut i: usize = 0;
    while i < n
        invariant
            i <= n == pages.len(),
            pv == page_views(pages@),
            font_id == 3 + 2 * n,
            views(objects@) == head + page_objects(title@, pv.take(i as int), font_id as nat),
        decreases n - i,
    {
        let ghost before = objects@;
        let page_id: u128 = 3 + 2 * (i as u128);
        objects.push(page_object_exec(page_id, font_id));
        let stream = pdf_page_stream(title, &pages[i]);
        objects.push(content_object_exec(stream.as_str()));
        proof {
            assert(pv.take(i + 1).drop_last() =~= pv.take(i as int));
            assert(pv.take(i + 1).last() == views(pages@[i as int]@));
            assert(page_objects(title@, pv.take(i + 1), font_id as nat) == page_objects(
                title@,
                pv.take(i as int),
                font_id as nat,
            ) + seq![
                page_object(page_id as nat, font_id as nat),
                content_object(page_stream_text(title@, views(pages@[i as int]@))),
            ]);
            assert(views(objects@) =~= views(before) + seq![
                page_object(page_id as nat, font_id as nat),
                content_object(page_stream_text(title@, views(pages@[i as int]@))),
            ]);
            assert(views(objects@) =~= head + page_objects(title@, pv.take(i + 1), font_id as nat));
        }
        i = i + 1;
    }
    assert(pv.take(n as int) =~= pv);
    let ghost mid = objects@;
    let mut f = owned(
        "<< /Type /Font /Subtype /Type0 /BaseFont /STSong-Light /Encoding /UniGB-UCS2-H /DescendantFonts [",
    );
    push_str(&mut f, dec_string_u128(font_id + 1).as_str());
    push_str(&mut f, " 0 R] >>");
    objects.push(f);
    let mut d = owned(
        "<< /Type /Font /Subtype /CIDFontType0 /BaseFont /STSong-Light /CIDSystemInfo ",
    );
    push_str(&mut d, dec_string_u128(font_id + 2).as_str());
    push_str(&mut d, " 0 R /DW 1000 /W [1 [500]] >>");
    objects.push(d);
    objects.push(owned("<< /Registry (Adobe) /Ordering (GB1) /Supplement 5 >>"));
    assert(views(objects@) =~= pdf_objects(title@, pv));
    objects
}

fn pad10_exec(n: usize) -> (r: String)
    ensures
        r@ == pad10(n as nat),
{
    let d = dec_string_u128(n as u128);
    let dv = chars_of(d.as_str());
    if dv.len() >= 10 {
        return d;
    }
    let mut r = String::new();
    let mut i: usize = 0;
    let z = 10 - dv.len();
    while i < z
        invariant
            i <= z,
            r@ == Seq::new(i as nat, |k: int| '0'),
        decreases z - i,
    {
        push_char(&mut r, '0');
        assert(r@ =~= Seq::new((i + 1) as nat, |k: int| '0'));
        i = i + 1;
    }
    push_str(&mut r, d.as_str());
    r
}

/// The whole file: header, objects, cross references and trailer.
fn pdf_file(objects: &Vec<String>) -> (r: String)
    ensures
        r@ == pdf_file_text(views(objects@)),
{
    let ghost ov = views(objects@);
    let mut pdf = owned("%PDF-1.4\n% EasyGPT\n");
    let mut offsets: Vec<usize> = Vec::new();
    let mut k: usize = 0;
    assert(ov.take(0) =~= Seq::<Seq<char>>::empty());
    while k < objects.len()
        invariant
            k <= objects.len(),
            ov == views(objects@),
            pdf@ == pdf_body(ov.take(k as int)),
            offsets@.len() == k,
            forall|j: int| 0 <= j < k ==> #[trigger] offsets@[j] == byte_len(pdf_body(ov.take(j))),
        decreases objects.len() - k,
    {
        offsets.push(pdf.as_str().len());
        push_str(&mut pdf, dec_string_u128((k as u128) + 1).as_str());
        push_str(&mut pdf, " 0 obj\n");
        push_str(&mut pdf, objects[k].as_str());
        push_str(&mut pdf, "\nendobj\n");
        proof {
            assert(ov.take(k + 1).drop_last() =~= ov.take(k as int));
            assert(ov.take(k + 1).last() == objects@[k as int]@);
        }
        k = k + 1;
    }
    assert(ov.take(ov.len() as int) =~= ov);
    let xref_offset = pdf.as_str().len();
    let mut xref = String::new();
    let mut j: usize = 0;
    while j < offsets.len()
        invariant
            j <= offsets.len() == ov.len(),
            forall|m: int| 0 <= m < ov.len() ==> #[trigger] offsets@[m] == byte_len(pdf_body(ov.take(m))),
            xref@ == xref_entries(ov.take(j as int)),
        decreases offsets.len() - j,
    {
        push_str(&mut xref, pad10_exec(offsets[j]).as_str());
        push_str(&mut xref, " 00000 n \n");
        proof {
            assert(ov.take(j + 1).drop_last() =~= ov.take(j as int));
        }
        j = j + 1;
    }
    let count = (objects.len() as u128) + 1;
    push_str(&mut pdf, "xref\n0 ");
    push_str(&mut pdf, dec_string_u128(count).as_str());
    push_str(&mut pdf, "\n0000000000 65535 f \n");
    push_str(&mut pdf, xref.as_str());
    push_str(&mut pdf, "trailer\n<< /Size ");
    push_str(&mut pdf, dec_string_u128(count).as_str());
    push_str(&mut pdf, " /Root 1 0 R >>\nstartxref\n");
    push_str(&mut pdf, dec_string_u128(xref_offset as u128).as_str());
    push_str(&mut pdf, "\n%%EOF\n");
    pdf
}

/// The PDF export of `markdown` under `title`; see `pdf_document_bytes`.
pub fn export_pdf_document(title: &str, markdown: &str) -> (r: Vec<u8>)
    ensures
        r@ == pdf_document_bytes(title@, markdown@),
{
    let lines = wrap_pdf_lines(markdown, PDF_LINE_CHARS);
    let pages: Vec<Vec<String>> = if lines.len() == 0 {
        let mut page: Vec<String> = Vec::new();
        page.push(owned("(empty)"));
        let mut ps: Vec<Vec<String>> = Vec::new();
        assert(views(page@) =~= seq!["(empty)"@]);
        ps.push(page);
        assert(page_views(ps@) =~= seq![seq!["(empty)"@]]);
        ps
    } else {
        group_lines(&lines, PDF_PAGE_LINES)
    };
    let objects = pdf_objects_exec(title, &pages);
    let text = pdf_file(&objects);
    text.as_str().as_bytes_vec()
}

// ---------------------------------------------------------------------------
// Laws
// ---------------------------------------------------------------------------

proof fn lemma_trim_end_shorter(s: Seq<char>)
    ensures
        trim_end(s).len() <= s.len(),
    decreases s.len(),
{
    if s.len() > 0 && is_ws(s.last()) {
        lemma_trim_end_shorter(s.drop_last());
    }
}

proof fn lemma_chunks_fit(l: Seq<char>, k: nat)
    ensures
        forall|j: int| 0 <= j < chunks(l, k).len() ==> (#[trigger] chunks(l, k)[j]).len() <= k,
    decreases l.len(),
{
    if l.len() == 0 || k == 0 {
    } else if l.len() <= k {
        lemma_trim_end_shorter(l);
    } else {
        lemma_trim_end_shorter(l.take(k as int));
        lemma_chunks_fit(l.skip(k as int), k);
        let c = chunks(l, k);
        let rest = chunks(l.skip(k as int), k);
        assert forall|j: int| 0 <= j < c.len() implies (#[trigger] c[j]).len() <= k by {
            if j > 0 {
                assert(c[j] == rest[j - 1]);
            }
        }
    }
}

proof fn lemma_wrapped_fit(lines: Seq<Seq<char>>, max_chars: nat)
    ensures
        forall|j: int|
            0 <= j < wrapped(lines, max_chars).len() ==> (#[trigger] wrapped(lines, max_chars)[j]).len()
                <= if max_chars == 0 {
                1
            } else {
                max_chars
            },
    decreases lines.len(),
{
    if lines.len() > 0 {
        lemma_wrapped_fit(lines.drop_last(), max_chars);
        let k: nat = if max_chars == 0 {
            1
        } else {
            max_chars
        };
        lemma_chunks_fit(lines.last(), k);
        let w = wrapped(lines, max_chars);
        let p = wrapped(lines.drop_last(), max_chars);
        let c = line_chunks(lines.last(), max_chars);
        assert forall|j: int| 0 <= j < w.len() implies (#[trigger] w[j]).len() <= k by {
            if j < p.len() {
                assert(w[j] == p[j]);
            } else {
                assert(w[j] == c[j - p.len()]);
            }
        }
    }
}

proof fn lemma_groups_fit<T>(s: Seq<T>, n: nat)
    ensures
        forall|j: int|
            0 <= j < groups(s, n).len() ==> 0 < (#[trigger] groups(s, n)[j]).len() <= n,
        s.len() > 0 && n > 0 ==> groups(s, n).len() > 0,
    decreases s.len(),
{
    if s.len() == 0 || n == 0 {
    } else if s.len() <= n {
    } else {
        lemma_groups_fit(s.skip(n as int), n);
        let g = groups(s, n);
        let rest = groups(s.skip(n as int), n);
        assert forall|j: int| 0 <= j < g.len() implies 0 < (#[trigger] g[j]).len() <= n by {
            if j > 0 {
                assert(g[j] == rest[j - 1]);
            }
        }
    }
}

/// No wrapped line is longer than the limit (one character when the limit
/// is zero).
pub proof fn law_wrapped_lines_fit(text: Seq<char>, max_chars: nat)
    ensures
        forall|j: int|
            0 <= j < wrapped_text(text, max_chars).len() ==> (#[trigger] wrapped_text(
                text,
                max_chars,
            )[j]).len() <= if max_chars == 0 {
                1
            } else {
                max_chars
            },
{
    lemma_wrapped_fit(text_lines(text), max_chars);
}

/// A PDF export has at least one page, and every page holds between one and
/// the page's number of lines, each no longer than a PDF line.
pub proof fn law_pdf_pages_fit(text: Seq<char>)
    ensures
        pdf_pages(text).len() > 0,
        forall|j: int|
            0 <= j < pdf_pages(text).len() ==> 0 < (#[trigger] pdf_pages(text)[j]).len()
                <= PDF_PAGE_LINES,
        forall|j: int, l: int|
            0 <= j < pdf_pages(text).len() && 0 <= l < pdf_pages(text)[j].len() ==> (
            #[trigger] pdf_pages(text)[j][l]).len() <= PDF_LINE_CHARS,
{
    let lines = wrapped_text(text, PDF_LINE_CHARS as nat);
    law_wrapped_lines_fit(text, PDF_LINE_CHARS as nat);
    if lines.len() == 0 {
        reveal_strlit("(empty)");
        assert(pdf_pages(text)[0][0].len() == 7);
    } else {
        lemma_groups_fit(lines, PDF_PAGE_LINES as nat);
        lemma_groups_lines_fit(lines, PDF_PAGE_LINES as nat, PDF_LINE_CHARS as nat);
    }
}

proof fn lemma_groups_lines_fit(s: Seq<Seq<char>>, n: nat, k: nat)
    requires
        forall|i: int| 0 <= i < s.len() ==> (#[trigger] s[i]).len() <= k,
    ensures
        forall|j: int, l: int|
            0 <= j < groups(s, n).len() && 0 <= l < groups(s, n)[j].len() ==> (
            #[trigger] groups(s, n)[j][l]).len() <= k,
    decreases s.len(),
{
    if s.len() == 0 || n == 0 {
    } else if s.len() <= n {
    } else {
        let t = s.skip(n as int);
        assert forall|i: int| 0 <= i < t.len() implies (#[trigger] t[i]).len() <= k by {
            assert(t[i] == s[i + n]);
        }
        lemma_groups_lines_fit(t, n, k);
        let g = groups(s, n);
        let rest = groups(t, n);
        assert forall|j: int, l: int| 0 <= j < g.len() && 0 <= l < g[j].len() implies (
        #[trigger] g[j][l]).len() <= k by {
            if j == 0 {
                assert(g[0][l] == s[l]);
            } else {
                assert(g[j] == rest[j - 1]);
            }
        }
    }
}

} // verus!
