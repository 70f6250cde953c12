//! `multipart/form-data` handling for the OCR endpoint: recognising the
//! content type, extracting the boundary and reading the "image" and
//! "model" fields out of the raw body without converting it to text.

use vstd::prelude::*;
use crate::bytes::{find_bytes, first_occurrence, lemma_first_occurrence, occurs_at, strip_line_ending, strip_trailing_crlf};
use crate::text::{chars_of, has_prefix, split_chars, split_seq, starts_with_chars, string_from_chars, trim, trim_bounds, trim_seq, utf8_str};

verus! {

/// The content type announces a `multipart/form-data` body.
pub open spec fn is_multipart_spec(content_type: Seq<char>) -> bool {
    has_prefix(content_type, "multipart/form-data"@)
}

/// Whether a request's content type is `multipart/form-data`.
pub fn is_multipart_form(content_type: &str) -> (res: bool)
    ensures
        res == is_multipart_spec(content_type@),
{
    let ct = chars_of(content_type);
    let p = chars_of("multipart/form-data");
    starts_with_chars(ct.as_slice(), p.as_slice())
}

/// `s` with every leading copy of the non-empty `prefix` removed, as
/// `str::trim_start_matches` gives it.
pub open spec fn strip_prefixes(s: Seq<char>, prefix: Seq<char>) -> Seq<char>
    decreases s.len(),
{
    if prefix.len() > 0 && has_prefix(s, prefix) {
        strip_prefixes(s.skip(prefix.len() as int), prefix)
    } else {
        s
    }
}

/// The first of `parts` that starts with `prefix`.
pub open spec fn first_with_prefix(parts: Seq<Seq<char>>, prefix: Seq<char>) -> Option<Seq<char>>
    decreases parts.len(),
{
    if parts.len() == 0 {
        None
    } else if has_prefix(parts[0], prefix) {
        Some(parts[0])
    } else {
        first_with_prefix(parts.drop_first(), prefix)
    }
}

/// The boundary that a `multipart/form-data` content type names: the value
/// of its first `boundary=` parameter, or empty when there is none.
pub open spec fn boundary_spec(content_type: Seq<char>) -> Seq<char> {
    let parts = split_seq(content_type, ';').map_values(|p: Seq<char>| trim_seq(p));
    match first_with_prefix(parts, "boundary="@) {
        Some(p) => strip_prefixes(p, "boundary="@),
        None => Seq::empty(),
    }
}

/// Extracts the multipart boundary from a content type such as
/// `multipart/form-data; boundary=XYZ`; empty when none is given.
pub fn extract_boundary(content_type: &str) -> (res: String)
    ensures
        res@ == boundary_spec(content_type@),
{
    let ct = chars_of(content_type);
    let prefix = chars_of("boundary=");
    let raw = split_chars(ct.as_slice(), ';');
    let ghost parts = split_seq(content_type@, ';').map_values(|p: Seq<char>| trim_seq(p));
    proof {
        reveal_strlit("boundary=");
    }
    assert(parts.skip(0) =~= parts);
    let mut i: usize = 0;
    while i < raw.len()
        invariant
            raw.deep_view() == split_seq(content_type@, ';'),
            parts == split_seq(content_type@, ';').map_values(|p: Seq<char>| trim_seq(p)),
            prefix@ == "boundary="@,
            prefix@.len() == 9,
            i <= raw@.len(),
            first_with_prefix(parts, prefix@) == first_with_prefix(parts.skip(i as int), prefix@),
        decreases raw@.len() - i,
    {
        assert(raw.deep_view()[i as int] == raw@[i as int]@);
        let (a, b) = trim_bounds(raw[i].as_slice());
        let t = vstd::slice::slice_subrange(raw[i].as_slice(), a, b);
        assert(parts.skip(i as int)[0] == t@);
        if starts_with_chars(t, prefix.as_slice()) {
            let mut rest = t;
            while starts_with_chars(rest, prefix.as_slice())
                invariant
                    prefix@ == "boundary="@,
                    prefix@.len() == 9,
                    strip_prefixes(rest@, prefix@) == strip_prefixes(t@, prefix@),
                decreases rest@.len(),
            {
                assert(rest@.skip(prefix@.len() as int) =~= rest@.subrange(
                    prefix@.len() as int,
                    rest@.len() as int,
                ));
                rest = vstd::slice::slice_subrange(rest, prefix.len(), rest.len());
            }
            return string_from_chars(rest);
        }
        assert(parts.skip(i as int).drop_first() =~= parts.skip(i + 1));
        i = i + 1;
    }
    string_from_chars(&[])
}

/// The bytes of a blank line that ends a part's headers: CR LF CR LF.
pub open spec fn header_end_marker() -> Seq<u8> {
    seq![0x0du8, 0x0a, 0x0d, 0x0a]
}

/// The bytes of `name="`.
pub open spec fn name_marker() -> Seq<u8> {
    seq![0x6eu8, 0x61, 0x6d, 0x65, 0x3d, 0x22]
}

/// The bytes of `image`.
pub open spec fn image_field() -> Seq<u8> {
    seq![0x69u8, 0x6d, 0x61, 0x67, 0x65]
}

/// The bytes of `model`.
pub open spec fn model_field() -> Seq<u8> {
    seq![0x6du8, 0x6f, 0x64, 0x65, 0x6c]
}

/// The index of the first double quote at or after `j` that lies on the
/// same line as `j` (no line feed in between).
pub open spec fn closing_quote(h: Seq<u8>, j: int) -> Option<int>
    decreases h.len() - j,
{
    if j < 0 || j >= h.len() {
        None
    } else if h[j] == 0x22 {
        Some(j)
    } else if h[j] == 0x0a {
        None
    } else {
        closing_quote(h, j + 1)
    }
}

/// The field name that a part's header block declares: the text between
/// the first `name="` and the next double quote on that line. Header blocks
/// that are not valid UTF-8 declare none.
pub open spec fn field_name_spec(headers: Seq<u8>) -> Option<Seq<u8>> {
    if !vstd::utf8::valid_utf8(headers) {
        None
    } else {
        match first_occurrence(headers, name_marker(), 0) {
            Some(i) => match closing_quote(headers, i + 6) {
                Some(e) => Some(headers.subrange(i + 6, e)),
                None => None,
            },
            None => None,
        }
    }
}

/// The fields read so far: the image bytes and the model name.
pub type FieldsView = (Option<Seq<u8>>, Option<Seq<char>>);

/// The fields after reading one part: an "image" part sets the image to
/// its content without a trailing line ending (CR LF or LF); a "model" part whose content
/// is valid UTF-8 sets the model to that text, trimmed; any other part, or
/// one without a blank line after its headers, changes nothing.
pub open spec fn apply_part(part: Seq<u8>, acc: FieldsView) -> FieldsView {
    match first_occurrence(part, header_end_marker(), 0) {
        None => acc,
        Some(he) => {
            let content = part.skip(he + 4);
            match field_name_spec(part.take(he)) {
                Some(n) => if n == image_field() {
                    (Some(strip_line_ending(content)), acc.1)
                } else if n == model_field() {
                    if vstd::utf8::valid_utf8(content) {
                        (acc.0, Some(trim_seq(vstd::utf8::decode_utf8(content))))
                    } else {
                        acc
                    }
                } else {
                    acc
                },
                None => acc,
            }
        },
    }
}

fn closing_quote_exec(h: &[u8], j: usize) -> (res: Option<usize>)
    requires
        j <= h@.len(),
    ensures
        res matches Some(e) ==> closing_quote(h@, j as int) == Some(e as int),
        res is None ==> closing_quote(h@, j as int) is None,
{
    let mut k = j;
    while k < h.len()
        invariant
            j <= k <= h@.len(),
            closing_quote(h@, j as int) == closing_quote(h@, k as int),
        decreases h@.len() - k,
    {
        if h[k] == 0x22 {
            return Some(k);
        }
        if h[k] == 0x0a {
            return None;
        }
        k = k + 1;
    }
    None
}

/// Reads the field name that a part's header block declares.
pub fn field_name(headers: &[u8]) -> (res: Option<&[u8]>)
    ensures
        res matches Some(n) ==> field_name_spec(headers@) == Some(n@),
        res is None ==> field_name_spec(headers@) is None,
{
    let hl = headers.len();
    if utf8_str(headers).is_none() {
        return None;
    }
    let marker = vec![0x6eu8, 0x61, 0x6d, 0x65, 0x3d, 0x22];
    assert(marker@ == name_marker());
    match find_bytes(headers, marker.as_slice(), 0) {
        None => None,
        Some(i) => {
            let start = i + 6;
            match closing_quote_exec(headers, start) {
                Some(e) => {
                    proof {
                        lemma_closing_quote_bounds(headers@, start as int);
                    }
                    Some(vstd::slice::slice_subrange(headers, start, e))
                },
                None => None,
            }
        },
    }
}

/// `closing_quote` lies inside the sequence, at or after its start.
pub proof fn lemma_closing_quote_bounds(h: Seq<u8>, j: int)
    ensures
        closing_quote(h, j) matches Some(e) ==> j <= e < h.len(),
    decreases h.len() - j,
{
    if 0 <= j < h.len() && h[j] != 0x22 && h[j] != 0x0a {
        lemma_closing_quote_bounds(h, j + 1);
    }
}

/// The fields of a `multipart/form-data` body: the image's raw bytes and
/// the model name, when the body carries them.
#[derive(Debug, Clone)]
pub struct MultipartFields {
    pub image: Option<Vec<u8>>,
    pub model: Option<String>,
}

impl View for MultipartFields {
    type V = FieldsView;

    open spec fn view(&self) -> FieldsView {
        (
            match self.image {
                Some(v) => Some(v@),
                None => None,
            },
            match self.model {
                Some(s) => Some(s@),
                None => None,
            },
        )
    }
}

fn apply_part_exec(part: &[u8], fields: &mut MultipartFields)
    ensures
        final(fields)@ == apply_part(part@, old(fields)@),
{
    let crlf2 = vec![0x0du8, 0x0a, 0x0d, 0x0a];
    assert(crlf2@ == header_end_marker());
    let pl = part.len();
    let he = match find_bytes(part, crlf2.as_slice(), 0) {
        None => return ,
        Some(he) => he,
    };
    let headers = vstd::slice::slice_subrange(part, 0, he);
    let content = vstd::slice::slice_subrange(part, he + 4, part.len());
    assert(content@ =~= part@.skip(he + 4));
    assert(headers@ =~= part@.take(he as int));
    let name = match field_name(headers) {
        None => return ,
        Some(n) => n,
    };
    let image_name = vec![0x69u8, 0x6d, 0x61, 0x67, 0x65];
    let model_name = vec![0x6du8, 0x6f, 0x64, 0x65, 0x6c];
    assert(image_name@ == image_field());
    assert(model_name@ == model_field());
    if bytes_eq(name, image_name.as_slice()) {
        let stripped = strip_trailing_crlf(content);
        fields.image = Some(vstd::slice::slice_to_vec(stripped));
    } else if bytes_eq(name, model_name.as_slice()) {
        match utf8_str(content) {
            Some(text) => {
                proof {
                    vstd::utf8::encode_utf8_decode_utf8(text@);
                }
                fields.model = Some(trim(text));
            },
            None => {},
        }
    }
}

/// Whether `a` and `b` hold the same bytes.
pub fn bytes_eq(a: &[u8], b: &[u8]) -> (res: bool)
    ensures
        res == (a@ == b@),
{
    if a.len() != b.len() {
        return false;
    }
    let mut i: usize = 0;
    while i < a.len()
        invariant
            a@.len() == b@.len(),
            i <= a@.len(),
            forall|j: int| 0 <= j < i ==> a@[j] == b@[j],
        decreases a@.len() - i,
    {
        if a[i] != b[i] {
            return false;
        }
        i = i + 1;
    }
    assert(a@ =~= b@);
    true
}

/// The bytes `--` followed by the UTF-8 bytes of the boundary: the line that
/// opens every part.
pub open spec fn part_marker(boundary: Seq<char>) -> Seq<u8> {
    seq![0x2du8, 0x2d] + vstd::utf8::encode_utf8(boundary)
}

/// The bytes `--`.
pub open spec fn dash_dash() -> Seq<u8> {
    seq![0x2du8, 0x2d]
}

/// The bytes CR LF.
pub open spec fn crlf() -> Seq<u8> {
    seq![0x0du8, 0x0a]
}

/// Reads the parts of `body` from position `pos` on, starting from the
/// fields `acc`. Each part opens with `marker`; a marker followed by `--`
/// closes the body; a CR LF right after a marker is skipped; a part ends two
/// bytes before the next marker (the CR LF that precedes it) or at the end
/// of the body. `None` marks a body where the next marker comes so early
/// that the part would end before it starts.
pub open spec fn parse_parts(body: Seq<u8>, marker: Seq<u8>, pos: int, acc: FieldsView) -> Option<
    FieldsView,
>
    decreases body.len() + 3 - pos,
{
    if pos < 0 || pos >= body.len() || marker.len() == 0 {
        Some(acc)
    } else {
        match first_occurrence(body, marker, pos) {
            None => Some(acc),
            Some(bs) => {
                let ps = bs + marker.len();
                if ps + 2 <= body.len() && body.subrange(ps, ps + 2) == dash_dash() {
                    Some(acc)
                } else {
                    let start = if ps + 2 <= body.len() && body.subrange(ps, ps + 2) == crlf() {
                        ps + 2
                    } else {
                        ps
                    };
                    match first_occurrence(body, marker, start) {
                        Some(q) => if q - 2 < start {
                            None
                        } else {
                            proof {
                                lemma_first_occurrence(body, marker, pos);
                                lemma_first_occurrence(body, marker, start);
                            }
                            parse_parts(body, marker, q, apply_part(body.subrange(start, q - 2), acc))
                        },
                        None => Some(apply_part(body.subrange(start, body.len() as int), acc)),
                    }
                }
            },
        }
    }
}

/// The fields of a whole multipart body with the given boundary.
pub open spec fn multipart_spec(body: Seq<u8>, boundary: Seq<char>) -> Option<FieldsView> {
    parse_parts(body, part_marker(boundary), 0, (None, None))
}

/// Reads the "image" and "model" fields of a `multipart/form-data` body
/// whose parts are separated by `--` followed by `boundary`. The body is
/// handled as raw bytes, so binary image data is kept exactly; the last
/// part of each name wins. Returns `None` for a malformed body in which a
/// marker follows the previous one so closely that a part would end before
/// it starts.
pub fn parse_multipart_body(body: &[u8], boundary: &str) -> (res: Option<MultipartFields>)
    ensures
        res matches Some(f) ==> multipart_spec(body@, boundary@) == Some(f@),
        res is None <==> multipart_spec(body@, boundary@) is None,
{
    let bbytes = boundary.as_bytes();
    let mut marker: Vec<u8> = vec![0x2du8, 0x2d];
    let mut k: usize = 0;
    while k < bbytes.len()
        invariant
            k <= bbytes@.len(),
            marker@ == seq![0x2du8, 0x2d] + bbytes@.take(k as int),
        decreases bbytes@.len() - k,
    {
        marker.push(bbytes[k]);
        assert(bbytes@.take(k + 1) =~= bbytes@.take(k as int).push(bbytes@[k as int]));
        k = k + 1;
    }
    assert(bbytes@.take(k as int) =~= bbytes@);
    assert(marker@ == part_marker(boundary@));
    let n = body.len();
    let ml = marker.len();
    let mut fields = MultipartFields { image: None, model: None };
    let mut pos: usize = 0;
    while pos < n
        invariant
            marker@ == part_marker(boundary@),
            ml == marker@.len(),
            ml >= 2,
            n == body@.len(),
            pos <= n,
            multipart_spec(body@, boundary@) == parse_parts(body@, marker@, pos as int, fields@),
        decreases n - pos,
    {
        let bs = match find_bytes(body, marker.as_slice(), pos) {
            None => {
                return Some(fields);
            },
            Some(b) => b,
        };
        proof {
            lemma_first_occurrence(body@, marker@, pos as int);
        }
        let ps = bs + ml;
        let room = ps < n && n - ps >= 2;
        let is_end = room && body[ps] == 0x2d && body[ps + 1] == 0x2d;
        let is_crlf = room && body[ps] == 0x0d && body[ps + 1] == 0x0a;
        proof {
            if room {
                let two = body@.subrange(ps as int, ps + 2);
                if is_end {
                    assert(two =~= dash_dash());
                } else {
                    assert(two[0] != 0x2d || two[1] != 0x2d);
                }
                if is_crlf {
                    assert(two =~= crlf());
                } else {
                    assert(two[0] != 0x0d || two[1] != 0x0a);
                }
            }
        }
        if is_end {
            return Some(fields);
        }
        let start = if is_crlf {
            ps + 2
        } else {
            ps
        };
        match find_bytes(body, marker.as_slice(), start) {
            Some(q) => {
                proof {
                    lemma_first_occurrence(body@, marker@, start as int);
                }
                if q < start + 2 {
                    return None;
                }
                let part = vstd::slice::slice_subrange(body, start, q - 2);
                apply_part_exec(part, &mut fields);
                pos = q;
            },
            None => {
                let part = vstd::slice::slice_subrange(body, start, n);
                apply_part_exec(part, &mut fields);
                return Some(fields);
            },
        }
    }
    Some(fields)
}

/// The first occurrence at or after `start` is at `q` when the needle
/// occurs at `q` and nowhere in between.
pub proof fn lemma_first_occurrence_at(h: Seq<u8>, n: Seq<u8>, start: int, q: int)
    requires
        0 <= start <= q,
        occurs_at(h, n, q),
        forall|p: int| start <= p < q ==> !occurs_at(h, n, p),
    ensures
        first_occurrence(h, n, start) == Some(q),
    decreases q - start,
{
    if start < q {
        lemma_first_occurrence_at(h, n, start + 1, q);
    }
}

/// A one-part body as a client writes it: the part marker, CR LF, the
/// part's headers, a blank line, the data, CR LF, and the closing marker.
pub open spec fn single_part_body(marker: Seq<u8>, headers: Seq<u8>, data: Seq<u8>) -> Seq<u8> {
    marker + crlf() + headers + header_end_marker() + data + crlf() + marker + dash_dash()
}

/// What a client sends is what the server reads: from a one-part body
/// whose headers name the field "image", the image comes back as the
/// part's data without a trailing line ending (CR LF or LF) of its own,
/// so byte for byte as sent when the data does not end in LF, and no model
/// is read.
/// This holds when the boundary is not empty, the part marker occurs only
/// where the client put it, and the headers hold no blank line of their
/// own.
pub proof fn law_single_image_part_read_back(boundary: Seq<char>, headers: Seq<u8>, data: Seq<u8>)
    requires
        boundary.len() > 0,
        ({
            let body = single_part_body(part_marker(boundary), headers, data);
            let closing = body.len() - part_marker(boundary).len() - 2;
            forall|p: int| 0 < p < closing ==> !occurs_at(body, part_marker(boundary), p)
        }),
        forall|p: int|
            0 <= p < headers.len() ==> !occurs_at(
                headers + header_end_marker(),
                header_end_marker(),
                p,
            ),
        field_name_spec(headers) == Some(image_field()),
    ensures
        multipart_spec(single_part_body(part_marker(boundary), headers, data), boundary) == Some(
            (Some(strip_line_ending(data)), None::<Seq<char>>),
        ),
        data.len() == 0 || data.last() != 0x0a ==> multipart_spec(
            single_part_body(part_marker(boundary), headers, data),
            boundary,
        ) == Some((Some(data), None::<Seq<char>>)),
{
    let marker = part_marker(boundary);
    let body = single_part_body(marker, headers, data);
    let ml = marker.len() as int;
    let hl = headers.len() as int;
    let dl = data.len() as int;
    assert(ml >= 2);
    assert(body.len() == ml + 2 + hl + 4 + dl + 2 + ml + 2);
    let closing = body.len() - ml - 2;
    // The opening marker.
    assert(body.subrange(0, ml) =~= marker);
    assert(occurs_at(body, marker, 0));
    assert(first_occurrence(body, marker, 0) == Some(0int));
    assert(body.subrange(ml, ml + 2) =~= crlf());
    assert(crlf() != dash_dash()) by {
        assert(crlf()[0] != dash_dash()[0]);
    }
    let start = ml + 2;
    // The closing marker.
    assert(body.subrange(closing, closing + ml) =~= marker);
    assert(occurs_at(body, marker, closing));
    lemma_first_occurrence_at(body, marker, start, closing);
    // The part.
    let part = body.subrange(start, closing - 2);
    assert(part =~= headers + header_end_marker() + data);
    assert forall|p: int| 0 <= p < hl implies !occurs_at(part, header_end_marker(), p) by {
        let hm = headers + header_end_marker();
        assert(!occurs_at(hm, header_end_marker(), p));
        assert(part.subrange(p, p + 4) =~= hm.subrange(p, p + 4));
    }
    assert(part.subrange(hl, hl + 4) =~= header_end_marker());
    lemma_first_occurrence_at(part, header_end_marker(), 0, hl);
    assert(part.take(hl) =~= headers);
    assert(part.skip(hl + 4) =~= data);
    let acc = (Some(strip_line_ending(data)), None::<Seq<char>>);
    assert(apply_part(part, (None, None)) == acc);
    // After the part: the closing marker ends the body.
    assert(occurs_at(body, marker, closing));
    assert(first_occurrence(body, marker, closing) == Some(closing));
    assert(body.subrange(closing + ml, closing + ml + 2) =~= dash_dash());
    assert(parse_parts(body, marker, closing, acc) == Some(acc));
}

/// A part that is its headers, a blank line and its data is read as those
/// headers and that data when the headers hold no blank line of their own.
proof fn lemma_part_split(headers: Seq<u8>, data: Seq<u8>)
    requires
        forall|p: int|
            0 <= p < headers.len() ==> !occurs_at(
                headers + header_end_marker(),
                header_end_marker(),
                p,
            ),
    ensures
        ({
            let part = headers + header_end_marker() + data;
            &&& first_occurrence(part, header_end_marker(), 0) == Some(headers.len() as int)
            &&& part.take(headers.len() as int) == headers
            &&& part.skip(headers.len() as int + 4) == data
        }),
{
    let part = headers + header_end_marker() + data;
    let hl = headers.len() as int;
    assert forall|p: int| 0 <= p < hl implies !occurs_at(part, header_end_marker(), p) by {
        let hm = headers + header_end_marker();
        assert(!occurs_at(hm, header_end_marker(), p));
        assert(part.subrange(p, p + 4) =~= hm.subrange(p, p + 4));
    }
    assert(part.subrange(hl, hl + 4) =~= header_end_marker());
    lemma_first_occurrence_at(part, header_end_marker(), 0, hl);
    assert(part.take(hl) =~= headers);
    assert(part.skip(hl + 4) =~= data);
}

/// A part's effect on the image does not depend on the model read so far,
/// and its effect on the model does not depend on the image read so far:
/// the order of an image part and a model part does not matter.
pub proof fn law_fields_are_independent(part: Seq<u8>, acc1: FieldsView, acc2: FieldsView)
    ensures
        acc1.0 == acc2.0 ==> apply_part(part, acc1).0 == apply_part(part, acc2).0,
        acc1.1 == acc2.1 ==> apply_part(part, acc1).1 == apply_part(part, acc2).1,
{
}

/// From a marker at `second` on, a model part and the closing marker set
/// the model to the part's text, trimmed, whatever image was read before.
#[verifier::spinoff_prover]
proof fn lemma_model_part_then_close(
    body: Seq<u8>,
    marker: Seq<u8>,
    second: int,
    closing: int,
    acc: FieldsView,
    model_headers: Seq<u8>,
    model: Seq<u8>,
)
    requires
        marker.len() >= 2,
        0 <= second,
        occurs_at(body, marker, second),
        body.subrange(second + marker.len(), second + marker.len() + 2) == crlf(),
        closing == second + marker.len() + 2 + model_headers.len() + 4 + model.len() + 2,
        closing + marker.len() + 2 == body.len(),
        occurs_at(body, marker, closing),
        forall|p: int| second < p < closing ==> !occurs_at(body, marker, p),
        body.subrange(second + marker.len() + 2, closing - 2) == model_headers + header_end_marker()
            + model,
        body.subrange(closing + marker.len(), closing + marker.len() + 2) == dash_dash(),
        forall|p: int|
            0 <= p < model_headers.len() ==> !occurs_at(
                model_headers + header_end_marker(),
                header_end_marker(),
                p,
            ),
        field_name_spec(model_headers) == Some(model_field()),
        vstd::utf8::valid_utf8(model),
    ensures
        parse_parts(body, marker, second, acc) == Some(
            (acc.0, Some(trim_seq(vstd::utf8::decode_utf8(model)))),
        ),
{
    let ml = marker.len() as int;
    assert(crlf() != dash_dash()) by {
        assert(crlf()[0] != dash_dash()[0]);
    }
    assert(first_occurrence(body, marker, second) == Some(second));
    let start = second + ml + 2;
    lemma_first_occurrence_at(body, marker, start, closing);
    lemma_part_split(model_headers, model);
    assert(image_field() != model_field()) by {
        assert(image_field()[0] != model_field()[0]);
    }
    let acc2 = (acc.0, Some(trim_seq(vstd::utf8::decode_utf8(model))));
    assert(apply_part(body.subrange(start, closing - 2), acc) == acc2);
    assert(first_occurrence(body, marker, closing) == Some(closing));
    assert(parse_parts(body, marker, closing, acc2) == Some(acc2));
}

/// A two-part body as a client writes it: the image part, then the model
/// part, then the closing marker.
pub open spec fn image_then_model_body(
    marker: Seq<u8>,
    image_headers: Seq<u8>,
    image: Seq<u8>,
    model_headers: Seq<u8>,
    model: Seq<u8>,
) -> Seq<u8> {
    marker + crlf() + image_headers + header_end_marker() + image + crlf() + marker + crlf()
        + model_headers + header_end_marker() + model + crlf() + marker + dash_dash()
}

/// What a client sends is what the server reads, for an image part followed
/// by a model part: the image comes back as the image part's data without
/// a trailing line ending, and the model as the model part's text, trimmed,
/// although the image part came first. This holds when the boundary is not
/// empty, the part marker occurs only where the client put it, the headers
/// hold no blank line of their own and the model text is UTF-8.
#[verifier::spinoff_prover]
pub proof fn law_image_then_model_read_back(
    boundary: Seq<char>,
    image_headers: Seq<u8>,
    image: Seq<u8>,
    model_headers: Seq<u8>,
    model: Seq<u8>,
)
    requires
        boundary.len() > 0,
        ({
            let marker = part_marker(boundary);
            let body = image_then_model_body(marker, image_headers, image, model_headers, model);
            let second = marker.len() + 2 + image_headers.len() + 4 + image.len() + 2;
            let closing = body.len() - marker.len() - 2;
            forall|p: int| 0 < p < closing && p != second ==> !occurs_at(body, marker, p)
        }),
        forall|p: int|
            0 <= p < image_headers.len() ==> !occurs_at(
                image_headers + header_end_marker(),
                header_end_marker(),
                p,
            ),
        forall|p: int|
            0 <= p < model_headers.len() ==> !occurs_at(
                model_headers + header_end_marker(),
                header_end_marker(),
                p,
            ),
        field_name_spec(image_headers) == Some(image_field()),
        field_name_spec(model_headers) == Some(model_field()),
        vstd::utf8::valid_utf8(model),
    ensures
        multipart_spec(
            image_then_model_body(part_marker(boundary), image_headers, image, model_headers, model),
            boundary,
        ) == Some(
            (Some(strip_line_ending(image)), Some(trim_seq(vstd::utf8::decode_utf8(model)))),
        ),
{
    let marker = part_marker(boundary);
    let body = image_then_model_body(marker, image_headers, image, model_headers, model);
    let ml = marker.len() as int;
    let h1 = image_headers.len() as int;
    let d1 = image.len() as int;
    let h2 = model_headers.len() as int;
    let d2 = model.len() as int;
    assert(ml >= 2);
    let second = ml + 2 + h1 + 4 + d1 + 2;
    let closing = body.len() - ml - 2;
    assert(closing == second + ml + 2 + h2 + 4 + d2 + 2);
    assert(crlf() != dash_dash()) by {
        assert(crlf()[0] != dash_dash()[0]);
    }
    // The opening marker.
    assert(body.subrange(0, ml) =~= marker);
    assert(first_occurrence(body, marker, 0) == Some(0int));
    assert(body.subrange(ml, ml + 2) =~= crlf());
    let start1 = ml + 2;
    // The second marker.
    assert(body.subrange(second, second + ml) =~= marker);
    lemma_first_occurrence_at(body, marker, start1, second);
    let part1 = body.subrange(start1, second - 2);
    assert(part1 =~= image_headers + header_end_marker() + image);
    lemma_part_split(image_headers, image);
    let acc1 = (Some(strip_line_ending(image)), None::<Seq<char>>);
    assert(apply_part(part1, (None, None)) == acc1);
    // The second part and the closing marker.
    assert(body.subrange(second + ml, second + ml + 2) =~= crlf());
    assert(body.subrange(closing, closing + ml) =~= marker);
    assert(body.subrange(second + ml + 2, closing - 2) =~= model_headers + header_end_marker()
        + model);
    assert(body.subrange(closing + ml, closing + ml + 2) =~= dash_dash());
    lemma_model_part_then_close(body, marker, second, closing, acc1, model_headers, model);
    let acc2 = (Some(strip_line_ending(image)), Some(trim_seq(vstd::utf8::decode_utf8(model))));
    assert(parse_parts(body, marker, second, acc1) == Some(acc2));
}

} // verus!
