//! Byte-level helpers: searching, trimming line endings, sniffing image
//! formats and dropping the alpha channel of RGBA pixel data.

use vstd::prelude::*;
use vstd::slice::slice_subrange;

verus! {

/// `needle` occurs in `haystack` at position `p`.
pub open spec fn occurs_at(haystack: Seq<u8>, needle: Seq<u8>, p: int) -> bool {
    &&& 0 <= p
    &&& p + needle.len() <= haystack.len()
    &&& haystack.subrange(p, p + needle.len()) == needle
}

/// The first position at or after `start` where `needle` occurs in `haystack`.
pub open spec fn first_occurrence(haystack: Seq<u8>, needle: Seq<u8>, start: int) -> Option<int>
    decreases haystack.len() + 1 - start,
{
    if start < 0 || start + needle.len() > haystack.len() {
        None
    } else if occurs_at(haystack, needle, start) {
        Some(start)
    } else {
        first_occurrence(haystack, needle, start + 1)
    }
}

/// `first_occurrence` is the least match at or after `start`, and it is `None`
/// exactly when there is no match there.
pub proof fn lemma_first_occurrence(haystack: Seq<u8>, needle: Seq<u8>, start: int)
    requires
        0 <= start,
    ensures
        match first_occurrence(haystack, needle, start) {
            Some(p) => start <= p && occurs_at(haystack, needle, p) && forall|q: int|
                start <= q < p ==> !occurs_at(haystack, needle, q),
            None => forall|q: int| start <= q ==> !occurs_at(haystack, needle, q),
        },
    decreases haystack.len() + 1 - start,
{
    if start + needle.len() > haystack.len() {
    } else if occurs_at(haystack, needle, start) {
    } else {
        lemma_first_occurrence(haystack, needle, start + 1);
    }
}

fn matches_at(haystack: &[u8], needle: &[u8], p: usize) -> (res: bool)
    requires
        p + needle@.len() <= haystack@.len(),
    ensures
        res == occurs_at(haystack@, needle@, p as int),
{
    let hl = haystack.len();
    let mut i: usize = 0;
    while i < needle.len()
        invariant
            hl == haystack@.len(),
            i <= needle@.len(),
            p + needle@.len() <= haystack@.len(),
            forall|k: int| 0 <= k < i ==> haystack@[p + k] == needle@[k],
        decreases needle@.len() - i,
    {
        assert(p + i < haystack@.len());
        if haystack[p + i] != needle[i] {
            assert(haystack@.subrange(p as int, p + needle@.len())[i as int] != needle@[i as int]);
            return false;
        }
        i = i + 1;
    }
    assert(haystack@.subrange(p as int, p + needle@.len()) =~= needle@);
    true
}

/// Finds the first occurrence of `needle` in `haystack` at or after `start`.
pub fn find_bytes(haystack: &[u8], needle: &[u8], start: usize) -> (res: Option<usize>)
    requires
        start <= haystack@.len(),
        needle@.len() > 0,
    ensures
        res matches Some(p) ==> first_occurrence(haystack@, needle@, start as int) == Some(p as int),
        res is None ==> first_occurrence(haystack@, needle@, start as int) is None,
        match res {
            Some(p) => start <= p && occurs_at(haystack@, needle@, p as int) && forall|q: int|
                start <= q < p ==> !occurs_at(haystack@, needle@, q),
            None => forall|q: int| start <= q ==> !occurs_at(haystack@, needle@, q),
        },
{
    proof {
        lemma_first_occurrence(haystack@, needle@, start as int);
    }
    if needle.len() > haystack.len() {
        return None;
    }
    let last = haystack.len() - needle.len();
    if start > last {
        return None;
    }
    let mut p = start;
    while p <= last
        invariant
            start <= p <= last + 1,
            last < usize::MAX,
            last + needle@.len() == haystack@.len(),
            first_occurrence(haystack@, needle@, start as int) == first_occurrence(
                haystack@,
                needle@,
                p as int,
            ),
        decreases last + 1 - p,
    {
        if matches_at(haystack, needle, p) {
            assert(first_occurrence(haystack@, needle@, p as int) == Some(p as int));
            proof {
                lemma_first_occurrence(haystack@, needle@, start as int);
            }
            return Some(p);
        }
        p = p + 1;
    }
    None
}

/// `data` without its trailing line ending: one trailing CR LF, or else
/// one trailing LF; data that ends in neither stays as it is.
pub open spec fn strip_line_ending(data: Seq<u8>) -> Seq<u8> {
    if data.len() >= 2 && data[data.len() - 2] == 0x0d && data[data.len() - 1] == 0x0a {
        data.take(data.len() - 2)
    } else if data.len() >= 1 && data[data.len() - 1] == 0x0a {
        data.drop_last()
    } else {
        data
    }
}

/// Strips a trailing CR LF (or a single trailing LF) from `data`.
pub fn strip_trailing_crlf(data: &[u8]) -> (res: &[u8])
    ensures
        res@ == strip_line_ending(data@),
{
    let n = data.len();
    if n >= 2 && data[n - 2] == 0x0d && data[n - 1] == 0x0a {
        slice_subrange(data, 0, n - 2)
    } else if n >= 1 && data[n - 1] == 0x0a {
        slice_subrange(data, 0, n - 1)
    } else {
        data
    }
}

/// The file extension that the leading bytes of `data` identify.
pub open spec fn sniffed_extension(data: Seq<u8>) -> &'static str {
    if data.len() < 4 {
        "bin"
    } else if data[0] == 0x89 && data[1] == 0x50 && data[2] == 0x4e && data[3] == 0x47 {
        "png"
    } else if data[0] == 0xff && data[1] == 0xd8 {
        "jpg"
    } else if data[0] == 0x52 && data[1] == 0x49 && data[2] == 0x46 && data[3] == 0x46
        && data.len() >= 12 && data[8] == 0x57 && data[9] == 0x45 && data[10] == 0x42
        && data[11] == 0x50 {
        "webp"
    } else if data[0] == 0x42 && data[1] == 0x4d {
        "bmp"
    } else if data[0] == 0x25 && data[1] == 0x50 && data[2] == 0x44 && data[3] == 0x46 {
        "pdf"
    } else {
        "bin"
    }
}

/// Detects an image file extension from the magic bytes at the start of
/// `data`: PNG, JPEG, WebP, BMP or PDF, and "bin" for anything else.
pub fn detect_image_ext(data: &[u8]) -> (res: &'static str)
    ensures
        res == sniffed_extension(data@),
{
    if data.len() < 4 {
        return "bin";
    }
    if data[0] == 0x89 && data[1] == 0x50 && data[2] == 0x4e && data[3] == 0x47 {
        return "png";
    }
    if data[0] == 0xff && data[1] == 0xd8 {
        return "jpg";
    }
    if data[0] == 0x52 && data[1] == 0x49 && data[2] == 0x46 && data[3] == 0x46 && data.len()
        >= 12 && data[8] == 0x57 && data[9] == 0x45 && data[10] == 0x42 && data[11] == 0x50 {
        return "webp";
    }
    if data[0] == 0x42 && data[1] == 0x4d {
        return "bmp";
    }
    if data[0] == 0x25 && data[1] == 0x50 && data[2] == 0x44 && data[3] == 0x46 {
        return "pdf";
    }
    "bin"
}

/// `rgb` holds the first three bytes of each whole four-byte pixel of `rgba`.
pub open spec fn is_rgb_of(rgba: Seq<u8>, rgb: Seq<u8>) -> bool {
    &&& rgb.len() == 3 * (rgba.len() / 4)
    &&& forall|i: int, k: int|
        0 <= i < rgba.len() / 4 && 0 <= k < 3 ==> #[trigger] rgb[3 * i + k] == rgba[4 * i + k]
}

/// Converts RGBA pixel data to RGB by dropping every pixel's alpha byte.
/// Trailing bytes that do not make up a whole pixel are ignored.
pub fn convert_rgba_to_rgb(image: &[u8]) -> (res: Vec<u8>)
    ensures
        is_rgb_of(image@, res@),
{
    let len = image.len();
    let pixel_count = len / 4;
    let mut rgb: Vec<u8> = Vec::new();
    let mut i: usize = 0;
    while i < pixel_count
        invariant
            len == image@.len(),
            pixel_count == image@.len() / 4,
            i <= pixel_count,
            rgb@.len() == 3 * i,
            forall|j: int, k: int|
                0 <= j < i && 0 <= k < 3 ==> #[trigger] rgb@[3 * j + k] == image@[4 * j + k],
        decreases pixel_count - i,
    {
        assert(4 * i + 3 < image@.len()) by (nonlinear_arith)
            requires
                i < pixel_count,
                pixel_count == image@.len() / 4,
        ;
        let base = 4 * i;
        rgb.push(image[base]);
        rgb.push(image[base + 1]);
        rgb.push(image[base + 2]);
        assert forall|j: int, k: int| 0 <= j < i + 1 && 0 <= k < 3 implies #[trigger] rgb@[3 * j
            + k] == image@[4 * j + k] by {
            if j == i {
                assert(3 * j + k == 3 * i + k);
            }
        }
        i = i + 1;
    }
    rgb
}

} // verus!
