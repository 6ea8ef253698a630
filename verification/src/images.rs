//! Extraction of embedded asset image links from free text.
//!
//! A link is recognized by its path shape:
//! `.com/<7 digits>/<9>-<8>-<4>-<4>-<4>-<12 alphanumerics>.png|jpg|jpeg`.
//! Every non-overlapping occurrence, scanned left to right, is emitted as a
//! full URL on the user-images host, in order of first appearance and
//! without removing duplicates.

use vstd::prelude::*;
use vstd::string::*;

verus! {

/// An ASCII decimal digit.
pub open spec fn is_digit(c: char) -> bool {
    48 <= c as int && c as int <= 57
}

/// An ASCII letter or digit.
pub open spec fn is_alnum(c: char) -> bool {
    (48 <= c as int && c as int <= 57) || (65 <= c as int && c as int <= 90) || (97 <= c as int
        && c as int <= 122)
}

/// `count` digits starting at `from`.
pub open spec fn digits_at(s: Seq<char>, from: int, count: int) -> bool {
    forall|k: int| from <= k < from + count ==> is_digit(s[k])
}

/// `count` alphanumerics starting at `from`.
pub open spec fn alnums_at(s: Seq<char>, from: int, count: int) -> bool {
    forall|k: int| from <= k < from + count ==> is_alnum(s[k])
}

/// The fixed 60-character core of an asset path at position `i`:
/// `.com/` + 7 digits + `/` + dash-separated alphanumeric groups of
/// lengths 9, 8, 4, 4, 4 and 12, + `.` before the extension.
pub open spec fn core_at(s: Seq<char>, i: int) -> bool {
    &&& 0 <= i
    &&& i + 60 <= s.len()
    &&& s[i] == '.'
    &&& s[i + 1] == 'c'
    &&& s[i + 2] == 'o'
    &&& s[i + 3] == 'm'
    &&& s[i + 4] == '/'
    &&& digits_at(s, i + 5, 7)
    &&& s[i + 12] == '/'
    &&& alnums_at(s, i + 13, 9)
    &&& s[i + 22] == '-'
    &&& alnums_at(s, i + 23, 8)
    &&& s[i + 31] == '-'
    &&& alnums_at(s, i + 32, 4)
    &&& s[i + 36] == '-'
    &&& alnums_at(s, i + 37, 4)
    &&& s[i + 41] == '-'
    &&& alnums_at(s, i + 42, 4)
    &&& s[i + 46] == '-'
    &&& alnums_at(s, i + 47, 12)
    &&& s[i + 59] == '.'
}

/// The extension `png` at position `j`.
pub open spec fn png_at(s: Seq<char>, j: int) -> bool {
    j + 3 <= s.len() && s[j] == 'p' && s[j + 1] == 'n' && s[j + 2] == 'g'
}

/// The extension `jpg` at position `j`.
pub open spec fn jpg_at(s: Seq<char>, j: int) -> bool {
    j + 3 <= s.len() && s[j] == 'j' && s[j + 1] == 'p' && s[j + 2] == 'g'
}

/// The extension `jpeg` at position `j`.
pub open spec fn jpeg_at(s: Seq<char>, j: int) -> bool {
    j + 4 <= s.len() && s[j] == 'j' && s[j + 1] == 'p' && s[j + 2] == 'e' && s[j + 3] == 'g'
}

/// The length of the asset link starting at position `i`, or `None` when
/// no link starts there. The three-letter extensions are preferred over
/// `jpeg`, mirroring the order the pattern lists them in; at any one
/// position at most one of them can occur anyway.
pub open spec fn match_len_at(s: Seq<char>, i: int) -> Option<int> {
    if core_at(s, i) {
        if png_at(s, i + 60) {
            Some(63int)
        } else if jpg_at(s, i + 60) {
            Some(63int)
        } else if jpeg_at(s, i + 60) {
            Some(64int)
        } else {
            None
        }
    } else {
        None
    }
}

/// The host every extracted asset path is prefixed with.
pub open spec fn asset_host_prefix() -> Seq<char> {
    "https://user-images.githubusercontent"@
}

/// The full URLs of all asset links found at or after position `i`,
/// scanning left to right and skipping over each link found, so that
/// matches never overlap.
pub open spec fn image_urls_from(s: Seq<char>, i: int) -> Seq<Seq<char>>
    decreases s.len() - i,
{
    if i >= s.len() {
        seq![]
    } else {
        match match_len_at(s, i) {
            Some(l) => seq![asset_host_prefix() + s.subrange(i, i + l)] + image_urls_from(
                s,
                i + l,
            ),
            None => image_urls_from(s, i + 1),
        }
    }
}

/// The full URLs of all asset links in `s`, in order of first appearance.
pub open spec fn image_urls(s: Seq<char>) -> Seq<Seq<char>> {
    image_urls_from(s, 0)
}

/// Executable test for an ASCII decimal digit.
fn is_digit_char(c: char) -> (r: bool)
    ensures
        r == is_digit(c),
{
    let u = c as u32;
    48 <= u && u <= 57
}

/// Executable test for an ASCII letter or digit.
fn is_alnum_char(c: char) -> (r: bool)
    ensures
        r == is_alnum(c),
{
    let u = c as u32;
    (48 <= u && u <= 57) || (65 <= u && u <= 90) || (97 <= u && u <= 122)
}

/// Checks for `count` digits starting at `from`.
fn check_digits(s: &str, from: usize, count: usize) -> (r: bool)
    requires
        from + count <= s@.len(),
        s@.len() <= usize::MAX,
    ensures
        r == digits_at(s@, from as int, count as int),
{
    let mut k: usize = 0;
    while k < count
        invariant
            k <= count,
            from + count <= s@.len(),
            s@.len() <= usize::MAX,
            forall|j: int| from <= j < from + k ==> is_digit(s@[j]),
        decreases count - k,
    {
        if !is_digit_char(s.get_char(from + k)) {
            proof {
                assert(!is_digit(s@[from + k]));
            }
            return false;
        }
        k = k + 1;
    }
    true
}

/// Checks for `count` alphanumerics starting at `from`.
fn check_alnums(s: &str, from: usize, count: usize) -> (r: bool)
    requires
        from + count <= s@.len(),
        s@.len() <= usize::MAX,
    ensures
        r == alnums_at(s@, from as int, count as int),
{
    let mut k: usize = 0;
    while k < count
        invariant
            k <= count,
            from + count <= s@.len(),
            s@.len() <= usize::MAX,
            forall|j: int| from <= j < from + k ==> is_alnum(s@[j]),
        decreases count - k,
    {
        if !is_alnum_char(s.get_char(from + k)) {
            proof {
                assert(!is_alnum(s@[from + k]));
            }
            return false;
        }
        k = k + 1;
    }
    true
}

/// Checks the fixed 60-character core of an asset path at position `i`.
fn check_core(s: &str, i: usize) -> (r: bool)
    requires
        i + 60 <= s@.len(),
        s@.len() <= usize::MAX,
    ensures
        r == core_at(s@, i as int),
{
    if s.get_char(i) != '.' || s.get_char(i + 1) != 'c' || s.get_char(i + 2) != 'o' || s.get_char(
        i + 3,
    ) != 'm' || s.get_char(i + 4) != '/' {
        return false;
    }
    if !check_digits(s, i + 5, 7) {
        return false;
    }
    if s.get_char(i + 12) != '/' {
        return false;
    }
    if !check_alnums(s, i + 13, 9) {
        return false;
    }
    if s.get_char(i + 22) != '-' {
        return false;
    }
    if !check_alnums(s, i + 23, 8) {
        return false;
    }
    if s.get_char(i + 31) != '-' {
        return false;
    }
    if !check_alnums(s, i + 32, 4) {
        return false;
    }
    if s.get_char(i + 36) != '-' {
        return false;
    }
    if !check_alnums(s, i + 37, 4) {
        return false;
    }
    if s.get_char(i + 41) != '-' {
        return false;
    }
    if !check_alnums(s, i + 42, 4) {
        return false;
    }
    if s.get_char(i + 46) != '-' {
        return false;
    }
    if !check_alnums(s, i + 47, 12) {
        return false;
    }
    if s.get_char(i + 59) != '.' {
        return false;
    }
    true
}

/// Decides whether an asset link starts at position `i` and if so how many
/// characters it spans.
fn check_match_at(s: &str, i: usize, len: usize) -> (r: Option<usize>)
    requires
        len == s@.len(),
        i < len,
    ensures
        match r {
            Some(l) => match_len_at(s@, i as int) == Some(l as int) && i + l <= len,
            None => match_len_at(s@, i as int) is None,
        },
{
    if len - i < 63 {
        return None;
    }
    if !check_core(s, i) {
        return None;
    }
    let e0 = s.get_char(i + 60);
    let e1 = s.get_char(i + 61);
    let e2 = s.get_char(i + 62);
    if e0 == 'p' && e1 == 'n' && e2 == 'g' {
        Some(63)
    } else if e0 == 'j' && e1 == 'p' && e2 == 'g' {
        Some(63)
    } else if e0 == 'j' && e1 == 'p' && len - i >= 64 && e2 == 'e' && s.get_char(i + 63) == 'g' {
        Some(64)
    } else {
        None
    }
}

/// Scans `text` for asset links and returns their full URLs, in order of
/// first appearance, duplicates kept.
pub fn get_images(text: &str) -> (r: Vec<String>)
    ensures
        r.deep_view() == image_urls(text@),
{
    let len = text.unicode_len();
    let mut result: Vec<String> = Vec::new();
    let mut i: usize = 0;
    proof {
        assert(result.deep_view() =~= Seq::<Seq<char>>::empty());
        assert(Seq::<Seq<char>>::empty() + image_urls_from(text@, 0) =~= image_urls_from(
            text@,
            0,
        ));
    }
    while i < len
        invariant
            i <= len,
            len == text@.len(),
            image_urls(text@) == result.deep_view() + image_urls_from(text@, i as int),
        decreases len - i,
    {
        match check_match_at(text, i, len) {
            Some(l) => {
                let sub = text.substring_char(i, i + l);
                let mut url = String::from_str("https://user-images.githubusercontent");
                url.append(sub);
                let ghost prev = result.deep_view();
                result.push(url);
                proof {
                    assert(url@ == asset_host_prefix() + text@.subrange(i as int, i + l));
                    assert(result.deep_view() =~= prev.push(url@));
                    assert(image_urls_from(text@, i as int) == seq![
                        asset_host_prefix() + text@.subrange(i as int, i + l),
                    ] + image_urls_from(text@, i + l));
                    assert(prev.push(url@) + image_urls_from(text@, i + l) =~= prev + (seq![url@]
                        + image_urls_from(text@, i + l)));
                }
                i = i + l;
            },
            None => {
                proof {
                    assert(image_urls_from(text@, i as int) == image_urls_from(text@, i + 1));
                }
                i = i + 1;
            },
        }
    }
    proof {
        assert(image_urls(text@) =~= result.deep_view());
    }
    result
}

} // verus!
