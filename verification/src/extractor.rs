//! Extraction of the direct media URL from a page's HTML.
//!
//! The page embeds the URL as a quoted JSON-style field: a literal
//! `"playAddr":"` followed by the URL and a closing quote. Only the first
//! complete occurrence is used — a deliberate simplicity trade-off, not a
//! bug — and escaped forward slashes (`/`) in the captured value are
//! replaced by `/`. When the pattern is absent the caller is expected to
//! persist the fetched HTML under [`debug_file_name`] for manual inspection.

use vstd::prelude::*;

use crate::errors::DownloadError;
use crate::text::tail_after_last;
use crate::text::last_sep_cut;

verus! {

/// The fixed pattern that introduces the media URL: `"playAddr":"`.
pub open spec fn play_pattern() -> Seq<char> {
    seq!['"', 'p', 'l', 'a', 'y', 'A', 'd', 'd', 'r', '"', ':', '"']
}

/// The escape sequence `\u002F` that stands for a forward slash.
pub open spec fn slash_escape() -> Seq<char> {
    seq!['\\', 'u', '0', '0', '2', 'F']
}

/// The pattern occurs in `html` at index `i`.
pub open spec fn pattern_at(html: Seq<char>, i: int) -> bool {
    0 <= i && i + 12 <= html.len() && html.subrange(i, i + 12) == play_pattern()
}

/// The pattern occurs at `i` and its value runs up to the closing quote at
/// `j`: the captured value `html[i+12 .. j]` is non-empty and quote-free.
pub open spec fn capture_at(html: Seq<char>, i: int, j: int) -> bool {
    &&& pattern_at(html, i)
    &&& i + 12 < j < html.len()
    &&& html[j] == '"'
    &&& forall|k: int| i + 12 <= k < j ==> html[k] != '"'
}

/// A complete (non-empty, closed) occurrence of the pattern starts at `i`.
pub open spec fn match_at(html: Seq<char>, i: int) -> bool {
    exists|j: int| capture_at(html, i, j)
}

/// Some complete occurrence of the pattern exists in `html`.
pub open spec fn has_match(html: Seq<char>) -> bool {
    exists|i: int| match_at(html, i)
}

/// The first complete occurrence of the pattern is the one at `i`, closed at `j`.
pub open spec fn extracts(html: Seq<char>, i: int, j: int) -> bool {
    &&& capture_at(html, i, j)
    &&& forall|k: int| 0 <= k < i ==> !match_at(html, k)
}

/// `s` with every occurrence of `\u002F` replaced by `/`, scanning left to
/// right without rescanning replacements.
pub open spec fn unescape(s: Seq<char>) -> Seq<char>
    decreases s.len(),
{
    if s.len() == 0 {
        Seq::empty()
    } else if s.len() >= 6 && s.subrange(0, 6) == slash_escape() {
        seq!['/'] + unescape(s.skip(6))
    } else {
        seq![s[0]] + unescape(s.skip(1))
    }
}

/// What an extraction yields when the first complete occurrence is at `i`
/// with closing quote `j`: the captured value, unescaped.
pub open spec fn extraction_of(html: Seq<char>, i: int, j: int) -> Seq<char> {
    unescape(html.subrange(i + 12, j))
}

/// At most one pair of indices describes the first complete occurrence.
pub proof fn lemma_extraction_unique(html: Seq<char>, i1: int, j1: int, i2: int, j2: int)
    requires
        extracts(html, i1, j1),
        extracts(html, i2, j2),
    ensures
        i1 == i2,
        j1 == j2,
{
    if i1 < i2 {
        assert(capture_at(html, i1, j1));
        assert(match_at(html, i1));
        assert(false);
    }
    if i2 < i1 {
        assert(capture_at(html, i2, j2));
        assert(match_at(html, i2));
        assert(false);
    }
    if j1 < j2 {
        assert(html[j1] == '"');
        assert(html[j1] != '"');
    }
    if j2 < j1 {
        assert(html[j2] == '"');
        assert(html[j2] != '"');
    }
}

/// When `html` holds exactly one complete occurrence of the pattern, that
/// occurrence is the one extracted: the extractor returns its captured URL
/// with every `\u002F` replaced by `/`.
pub proof fn lemma_single_match_extracts(html: Seq<char>, i: int, j: int)
    requires
        capture_at(html, i, j),
        forall|k: int| match_at(html, k) ==> k == i,
    ensures
        extracts(html, i, j),
{
    assert forall|k: int| 0 <= k < i implies !match_at(html, k) by {
        if match_at(html, k) {
            assert(k == i);
        }
    }
}

fn pattern_char(k: usize) -> (c: char)
    requires
        k < 12,
    ensures
        c == play_pattern()[k as int],
{
    if k == 0 {
        '"'
    } else if k == 1 {
        'p'
    } else if k == 2 {
        'l'
    } else if k == 3 {
        'a'
    } else if k == 4 {
        'y'
    } else if k == 5 {
        'A'
    } else if k == 6 {
        'd'
    } else if k == 7 {
        'd'
    } else if k == 8 {
        'r'
    } else if k == 9 {
        '"'
    } else if k == 10 {
        ':'
    } else {
        '"'
    }
}

fn escape_char(k: usize) -> (c: char)
    requires
        k < 6,
    ensures
        c == slash_escape()[k as int],
{
    if k == 0 {
        '\\'
    } else if k == 1 {
        'u'
    } else if k == 2 {
        '0'
    } else if k == 3 {
        '0'
    } else if k == 4 {
        '2'
    } else {
        'F'
    }
}

fn matches_pattern_at(s: &str, i: usize, len: usize) -> (r: bool)
    requires
        len == s@.len(),
        i + 12 <= len,
    ensures
        r == pattern_at(s@, i as int),
{
    let mut k: usize = 0;
    while k < 12
        invariant
            len == s@.len(),
            i + 12 <= len,
            k <= 12,
            forall|m: int| 0 <= m < k ==> s@[i + m] == play_pattern()[m],
        decreases 12 - k,
    {
        if s.get_char(i + k) != pattern_char(k) {
            proof {
                assert(s@.subrange(i as int, i as int + 12)[k as int] == s@[i as int + k]);
            }
            return false;
        }
        k = k + 1;
    }
    proof {
        assert(s@.subrange(i as int, i as int + 12) =~= play_pattern());
    }
    true
}

fn matches_escape_at(s: &str, i: usize, len: usize) -> (r: bool)
    requires
        len == s@.len(),
        i + 6 <= len,
    ensures
        r == (s@.subrange(i as int, i as int + 6) == slash_escape()),
{
    let mut k: usize = 0;
    while k < 6
        invariant
            len == s@.len(),
            i + 6 <= len,
            k <= 6,
            forall|m: int| 0 <= m < k ==> s@[i + m] == slash_escape()[m],
        decreases 6 - k,
    {
        if s.get_char(i + k) != escape_char(k) {
            proof {
                assert(s@.subrange(i as int, i as int + 6)[k as int] == s@[i as int + k]);
            }
            return false;
        }
        k = k + 1;
    }
    proof {
        assert(s@.subrange(i as int, i as int + 6) =~= slash_escape());
    }
    true
}

/// Replaces every `\u002F` escape in `s` by a forward slash.
pub fn unescape_slashes(s: &str) -> (r: String)
    ensures
        r@ == unescape(s@),
{
    let len = s.unicode_len();
    let mut r = String::new();
    let mut i: usize = 0;
    proof {
        assert(s@.skip(0) =~= s@);
        assert(r@ + unescape(s@) =~= unescape(s@));
    }
    while i < len
        invariant
            len == s@.len(),
            i <= len,
            unescape(s@) == r@ + unescape(s@.skip(i as int)),
        decreases len - i,
    {
        let ghost old_r = r@;
        let ghost rest = s@.skip(i as int);
        if len - i >= 6 && matches_escape_at(s, i, len) {
            r.append("/");
            proof {
                assert(rest.subrange(0, 6) =~= s@.subrange(i as int, i as int + 6));
                assert(unescape(rest) == seq!['/'] + unescape(rest.skip(6)));
                assert(rest.skip(6) =~= s@.skip(i as int + 6));
                reveal_strlit("/");
                assert("/"@ =~= seq!['/']);
                assert(old_r + unescape(rest) =~= r@ + unescape(s@.skip(i as int + 6)));
            }
            i = i + 6;
        } else {
            let piece = s.substring_char(i, i + 1);
            r.append(piece);
            proof {
                if rest.len() >= 6 {
                    assert(rest.subrange(0, 6) =~= s@.subrange(i as int, i as int + 6));
                }
                assert(rest[0] == s@[i as int]);
                assert(unescape(rest) == seq![s@[i as int]] + unescape(rest.skip(1)));
                assert(rest.skip(1) =~= s@.skip(i as int + 1));
                assert(piece@ =~= seq![s@[i as int]]);
                assert(old_r + unescape(rest) =~= r@ + unescape(s@.skip(i as int + 1)));
            }
            i = i + 1;
        }
    }
    proof {
        assert(s@.skip(len as int) =~= Seq::<char>::empty());
    }
    r
}

/// Scans `html` for the first complete `"playAddr":"<url>"` occurrence and
/// returns the captured URL with every `\u002F` replaced by `/`. Fails with
/// [`DownloadError::ExtractionNotFound`] exactly when no complete occurrence
/// exists.
pub fn extract_video_url(html: &str) -> (r: Result<String, DownloadError>)
    ensures
        match r {
            Ok(url) => exists|i: int, j: int|
                extracts(html@, i, j) && url@ == extraction_of(html@, i, j),
            Err(e) => e == DownloadError::ExtractionNotFound && !has_match(html@),
        },
{
    let len = html.unicode_len();
    if len < 12 {
        proof {
            assert forall|k: int| !match_at(html@, k) by {
                assert(!pattern_at(html@, k));
            }
        }
        return Err(DownloadError::ExtractionNotFound);
    }
    let mut i: usize = 0;
    while i <= len - 12
        invariant
            len == html@.len(),
            12 <= len,
            i <= len - 12 + 1,
            forall|k: int| 0 <= k < i ==> !match_at(html@, k),
        decreases len - i,
    {
        if matches_pattern_at(html, i, len) {
            let mut j = i + 12;
            while j < len && html.get_char(j) != '"'
                invariant
                    len == html@.len(),
                    i + 12 <= j <= len,
                    forall|k: int| i + 12 <= k < j ==> html@[k] != '"',
                decreases len - j,
            {
                j = j + 1;
            }
            if j < len && j > i + 12 {
                let cap = html.substring_char(i + 12, j);
                let url = unescape_slashes(cap);
                proof {
                    assert(capture_at(html@, i as int, j as int));
                    assert(extracts(html@, i as int, j as int));
                    assert(url@ == extraction_of(html@, i as int, j as int));
                }
                return Ok(url);
            }
            proof {
                if j < len {
                    assert(html@[j as int] == '"');
                    assert forall|jp: int| !capture_at(html@, i as int, jp) by {
                        if capture_at(html@, i as int, jp) {
                            assert(html@[i as int + 12] != '"');
                        }
                    }
                } else {
                    assert forall|jp: int| !capture_at(html@, i as int, jp) by {
                        if capture_at(html@, i as int, jp) {
                            assert(html@[jp] == '"');
                        }
                    }
                }
                assert(!match_at(html@, i as int));
            }
        } else {
            proof {
                assert(!match_at(html@, i as int));
            }
        }
        i = i + 1;
    }
    proof {
        assert forall|k: int| !match_at(html@, k) by {
            if 0 <= k < i {
                assert(!match_at(html@, k));
            } else {
                assert(!pattern_at(html@, k));
            }
        }
    }
    Err(DownloadError::ExtractionNotFound)
}

/// The name of the HTML snapshot persisted when extraction fails: a fixed
/// prefix, the final path segment of the page URL (empty when the URL ends
/// in a slash), and an `.html` suffix.
pub open spec fn spec_debug_name(url: Seq<char>) -> Seq<char> {
    "tiktok_debug_"@ + tail_after_last(url, '/') + ".html"@
}

/// Derives the debug-snapshot file name from the page URL.
pub fn debug_file_name(url: &str) -> (r: String)
    ensures
        r@ == spec_debug_name(url@),
{
    let len = url.unicode_len();
    let cut = last_sep_cut(url, '/');
    let mut r = String::from_str("tiktok_debug_");
    r.append(url.substring_char(cut, len));
    r.append(".html");
    r
}

} // verus!
