//! Header sets and request-header assembly.
//!
//! A [`HeaderSet`] is an ordered list of header entries whose view is the map
//! obtained by applying the entries in order, later entries winning. Request
//! assembly validates every entry against HTTP header syntax, appends the
//! cookie entry last when a cookie is present (so it wins over any
//! caller-supplied entry of the same name), and, for media transfers, appends
//! a byte-range entry requesting the full entity.

use vstd::prelude::*;

use crate::errors::DownloadError;
use crate::text::str_eq;

verus! {

/// The map obtained by inserting the pairs of `entries` in order: a later
/// entry with the same name overrides an earlier one.
pub open spec fn map_of(entries: Seq<(Seq<char>, Seq<char>)>) -> Map<Seq<char>, Seq<char>>
    decreases entries.len(),
{
    if entries.len() == 0 {
        Map::empty()
    } else {
        map_of(entries.drop_last()).insert(entries.last().0, entries.last().1)
    }
}

/// The character sequences of a list of owned header entries.
pub open spec fn pair_views(entries: Seq<(String, String)>) -> Seq<(Seq<char>, Seq<char>)> {
    entries.map_values(|p: (String, String)| (p.0@, p.1@))
}

/// Appending an entry maps to appending its character-sequence view.
pub proof fn lemma_pair_views_push(s: Seq<(String, String)>, p: (String, String))
    ensures
        pair_views(s.push(p)) == pair_views(s).push((p.0@, p.1@)),
{
    assert forall|k: int| 0 <= k < s.len() implies pair_views(s.push(p))[k] == pair_views(s)[k] by {
        assert(s.push(p)[k] == s[k]);
    }
    assert(pair_views(s.push(p)) =~~= pair_views(s).push((p.0@, p.1@)));
}

/// Appending an entry inserts its pair into the map view.
pub proof fn lemma_map_of_push(s: Seq<(Seq<char>, Seq<char>)>, x: (Seq<char>, Seq<char>))
    ensures
        map_of(s.push(x)) == map_of(s).insert(x.0, x.1),
{
    assert(s.push(x).drop_last() =~~= s);
    assert(s.push(x).last() == x);
}

/// A name maps to a value exactly when some entry carries it and no later
/// entry carries the same name: the map view is last-write-wins.
pub proof fn lemma_map_of_last_wins(s: Seq<(Seq<char>, Seq<char>)>, k: Seq<char>, i: int)
    requires
        0 <= i < s.len(),
        s[i].0 == k,
        forall|j: int| i < j < s.len() ==> (#[trigger] s[j]).0 != k,
    ensures
        map_of(s).contains_key(k),
        map_of(s)[k] == s[i].1,
    decreases s.len(),
{
    if i == s.len() - 1 {
        assert(s.last() == s[i]);
    } else {
        assert(s.last().0 != k);
        assert(s.drop_last()[i] == s[i]);
        lemma_map_of_last_wins(s.drop_last(), k, i);
    }
}

/// A name no entry carries is absent from the map view.
pub proof fn lemma_map_of_absent(s: Seq<(Seq<char>, Seq<char>)>, k: Seq<char>)
    requires
        forall|j: int| 0 <= j < s.len() ==> (#[trigger] s[j]).0 != k,
    ensures
        !map_of(s).contains_key(k),
    decreases s.len(),
{
    if s.len() > 0 {
        assert(s.last().0 != k);
        lemma_map_of_absent(s.drop_last(), k);
    }
}

/// An ordered collection of HTTP header entries.
///
/// Entries are kept in insertion order; the map view applies them in that
/// order with last-write-wins semantics, so inserting an existing name
/// overrides its value.
#[derive(Clone, Debug)]
pub struct HeaderSet {
    pub entries: Vec<(String, String)>,
}

impl View for HeaderSet {
    type V = Map<Seq<char>, Seq<char>>;

    open spec fn view(&self) -> Map<Seq<char>, Seq<char>> {
        map_of(self.entry_views())
    }
}

impl HeaderSet {
    /// The entries as character sequences, in insertion order.
    pub open spec fn entry_views(&self) -> Seq<(Seq<char>, Seq<char>)> {
        pair_views(self.entries@)
    }

    /// An empty header set.
    pub fn new() -> (h: HeaderSet)
        ensures
            h.entry_views() == Seq::<(Seq<char>, Seq<char>)>::empty(),
            h@ == Map::<Seq<char>, Seq<char>>::empty(),
    {
        let h = HeaderSet { entries: Vec::new() };
        proof {
            assert(h.entry_views() =~~= Seq::<(Seq<char>, Seq<char>)>::empty());
        }
        h
    }

    /// Appends an entry; in the map view this overrides any earlier entry of
    /// the same name.
    pub fn insert(&mut self, name: &str, value: &str)
        ensures
            final(self).entry_views() == old(self).entry_views().push((name@, value@)),
            final(self)@ == old(self)@.insert(name@, value@),
    {
        let ghost old_entries = self.entries@;
        let owned = (name.to_owned(), value.to_owned());
        let ghost p = owned;
        self.entries.push(owned);
        proof {
            lemma_pair_views_push(old_entries, p);
            lemma_map_of_push(pair_views(old_entries), (p.0@, p.1@));
        }
    }

    /// A copy of this header set with the same entries in the same order.
    pub fn duplicate(&self) -> (h: HeaderSet)
        ensures
            h.entry_views() == self.entry_views(),
            h@ == self@,
    {
        let mut entries: Vec<(String, String)> = Vec::new();
        let mut i: usize = 0;
        while i < self.entries.len()
            invariant
                i <= self.entries.len(),
                pair_views(entries@) =~~= self.entry_views().take(i as int),
            decreases self.entries.len() - i,
        {
            let name = self.entries[i].0.clone();
            let value = self.entries[i].1.clone();
            let ghost before = entries@;
            let owned = (name, value);
            let ghost p = owned;
            entries.push(owned);
            proof {
                lemma_pair_views_push(before, p);
                assert(self.entry_views()[i as int] == (
                    self.entries@[i as int].0@,
                    self.entries@[i as int].1@,
                ));
                assert(pair_views(entries@) =~~= self.entry_views().take(i as int + 1));
            }
            i = i + 1;
        }
        let h = HeaderSet { entries };
        proof {
            assert(h.entry_views() =~~= self.entry_views());
        }
        h
    }

    /// Looks a header name up in the map view: the value of the last entry
    /// carrying that name, or `None` when no entry does.
    pub fn get(&self, name: &str) -> (r: Option<String>)
        ensures
            match r {
                Some(v) => self@.contains_key(name@) && v@ == self@[name@],
                None => !self@.contains_key(name@),
            },
    {
        let n = self.entries.len();
        let mut i = n;
        while i > 0
            invariant
                i <= n,
                n == self.entries@.len(),
                forall|j: int| i <= j < n ==> (#[trigger] self.entry_views()[j]).0 != name@,
            decreases i,
        {
            i = i - 1;
            if str_eq(self.entries[i].0.as_str(), name) {
                proof {
                    lemma_map_of_last_wins(self.entry_views(), name@, i as int);
                }
                return Some(self.entries[i].1.clone());
            }
            proof {
                assert(self.entry_views()[i as int] == (
                    self.entries@[i as int].0@,
                    self.entries@[i as int].1@,
                ));
            }
        }
        proof {
            lemma_map_of_absent(self.entry_views(), name@);
        }
        None
    }

    /// How many entries the set holds.
    pub fn len(&self) -> (n: usize)
        ensures
            n == self.entry_views().len(),
    {
        self.entries.len()
    }
}

/// Whether `c` may appear in an HTTP header name: a token character, that is
/// an ASCII letter or digit or one of `! # $ % & ' * + - . ^ _ \` | ~`.
pub open spec fn is_name_char(c: char) -> bool {
    ||| 'a' <= c && c <= 'z'
    ||| 'A' <= c && c <= 'Z'
    ||| '0' <= c && c <= '9'
    ||| c == '!' || c == '#' || c == '$' || c == '%' || c == '&' || c == '\'' || c == '*'
    ||| c == '+' || c == '-' || c == '.' || c == '^' || c == '_' || c == '`' || c == '|'
    ||| c == '~'
}

/// A valid HTTP header name: non-empty and made of token characters only.
pub open spec fn valid_header_name(s: Seq<char>) -> bool {
    s.len() > 0 && forall|i: int| 0 <= i < s.len() ==> is_name_char(#[trigger] s[i])
}

/// Whether `c` may appear in an HTTP header value: horizontal tab or any
/// character that is not an ASCII control character.
pub open spec fn is_value_char(c: char) -> bool {
    c == '\t' || (c as u32 >= 32 && c as u32 != 127)
}

/// A valid HTTP header value: every character is a value character.
pub open spec fn valid_header_value(s: Seq<char>) -> bool {
    forall|i: int| 0 <= i < s.len() ==> is_value_char(#[trigger] s[i])
}

/// Every entry has a valid name and a valid value.
pub open spec fn all_entries_valid(entries: Seq<(Seq<char>, Seq<char>)>) -> bool {
    forall|i: int| 0 <= i < entries.len() ==> valid_header_name(
        (#[trigger] entries[i]).0,
    ) && valid_header_value(entries[i].1)
}

fn name_char(c: char) -> (r: bool)
    ensures
        r == is_name_char(c),
{
    ('a' <= c && c <= 'z') || ('A' <= c && c <= 'Z') || ('0' <= c && c <= '9') || c == '!' || c
        == '#' || c == '$' || c == '%' || c == '&' || c == '\'' || c == '*' || c == '+' || c == '-'
        || c == '.' || c == '^' || c == '_' || c == '`' || c == '|' || c == '~'
}

fn value_char(c: char) -> (r: bool)
    ensures
        r == is_value_char(c),
{
    c == '\t' || (c as u32 >= 32 && c as u32 != 127)
}

/// Checks a header name against HTTP header-name syntax.
pub fn check_header_name(s: &str) -> (r: bool)
    ensures
        r == valid_header_name(s@),
{
    let len = s.unicode_len();
    if len == 0 {
        return false;
    }
    let mut i: usize = 0;
    while i < len
        invariant
            len == s@.len(),
            i <= len,
            forall|k: int| 0 <= k < i ==> is_name_char(#[trigger] s@[k]),
        decreases len - i,
    {
        if !name_char(s.get_char(i)) {
            return false;
        }
        i = i + 1;
    }
    true
}

/// Checks a header value against HTTP header-value syntax.
pub fn check_header_value(s: &str) -> (r: bool)
    ensures
        r == valid_header_value(s@),
{
    let len = s.unicode_len();
    let mut i: usize = 0;
    while i < len
        invariant
            len == s@.len(),
            i <= len,
            forall|k: int| 0 <= k < i ==> is_value_char(#[trigger] s@[k]),
        decreases len - i,
    {
        if !value_char(s.get_char(i)) {
            return false;
        }
        i = i + 1;
    }
    true
}

/// The name under which the authentication cookie is sent.
pub open spec fn cookie_name() -> Seq<char> {
    "Cookie"@
}

/// The name of the byte-range header a media transfer sends.
pub open spec fn range_name() -> Seq<char> {
    "Range"@
}

/// The byte-range value requesting the full entity from offset zero.
pub open spec fn range_value() -> Seq<char> {
    "bytes=0-"@
}

/// The entries an outgoing request carries: every caller entry in order,
/// then the cookie entry when the cookie is non-empty.
pub open spec fn request_views(
    entries: Seq<(Seq<char>, Seq<char>)>,
    cookie: Seq<char>,
) -> Seq<(Seq<char>, Seq<char>)> {
    if cookie.len() == 0 {
        entries
    } else {
        entries.push((cookie_name(), cookie))
    }
}

/// Whether a header set together with a cookie passes validation.
pub open spec fn request_valid(entries: Seq<(Seq<char>, Seq<char>)>, cookie: Seq<char>) -> bool {
    all_entries_valid(entries) && (cookie.len() > 0 ==> valid_header_value(cookie))
}

/// Assembles the header entries of an outgoing request: every entry of
/// `headers` in order, then a `Cookie` entry when `cookie` is non-empty, so
/// the cookie overrides any caller-supplied entry of that name. Fails with
/// [`DownloadError::Header`] exactly when some entry, or the non-empty
/// cookie, is not valid HTTP header syntax.
pub fn build_request_headers(headers: &HeaderSet, cookie: &str) -> (r: Result<
    Vec<(String, String)>,
    DownloadError,
>)
    ensures
        match r {
            Ok(v) => request_valid(headers.entry_views(), cookie@) && pair_views(v@)
                == request_views(headers.entry_views(), cookie@) && map_of(pair_views(v@)) == (
            if cookie@.len() == 0 {
                headers@
            } else {
                headers@.insert(cookie_name(), cookie@)
            }),
            Err(e) => e == DownloadError::Header && !request_valid(
                headers.entry_views(),
                cookie@,
            ),
        },
{
    let mut out: Vec<(String, String)> = Vec::new();
    let mut i: usize = 0;
    while i < headers.entries.len()
        invariant
            i <= headers.entries.len(),
            pair_views(out@) =~~= headers.entry_views().take(i as int),
            forall|k: int| 0 <= k < i ==> valid_header_name(
                (#[trigger] headers.entry_views()[k]).0,
            ) && valid_header_value(headers.entry_views()[k].1),
        decreases headers.entries.len() - i,
    {
        proof {
            assert(headers.entry_views()[i as int] == (
                headers.entries@[i as int].0@,
                headers.entries@[i as int].1@,
            ));
        }
        if !check_header_name(headers.entries[i].0.as_str()) {
            return Err(DownloadError::Header);
        }
        if !check_header_value(headers.entries[i].1.as_str()) {
            return Err(DownloadError::Header);
        }
        let name = headers.entries[i].0.clone();
        let value = headers.entries[i].1.clone();
        let ghost before = out@;
        let owned = (name, value);
        let ghost p = owned;
        out.push(owned);
        proof {
            lemma_pair_views_push(before, p);
            assert(pair_views(out@) =~~= headers.entry_views().take(i as int + 1));
        }
        i = i + 1;
    }
    proof {
        assert(pair_views(out@) =~~= headers.entry_views());
    }
    if !cookie.is_empty() {
        if !check_header_value(cookie) {
            return Err(DownloadError::Header);
        }
        let ghost before = out@;
        let owned = (String::from_str("Cookie"), cookie.to_owned());
        let ghost p = owned;
        out.push(owned);
        proof {
            lemma_pair_views_push(before, p);
            lemma_map_of_push(pair_views(before), (p.0@, p.1@));
        }
    }
    Ok(out)
}

/// Assembles the header entries of a media-transfer request: the request
/// entries of [`build_request_headers`], then the byte-range entry, applied
/// last. Fails with [`DownloadError::Header`] under the same condition.
pub fn build_fetch_headers(headers: &HeaderSet, cookie: &str) -> (r: Result<
    Vec<(String, String)>,
    DownloadError,
>)
    ensures
        match r {
            Ok(v) => request_valid(headers.entry_views(), cookie@) && pair_views(v@)
                == request_views(headers.entry_views(), cookie@).push(
                (range_name(), range_value()),
            ) && map_of(pair_views(v@)) == (if cookie@.len() == 0 {
                headers@
            } else {
                headers@.insert(cookie_name(), cookie@)
            }).insert(range_name(), range_value()),
            Err(e) => e == DownloadError::Header && !request_valid(
                headers.entry_views(),
                cookie@,
            ),
        },
{
    let mut out = match build_request_headers(headers, cookie) {
        Ok(v) => v,
        Err(e) => {
            return Err(e);
        },
    };
    let ghost before = out@;
    let owned = (String::from_str("Range"), String::from_str("bytes=0-"));
    let ghost p = owned;
    out.push(owned);
    proof {
        lemma_pair_views_push(before, p);
        lemma_map_of_push(pair_views(before), (p.0@, p.1@));
    }
    Ok(out)
}

} // verus!
