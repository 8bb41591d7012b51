//! The API's request handling: the CORS origins the router allows, and (in
//! the submodules) each route's payloads and decisions.

pub mod auth;
pub mod guard;
pub mod teams;
pub mod webhooks;

use vstd::prelude::*;
use vstd::string::StringSliceAdditionalSpecFns;
use vstd::utf8::encode_utf8;

use crate::error::{DomainError, ServerError};
use crate::text::owned;

verus! {

/// Scopes a looked-up resource to the path it was requested under: the
/// resource must exist and its owner (team, project or application) must be
/// `expected`, otherwise the request fails with `not_found`. A resource
/// that belongs elsewhere is answered exactly like one that does not exist,
/// so the ids of other teams' resources never leak.
pub fn require_owner(owner: Option<i64>, expected: i64, not_found: ServerError) -> (r: Result<(), ServerError>)
    ensures
        owner == Some(expected) ==> r is Ok,
        owner != Some(expected) ==> r == Err::<(), ServerError>(not_found),
{
    match owner {
        Some(o) => if o == expected {
            Ok(())
        } else {
            Err(not_found)
        },
        None => Err(not_found),
    }
}

/// Maps a failed save: a uniqueness conflict becomes `taken`, any other
/// failure stays a domain error.
pub fn conflict_as(e: DomainError, taken: ServerError) -> (r: ServerError)
    ensures
        e == DomainError::AlreadyExists ==> r == taken,
        e != DomainError::AlreadyExists ==> r == ServerError::Domain(e),
{
    match e {
        DomainError::AlreadyExists => taken,
        other => ServerError::Domain(other),
    }
}

/// Whether `c` has the Unicode `White_Space` property, as `char::is_whitespace` tests.
pub open spec fn is_unicode_whitespace(c: char) -> bool {
    let v = c as u32;
    ||| 0x9 <= v <= 0xD
    ||| v == 0x20
    ||| v == 0x85
    ||| v == 0xA0
    ||| v == 0x1680
    ||| 0x2000 <= v <= 0x200A
    ||| v == 0x2028
    ||| v == 0x2029
    ||| v == 0x202F
    ||| v == 0x205F
    ||| v == 0x3000
}

pub fn is_whitespace(c: char) -> (r: bool)
    ensures
        r == is_unicode_whitespace(c),
{
    let v = c as u32;
    (0x9 <= v && v <= 0xD) || v == 0x20 || v == 0x85 || v == 0xA0 || v == 0x1680 || (0x2000 <= v && v
        <= 0x200A) || v == 0x2028 || v == 0x2029 || v == 0x202F || v == 0x205F || v == 0x3000
}

/// `s` without leading whitespace.
pub open spec fn trim_start(s: Seq<char>) -> Seq<char>
    decreases s.len(),
{
    if s.len() > 0 && is_unicode_whitespace(s[0]) {
        trim_start(s.drop_first())
    } else {
        s
    }
}

/// `s` without trailing whitespace.
pub open spec fn trim_end(s: Seq<char>) -> Seq<char>
    decreases s.len(),
{
    if s.len() > 0 && is_unicode_whitespace(s.last()) {
        trim_end(s.drop_last())
    } else {
        s
    }
}

/// `s` without leading and trailing whitespace (`str::trim`).
pub open spec fn trim(s: Seq<char>) -> Seq<char> {
    trim_end(trim_start(s))
}

/// The pieces of `s` between commas (`str::split(',')`): one more piece
/// than there are commas, empty pieces included.
pub open spec fn split_commas(s: Seq<char>) -> Seq<Seq<char>>
    decreases s.len(),
{
    if s.len() == 0 {
        seq![Seq::empty()]
    } else {
        let p = split_commas(s.drop_last());
        if s.last() == ',' {
            p.push(Seq::empty())
        } else {
            p.update(p.len() - 1, p.last().push(s.last()))
        }
    }
}

/// Whether a byte may appear in an HTTP header value.
pub open spec fn header_value_byte(b: u8) -> bool {
    (b >= 32 && b != 127) || b == 9
}

/// Whether bytes form a valid HTTP header value.
pub open spec fn header_value_bytes(bytes: Seq<u8>) -> bool {
    forall|i: int| 0 <= i < bytes.len() ==> header_value_byte(#[trigger] bytes[i])
}

/// Whether `s` is accepted as an HTTP header value.
///
/// Trusted: calls `axum::http::HeaderValue::from_str`, which (http 1.x,
/// `try_from_generic`) accepts exactly the strings whose every byte is a
/// tab or at least 32 and not 127.
#[verifier::external_body]
fn accepted_as_header_value(s: &str) -> (r: bool)
    ensures
        r == header_value_bytes(s.spec_bytes()),
{
    axum::http::HeaderValue::from_str(s).is_ok()
}

/// The origins kept from the given pieces: each one trimmed, dropped when
/// empty or not a valid header value.
pub open spec fn kept_origins(pieces: Seq<Seq<char>>) -> Seq<Seq<char>>
    decreases pieces.len(),
{
    if pieces.len() == 0 {
        Seq::empty()
    } else {
        let kept = kept_origins(pieces.drop_last());
        let t = trim(pieces.last());
        if t.len() > 0 && header_value_bytes(encode_utf8(t)) {
            kept.push(t)
        } else {
            kept
        }
    }
}

/// The origins allowed by the comma-separated `DASHBOARD_ORIGINS` value.
pub open spec fn dashboard_origins_of(value: Seq<char>) -> Seq<Seq<char>> {
    kept_origins(split_commas(value))
}

pub open spec fn strings_view(v: Seq<String>) -> Seq<Seq<char>> {
    v.map_values(|s: String| s@)
}

/// Every origin kept is non-empty and a valid header value.
pub proof fn lemma_kept_origins_are_usable(pieces: Seq<Seq<char>>, i: int)
    requires
        0 <= i < kept_origins(pieces).len(),
    ensures
        kept_origins(pieces)[i].len() > 0,
        header_value_bytes(encode_utf8(kept_origins(pieces)[i])),
    decreases pieces.len(),
{
    let kept = kept_origins(pieces.drop_last());
    if i < kept.len() {
        lemma_kept_origins_are_usable(pieces.drop_last(), i);
    }
}

/// The character range of `s[a..b]` left once whitespace is trimmed.
fn trim_range(s: &str, a: usize, b: usize) -> (r: (usize, usize))
    requires
        a <= b <= s@.len(),
    ensures
        a <= r.0 <= r.1 <= b,
        s@.subrange(r.0 as int, r.1 as int) == trim(s@.subrange(a as int, b as int)),
{
    let mut lo = a;
    while lo < b && is_whitespace(s.get_char(lo))
        invariant
            a <= lo <= b <= s@.len(),
            trim_start(s@.subrange(a as int, b as int)) == trim_start(s@.subrange(lo as int, b as int)),
        decreases b - lo,
    {
        assert(s@.subrange(lo as int, b as int).drop_first() =~= s@.subrange(lo + 1, b as int));
        lo = lo + 1;
    }
    assert(trim_start(s@.subrange(lo as int, b as int)) == s@.subrange(lo as int, b as int));
    let mut hi = b;
    while hi > lo && is_whitespace(s.get_char(hi - 1))
        invariant
            a <= lo <= hi <= b <= s@.len(),
            trim_end(s@.subrange(lo as int, b as int)) == trim_end(s@.subrange(lo as int, hi as int)),
        decreases hi - lo,
    {
        assert(s@.subrange(lo as int, hi as int).drop_last() =~= s@.subrange(lo as int, hi - 1));
        hi = hi - 1;
    }
    assert(trim_end(s@.subrange(lo as int, hi as int)) == s@.subrange(lo as int, hi as int));
    (lo, hi)
}

/// Appends the trimmed piece `s[a..b]` to `out` when it is a usable origin.
fn keep_origin(s: &str, a: usize, b: usize, out: &mut Vec<String>)
    requires
        a <= b <= s@.len(),
    ensures
        ({
            let t = trim(s@.subrange(a as int, b as int));
            strings_view(final(out)@) == if t.len() > 0 && header_value_bytes(encode_utf8(t)) {
                strings_view(old(out)@).push(t)
            } else {
                strings_view(old(out)@)
            }
        }),
{
    let (lo, hi) = trim_range(s, a, b);
    if lo < hi {
        let piece = s.substring_char(lo, hi);
        if accepted_as_header_value(piece) {
            out.push(owned(piece));
            assert(strings_view(out@) =~= strings_view(old(out)@).push(piece@));
        }
    }
}

/// Parses the comma-separated `DASHBOARD_ORIGINS` value into the origins the
/// CORS layer reflects: each piece is trimmed, and empty pieces and pieces
/// that are not valid header values are dropped.
pub fn dashboard_origins(value: &str) -> (origins: Vec<String>)
    ensures
        strings_view(origins@) == dashboard_origins_of(value@),
{
    let n = value.unicode_len();
    let mut out: Vec<String> = Vec::new();
    let mut start: usize = 0;
    let mut i: usize = 0;
    let ghost mut done: Seq<Seq<char>> = Seq::empty();
    proof {
        assert(value@.take(0) =~= Seq::<char>::empty());
        assert(split_commas(value@.take(0)) =~= seq![Seq::<char>::empty()]);
        assert(value@.subrange(0, 0) =~= Seq::<char>::empty());
        assert(done.push(value@.subrange(0, 0)) =~= seq![Seq::<char>::empty()]);
    }
    while i < n
        invariant
            n == value@.len(),
            start <= i <= n,
            split_commas(value@.take(i as int)) == done.push(value@.subrange(start as int, i as int)),
            strings_view(out@) == kept_origins(done),
        decreases n - i,
    {
        let c = value.get_char(i);
        assert(value@.take(i + 1).drop_last() =~= value@.take(i as int));
        assert(value@.take(i + 1).last() == c);
        if c == ',' {
            keep_origin(value, start, i, &mut out);
            proof {
                let piece = value@.subrange(start as int, i as int);
                assert(done.push(piece).drop_last() =~= done);
                assert(kept_origins(done.push(piece)) == strings_view(out@));
                done = done.push(piece);
                assert(value@.subrange((i + 1) as int, (i + 1) as int) =~= Seq::<char>::empty());
            }
            start = i + 1;
        } else {
            proof {
                let p = split_commas(value@.take(i as int));
                assert(value@.subrange(start as int, i as int).push(c) =~= value@.subrange(start as int, i + 1));
                assert(p.update(p.len() - 1, p.last().push(c)) =~= done.push(
                    value@.subrange(start as int, i + 1),
                ));
            }
        }
        i = i + 1;
    }
    keep_origin(value, start, n, &mut out);
    proof {
        let piece = value@.subrange(start as int, n as int);
        assert(value@.take(n as int) =~= value@);
        assert(done.push(piece).drop_last() =~= done);
    }
    out
}

} // verus!
