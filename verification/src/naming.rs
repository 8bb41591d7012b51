use vstd::prelude::*;

use crate::text::{char_width, decimal, digit_char, digits, owned, push_i64, push_str, utf8_size, utf8_width};

verus! {

/// Byte budget of the abbreviated commit hash in image tags.
pub const SHORT_SHA_BYTES: usize = 12;

/// Sizes of prefixes grow with their length.
pub proof fn lemma_utf8_size_monotone(s: Seq<char>, i: int, j: int)
    requires
        0 <= i <= j <= s.len(),
    ensures
        utf8_size(s.take(i)) <= utf8_size(s.take(j)),
    decreases j - i,
{
    if i < j {
        lemma_utf8_size_monotone(s, i, j - 1);
        assert(s.take(j).drop_last() =~= s.take(j - 1));
    }
}

/// The longest prefix of `s` (counted in characters, at most `k` of them)
/// whose UTF-8 encoding fits in the short-hash byte budget.
pub open spec fn largest_fit(s: Seq<char>, k: nat) -> nat
    decreases k,
{
    if utf8_size(s.take(k as int)) <= SHORT_SHA_BYTES {
        k
    } else if k == 0 {
        0
    } else {
        largest_fit(s, (k - 1) as nat)
    }
}

/// The abbreviated commit hash: the first 12 bytes of `sha`.
pub open spec fn short_sha(sha: Seq<char>) -> Seq<char> {
    sha.take(largest_fit(sha, sha.len()) as int)
}

/// Whether cutting `sha` after 12 bytes lands on a character boundary; the
/// byte slice `&sha[..12]` panics otherwise.
pub open spec fn short_sha_on_boundary(sha: Seq<char>) -> bool {
    let total = utf8_size(sha);
    utf8_size(short_sha(sha)) == if total < SHORT_SHA_BYTES { total } else { SHORT_SHA_BYTES as nat }
}

proof fn lemma_largest_fit(s: Seq<char>, k: nat, i: nat)
    requires
        i <= k <= s.len(),
        utf8_size(s.take(i as int)) <= SHORT_SHA_BYTES,
        i < k ==> utf8_size(s.take(i + 1int)) > SHORT_SHA_BYTES,
    ensures
        largest_fit(s, k) == i,
    decreases k,
{
    if k > i {
        lemma_utf8_size_monotone(s, i + 1int, k as int);
        lemma_largest_fit(s, (k - 1) as nat, i);
    }
}

/// Number of leading characters of `sha` that make up its first 12 bytes,
/// and the number of bytes they take.
fn short_sha_prefix(sha: &str) -> (r: (usize, usize))
    ensures
        r.0 <= sha@.len(),
        r.0 == largest_fit(sha@, sha@.len()),
        r.1 == utf8_size(short_sha(sha@)),
{
    let n = sha.unicode_len();
    let mut i: usize = 0;
    let mut used: usize = 0;
    while i < n
        invariant
            n == sha@.len(),
            i <= n,
            used == utf8_size(sha@.take(i as int)),
            used <= SHORT_SHA_BYTES,
        ensures
            i <= n,
            used == utf8_size(sha@.take(i as int)),
            used <= SHORT_SHA_BYTES,
            i < n ==> utf8_size(sha@.take(i + 1)) > SHORT_SHA_BYTES,
        decreases n - i,
    {
        let w = char_width(sha.get_char(i));
        assert(sha@.take(i + 1).drop_last() =~= sha@.take(i as int));
        if used + w > SHORT_SHA_BYTES {
            break;
        }
        used = used + w;
        i = i + 1;
    }
    proof {
        lemma_largest_fit(sha@, sha@.len(), i as nat);
    }
    (i, used)
}

/// Whether `sha` can be abbreviated without splitting a character (always
/// the case for the hexadecimal hashes git produces).
pub fn short_sha_fits(sha: &str) -> (r: bool)
    ensures
        r == short_sha_on_boundary(sha@),
{
    let n = sha.unicode_len();
    let (k, used) = short_sha_prefix(sha);
    let mut total = used;
    let mut i = k;
    // Measure the rest of the hash, stopping once past the budget.
    while i < n && total <= SHORT_SHA_BYTES
        invariant
            n == sha@.len(),
            k <= i <= n,
            total == utf8_size(sha@.take(i as int)),
        decreases n - i,
    {
        assert(sha@.take(i + 1).drop_last() =~= sha@.take(i as int));
        total = total + char_width(sha.get_char(i));
        i = i + 1;
    }
    proof {
        lemma_utf8_size_monotone(sha@, i as int, sha@.len() as int);
        assert(sha@.take(sha@.len() as int) =~= sha@);
    }
    if total < SHORT_SHA_BYTES {
        used == total
    } else {
        used == SHORT_SHA_BYTES
    }
}

/// The tag an application's image is built under:
/// `podkit-app-{application_id}:{first 12 bytes of the commit}`.
pub open spec fn image_tag_of(application_id: i64, commit_sha: Seq<char>) -> Seq<char> {
    "podkit-app-"@ + decimal(application_id as int) + ":"@ + short_sha(commit_sha)
}

/// Builds the image tag for a commit of an application.
pub fn image_tag(application_id: i64, commit_sha: &str) -> (tag: String)
    requires
        short_sha_on_boundary(commit_sha@),
    ensures
        tag@ == image_tag_of(application_id, commit_sha@),
{
    let (k, _) = short_sha_prefix(commit_sha);
    let short = commit_sha.substring_char(0, k);
    let mut tag = owned("podkit-app-");
    push_i64(&mut tag, application_id);
    push_str(&mut tag, ":");
    push_str(&mut tag, short);
    tag
}

/// The per-deployment container name: `podkit-app-{application_id}-{deployment_id}`.
/// Unique per deployment, so the previous container keeps serving under its
/// own name until the new one is healthy.
pub open spec fn container_name_of(application_id: i64, deployment_id: i64) -> Seq<char> {
    "podkit-app-"@ + decimal(application_id as int) + "-"@ + decimal(deployment_id as int)
}

pub fn container_name(application_id: i64, deployment_id: i64) -> (name: String)
    ensures
        name@ == container_name_of(application_id, deployment_id),
{
    let mut name = owned("podkit-app-");
    push_i64(&mut name, application_id);
    push_str(&mut name, "-");
    push_i64(&mut name, deployment_id);
    name
}

/// A memory limit given in MiB, in bytes (a MiB is 1024 * 1024 bytes).
pub open spec fn memory_bytes_of(memory_limit_mb: Option<i32>) -> Option<i64> {
    match memory_limit_mb {
        Some(mb) => Some((mb * 1024 * 1024) as i64),
        None => None,
    }
}

/// A memory limit given in MiB, in bytes.
pub fn memory_limit_bytes(memory_limit_mb: Option<i32>) -> (bytes: Option<i64>)
    ensures
        bytes == memory_bytes_of(memory_limit_mb),
{
    match memory_limit_mb {
        Some(mb) => {
            assert(-2147483648 * 1048576 <= mb * 1048576 <= 2147483647 * 1048576) by (nonlinear_arith)
                requires
                    -2147483648 <= mb <= 2147483647,
            ;
            Some((mb as i64) * 1024 * 1024)
        },
        None => None,
    }
}

} // verus!

verus! {

proof fn lemma_digits_shape(n: nat)
    ensures
        digits(n).len() >= 1,
        n < 10 <==> digits(n).len() == 1,
        forall|i: int| 0 <= i < digits(n).len() ==> digits(n)[i] != '-',
    decreases n,
{
    if n >= 10 {
        lemma_digits_shape(n / 10);
    }
}

proof fn lemma_digit_char_injective(a: int, b: int)
    requires
        0 <= a < 10,
        0 <= b < 10,
        digit_char(a) == digit_char(b),
    ensures
        a == b,
{
}

/// Different naturals have different decimal digits.
pub proof fn lemma_digits_injective(n: nat, m: nat)
    requires
        digits(n) == digits(m),
    ensures
        n == m,
    decreases n,
{
    lemma_digits_shape(n);
    lemma_digits_shape(m);
    if n < 10 {
        assert(m < 10);
        assert(digits(n)[0] == digit_char(n as int));
        assert(digits(m)[0] == digit_char(m as int));
        lemma_digit_char_injective(n as int, m as int);
    } else {
        assert(m >= 10);
        let dn = digits(n / 10).push(digit_char((n % 10) as int));
        let dm = digits(m / 10).push(digit_char((m % 10) as int));
        assert(digits(n) == dn);
        assert(digits(m) == dm);
        assert(dn.drop_last() =~= digits(n / 10));
        assert(dm.drop_last() =~= digits(m / 10));
        lemma_digits_injective(n / 10, m / 10);
        assert(dn.last() == digit_char((n % 10) as int));
        assert(dm.last() == digit_char((m % 10) as int));
        lemma_digit_char_injective((n % 10) as int, (m % 10) as int);
    }
}

/// Different integers are rendered differently.
pub proof fn lemma_decimal_injective(a: int, b: int)
    requires
        decimal(a) == decimal(b),
    ensures
        a == b,
{
    if a < 0 && b < 0 {
        assert(decimal(a).drop_first() =~= digits((-a) as nat));
        assert(decimal(b).drop_first() =~= digits((-b) as nat));
        lemma_digits_injective((-a) as nat, (-b) as nat);
    } else if a >= 0 && b >= 0 {
        lemma_digits_injective(a as nat, b as nat);
    } else if a < 0 {
        lemma_digits_shape(b as nat);
        assert(decimal(a)[0] == '-');
        assert(decimal(b)[0] != '-');
    } else {
        lemma_digits_shape(a as nat);
        assert(decimal(b)[0] == '-');
        assert(decimal(a)[0] != '-');
    }
}

/// Container names are unique per deployment: two different deployments of
/// an application never share a container name, so the previous container
/// keeps serving under its own name while the new one starts.
pub proof fn lemma_container_names_unique(application_id: i64, d1: i64, d2: i64)
    requires
        d1 != d2,
    ensures
        container_name_of(application_id, d1) != container_name_of(application_id, d2),
{
    let prefix = "podkit-app-"@ + decimal(application_id as int) + "-"@;
    assert(container_name_of(application_id, d1) == prefix + decimal(d1 as int));
    assert(container_name_of(application_id, d2) == prefix + decimal(d2 as int));
    if container_name_of(application_id, d1) == container_name_of(application_id, d2) {
        assert((prefix + decimal(d1 as int)).skip(prefix.len() as int) =~= decimal(d1 as int));
        assert((prefix + decimal(d2 as int)).skip(prefix.len() as int) =~= decimal(d2 as int));
        lemma_decimal_injective(d1 as int, d2 as int);
    }
}

} // verus!
