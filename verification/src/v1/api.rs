//! The computable part of request addressing: query-string assembly and the
//! path arithmetic of endpoint URLs. The HTTP transport itself lives outside
//! the library and consumes these results.

use crate::sse::{find_char_from, spec_find_from, str_starts_with};
use vstd::prelude::*;

verus! {

/// The decimal digit character of `d`.
pub open spec fn digit_char(d: nat) -> char {
    if d == 0 {
        '0'
    } else if d == 1 {
        '1'
    } else if d == 2 {
        '2'
    } else if d == 3 {
        '3'
    } else if d == 4 {
        '4'
    } else if d == 5 {
        '5'
    } else if d == 6 {
        '6'
    } else if d == 7 {
        '7'
    } else if d == 8 {
        '8'
    } else {
        '9'
    }
}

/// The decimal digits of `n`, most significant first.
pub open spec fn spec_digits(n: nat) -> Seq<char>
    decreases n,
{
    if n < 10 {
        seq![digit_char(n)]
    } else {
        spec_digits(n / 10).push(digit_char(n % 10))
    }
}

/// The decimal rendering of `n`: its digits, with a leading minus sign when
/// it is negative.
pub open spec fn spec_int_string(n: int) -> Seq<char> {
    if n < 0 {
        seq!['-'] + spec_digits((-n) as nat)
    } else {
        spec_digits(n as nat)
    }
}

/// The text of one decimal digit.
fn digit_str(d: u64) -> (r: &'static str)
    requires
        d < 10,
    ensures
        r@ == seq![digit_char(d as nat)],
{
    proof {
        reveal_strlit("0");
        reveal_strlit("1");
        reveal_strlit("2");
        reveal_strlit("3");
        reveal_strlit("4");
        reveal_strlit("5");
        reveal_strlit("6");
        reveal_strlit("7");
        reveal_strlit("8");
        reveal_strlit("9");
        assert("0"@ =~= seq!['0']);
        assert("1"@ =~= seq!['1']);
        assert("2"@ =~= seq!['2']);
        assert("3"@ =~= seq!['3']);
        assert("4"@ =~= seq!['4']);
        assert("5"@ =~= seq!['5']);
        assert("6"@ =~= seq!['6']);
        assert("7"@ =~= seq!['7']);
        assert("8"@ =~= seq!['8']);
        assert("9"@ =~= seq!['9']);
    }
    if d == 0 {
        "0"
    } else if d == 1 {
        "1"
    } else if d == 2 {
        "2"
    } else if d == 3 {
        "3"
    } else if d == 4 {
        "4"
    } else if d == 5 {
        "5"
    } else if d == 6 {
        "6"
    } else if d == 7 {
        "7"
    } else if d == 8 {
        "8"
    } else {
        "9"
    }
}

/// The decimal rendering of an unsigned number.
pub fn u64_to_string(m: u64) -> (r: String)
    ensures
        r@ == spec_digits(m as nat),
    decreases m,
{
    if m < 10 {
        String::from_str(digit_str(m))
    } else {
        let mut s = u64_to_string(m / 10);
        proof {
            assert(s@ + seq![digit_char((m % 10) as nat)] =~= spec_digits(
                (m / 10) as nat,
            ).push(digit_char((m % 10) as nat)));
        }
        s.append(digit_str(m % 10));
        s
    }
}

/// The decimal rendering of a signed number.
pub fn i64_to_string(n: i64) -> (r: String)
    ensures
        r@ == spec_int_string(n as int),
{
    if n >= 0 {
        u64_to_string(n as u64)
    } else {
        let magnitude: u64 = (-(n as i128)) as u64;
        let mut s = String::from_str("-");
        proof {
            reveal_strlit("-");
            assert("-"@ =~= seq!['-']);
        }
        s.append(u64_to_string(magnitude).as_str());
        s
    }
}

/// The query parameters a listing call carries, in their fixed order.
pub open spec fn spec_query_parts(
    limit: Option<int>,
    order: Option<Seq<char>>,
    after: Option<Seq<char>>,
    before: Option<Seq<char>>,
) -> Seq<Seq<char>> {
    let with_limit: Seq<Seq<char>> = match limit {
        Some(l) => seq![key_limit() + spec_int_string(l)],
        None => Seq::empty(),
    };
    let with_order: Seq<Seq<char>> = match order {
        Some(o) => with_limit.push(key_order() + o),
        None => with_limit,
    };
    let with_after: Seq<Seq<char>> = match after {
        Some(a) => with_order.push(key_after() + a),
        None => with_order,
    };
    match before {
        Some(b) => with_after.push(key_before() + b),
        None => with_after,
    }
}

/// The `limit=` key.
pub open spec fn key_limit() -> Seq<char> {
    seq!['l', 'i', 'm', 'i', 't', '=']
}

/// The `order=` key.
pub open spec fn key_order() -> Seq<char> {
    seq!['o', 'r', 'd', 'e', 'r', '=']
}

/// The `after=` key.
pub open spec fn key_after() -> Seq<char> {
    seq!['a', 'f', 't', 'e', 'r', '=']
}

/// The `before=` key.
pub open spec fn key_before() -> Seq<char> {
    seq!['b', 'e', 'f', 'o', 'r', 'e', '=']
}

/// The pieces joined with `&` between each two.
pub open spec fn spec_join_amp(pieces: Seq<Seq<char>>) -> Seq<char>
    decreases pieces.len(),
{
    if pieces.len() == 0 {
        Seq::empty()
    } else if pieces.len() == 1 {
        pieces[0]
    } else {
        spec_join_amp(pieces.drop_last()) + seq!['&'] + pieces.last()
    }
}

/// The listing URL: the given parameters, joined with `&` and appended to
/// the path after a `?`; the path alone when no parameter is set.
pub open spec fn spec_query_params(
    limit: Option<int>,
    order: Option<Seq<char>>,
    after: Option<Seq<char>>,
    before: Option<Seq<char>>,
    url: Seq<char>,
) -> Seq<char> {
    let parts = spec_query_parts(limit, order, after, before);
    if parts.len() == 0 {
        url
    } else {
        url + seq!['?'] + spec_join_amp(parts)
    }
}

/// Append the set parameters of a listing call to its path.
pub fn query_params(
    limit: Option<i64>,
    order: Option<String>,
    after: Option<String>,
    before: Option<String>,
    url: String,
) -> (r: String)
    ensures
        r@ == spec_query_params(
            match limit {
                Some(l) => Some(l as int),
                None => None,
            },
            order.deep_view(),
            after.deep_view(),
            before.deep_view(),
            url@,
        ),
{
    proof {
        reveal_strlit("limit=");
        reveal_strlit("order=");
        reveal_strlit("after=");
        reveal_strlit("before=");
        reveal_strlit("?");
        reveal_strlit("&");
        assert("limit="@ =~= key_limit());
        assert("order="@ =~= key_order());
        assert("after="@ =~= key_after());
        assert("before="@ =~= key_before());
        assert("?"@ =~= seq!['?']);
        assert("&"@ =~= seq!['&']);
    }
    let ghost parts = spec_query_parts(
        match limit {
            Some(l) => Some(l as int),
            None => None,
        },
        order.deep_view(),
        after.deep_view(),
        before.deep_view(),
    );
    let ghost mut done: Seq<Seq<char>> = Seq::empty();
    let mut joined = String::new();
    let mut any = false;
    if let Some(l) = limit {
        joined.append("limit=");
        joined.append(i64_to_string(l).as_str());
        any = true;
        proof {
            done = done.push(key_limit() + spec_int_string(l as int));
            assert(joined@ =~= spec_join_amp(done));
        }
    }
    if let Some(o) = &order {
        if any {
            joined.append("&");
        }
        joined.append("order=");
        joined.append(o.as_str());
        proof {
            let piece = key_order() + o@;
            assert(done.push(piece).drop_last() =~= done);
            assert(done.push(piece).last() == piece);
            done = done.push(piece);
            assert(joined@ =~= spec_join_amp(done));
        }
        any = true;
    }
    if let Some(a) = &after {
        if any {
            joined.append("&");
        }
        joined.append("after=");
        joined.append(a.as_str());
        proof {
            let piece = key_after() + a@;
            assert(done.push(piece).drop_last() =~= done);
            assert(done.push(piece).last() == piece);
            done = done.push(piece);
            assert(joined@ =~= spec_join_amp(done));
        }
        any = true;
    }
    if let Some(b) = &before {
        if any {
            joined.append("&");
        }
        joined.append("before=");
        joined.append(b.as_str());
        proof {
            let piece = key_before() + b@;
            assert(done.push(piece).drop_last() =~= done);
            assert(done.push(piece).last() == piece);
            done = done.push(piece);
            assert(joined@ =~= spec_join_amp(done));
        }
        any = true;
    }
    proof {
        assert(done =~= parts);
        assert(any <==> parts.len() > 0);
    }
    if !any {
        return url;
    }
    let mut out = url;
    out.append("?");
    out.append(joined.as_str());
    out
}

/// Whether a path addresses a beta endpoint, which needs the beta header.
pub open spec fn spec_is_beta(path: Seq<char>) -> bool {
    (path.len() >= 10 && path.subrange(0, 10) == "assistants"@) || (path.len() >= 7
        && path.subrange(0, 7) == "threads"@)
}

/// Whether a path addresses a beta endpoint: one under `assistants` or
/// `threads`.
pub fn is_beta(path: &str) -> (r: bool)
    ensures
        r == spec_is_beta(path@),
{
    proof {
        reveal_strlit("assistants");
        reveal_strlit("threads");
    }
    str_starts_with(path, "assistants") || str_starts_with(path, "threads")
}

/// A copy of `s` without its trailing occurrences of `c`.
pub open spec fn spec_trim_end_char(s: Seq<char>, c: char) -> Seq<char>
    decreases s.len(),
{
    if s.len() > 0 && s.last() == c {
        spec_trim_end_char(s.drop_last(), c)
    } else {
        s
    }
}

/// A copy of `s` without its leading occurrences of `c`.
pub open spec fn spec_trim_start_char(s: Seq<char>, c: char) -> Seq<char>
    decreases s.len(),
{
    if s.len() > 0 && s[0] == c {
        spec_trim_start_char(s.subrange(1, s.len() as int), c)
    } else {
        s
    }
}

/// Copy of `s` with every trailing occurrence of `c` removed.
pub fn trim_end_char(s: &str, c: char) -> (r: String)
    ensures
        r@ == spec_trim_end_char(s@, c),
{
    let n: usize = s.unicode_len();
    let mut b: usize = n;
    proof {
        assert(s@.subrange(0, n as int) =~= s@);
    }
    while b > 0 && s.get_char(b - 1) == c
        invariant
            0 <= b <= n,
            n == s@.len(),
            spec_trim_end_char(s@, c) == spec_trim_end_char(s@.subrange(0, b as int), c),
        decreases b,
    {
        proof {
            assert(s@.subrange(0, b as int).drop_last() =~= s@.subrange(0, b - 1));
            assert(s@.subrange(0, b as int).last() == s@[b - 1]);
        }
        b = b - 1;
    }
    proof {
        if b > 0 {
            assert(s@.subrange(0, b as int).last() == s@[b - 1]);
        }
    }
    String::from_str(s.substring_char(0, b))
}

/// Copy of `s` with every leading occurrence of `c` removed.
pub fn trim_start_char(s: &str, c: char) -> (r: String)
    ensures
        r@ == spec_trim_start_char(s@, c),
{
    let n: usize = s.unicode_len();
    let mut a: usize = 0;
    proof {
        assert(s@.subrange(0, n as int) =~= s@);
    }
    while a < n && s.get_char(a) == c
        invariant
            0 <= a <= n,
            n == s@.len(),
            spec_trim_start_char(s@, c) == spec_trim_start_char(s@.subrange(a as int, n as int), c),
        decreases n - a,
    {
        proof {
            assert(s@.subrange(a as int, n as int).subrange(1, n - a) =~= s@.subrange(
                a + 1,
                n as int,
            ));
            assert(s@.subrange(a as int, n as int)[0] == s@[a as int]);
        }
        a = a + 1;
    }
    proof {
        if a < n {
            assert(s@.subrange(a as int, n as int)[0] == s@[a as int]);
        }
    }
    String::from_str(s.substring_char(a, n))
}

/// The endpoint split at its first question mark: what precedes it, and what
/// follows it when there is one.
pub open spec fn spec_split_endpoint(endpoint: Seq<char>) -> (Seq<char>, Option<Seq<char>>) {
    match spec_find_from(endpoint, seq!['?'], 0) {
        Some(i) => (endpoint.subrange(0, i), Some(
            endpoint.subrange(i + 1, endpoint.len() as int),
        )),
        None => (endpoint, None),
    }
}

/// Split a configured endpoint into its base URL and its preserved query
/// string, if it carries one.
pub fn split_endpoint_query(endpoint: &str) -> (r: (String, Option<String>))
    ensures
        r.0@ == spec_split_endpoint(endpoint@).0,
        r.1.deep_view() == spec_split_endpoint(endpoint@).1,
{
    let n: usize = endpoint.unicode_len();
    match find_char_from(endpoint, '?', 0) {
        Some(i) => {
            let base = String::from_str(endpoint.substring_char(0, i));
            let query = String::from_str(endpoint.substring_char(i + 1, n));
            (base, Some(query))
        },
        None => {
            proof {
                assert(endpoint@.subrange(0, n as int) =~= endpoint@);
            }
            (String::from_str(endpoint.substring_char(0, n)), None)
        },
    }
}

/// The full request path: the base with its trailing slashes removed, one
/// slash, and the path with its leading slashes removed.
pub open spec fn spec_join_url_path(base: Seq<char>, path: Seq<char>) -> Seq<char> {
    spec_trim_end_char(base, '/') + seq!['/'] + spec_trim_start_char(path, '/')
}

/// Join an endpoint base and a request path with exactly one slash between
/// them.
pub fn join_url_path(base: &str, path: &str) -> (r: String)
    ensures
        r@ == spec_join_url_path(base@, path@),
{
    proof {
        reveal_strlit("/");
        assert("/"@ =~= seq!['/']);
    }
    let mut out = trim_end_char(base, '/');
    out.append("/");
    out.append(trim_start_char(path, '/').as_str());
    out
}

} // verus!
