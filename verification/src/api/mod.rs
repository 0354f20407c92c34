//! REST API view of simulation state and telemetry.
//!
//! This module holds the pure logic of the two GET endpoints — `/state`
//! and `/telemetry` with its optional `from`/`to` range — request-target
//! splitting and query parsing. The socket handling around them is not
//! part of the library.

pub mod handlers;
pub mod types;

use vstd::prelude::*;

verus! {

use crate::text::{parse_digits_spec, parse_u64_digits};

/// The index of the first occurrence of `c` in `s`, or the length of `s`
/// when it does not occur.
pub open spec fn find_char_spec(s: Seq<char>, c: char) -> int
    decreases s.len(),
{
    if s.len() == 0 {
        0
    } else if s[0] == c {
        0
    } else {
        1 + find_char_spec(s.skip(1), c)
    }
}

/// The first occurrence lies within the text.
pub proof fn lemma_find_char_bounds(s: Seq<char>, c: char)
    ensures
        0 <= find_char_spec(s, c) <= s.len(),
    decreases s.len(),
{
    if s.len() == 0 {
    } else if s[0] == c {
    } else {
        lemma_find_char_bounds(s.skip(1), c);
    }
}

/// A position before which `c` does not occur, and at which it does (or
/// which is the end), is the first occurrence.
pub proof fn lemma_find_char_at(s: Seq<char>, c: char, k: int)
    requires
        0 <= k <= s.len(),
        forall|j: int| 0 <= j < k ==> s[j] != c,
        k < s.len() ==> s[k] == c,
    ensures
        find_char_spec(s, c) == k,
    decreases s.len(),
{
    if s.len() == 0 {
    } else if k == 0 {
    } else {
        assert(s[0] != c);
        assert forall|j: int| 0 <= j < k - 1 implies s.skip(1)[j] != c by {
            assert(s.skip(1)[j] == s[j + 1]);
        }
        if k - 1 < s.skip(1).len() {
            assert(s.skip(1)[k - 1] == s[k]);
        }
        lemma_find_char_at(s.skip(1), c, k - 1);
    }
}

/// The usize a query parameter text denotes: a non-empty digit text whose
/// value fits.
pub open spec fn query_value_spec(s: Seq<char>) -> Option<int> {
    match parse_digits_spec(s, 0) {
        Some(v) => if s.len() > 0 && 0 <= v <= usize::MAX {
            Some(v)
        } else {
            None
        },
        None => None,
    }
}

/// One `key=value` pair applied to the accumulated range parameters: the
/// key is everything before the first equals sign (the whole pair when
/// there is none), `from` and `to` take the parsed value, other keys are
/// ignored, and an unparsable `from`/`to` value fails the query.
pub open spec fn apply_pair_spec(
    seg: Seq<char>,
    from: Option<usize>,
    to: Option<usize>,
) -> Option<(Option<usize>, Option<usize>)> {
    let e = find_char_spec(seg, '=');
    let key = seg.take(e);
    let value = if e < seg.len() {
        seg.skip(e + 1)
    } else {
        Seq::<char>::empty()
    };
    if key == "from"@ {
        match query_value_spec(value) {
            Some(v) => Some((Some(v as usize), to)),
            None => None,
        }
    } else if key == "to"@ {
        match query_value_spec(value) {
            Some(v) => Some((from, Some(v as usize))),
            None => None,
        }
    } else {
        Some((from, to))
    }
}

/// The range parameters a query denotes: its `&`-separated non-empty
/// pairs applied left to right, so a later value wins.
pub open spec fn parse_query_spec(
    s: Seq<char>,
    from: Option<usize>,
    to: Option<usize>,
) -> Option<(Option<usize>, Option<usize>)>
    decreases s.len(),
    via parse_query_spec_decreases
{
    if s.len() == 0 {
        Some((from, to))
    } else {
        let k = find_char_spec(s, '&');
        let rest = if k < s.len() {
            s.skip(k + 1)
        } else {
            Seq::<char>::empty()
        };
        if k == 0 {
            parse_query_spec(rest, from, to)
        } else {
            match apply_pair_spec(s.take(k), from, to) {
                Some((f2, t2)) => parse_query_spec(rest, f2, t2),
                None => None,
            }
        }
    }
}

#[via_fn]
proof fn parse_query_spec_decreases(s: Seq<char>, from: Option<usize>, to: Option<usize>) {
    lemma_find_char_bounds(s, '&');
}

/// The whole telemetry query: the folded parameters, rejected when both
/// ends are present out of order.
pub open spec fn parse_from_to_spec(s: Seq<char>) -> Option<(Option<usize>, Option<usize>)> {
    match parse_query_spec(s, None, None) {
        Some((Some(f), Some(t))) => if f > t {
            None
        } else {
            Some((Some(f), Some(t)))
        },
        Some(r) => Some(r),
        None => None,
    }
}


/// Where a request lands: one of the two endpoints, or the client errors
/// the interface publishes (unknown path, wrong method).
#[derive(Clone, Copy, PartialEq, Eq, Structural, Debug)]
pub enum Route {
    /// `GET /state`: the configuration, KPI report and latest record.
    State,
    /// `GET /telemetry`: the records, optionally range-filtered.
    Telemetry,
    /// Any path this interface does not serve.
    NotFound,
    /// Any method other than GET.
    MethodNotAllowed,
}

/// Decides a request: only GET is allowed, `/state` and `/telemetry` are
/// the served paths, everything else is unknown.
pub fn route(method: &str, path: &str) -> (r: Route)
    ensures
        r == if method@ != "GET"@ {
            Route::MethodNotAllowed
        } else if path@ == "/state"@ {
            Route::State
        } else if path@ == "/telemetry"@ {
            Route::Telemetry
        } else {
            Route::NotFound
        },
{
    if !str_eq(method, "GET") {
        Route::MethodNotAllowed
    } else if str_eq(path, "/state") {
        Route::State
    } else if str_eq(path, "/telemetry") {
        Route::Telemetry
    } else {
        Route::NotFound
    }
}

/// Splits a request target into path and query: the path is everything
/// before the first question mark, the query everything after it (empty
/// when there is none).
pub fn split_target<'a>(target: &'a str) -> (r: (&'a str, &'a str))
    ensures
        forall|i: int| 0 <= i < r.0@.len() ==> r.0@[i] != '?',
        target@ == r.0@ + seq!['?'] + r.1@ || (r.1@.len() == 0 && target@ == r.0@),
{
    let n = target.unicode_len();
    let mut i: usize = 0;
    while i < n
        invariant
            0 <= i <= n,
            n == target@.len(),
            forall|j: int| 0 <= j < i ==> target@[j] != '?',
        decreases n - i,
    {
        if target.get_char(i) == '?' {
            let path = target.substring_char(0, i);
            let query = target.substring_char(i + 1, n);
            proof {
                assert(target@ =~= path@ + seq!['?'] + query@);
            }
            return (path, query);
        }
        i = i + 1;
    }
    proof {
        reveal_strlit("");
        assert(""@.len() == 0);
    }
    (target, "")
}

/// Parses one non-negative integer query parameter; the error message
/// names the parameter. Succeeds exactly on the values
/// [`query_value_spec`] accepts.
pub fn parse_usize_param(name: &str, value: &str) -> (r: Result<usize, String>)
    ensures
        match r {
            Ok(v) => query_value_spec(value@) == Some(v as int),
            Err(_) => query_value_spec(value@) is None,
        },
{
    let parsed = parse_u64_digits(value);
    match parsed {
        Some(v) => {
            if v <= usize::MAX as u64 {
                Ok(v as usize)
            } else {
                proof {
                    crate::text::lemma_parse_lower(value@, 0);
                }
                Err(param_error(name))
            }
        },
        None => Err(param_error(name)),
    }
}

/// The error text for an unparsable query parameter.
fn param_error(name: &str) -> (r: String) {
    let mut s = "query parameter `".to_owned();
    s.append(name);
    s.append("` must be a non-negative integer");
    s
}

/// Parses the optional `from` and `to` parameters of a telemetry query:
/// exactly [`parse_from_to_spec`]. An empty query carries neither; a
/// `from` or `to` value that is not a fitting number, or a pair given out
/// of order, is an error — the caller answers it with a client error.
pub fn parse_from_to(query: &str) -> (r: Result<(Option<usize>, Option<usize>), String>)
    ensures
        match r {
            Ok(v) => parse_from_to_spec(query@) == Some(v),
            Err(_) => parse_from_to_spec(query@) is None,
        },
{
    let folded = parse_query(query, None, None);
    match folded {
        Ok((from, to)) => {
            match (from, to) {
                (Some(f), Some(t)) => {
                    if f > t {
                        Err("query parameter `from` must be <= `to`".to_owned())
                    } else {
                        Ok((Some(f), Some(t)))
                    }
                },
                (f, t) => Ok((f, t)),
            }
        },
        Err(e) => Err(e),
    }
}

/// Folds the query's pairs into the range parameters: exactly
/// [`parse_query_spec`].
fn parse_query(s: &str, from: Option<usize>, to: Option<usize>) -> (r: Result<
    (Option<usize>, Option<usize>),
    String,
>)
    ensures
        match r {
            Ok(v) => parse_query_spec(s@, from, to) == Some(v),
            Err(_) => parse_query_spec(s@, from, to) is None,
        },
    decreases s@.len(),
{
    let n = s.unicode_len();
    if n == 0 {
        return Ok((from, to));
    }
    let mut k: usize = 0;
    while k < n && s.get_char(k) != '&'
        invariant
            0 <= k <= n,
            n == s@.len(),
            forall|j: int| 0 <= j < k ==> s@[j] != '&',
        decreases n - k,
    {
        k = k + 1;
    }
    proof {
        lemma_find_char_at(s@, '&', k as int);
        reveal_strlit("");
    }
    if k == 0 {
        let rest = s.substring_char(1, n);
        proof {
            assert(rest@ =~= s@.skip(1));
        }
        return parse_query(rest, from, to);
    }
    let pair = s.substring_char(0, k);
    proof {
        assert(pair@ =~= s@.take(k as int));
    }
    let applied = apply_pair(pair, from, to);
    match applied {
        Ok((f2, t2)) => {
            if k < n {
                let rest = s.substring_char(k + 1, n);
                proof {
                    assert(rest@ =~= s@.skip(k as int + 1));
                }
                parse_query(rest, f2, t2)
            } else {
                let rest = "";
                proof {
                    assert(rest@ =~= Seq::<char>::empty());
                }
                parse_query(rest, f2, t2)
            }
        },
        Err(e) => Err(e),
    }
}

/// Applies one `key=value` pair to the range parameters: exactly
/// [`apply_pair_spec`].
fn apply_pair(pair: &str, from: Option<usize>, to: Option<usize>) -> (r: Result<
    (Option<usize>, Option<usize>),
    String,
>)
    ensures
        match r {
            Ok(v) => apply_pair_spec(pair@, from, to) == Some(v),
            Err(_) => apply_pair_spec(pair@, from, to) is None,
        },
{
    let (key, value) = split_pair(pair);
    if str_eq(key.as_str(), "from") {
        let v = parse_usize_param("from", value.as_str());
        match v {
            Ok(v) => Ok((Some(v), to)),
            Err(e) => Err(e),
        }
    } else if str_eq(key.as_str(), "to") {
        let v = parse_usize_param("to", value.as_str());
        match v {
            Ok(v) => Ok((from, Some(v))),
            Err(e) => Err(e),
        }
    } else {
        Ok((from, to))
    }
}

/// Splits a `key=value` pair at its first equals sign; a pair without one
/// is all key with an empty value.
fn split_pair(pair: &str) -> (r: (String, String))
    ensures
        ({
            let e = find_char_spec(pair@, '=');
            &&& r.0@ == pair@.take(e)
            &&& r.1@ == if e < pair@.len() {
                pair@.skip(e + 1)
            } else {
                Seq::<char>::empty()
            }
        }),
{
    let n = pair.unicode_len();
    let mut i: usize = 0;
    while i < n
        invariant
            0 <= i <= n,
            n == pair@.len(),
            forall|j: int| 0 <= j < i ==> pair@[j] != '=',
        decreases n - i,
    {
        if pair.get_char(i) == '=' {
            let key_part = pair.substring_char(0, i);
            let value_part = pair.substring_char(i + 1, n);
            proof {
                lemma_find_char_at(pair@, '=', i as int);
                assert(key_part@ =~= pair@.take(i as int));
                assert(value_part@ =~= pair@.skip(i as int + 1));
            }
            return (key_part.to_owned(), value_part.to_owned());
        }
        i = i + 1;
    }
    proof {
        lemma_find_char_at(pair@, '=', n as int);
        reveal_strlit("");
        assert(pair@.take(n as int) =~= pair@);
    }
    (pair.to_owned(), String::new())
}

/// Whether two strings hold the same characters.
pub fn str_eq(a: &str, b: &str) -> (r: bool)
    ensures
        r == (a@ == b@),
{
    let sa = a.to_owned();
    let sb = b.to_owned();
    sa == sb
}

} // verus!
