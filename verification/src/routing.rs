//! The resource router: a static table mapping method and path to a
//! handler, an `:id` path segment that must parse as a signed 32-bit
//! integer, and a fallback for everything unmatched.

use vstd::prelude::*;

use crate::models::RouteDefinition;

verus! {

/// A decimal digit.
pub open spec fn is_digit(c: char) -> bool {
    48 <= c as u32 <= 57
}

/// The numeric value of one digit.
pub open spec fn digit_val(c: char) -> int {
    c as u32 - 48
}

/// Every character of `s` is a decimal digit.
pub open spec fn all_digits(s: Seq<char>) -> bool {
    forall|i: int| 0 <= i < s.len() ==> is_digit(#[trigger] s[i])
}

/// The value of a digit string, most significant digit first.
pub open spec fn digits_val(s: Seq<char>) -> int
    decreases s.len(),
{
    if s.len() == 0 {
        0
    } else {
        digits_val(s.drop_last()) * 10 + digit_val(s.last())
    }
}

/// What a signed 32-bit integer literal denotes: an optional sign
/// followed by at least one digit, with the value in range — exactly
/// the strings the id extractor accepts.
pub open spec fn spec_parse_i32(s: Seq<char>) -> Option<int> {
    if s.len() > 0 && (s[0] == '-' || s[0] == '+') {
        let ds = s.skip(1);
        if ds.len() > 0 && all_digits(ds) {
            let v = if s[0] == '-' {
                -digits_val(ds)
            } else {
                digits_val(ds)
            };
            if i32::MIN <= v <= i32::MAX {
                Some(v)
            } else {
                None
            }
        } else {
            None
        }
    } else {
        if s.len() > 0 && all_digits(s) {
            if digits_val(s) <= i32::MAX {
                Some(digits_val(s))
            } else {
                None
            }
        } else {
            None
        }
    }
}

/// A digit string denotes a non-negative value.
pub proof fn lemma_digits_val_nonneg(s: Seq<char>)
    requires
        all_digits(s),
    ensures
        digits_val(s) >= 0,
    decreases s.len(),
{
    if s.len() > 0 {
        assert forall|i: int| 0 <= i < s.drop_last().len() implies is_digit(
            #[trigger] s.drop_last()[i],
        ) by {
            assert(s.drop_last()[i] == s[i]);
        }
        lemma_digits_val_nonneg(s.drop_last());
        assert(s.last() == s[s.len() - 1]);
    }
}

/// Extending a digit string never lowers its value: the value of a
/// prefix is a lower bound on the value of the whole.
pub proof fn lemma_digits_val_prefix(s: Seq<char>, k: int)
    requires
        all_digits(s),
        0 <= k <= s.len(),
    ensures
        0 <= digits_val(s.take(k)) <= digits_val(s),
    decreases s.len() - k,
{
    assert forall|i: int| 0 <= i < s.take(k).len() implies is_digit(#[trigger] s.take(k)[i]) by {
        assert(s.take(k)[i] == s[i]);
    }
    lemma_digits_val_nonneg(s.take(k));
    if k < s.len() {
        lemma_digits_val_prefix(s, k + 1);
        assert(s.take(k + 1).drop_last() =~= s.take(k));
        assert(s.take(k + 1).last() == s[k]);
        assert(digits_val(s.take(k + 1)) == digits_val(s.take(k)) * 10 + digit_val(s[k]));
        assert(is_digit(s[k]));
    } else {
        assert(s.take(k) =~= s);
    }
}

/// Parses a signed 32-bit integer exactly as the id extractor does:
/// the result is `Some` if and only if the string is an in-range
/// integer literal, and then carries its value.
pub fn parse_i32(s: &str) -> (r: Option<i32>)
    ensures
        r is Some <==> spec_parse_i32(s@) is Some,
        r matches Some(v) ==> spec_parse_i32(s@) == Some(v as int),
{
    let n = s.unicode_len();
    if n == 0 {
        return None;
    }
    let first = s.get_char(0);
    let neg = first == '-';
    let start: usize = if first == '-' || first == '+' {
        1
    } else {
        0
    };
    if start == n {
        return None;
    }
    let ghost ds = s@.subrange(start as int, n as int);
    proof {
        if start == 1 {
            assert(ds =~= s@.skip(1));
        } else {
            assert(ds =~= s@);
        }
    }
    let mut i = start;
    let mut acc: u64 = 0;
    while i < n
        invariant
            start <= i <= n,
            start < n,
            n == s@.len(),
            start == 0 || start == 1,
            (start == 1) <==> (s@[0] == '-' || s@[0] == '+'),
            neg <==> (s@[0] == '-' && start == 1),
            ds == s@.subrange(start as int, n as int),
            start == 1 ==> ds == s@.skip(1),
            start == 0 ==> ds == s@,
            acc <= 2147483648,
            acc == digits_val(s@.subrange(start as int, i as int)),
            all_digits(s@.subrange(start as int, i as int)),
        decreases n - i,
    {
        let c = s.get_char(i);
        let u = c as u32;
        proof {
            assert(s@.subrange(start as int, i as int + 1).drop_last() =~= s@.subrange(
                start as int,
                i as int,
            ));
            assert(s@.subrange(start as int, i as int + 1).last() == s@[i as int]);
        }
        if u < 48 || u > 57 {
            proof {
                assert(ds[i - start] == s@[i as int]);
                assert(!is_digit(ds[i - start]));
            }
            return None;
        }
        acc = acc * 10 + ((u - 48) as u64);
        proof {
            let p = s@.subrange(start as int, i as int + 1);
            assert forall|j: int| 0 <= j < p.len() implies is_digit(#[trigger] p[j]) by {
                assert(p[j] == s@[start + j]);
                if j < p.len() - 1 {
                    assert(s@.subrange(start as int, i as int)[j] == s@[start + j]);
                }
            }
        }
        if acc > 2147483648 {
            proof {
                if all_digits(ds) {
                    lemma_digits_val_prefix(ds, i as int + 1 - start);
                    assert(ds.take(i as int + 1 - start) =~= s@.subrange(
                        start as int,
                        i as int + 1,
                    ));
                }
            }
            return None;
        }
        i += 1;
    }
    proof {
        assert(s@.subrange(start as int, n as int) == ds);
    }
    if neg {
        if acc == 2147483648 {
            return Some(i32::MIN);
        }
        Some(-(acc as i32))
    } else {
        if acc > 2147483647 {
            return None;
        }
        Some(acc as i32)
    }
}

/// Character-by-character string equality; the result is exactly
/// whether the two views agree.
pub fn str_eq(a: &str, b: &str) -> (r: bool)
    ensures
        r == (a@ == b@),
{
    let n = a.unicode_len();
    if n != b.unicode_len() {
        return false;
    }
    let mut i: usize = 0;
    while i < n
        invariant
            i <= n,
            n == a@.len(),
            n == b@.len(),
            forall|j: int| 0 <= j < i ==> a@[j] == #[trigger] b@[j],
        decreases n - i,
    {
        if a.get_char(i) != b.get_char(i) {
            return false;
        }
        i += 1;
    }
    proof {
        assert(a@ =~= b@);
    }
    true
}

/// A path of the shape `/school/<segment>` with a non-empty segment
/// holding no further slash: the shape of the get and delete routes.
pub open spec fn is_school_id_path(path: Seq<char>) -> bool {
    &&& path.len() > 8
    &&& path.take(8) == "/school/"@
    &&& forall|i: int| 8 <= i < path.len() ==> path[i] != '/'
}

/// The `:id` segment of a `/school/<segment>` path.
pub open spec fn id_segment(path: Seq<char>) -> Seq<char> {
    path.skip(8)
}

/// Splits the `:id` segment out of a `/school/<segment>` path, and
/// returns nothing exactly when the path has no such shape.
pub fn school_id_segment<'a>(path: &'a str) -> (r: Option<&'a str>)
    ensures
        r is Some <==> is_school_id_path(path@),
        r matches Some(seg) ==> seg@ == id_segment(path@),
{
    proof {
        reveal_strlit("/school/");
    }
    let n = path.unicode_len();
    if n <= 8 {
        return None;
    }
    let prefix = "/school/";
    let mut i: usize = 0;
    while i < 8
        invariant
            i <= 8,
            n == path@.len(),
            n > 8,
            prefix@ == "/school/"@,
            prefix@.len() == 8,
            forall|j: int| 0 <= j < i ==> path@[j] == #[trigger] "/school/"@[j],
        decreases 8 - i,
    {
        if path.get_char(i) != prefix.get_char(i) {
            proof {
                if path@.take(8) == "/school/"@ {
                    assert(path@.take(8)[i as int] == path@[i as int]);
                }
            }
            return None;
        }
        i += 1;
    }
    proof {
        assert(path@.take(8) =~= "/school/"@);
    }
    let mut j: usize = 8;
    while j < n
        invariant
            8 <= j <= n,
            n == path@.len(),
            path@.take(8) == "/school/"@,
            forall|k: int| 8 <= k < j ==> #[trigger] path@[k] != '/',
        decreases n - j,
    {
        if path.get_char(j) == '/' {
            return None;
        }
        j += 1;
    }
    let seg = path.substring_char(8, n);
    proof {
        assert(seg@ =~= path@.skip(8));
    }
    Some(seg)
}

/// The routes of the service.  A request either reaches one of the five
/// declared handlers, is rejected for a malformed id, or falls through
/// to the fallback.
#[derive(Clone, Copy, Debug, PartialEq, Eq, Structural)]
pub enum Route {
    /// GET `/`: the discovery endpoint listing the route table.
    Index,
    /// GET `/school/`: list every school.
    ListSchools,
    /// GET `/school/:id`: fetch one school by id.
    GetSchool(i32),
    /// POST `/school/`: create a school.
    CreateSchool,
    /// DELETE `/school/:id`: delete one school by id.
    DeleteSchool(i32),
    /// A get or delete path whose `:id` segment is not an in-range
    /// signed integer: rejected before the store is consulted.
    InvalidId,
    /// Anything unmatched: handled by the 404 fallback.
    Fallback,
}

/// The route table as a function: which handler a method and path reach.
pub open spec fn spec_route(method: Seq<char>, path: Seq<char>) -> Route {
    if method == "GET"@ && path == "/"@ {
        Route::Index
    } else if method == "GET"@ && path == "/school/"@ {
        Route::ListSchools
    } else if method == "POST"@ && path == "/school/"@ {
        Route::CreateSchool
    } else if method == "GET"@ && is_school_id_path(path) {
        match spec_parse_i32(id_segment(path)) {
            Some(v) => Route::GetSchool(v as i32),
            None => Route::InvalidId,
        }
    } else if method == "DELETE"@ && is_school_id_path(path) {
        match spec_parse_i32(id_segment(path)) {
            Some(v) => Route::DeleteSchool(v as i32),
            None => Route::InvalidId,
        }
    } else {
        Route::Fallback
    }
}

/// Dispatches a method and path through the route table.
pub fn match_route(method: &str, path: &str) -> (r: Route)
    ensures
        r == spec_route(method@, path@),
{
    let is_get = str_eq(method, "GET");
    if is_get && str_eq(path, "/") {
        return Route::Index;
    }
    if is_get && str_eq(path, "/school/") {
        return Route::ListSchools;
    }
    if str_eq(method, "POST") && str_eq(path, "/school/") {
        return Route::CreateSchool;
    }
    let is_delete = str_eq(method, "DELETE");
    if is_get || is_delete {
        if let Some(seg) = school_id_segment(path) {
            return match parse_i32(seg) {
                Some(v) => if is_get {
                    Route::GetSchool(v)
                } else {
                    Route::DeleteSchool(v)
                },
                None => Route::InvalidId,
            };
        }
    }
    Route::Fallback
}

/// The machine-readable route table served by the discovery endpoint:
/// the four resource operations, excluding the discovery route itself
/// and the fallback.
pub fn route_definitions() -> (r: Vec<RouteDefinition>)
    ensures
        r@.len() == 4,
        r@[0].method@ == "GET"@ && r@[0].url@ == "/school/"@,
        r@[1].method@ == "GET"@ && r@[1].url@ == "/school/:id"@,
        r@[2].method@ == "POST"@ && r@[2].url@ == "/school/"@,
        r@[3].method@ == "DELETE"@ && r@[3].url@ == "/school/:id"@,
{
    let mut r: Vec<RouteDefinition> = Vec::new();
    r.push(RouteDefinition { url: "/school/".to_owned(), method: "GET".to_owned() });
    r.push(RouteDefinition { url: "/school/:id".to_owned(), method: "GET".to_owned() });
    r.push(RouteDefinition { url: "/school/".to_owned(), method: "POST".to_owned() });
    r.push(RouteDefinition { url: "/school/:id".to_owned(), method: "DELETE".to_owned() });
    r
}

} // verus!
