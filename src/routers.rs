use vstd::prelude::*;

verus! {

/// The request methods the service tells apart.
pub enum Method {
    Get,
    Post,
    Put,
    Delete,
    Other,
}

/// The operation a request is dispatched to, with its path parameters.
pub enum Endpoint {
    Health,
    PostNewCourse,
    GetCourseForTeacher(i32),
    GetCourseDetail(i32, i32),
    DeleteCourse(i32, i32),
    UpdateCourseDetail(i32, i32),
}

pub open spec fn is_digit(c: char) -> bool {
    '0' <= c && c <= '9'
}

/// A non-empty run of decimal digits.
pub open spec fn all_digits(s: Seq<char>) -> bool {
    s.len() > 0 && forall|i: int| 0 <= i < s.len() ==> is_digit(#[trigger] s[i])
}

/// The number a run of decimal digits writes.
pub open spec fn digits_value(s: Seq<char>) -> int
    decreases s.len(),
{
    if s.len() == 0 {
        0
    } else {
        digits_value(s.drop_last()) * 10 + (s.last() as int - '0' as int)
    }
}

/// The `i32` a path segment writes: decimal digits after an optional sign,
/// within the range of `i32`.
pub open spec fn id_value(s: Seq<char>) -> Option<i32> {
    if all_digits(s) {
        if digits_value(s) <= i32::MAX {
            Some(digits_value(s) as i32)
        } else {
            None
        }
    } else if s.len() > 1 && s[0] == '+' && all_digits(s.skip(1)) && digits_value(s.skip(1))
        <= i32::MAX {
        Some(digits_value(s.skip(1)) as i32)
    } else if s.len() > 1 && s[0] == '-' && all_digits(s.skip(1)) && digits_value(s.skip(1))
        <= 0x8000_0000 {
        Some((-digits_value(s.skip(1))) as i32)
    } else {
        None
    }
}

pub open spec fn health_path() -> Seq<char> {
    seq!['/', 'h', 'e', 'a', 'l', 't', 'h']
}

pub open spec fn courses_prefix() -> Seq<char> {
    seq!['/', 'c', 'o', 'u', 'r', 's', 'e', 's', '/']
}

/// The position of the last `/` in `s`.
pub open spec fn last_slash(s: Seq<char>) -> Option<int>
    decreases s.len(),
{
    if s.len() == 0 {
        None
    } else if s.last() == '/' {
        Some(s.len() - 1)
    } else {
        last_slash(s.drop_last())
    }
}

/// The general routes: `GET /health`.
pub open spec fn general_route(m: Method, p: Seq<char>) -> Option<Endpoint> {
    if m is Get && p == health_path() {
        Some(Endpoint::Health)
    } else {
        None
    }
}

/// The course routes under `/courses/`.
pub open spec fn course_route(m: Method, p: Seq<char>) -> Option<Endpoint> {
    if p.len() < 9 || p.subrange(0, 9) != courses_prefix() {
        None
    } else {
        let rest = p.subrange(9, p.len() as int);
        match last_slash(rest) {
            None => if rest.len() == 0 {
                if m is Post {
                    Some(Endpoint::PostNewCourse)
                } else {
                    None
                }
            } else {
                match id_value(rest) {
                    Some(t) => if m is Get {
                        Some(Endpoint::GetCourseForTeacher(t))
                    } else {
                        None
                    },
                    None => None,
                }
            },
            Some(k) => match (id_value(rest.subrange(0, k)), id_value(rest.subrange(k + 1, rest.len() as int))) {
                (Some(t), Some(c)) => match m {
                    Method::Get => Some(Endpoint::GetCourseDetail(t, c)),
                    Method::Delete => Some(Endpoint::DeleteCourse(t, c)),
                    Method::Put => Some(Endpoint::UpdateCourseDetail(t, c)),
                    _ => None,
                },
                _ => None,
            },
        }
    }
}

/// The whole table: the general routes, then the course routes.
pub open spec fn route_of(m: Method, p: Seq<char>) -> Option<Endpoint> {
    match general_route(m, p) {
        Some(e) => Some(e),
        None => course_route(m, p),
    }
}

fn chars_of(s: &str) -> (r: Vec<char>)
    ensures
        r@ == s@,
{
    let n = s.unicode_len();
    let mut out: Vec<char> = Vec::new();
    let mut i: usize = 0;
    while i < n
        invariant
            n == s@.len(),
            0 <= i <= n,
            out@ == s@.subrange(0, i as int),
        decreases n - i,
    {
        out.push(s.get_char(i));
        i = i + 1;
        assert(out@ =~= s@.subrange(0, i as int));
    }
    assert(out@ =~= s@);
    out
}

/// The run of digits in `p[from..to]`, read as a number while it stays at
/// most 2^31; `None` when the run is empty, holds another character, or is larger.
fn digits_at(p: &Vec<char>, from: usize, to: usize) -> (r: Option<i64>)
    requires
        from <= to <= p@.len(),
    ensures
        match r {
            Some(v) => all_digits(p@.subrange(from as int, to as int)) && v == digits_value(
                p@.subrange(from as int, to as int),
            ) && 0 <= v <= 0x8000_0000,
            None => !all_digits(p@.subrange(from as int, to as int)) || digits_value(
                p@.subrange(from as int, to as int),
            ) > 0x8000_0000,
        },
{
    if from == to {
        return None;
    }
    let mut acc: i64 = 0;
    let mut big = false;
    let mut i: usize = from;
    while i < to
        invariant
            from <= i <= to <= p@.len(),
            forall|j: int| from <= j < i ==> is_digit(#[trigger] p@[j]),
            !big ==> acc == digits_value(p@.subrange(from as int, i as int)) && 0 <= acc
                <= 0x8000_0000,
            big ==> digits_value(p@.subrange(from as int, i as int)) > 0x8000_0000,
        decreases to - i,
    {
        let c = p[i];
        let ghost prefix = p@.subrange(from as int, i as int + 1);
        assert(prefix.drop_last() =~= p@.subrange(from as int, i as int));
        if !('0' <= c && c <= '9') {
            assert(!is_digit(p@.subrange(from as int, to as int)[i - from]));
            return None;
        }
        let d = (c as u32 - '0' as u32) as i64;
        if !big {
            if acc > (0x8000_0000i64 - d) / 10 {
                big = true;
            } else {
                acc = acc * 10 + d;
            }
        }
        i = i + 1;
    }
    let ghost whole = p@.subrange(from as int, to as int);
    assert forall|j: int| 0 <= j < whole.len() implies is_digit(#[trigger] whole[j]) by {
        assert(whole[j] == p@[from + j]);
    }
    if big {
        None
    } else {
        Some(acc)
    }
}

/// The `i32` that `p[from..to]` writes, as `id_value` reads it.
fn parse_id(p: &Vec<char>, from: usize, to: usize) -> (r: Option<i32>)
    requires
        from <= to <= p@.len(),
    ensures
        r == id_value(p@.subrange(from as int, to as int)),
{
    let ghost s = p@.subrange(from as int, to as int);
    match digits_at(p, from, to) {
        Some(v) => {
            if v <= 0x7fff_ffff {
                return Some(v as i32);
            } else {
                return None;
            }
        },
        None => {},
    }
    if to - from < 2 || !(p[from] == '+' || p[from] == '-') {
        assert(s.len() <= 1 || (s[0] != '+' && s[0] != '-'));
        return None;
    }
    assert(s.skip(1) =~= p@.subrange(from as int + 1, to as int));
    assert(!all_digits(s)) by {
        assert(!is_digit(s[0]));
    }
    match digits_at(p, from + 1, to) {
        Some(v) => {
            if p[from] == '-' {
                Some((-v) as i32)
            } else if v <= 0x7fff_ffff {
                Some(v as i32)
            } else {
                None
            }
        },
        None => None,
    }
}

fn is_health_path(p: &Vec<char>) -> (r: bool)
    ensures
        r == (p@ == health_path()),
{
    let r = p.len() == 7 && p[0] == '/' && p[1] == 'h' && p[2] == 'e' && p[3] == 'a' && p[4] == 'l'
        && p[5] == 't' && p[6] == 'h';
    proof {
        if r {
            assert(p@ =~= health_path());
        } else if p@ == health_path() {
            assert(p@[0] == '/' && p@[1] == 'h' && p@[2] == 'e' && p@[3] == 'a');
            assert(p@[4] == 'l' && p@[5] == 't' && p@[6] == 'h');
        }
    }
    r
}

fn has_courses_prefix(p: &Vec<char>) -> (r: bool)
    ensures
        r == (p@.len() >= 9 && p@.subrange(0, 9) == courses_prefix()),
{
    let r = p.len() >= 9 && p[0] == '/' && p[1] == 'c' && p[2] == 'o' && p[3] == 'u' && p[4] == 'r'
        && p[5] == 's' && p[6] == 'e' && p[7] == 's' && p[8] == '/';
    proof {
        let pre = p@.subrange(0, 9);
        if r {
            assert(pre =~= courses_prefix());
        } else if p@.len() >= 9 && pre == courses_prefix() {
            assert(pre[0] == '/' && pre[1] == 'c' && pre[2] == 'o' && pre[3] == 'u' && pre[4] == 'r');
            assert(pre[5] == 's' && pre[6] == 'e' && pre[7] == 's' && pre[8] == '/');
        }
    }
    r
}

/// The position of the last `/` in `p[from..]`, counted from `from`.
fn last_slash_from(p: &Vec<char>, from: usize) -> (r: Option<usize>)
    requires
        from <= p@.len(),
    ensures
        match r {
            Some(k) => last_slash(p@.subrange(from as int, p@.len() as int)) == Some(k as int) && k
                < p@.len() - from,
            None => last_slash(p@.subrange(from as int, p@.len() as int)) is None,
        },
{
    let mut found: Option<usize> = None;
    let mut i: usize = from;
    while i < p.len()
        invariant
            from <= i <= p@.len(),
            match found {
                Some(k) => last_slash(p@.subrange(from as int, i as int)) == Some(k as int) && k < i
                    - from,
                None => last_slash(p@.subrange(from as int, i as int)) is None,
            },
        decreases p@.len() - i,
    {
        let ghost prefix = p@.subrange(from as int, i as int + 1);
        assert(prefix.drop_last() =~= p@.subrange(from as int, i as int));
        if p[i] == '/' {
            found = Some(i - from);
        }
        i = i + 1;
    }
    found
}

/// The general routes: `GET /health`.
pub fn general_routers(method: &Method, path: &str) -> (r: Option<Endpoint>)
    ensures
        r == general_route(*method, path@),
{
    let p = chars_of(path);
    if matches!(method, Method::Get) && is_health_path(&p) {
        Some(Endpoint::Health)
    } else {
        None
    }
}

/// The course routes: `POST /courses/`, `GET /courses/{teacher_id}`, and
/// `GET`, `DELETE` and `PUT` of `/courses/{teacher_id}/{course_id}`.
pub fn course_routes(method: &Method, path: &str) -> (r: Option<Endpoint>)
    ensures
        r == course_route(*method, path@),
{
    let p = chars_of(path);
    if !has_courses_prefix(&p) {
        return None;
    }
    let n = p.len();
    let ghost rest = p@.subrange(9, n as int);
    match last_slash_from(&p, 9) {
        None => {
            if n == 9 {
                assert(rest.len() == 0);
                if matches!(method, Method::Post) {
                    Some(Endpoint::PostNewCourse)
                } else {
                    None
                }
            } else {
                match parse_id(&p, 9, n) {
                    Some(t) => if matches!(method, Method::Get) {
                        Some(Endpoint::GetCourseForTeacher(t))
                    } else {
                        None
                    },
                    None => None,
                }
            }
        },
        Some(k) => {
            assert(rest.subrange(0, k as int) =~= p@.subrange(9, 9 + k as int));
            assert(rest.subrange(k as int + 1, rest.len() as int) =~= p@.subrange(
                9 + k as int + 1,
                n as int,
            ));
            let t = parse_id(&p, 9, 9 + k);
            let c = parse_id(&p, 9 + k + 1, n);
            match (t, c) {
                (Some(t), Some(c)) => match method {
                    Method::Get => Some(Endpoint::GetCourseDetail(t, c)),
                    Method::Delete => Some(Endpoint::DeleteCourse(t, c)),
                    Method::Put => Some(Endpoint::UpdateCourseDetail(t, c)),
                    _ => None,
                },
                _ => None,
            }
        },
    }
}

/// The endpoint a request goes to, or `None` when no route matches.
pub fn route(method: &Method, path: &str) -> (r: Option<Endpoint>)
    ensures
        r == route_of(*method, path@),
{
    match general_routers(method, path) {
        Some(e) => Some(e),
        None => course_routes(method, path),
    }
}

} // verus!
