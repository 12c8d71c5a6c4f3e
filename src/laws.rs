use crate::cache::{add_result, calls_after, get_result, load_result, CacheView, ResourceError};
use std::rc::Rc;
use vstd::prelude::*;

verus! {

/// Loading one name twice, first with details `p1`, then with `p2`: when the
/// first load hands out a resource, the second hands out the same one,
/// changes nothing and calls no loader, so the two calls together call the
/// loader at most once (exactly once, with `p1`, when the name was not held
/// before). `c0`, `c1`, `c2` are a record of loader calls (the names, or the
/// details handed over) before, between and after the two loads.
pub proof fn load_twice_is_one_load<R, T>(
    m0: CacheView<R>,
    m1: CacheView<R>,
    m2: CacheView<R>,
    c0: Seq<T>,
    c1: Seq<T>,
    c2: Seq<T>,
    name: Seq<char>,
    p1: T,
    p2: T,
    r1: Result<Rc<R>, ResourceError>,
    r2: Result<Rc<R>, ResourceError>,
)
    requires
        load_result(m0, name, m1, r1),
        c1 == calls_after(c0, m0, name, p1),
        load_result(m1, name, m2, r2),
        c2 == calls_after(c1, m1, name, p2),
        r1 is Ok,
    ensures
        r2 == r1,
        m2 == m1,
        c2 == c1,
        c2.len() <= c0.len() + 1,
        !m0.contains_key(name) ==> c2 == c0.push(p1),
{
}

/// A load of `name` with details `p` on an empty cache calls the loader
/// exactly once, and that call is recorded as `p` (the name, or the details
/// handed over) in the record of loader calls `c0` before and `c1` after.
pub proof fn miss_calls_loader_once<R, T>(
    m0: CacheView<R>,
    c0: Seq<T>,
    c1: Seq<T>,
    name: Seq<char>,
    p: T,
)
    requires
        m0 == CacheView::<R>::empty(),
        c1 == calls_after(c0, m0, name, p),
    ensures
        c1 == c0.push(p),
        c1.len() == c0.len() + 1,
{
}

/// Adding two values under a name that the cache does not hold: the first
/// one stays, and the second add hands out the first one's handle.
pub proof fn add_twice_keeps_first<R>(
    m0: CacheView<R>,
    m1: CacheView<R>,
    m2: CacheView<R>,
    name: Seq<char>,
    v1: R,
    v2: R,
    r1: Result<Rc<R>, ResourceError>,
    r2: Result<Rc<R>, ResourceError>,
)
    requires
        !m0.contains_key(name),
        add_result(m0, name, v1, m1, r1),
        add_result(m1, name, v2, m2, r2),
    ensures
        m2.contains_key(name),
        *m2[name] == v1,
        m2 == m1,
        r2 == r1,
{
}

/// `get` on a cache with no entries fails with `NotFound`, naming what was
/// asked for.
pub proof fn get_on_empty_is_not_found<R>(
    m: CacheView<R>,
    name: Seq<char>,
    r: Result<Rc<R>, ResourceError>,
)
    requires
        m == CacheView::<R>::empty(),
        get_result(m, name, r),
    ensures
        match r {
            Err(ResourceError::NotFound(n)) => n@ == name,
            _ => false,
        },
{
}

/// A load whose loader failed leaves no entry: a `get` of the same name
/// afterwards fails with `NotFound`.
pub proof fn failed_load_leaves_no_entry<R>(
    m0: CacheView<R>,
    m1: CacheView<R>,
    name: Seq<char>,
    r1: Result<Rc<R>, ResourceError>,
    r2: Result<Rc<R>, ResourceError>,
)
    requires
        load_result(m0, name, m1, r1),
        r1 is Err,
        get_result(m1, name, r2),
    ensures
        !m1.contains_key(name),
        match r2 {
            Err(ResourceError::NotFound(n)) => n@ == name,
            _ => false,
        },
{
}

/// Loading one name neither adds, removes nor changes the entry of another.
pub proof fn load_leaves_other_names_alone<R>(
    m0: CacheView<R>,
    m1: CacheView<R>,
    a: Seq<char>,
    b: Seq<char>,
    r: Result<Rc<R>, ResourceError>,
)
    requires
        load_result(m0, a, m1, r),
        a != b,
    ensures
        m1.contains_key(b) == m0.contains_key(b),
        m0.contains_key(b) ==> m1[b] == m0[b],
{
}

} // verus!
