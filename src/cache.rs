use std::rc::Rc;
use vstd::hash_map::StringHashMap;
use vstd::prelude::*;
use vstd::string::StringExecFns;

verus! {

/// Something that knows how to build a resource of kind `R` from `Args`
/// (a texture from a path, a font from a path and a size).
pub trait ResourceLoader<'l, R> {
    type Args: ?Sized;

    fn load(&'l self, details: &Self::Args) -> Result<R, String>;
}

/// Why a lookup or a load did not hand out a resource.
pub enum ResourceError {
    /// The loader failed; its message is kept as it was.
    LoadFailed(String),
    /// `get` was asked for a name that the cache does not hold.
    NotFound(String),
}

/// The text that a missing name is reported with, after the name.
pub open spec fn not_found_suffix() -> Seq<char> {
    seq![' ', 'n', 'o', 't', ' ', 'f', 'o', 'u', 'n', 'd']
}

impl ResourceError {
    /// The error as text: the loader's message as it was, or
    /// `"<name> not found"`.
    pub fn message(&self) -> (r: String)
        ensures
            r@ == match self {
                ResourceError::LoadFailed(m) => m@,
                ResourceError::NotFound(n) => n@ + not_found_suffix(),
            },
    {
        match self {
            ResourceError::LoadFailed(m) => m.clone(),
            ResourceError::NotFound(n) => {
                let mut text = n.clone();
                text.append(" not found");
                proof {
                    reveal_strlit(" not found");
                    assert(" not found"@ =~= not_found_suffix());
                }
                text
            },
        }
    }
}

/// The state of a cache: each name it holds, with the handle it shares.
pub type CacheView<R> = Map<Seq<char>, Rc<R>>;

/// What `load(name, ..)` does, from the cache `before` to the cache `after`,
/// returning `r`: a held name is a hit, which changes nothing; on a miss the
/// loader's value is added under `name`, or the loader's error is passed on
/// and the cache is left as it was.
pub open spec fn load_result<R>(
    before: CacheView<R>,
    name: Seq<char>,
    after: CacheView<R>,
    r: Result<Rc<R>, ResourceError>,
) -> bool {
    if before.contains_key(name) {
        r == Ok::<Rc<R>, ResourceError>(before[name]) && after == before
    } else {
        match r {
            Ok(h) => after == before.insert(name, h),
            Err(e) => e is LoadFailed && after == before,
        }
    }
}

/// A record of loader calls after a `load(name, ..)` on the cache `before`,
/// where `call` stands for that load's call (its name, or the details handed
/// over): one call more on a miss, none on a hit.
pub open spec fn calls_after<R, T>(calls: Seq<T>, before: CacheView<R>, name: Seq<char>, call: T) -> Seq<T> {
    if before.contains_key(name) {
        calls
    } else {
        calls.push(call)
    }
}

/// What `add(name, value)` does: a held name keeps its handle and `value` is
/// dropped; otherwise `value` is added under `name` in a new handle.
pub open spec fn add_result<R>(
    before: CacheView<R>,
    name: Seq<char>,
    value: R,
    after: CacheView<R>,
    r: Result<Rc<R>, ResourceError>,
) -> bool {
    if before.contains_key(name) {
        r == Ok::<Rc<R>, ResourceError>(before[name]) && after == before
    } else {
        match r {
            Ok(h) => *h == value && after == before.insert(name, h),
            Err(_) => false,
        }
    }
}

/// What `get(name)` returns on the cache `m`: the held handle, or
/// `NotFound` with the name asked for.
pub open spec fn get_result<R>(m: CacheView<R>, name: Seq<char>, r: Result<Rc<R>, ResourceError>) -> bool {
    if m.contains_key(name) {
        r == Ok::<Rc<R>, ResourceError>(m[name])
    } else {
        match r {
            Err(ResourceError::NotFound(n)) => n@ == name,
            _ => false,
        }
    }
}

/// Relies on `Rc::clone`: the new handle shares the value of `h`.
#[verifier::external_body]
fn share<R>(h: &Rc<R>) -> (r: Rc<R>)
    ensures
        r == *h,
{
    Rc::clone(h)
}

/// A cache of resources of kind `R`, keyed by name, that builds what it does
/// not hold yet through the loader `L`.
#[verifier::reject_recursive_types(R)]
pub struct ResourceManager<'l, R, L: 'l + ResourceLoader<'l, R>> {
    loader: &'l L,
    cache: StringHashMap<Rc<R>>,
    calls: Ghost<Seq<Seq<char>>>,
    handed: Ghost<Seq<&'l L::Args>>,
}

impl<'l, R, L: 'l + ResourceLoader<'l, R>> View for ResourceManager<'l, R, L> {
    type V = CacheView<R>;

    closed spec fn view(&self) -> CacheView<R> {
        self.cache@
    }
}

impl<'l, R, L: 'l + ResourceLoader<'l, R>> ResourceManager<'l, R, L> {
    /// The names the loader has been called for, in order of the calls.
    pub closed spec fn loader_calls(&self) -> Seq<Seq<char>> {
        self.calls@
    }

    /// The details handed to the loader, one for each call, in order of the
    /// calls.
    pub closed spec fn loader_args(&self) -> Seq<&'l L::Args> {
        self.handed@
    }

    /// The loader that this cache builds through, bound when it was made.
    pub closed spec fn loader(&self) -> &'l L {
        self.loader
    }

    /// An empty cache that builds through `loader`.
    pub fn new(loader: &'l L) -> (r: Self)
        ensures
            r@ == CacheView::<R>::empty(),
            r.loader_calls() == Seq::<Seq<char>>::empty(),
            r.loader_args() == Seq::<&'l L::Args>::empty(),
            r.loader() == loader,
    {
        ResourceManager {
            loader: loader,
            cache: StringHashMap::new(),
            calls: Ghost(Seq::empty()),
            handed: Ghost(Seq::empty()),
        }
    }

    fn lookup(&self, name: &str) -> (r: Option<Rc<R>>)
        ensures
            match r {
                Some(h) => self@.contains_key(name@) && h == self@[name@],
                None => !self@.contains_key(name@),
            },
    {
        match self.cache.get(name) {
            Some(h) => Some(share(h)),
            None => None,
        }
    }

    /// The handle held under `name`; on a miss, builds the resource from
    /// `details` with the loader (called once), keeps it under `name` and
    /// hands it out. `details` matter only on a miss. A loader error is passed
    /// on as `LoadFailed` and leaves the cache as it was.
    pub fn load(&mut self, name: &str, details: &L::Args) -> (r: Result<Rc<R>, ResourceError>)
        ensures
            load_result(old(self)@, name@, final(self)@, r),
            final(self).loader_calls() == calls_after(old(self).loader_calls(), old(self)@, name@, name@),
            final(self).loader_args() == calls_after(old(self).loader_args(), old(self)@, name@, details),
            final(self).loader() == old(self).loader(),
    {
        match self.lookup(name) {
            Some(h) => Ok(h),
            None => {
                let outcome = self.loader.load(details);
                self.calls = Ghost(self.calls@.push(name@));
                self.handed = Ghost(self.handed@.push(details));
                self.add_built(name, outcome)
            },
        }
    }

    /// Keeps what a loader built for `name`: a value is added as `add` adds
    /// it; an error is passed on as `LoadFailed` and leaves the cache as it
    /// was.
    pub fn add_built(&mut self, name: &str, outcome: Result<R, String>) -> (r: Result<
        Rc<R>,
        ResourceError,
    >)
        ensures
            final(self).loader_calls() == old(self).loader_calls(),
            final(self).loader_args() == old(self).loader_args(),
            final(self).loader() == old(self).loader(),
            match outcome {
                Ok(v) => add_result(old(self)@, name@, v, final(self)@, r),
                Err(e) => r == Err::<Rc<R>, ResourceError>(ResourceError::LoadFailed(e))
                    && final(self)@ == old(self)@,
            },
    {
        match outcome {
            Ok(v) => self.add(name, v),
            Err(e) => Err(ResourceError::LoadFailed(e)),
        }
    }

    /// The handle held under `name`; on a miss, keeps `item` under `name` in
    /// a new handle and hands that out. On a hit `item` is dropped: the first
    /// value added under a name stays.
    pub fn add(&mut self, name: &str, item: R) -> (r: Result<Rc<R>, ResourceError>)
        ensures
            add_result(old(self)@, name@, item, final(self)@, r),
            final(self).loader_calls() == old(self).loader_calls(),
            final(self).loader_args() == old(self).loader_args(),
            final(self).loader() == old(self).loader(),
    {
        match self.lookup(name) {
            Some(h) => Ok(h),
            None => {
                let resource = Rc::new(item);
                self.cache.insert(name.to_string(), share(&resource));
                Ok(resource)
            },
        }
    }

    /// The handle held under `name`, or `NotFound` with that name. Builds
    /// nothing.
    pub fn get(&mut self, name: &str) -> (r: Result<Rc<R>, ResourceError>)
        ensures
            get_result(old(self)@, name@, r),
            final(self)@ == old(self)@,
            final(self).loader_calls() == old(self).loader_calls(),
            final(self).loader_args() == old(self).loader_args(),
            final(self).loader() == old(self).loader(),
    {
        match self.lookup(name) {
            Some(h) => Ok(h),
            None => Err(ResourceError::NotFound(name.to_string())),
        }
    }
}

} // verus!
