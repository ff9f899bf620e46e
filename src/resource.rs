use vstd::prelude::*;

verus! {

/// Result of loading data from a registry.
pub enum RegistryResource<T> {
    /// The requested resource was not found.
    NotFound,
    /// The cache key handed in is still valid and the cached data should be used.
    InCache,
    /// The cache is out of date: new data was obtained and should be used from now on.
    Download {
        resource: T,
        /// Opaque token of the client that issued it; `None` means the result is not cacheable.
        cache_key: Option<String>,
    },
}

impl<T> RegistryResource<T> {
    /// Whether the client confirmed that the caller's cache key is still valid.
    pub fn is_in_cache(&self) -> (r: bool)
        ensures
            r == (self is InCache),
    {
        match self {
            RegistryResource::InCache => true,
            _ => false,
        }
    }
}

/// The view of an optional cache key.
pub open spec fn key_view(k: Option<String>) -> Option<Seq<char>> {
    match k {
        Some(s) => Some(s@),
        None => None,
    }
}

/// Whether `k` holds at least one character.
pub(crate) fn non_empty(k: &String) -> (r: bool)
    ensures
        r == (k@.len() > 0),
{
    let empty = String::new();
    let same = *k == empty;
    proof {
        if k@.len() == 0 {
            assert(k@ =~= empty@);
        }
    }
    !same
}

pub(crate) fn copy_key(k: &Option<String>) -> (r: Option<String>)
    ensures
        key_view(r) == key_view(*k),
{
    match k {
        Some(s) => Some(s.clone()),
        None => None,
    }
}

} // verus!
