//! The cache object: a thin handle carrying a name, a numeric id, a
//! creation timestamp and the resolved path of its backing file.
//!
//! The handle itself never touches the filesystem; reads, writes and
//! deletions against the backing path are filesystem effects performed by
//! the embedding application.

use vstd::prelude::*;

verus! {

/// The system clock type used for creation timestamps.
#[verifier::external_type_specification]
#[verifier::external_body]
pub struct ExSystemTime(std::time::SystemTime);

/// Reads the current wall-clock time.
///
/// Relies on `std::time::SystemTime::now`: the result depends on the
/// clock, so nothing is promised of the value.
#[verifier::external_body]
fn system_time_now() -> std::time::SystemTime {
    std::time::SystemTime::now()
}

/// The mathematical content of a `CacheObject`: its identity and backing
/// path.  The creation timestamp is an opaque clock value and is exposed
/// separately through `CacheObject::spec_created_at`.
pub struct ObjectView {
    pub name: Seq<char>,
    pub path: Seq<char>,
    pub id: u32,
}

/// Represents an individual cache object.  The backing path is fixed at
/// construction and never recomputed; whether the backing file exists is
/// not tracked here but queried live from the filesystem by the embedding
/// application.
#[derive(Debug)]
pub struct CacheObject {
    name: String,
    path: String,
    id: u32,
    created_at: std::time::SystemTime,
}

impl View for CacheObject {
    type V = ObjectView;

    closed spec fn view(&self) -> ObjectView {
        ObjectView { name: self.name@, path: self.path@, id: self.id }
    }
}

impl CacheObject {
    /// The creation timestamp recorded when the object was constructed.
    pub closed spec fn spec_created_at(&self) -> std::time::SystemTime {
        self.created_at
    }

    /// Creates a new `CacheObject` bound to the given backing path, stamped
    /// with the current time.
    ///
    /// Creating an object directly bypasses the manager's id and registry
    /// bookkeeping; it is meant for internal and test use.  Objects handed
    /// out by `Cache::create` carry ids the manager issued.
    pub fn new(name: String, path: String, id: u32) -> (r: Self)
        ensures
            r@.name == name@,
            r@.path == path@,
            r@.id == id,
    {
        CacheObject { name, path, id, created_at: system_time_now() }
    }

    /// Returns the cache object name.
    pub fn name(&self) -> (r: &str)
        ensures
            r@ == self@.name,
    {
        self.name.as_str()
    }

    /// Returns the path of the backing file.
    pub fn path(&self) -> (r: &str)
        ensures
            r@ == self@.path,
    {
        self.path.as_str()
    }

    /// Returns the creation time of the cache object.
    pub fn created_at(&self) -> (r: std::time::SystemTime)
        ensures
            r == self.spec_created_at(),
    {
        self.created_at
    }

    /// Returns the cache object id.
    pub fn id(&self) -> (r: u32)
        ensures
            r == self@.id,
    {
        self.id
    }

    /// Reports whether the cache object has expired under its lifecycle
    /// policy.
    ///
    /// The expiration feature has been retired; this check is kept for
    /// callers that still consult it and unconditionally reports that the
    /// object has not expired.
    pub fn is_expired(&self) -> (r: bool)
        ensures
            r == false,
    {
        false
    }
}

impl Clone for CacheObject {
    /// A copy of the handle: an independent value with identical identity
    /// fields, referring to the same backing file.
    fn clone(&self) -> (r: Self)
        ensures
            r@ == self@,
            r.spec_created_at() == self.spec_created_at(),
    {
        CacheObject {
            name: self.name.clone(),
            path: self.path.clone(),
            id: self.id,
            created_at: self.created_at,
        }
    }
}

} // verus!
