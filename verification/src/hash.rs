//! Content hashes and commit identifiers as the store hands them out: opaque
//! strings, kept verbatim.

use vstd::prelude::*;

verus! {

/// An opaque content hash, exactly as the store prints it.
#[derive(Debug, Clone, PartialEq, Eq, PartialOrd, Ord)]
pub struct Hash(pub String);

/// An opaque commit identifier, exactly as the store prints it.
#[derive(Debug, Clone, PartialEq, Eq, PartialOrd, Ord)]
pub struct Commit(pub String);

impl Hash {
    /// The hash text itself.
    pub fn as_str(&self) -> (r: &str)
        ensures
            r@ == self.0@,
    {
        self.0.as_str()
    }
}

impl Commit {
    /// The commit text itself.
    pub fn as_str(&self) -> (r: &str)
        ensures
            r@ == self.0@,
    {
        self.0.as_str()
    }
}

impl From<String> for Hash {
    fn from(s: String) -> Hash {
        Hash(s)
    }
}

impl vstd::std_specs::convert::FromSpecImpl<String> for Hash {
    open spec fn obeys_from_spec() -> bool {
        true
    }

    open spec fn from_spec(s: String) -> Hash {
        Hash(s)
    }
}

impl From<Hash> for String {
    fn from(h: Hash) -> String {
        h.0
    }
}

impl vstd::std_specs::convert::FromSpecImpl<Hash> for String {
    open spec fn obeys_from_spec() -> bool {
        true
    }

    open spec fn from_spec(h: Hash) -> String {
        h.0
    }
}

impl From<String> for Commit {
    fn from(s: String) -> Commit {
        Commit(s)
    }
}

impl vstd::std_specs::convert::FromSpecImpl<String> for Commit {
    open spec fn obeys_from_spec() -> bool {
        true
    }

    open spec fn from_spec(s: String) -> Commit {
        Commit(s)
    }
}

impl From<Commit> for String {
    fn from(c: Commit) -> String {
        c.0
    }
}

impl vstd::std_specs::convert::FromSpecImpl<Commit> for String {
    open spec fn obeys_from_spec() -> bool {
        true
    }

    open spec fn from_spec(c: Commit) -> String {
        c.0
    }
}

} // verus!
