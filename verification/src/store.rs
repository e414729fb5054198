//! The data model and the decision rules of the remote content store's
//! protocol: which URL path an operation uses, and what each HTTP status
//! means for the caller. The transport itself lives outside this library;
//! these functions take the status and body it produced as plain values.

use vstd::prelude::*;

verus! {

/// The store protocol versions this client speaks.
#[derive(Debug, Clone, Copy, PartialEq, Eq, Structural)]
pub enum Version {
    V1,
}

/// What the store records about one commit.
#[derive(Debug, Clone)]
pub struct CommitInfo {
    pub hash: crate::hash::Commit,
    pub parents: Option<Vec<crate::hash::Commit>>,
    pub date: i64,
    pub author: String,
    pub message: String,
}

/// The path prefix of a protocol version.
pub open spec fn version_tag(v: Version) -> Seq<char> {
    match v {
        Version::V1 => "v1"@,
    }
}

/// The full URL path of an API operation under a protocol version.
pub fn endpoint(version: Version, operation: &str) -> (r: String)
    ensures
        r@ == "/api/"@ + version_tag(version) + operation@,
{
    let mut s = String::from_str("/api/");
    match version {
        Version::V1 => s.append("v1"),
    }
    s.append(operation);
    s
}

/// The URL path of a module lookup, addition, removal or presence probe.
pub fn module_operation(path: &crate::path::Path) -> (r: String)
    ensures
        r@ == "/module/"@ + path.text(),
{
    let mut s = String::from_str("/module/");
    let p = path.to_string();
    s.append(p.as_str());
    s
}

/// The URL path of a hash lookup.
pub fn hash_operation(path: &crate::path::Path) -> (r: String)
    ensures
        r@ == "/hash/"@ + path.text(),
{
    let mut s = String::from_str("/hash/");
    let p = path.to_string();
    s.append(p.as_str());
    s
}

/// The URL path of a listing below a path.
pub fn modules_operation(path: &crate::path::Path) -> (r: String)
    ensures
        r@ == "/modules/"@ + path.text(),
{
    let mut s = String::from_str("/modules/");
    let p = path.to_string();
    s.append(p.as_str());
    s
}

/// The URL path of a version listing for a path.
pub fn versions_operation(path: &crate::path::Path) -> (r: String)
    ensures
        r@ == "/versions/"@ + path.text(),
{
    let mut s = String::from_str("/versions/");
    let p = path.to_string();
    s.append(p.as_str());
    s
}

/// The URL path of a branch creation or deletion.
pub fn branch_operation(name: &str) -> (r: String)
    ensures
        r@ == "/branch/"@ + name@,
{
    let mut s = String::from_str("/branch/");
    s.append(name);
    s
}

/// The URL path of a whole-store restore to a commit.
pub fn restore_operation(commit: &crate::hash::Commit) -> (r: String)
    ensures
        r@ == "/restore/"@ + commit.0@,
{
    let mut s = String::from_str("/restore/");
    s.append(commit.0.as_str());
    s
}

/// The URL path of a restore of one path to a commit.
pub fn restore_path_operation(commit: &crate::hash::Commit, path: &crate::path::Path) -> (r:
    String)
    ensures
        r@ == "/restore/"@ + commit.0@ + "/"@ + path.text(),
{
    let mut s = String::from_str("/restore/");
    s.append(commit.0.as_str());
    s.append("/");
    let p = path.to_string();
    s.append(p.as_str());
    s
}

/// The URL path of a rollback of one path.
pub fn rollback_operation(path: &crate::path::Path) -> (r: String)
    ensures
        r@ == "/rollback/"@ + path.text(),
{
    let mut s = String::from_str("/rollback/");
    let p = path.to_string();
    s.append(p.as_str());
    s
}

/// The URL path that binds a path to an existing hash.
pub fn set_operation(hash: &crate::hash::Hash, path: &crate::path::Path) -> (r: String)
    ensures
        r@ == "/hash/"@ + hash.0@ + "/"@ + path.text(),
{
    let mut s = String::from_str("/hash/");
    s.append(hash.0.as_str());
    s.append("/");
    let p = path.to_string();
    s.append(p.as_str());
    s
}

/// The URL path of a commit record lookup.
pub fn commit_operation(commit: &crate::hash::Commit) -> (r: String)
    ensures
        r@ == "/commit/"@ + commit.0@,
{
    let mut s = String::from_str("/commit/");
    s.append(commit.0.as_str());
    s
}

/// Whether an HTTP status answers success: any status in the 2xx range.
pub open spec fn is_success(status: u16) -> bool {
    200 <= status < 300
}

/// What a lookup answered.
#[derive(Debug, Clone, PartialEq, Eq)]
pub enum LookupOutcome {
    /// The module exists; the response body holds it.
    Found(Vec<u8>),
    /// The store answered "not found": an empty result, not an error.
    Missing,
    /// Any other failure: the response body, verbatim.
    Failed(Vec<u8>),
}

/// Decides what a lookup's HTTP response means: 404 is an empty result, any
/// other non-success is a failure carrying the body verbatim, and a success
/// hands the body through.
pub fn lookup_outcome(status: u16, body: Vec<u8>) -> (r: LookupOutcome)
    ensures
        status == 404 ==> r == LookupOutcome::Missing,
        is_success(status) ==> r == LookupOutcome::Found(body),
        (status != 404 && !is_success(status)) ==> r == LookupOutcome::Failed(body),
{
    if status == 404 {
        LookupOutcome::Missing
    } else if 200 <= status && status < 300 {
        LookupOutcome::Found(body)
    } else {
        LookupOutcome::Failed(body)
    }
}

/// Decides what any other operation's HTTP response means: a success hands
/// the body through, any other status is a failure carrying the body
/// verbatim.
pub fn action_outcome(status: u16, body: String) -> (r: Result<String, String>)
    ensures
        is_success(status) ==> r == Ok::<String, String>(body),
        !is_success(status) ==> r == Err::<String, String>(body),
{
    if 200 <= status && status < 300 {
        Ok(body)
    } else {
        Err(body)
    }
}

/// Decides what a presence probe's HTTP response means: the module is there
/// exactly when the status answers success.
pub fn contains_outcome(status: u16) -> (r: bool)
    ensures
        r == is_success(status),
{
    200 <= status && status < 300
}

} // verus!
