use wasmstore::failure::{hex_string, ValidationFailure};
use wasmstore::hash::Commit;
use wasmstore::path::Path;
use wasmstore::store::{
    action_outcome, contains_outcome, endpoint, lookup_outcome, LookupOutcome, Version,
};

#[test]
fn hex_renders_exactly() {
    assert_eq!(hex_string(0), "0");
    assert_eq!(hex_string(9), "9");
    assert_eq!(hex_string(10), "a");
    assert_eq!(hex_string(255), "ff");
    assert_eq!(hex_string(0x1234), "1234");
    assert_eq!(hex_string(0xdeadbeef), "deadbeef");
    assert_eq!(hex_string(u64::MAX), "ffffffffffffffff");
}

#[test]
fn failure_renders_with_offset() {
    let f = ValidationFailure {
        message: "malformed section id".to_string(),
        offset: Some(0x1f),
    };
    assert_eq!(f.render(), "malformed section id (at offset 0x1f)");
}

#[test]
fn failure_renders_without_offset() {
    let f = ValidationFailure {
        message: "unable to open file".to_string(),
        offset: None,
    };
    assert_eq!(f.render(), "unable to open file");
}

#[test]
fn path_renders_single_string() {
    let p = Path::Text("test.wasm".to_string());
    assert_eq!(p.to_string(), "test.wasm");
}

#[test]
fn path_joins_components_with_slashes() {
    let p = Path::Parts(vec![
        "a".to_string(),
        "b".to_string(),
        "test.wasm".to_string(),
    ]);
    assert_eq!(p.to_string(), "a/b/test.wasm");
}

#[test]
fn path_with_one_component_has_no_slash() {
    let p = Path::Parts(vec!["solo".to_string()]);
    assert_eq!(p.to_string(), "solo");
}

#[test]
fn path_with_no_components_is_empty() {
    let p = Path::Parts(Vec::new());
    assert_eq!(p.to_string(), "");
}

#[test]
fn path_conversions() {
    assert_eq!(
        Path::from("x.wasm".to_string()),
        Path::Text("x.wasm".to_string())
    );
    assert_eq!(
        Path::from(wasmstore::hash::Hash("abc123".to_string())),
        Path::Text("abc123".to_string())
    );
    assert_eq!(
        Path::from(vec!["a".to_string(), "b".to_string()]),
        Path::Parts(vec!["a".to_string(), "b".to_string()])
    );
}

#[test]
fn hash_and_commit_conversions() {
    let h = wasmstore::hash::Hash::from("cafe".to_string());
    assert_eq!(h.as_str(), "cafe");
    assert_eq!(String::from(h), "cafe");
    let c = Commit::from("feed".to_string());
    assert_eq!(c.as_str(), "feed");
    assert_eq!(String::from(c), "feed");
}

#[test]
fn endpoint_is_prefixed_with_api_version() {
    assert_eq!(
        endpoint(Version::V1, "/module/test.wasm"),
        "/api/v1/module/test.wasm"
    );
    assert_eq!(endpoint(Version::V1, "/gc"), "/api/v1/gc");
}

#[test]
fn lookup_distinguishes_missing_from_failure() {
    assert_eq!(lookup_outcome(404, b"ignored".to_vec()), LookupOutcome::Missing);
    assert_eq!(
        lookup_outcome(200, b"bytes".to_vec()),
        LookupOutcome::Found(b"bytes".to_vec())
    );
    assert_eq!(
        lookup_outcome(500, b"boom".to_vec()),
        LookupOutcome::Failed(b"boom".to_vec())
    );
    assert_eq!(
        lookup_outcome(301, b"moved".to_vec()),
        LookupOutcome::Failed(b"moved".to_vec())
    );
}

#[test]
fn actions_surface_the_body_verbatim_on_failure() {
    assert_eq!(
        action_outcome(200, "hash-text".to_string()),
        Ok("hash-text".to_string())
    );
    assert_eq!(
        action_outcome(400, "bad request".to_string()),
        Err("bad request".to_string())
    );
}

#[test]
fn contains_follows_success_status() {
    assert!(contains_outcome(200));
    assert!(contains_outcome(204));
    assert!(!contains_outcome(404));
    assert!(!contains_outcome(500));
}

#[test]
fn commit_info_holds_the_record() {
    let info = wasmstore::store::CommitInfo {
        hash: Commit("c1".to_string()),
        parents: Some(vec![Commit("c0".to_string())]),
        date: 1700000000,
        author: "author".to_string(),
        message: "first".to_string(),
    };
    assert_eq!(info.hash.as_str(), "c1");
    assert_eq!(info.parents.as_ref().unwrap().len(), 1);
    assert_eq!(info.date, 1700000000);
    assert_eq!(wasmstore::Version::V1, wasmstore::Version::V1);
}

#[test]
fn operation_paths_match_the_store_api() {
    let p = Path::Parts(vec!["a".to_string(), "b.wasm".to_string()]);
    assert_eq!(wasmstore::store::module_operation(&p), "/module/a/b.wasm");
    assert_eq!(wasmstore::store::hash_operation(&p), "/hash/a/b.wasm");
    assert_eq!(wasmstore::store::modules_operation(&p), "/modules/a/b.wasm");
    assert_eq!(wasmstore::store::versions_operation(&p), "/versions/a/b.wasm");
    assert_eq!(wasmstore::store::branch_operation("dev"), "/branch/dev");
    let c = Commit("c9".to_string());
    assert_eq!(wasmstore::store::restore_operation(&c), "/restore/c9");
    assert_eq!(
        wasmstore::store::restore_path_operation(&c, &p),
        "/restore/c9/a/b.wasm"
    );
    assert_eq!(wasmstore::store::rollback_operation(&p), "/rollback/a/b.wasm");
    let h = wasmstore::hash::Hash("h7".to_string());
    assert_eq!(wasmstore::store::set_operation(&h, &p), "/hash/h7/a/b.wasm");
    assert_eq!(wasmstore::store::commit_operation(&c), "/commit/c9");
}
