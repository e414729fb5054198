use wasmstore::driver::{Driver, RunStatus};
use wasmstore::{validate, validate_chunks, ValidationFailure};

// A minimal, empty core module: magic, version 1, kind "module".
const EMPTY_MODULE: [u8; 8] = [0x00, 0x61, 0x73, 0x6d, 0x01, 0x00, 0x00, 0x00];

// A minimal, empty component: magic, version 13, kind "component".
const EMPTY_COMPONENT: [u8; 8] = [0x00, 0x61, 0x73, 0x6d, 0x0d, 0x00, 0x01, 0x00];

// A component holding one empty nested core module (section id 1, size 8).
fn nested_component() -> Vec<u8> {
    let mut bytes = EMPTY_COMPONENT.to_vec();
    bytes.push(0x01);
    bytes.push(0x08);
    bytes.extend_from_slice(&EMPTY_MODULE);
    bytes
}

// A component holding a nested component (section id 4) that itself holds an
// empty nested core module: two levels of nesting.
fn two_level_component() -> Vec<u8> {
    let inner = nested_component();
    let mut bytes = EMPTY_COMPONENT.to_vec();
    bytes.push(0x04);
    bytes.push(inner.len() as u8);
    bytes.extend_from_slice(&inner);
    bytes
}

// An empty module followed by a type section whose declared size exceeds the
// bytes actually present: truncated mid-body.
fn truncated_module() -> Vec<u8> {
    let mut bytes = EMPTY_MODULE.to_vec();
    bytes.extend_from_slice(&[0x01, 0x05, 0x01]);
    bytes
}

// A structurally well-formed module whose export section exports function 0
// although the module declares no functions: a semantic error.
fn semantically_invalid_module() -> Vec<u8> {
    let mut bytes = EMPTY_MODULE.to_vec();
    bytes.extend_from_slice(&[0x07, 0x05, 0x01, 0x01, 0x61, 0x00, 0x00]);
    bytes
}

fn one_byte_chunks(bytes: &[u8]) -> Vec<Vec<u8>> {
    bytes.iter().map(|b| vec![*b]).collect()
}

fn outcomes_match(
    a: &Result<(), ValidationFailure>,
    b: &Result<(), ValidationFailure>,
) -> bool {
    match (a, b) {
        (Ok(()), Ok(())) => true,
        (Err(x), Err(y)) => x.message == y.message && x.offset == y.offset,
        _ => false,
    }
}

#[test]
fn empty_module_validates() {
    assert!(validate(&EMPTY_MODULE).is_ok());
}

#[test]
fn empty_component_validates() {
    assert!(validate(&EMPTY_COMPONENT).is_ok());
}

#[test]
fn empty_module_touches_no_nested_level() {
    let mut driver = Driver::new();
    driver.feed(&EMPTY_MODULE);
    driver.declare_end();
    match driver.run() {
        RunStatus::Done => {}
        _ => panic!("expected success"),
    }
    assert!(driver.finished());
    assert_eq!(driver.levels(), 0);
    assert_eq!(driver.nesting_depth(), 0);
}

#[test]
fn truncated_module_fails_without_crash() {
    let r = validate(&truncated_module());
    let failure = r.expect_err("truncated input must fail");
    assert_eq!(failure.message, "unexpected end of input");
    assert!(failure.offset.is_some());
}

#[test]
fn truncated_header_fails_without_crash() {
    let r = validate(&EMPTY_MODULE[..3]);
    let failure = r.expect_err("truncated header must fail");
    assert_eq!(failure.message, "unexpected end of input");
}

#[test]
fn truncation_inside_a_nested_container_is_an_unclosed_container() {
    // A component whose nested module section promises eight bytes but the
    // input ends after four: the end of input arrives with the nesting stack
    // non-empty.
    let mut bytes = EMPTY_COMPONENT.to_vec();
    bytes.push(0x01);
    bytes.push(0x08);
    bytes.extend_from_slice(&EMPTY_MODULE[..4]);
    let r = validate(&bytes);
    let failure = r.expect_err("an unclosed nested container must fail");
    assert_eq!(failure.message, "unclosed nested container");
    assert!(failure.offset.is_some());
}

#[test]
fn bad_magic_fails_with_offset() {
    let r = validate(&[0x01, 0x02, 0x03, 0x04, 0x05, 0x06, 0x07, 0x08]);
    let failure = r.expect_err("a bad magic number must fail");
    assert!(failure.offset.is_some());
}

#[test]
fn semantic_error_is_attributed_to_the_unit() {
    let bytes = semantically_invalid_module();
    let r = validate(&bytes);
    let failure = r.expect_err("an export of a missing function must fail");
    let offset = failure.offset.expect("semantic failures carry an offset");
    // The offending unit is the export section, which begins at byte 8.
    assert!(offset >= 8);
    assert!(offset <= bytes.len() as u64);
}

#[test]
fn nested_component_validates() {
    assert!(validate(&nested_component()).is_ok());
}

#[test]
fn two_level_nesting_validates_and_counts_levels() {
    let bytes = two_level_component();
    assert!(validate(&bytes).is_ok());

    let mut driver = Driver::new();
    driver.feed(&bytes);
    driver.declare_end();
    match driver.run() {
        RunStatus::Done => {}
        _ => panic!("expected success"),
    }
    assert_eq!(driver.levels(), 2);
    assert_eq!(driver.nesting_depth(), 0);
}

#[test]
fn whole_buffer_and_one_chunk_agree() {
    let bytes = nested_component();
    let whole = validate(&bytes);
    let chunked = validate_chunks(&vec![bytes.clone()]);
    assert!(outcomes_match(&whole, &chunked));
}

#[test]
fn byte_at_a_time_agrees_on_success_cases() {
    for bytes in [
        EMPTY_MODULE.to_vec(),
        EMPTY_COMPONENT.to_vec(),
        nested_component(),
        two_level_component(),
    ] {
        let whole = validate(&bytes);
        let pieces = validate_chunks(&one_byte_chunks(&bytes));
        assert!(whole.is_ok());
        assert!(outcomes_match(&whole, &pieces));
    }
}

#[test]
fn byte_at_a_time_agrees_on_failure_cases() {
    for bytes in [
        truncated_module(),
        semantically_invalid_module(),
        EMPTY_MODULE[..3].to_vec(),
        vec![0x01, 0x02, 0x03, 0x04, 0x05, 0x06, 0x07, 0x08],
    ] {
        let whole = validate(&bytes);
        let pieces = validate_chunks(&one_byte_chunks(&bytes));
        assert!(whole.is_err());
        assert!(outcomes_match(&whole, &pieces));
    }
}

#[test]
fn uneven_splits_agree_with_whole_buffer() {
    let bytes = two_level_component();
    let whole = validate(&bytes);
    for split in [1usize, 2, 3, 5, 7, 11] {
        let chunks: Vec<Vec<u8>> = bytes.chunks(split).map(|c| c.to_vec()).collect();
        let pieces = validate_chunks(&chunks);
        assert!(outcomes_match(&whole, &pieces));
    }
}

#[test]
fn driver_reports_need_input_before_the_end() {
    let mut driver = Driver::new();
    driver.feed(&EMPTY_MODULE[..4]);
    match driver.run() {
        RunStatus::NeedInput(_) => {}
        _ => panic!("half a header cannot be decoded"),
    }
    // Nothing was consumed: the half header is still buffered.
    assert_eq!(driver.buffered_len(), 4);
    driver.feed(&EMPTY_MODULE[4..]);
    driver.declare_end();
    match driver.run() {
        RunStatus::Done => {}
        _ => panic!("expected success"),
    }
}

#[test]
fn trailing_bytes_after_root_end_are_not_consumed() {
    // The root container of a module closes only at the end of the input, so
    // drive a component whose nested module is followed by more input.
    let mut bytes = nested_component();
    bytes.extend_from_slice(&[0xff, 0xff, 0xff]);
    let mut driver = Driver::new();
    driver.feed(&bytes);
    driver.declare_end();
    // The trailing garbage makes the root component fail or succeed depending
    // on the grammar; what must never happen is a crash.
    let _ = driver.run();
}
