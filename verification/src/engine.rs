//! The trusted boundary to the format engine (the `wasmparser` crate, built
//! on ordered containers so that everything it computes is a function of its
//! arguments). The engine owns the grammar and the semantic rules of the
//! binary format; its results are given names here, and the streaming,
//! resumption and nesting orchestration around them is verified in `driver`.
//!
//! The engine's two primitives act on one unit at a time: `Parser::parse`
//! decodes the next unit from the front of the buffer, and
//! `Validator::payload` checks it against the cumulative semantic state. The
//! decoded unit borrows the buffer and cannot outlive one transaction, so the
//! one trusted function below makes both calls, and its contract names each
//! primitive's result separately: the decode results as functions of
//! (parser, buffered bytes, end flag), the check results as functions of
//! those plus the validator value.

use vstd::prelude::*;

verus! {

#[verifier::external_type_specification]
#[verifier::external_body]
pub struct ExParser(wasmparser::Parser);

#[verifier::external_type_specification]
#[verifier::external_body]
pub struct ExValidator(wasmparser::Validator);

#[verifier::external_type_specification]
#[verifier::external_body]
pub struct ExBinaryReaderError(wasmparser::BinaryReaderError);

#[verifier::external_type_specification]
#[verifier::external_body]
pub struct ExWasmFeatures(wasmparser::WasmFeatures);

/// The parser value that starts a fresh top-level decode at the given stream
/// offset.
pub uninterp spec fn fresh_parser(offset: u64) -> wasmparser::Parser;

/// The descriptive text of an engine error, without the offset.
pub uninterp spec fn error_message(error: wasmparser::BinaryReaderError) -> Seq<char>;

/// The byte offset an engine error was detected at.
pub uninterp spec fn error_offset(error: wasmparser::BinaryReaderError) -> u64;

/// Whether decoding the next unit from the front of `data` fails.
pub uninterp spec fn decode_errs(parser: wasmparser::Parser, data: Seq<u8>, eof: bool) -> bool;

/// The error that decoding the next unit fails with, when it fails.
pub uninterp spec fn decode_error(
    parser: wasmparser::Parser,
    data: Seq<u8>,
    eof: bool,
) -> wasmparser::BinaryReaderError;

/// Whether the buffered bytes are insufficient to decode the next unit.
pub uninterp spec fn decode_needs_more(
    parser: wasmparser::Parser,
    data: Seq<u8>,
    eof: bool,
) -> bool;

/// How many more bytes the engine asks for when the buffer is insufficient.
pub uninterp spec fn decode_hint(parser: wasmparser::Parser, data: Seq<u8>, eof: bool) -> usize;

/// How many bytes of the buffer the next unit consumes.
pub uninterp spec fn decode_consumed(parser: wasmparser::Parser, data: Seq<u8>, eof: bool) -> usize;

/// Whether the next unit is the end marker of the container being decoded.
pub uninterp spec fn decode_is_end(parser: wasmparser::Parser, data: Seq<u8>, eof: bool) -> bool;

/// Whether the next unit opens a nested container.
pub uninterp spec fn decode_opens(parser: wasmparser::Parser, data: Seq<u8>, eof: bool) -> bool;

/// The fresh parser scoped to the nested container the next unit opens.
pub uninterp spec fn decode_sub_parser(
    parser: wasmparser::Parser,
    data: Seq<u8>,
    eof: bool,
) -> wasmparser::Parser;

/// The parser value after the next unit is decoded.
pub uninterp spec fn decode_next_parser(
    parser: wasmparser::Parser,
    data: Seq<u8>,
    eof: bool,
) -> wasmparser::Parser;

/// Whether the semantic check rejects the unit that decoding yields.
pub uninterp spec fn check_errs(
    parser: wasmparser::Parser,
    validator: wasmparser::Validator,
    data: Seq<u8>,
    eof: bool,
) -> bool;

/// The error the semantic check rejects that unit with, when it does.
pub uninterp spec fn check_error(
    parser: wasmparser::Parser,
    validator: wasmparser::Validator,
    data: Seq<u8>,
    eof: bool,
) -> wasmparser::BinaryReaderError;

/// The validator value after that unit is checked.
pub uninterp spec fn check_next_validator(
    parser: wasmparser::Parser,
    validator: wasmparser::Validator,
    data: Seq<u8>,
    eof: bool,
) -> wasmparser::Validator;

/// Relies on wasmparser::Parser::new: a plain constructor, the same value for
/// the same offset.
pub assume_specification[ wasmparser::Parser::new ](offset: u64) -> (r: wasmparser::Parser)
    ensures
        r == fresh_parser(offset),
;

/// Relies on the derived Clone of wasmparser::Parser: a field-for-field copy
/// of a struct of plain fields, equal to the value cloned.
pub assume_specification[ <wasmparser::Parser as Clone>::clone ](
    parser: &wasmparser::Parser,
) -> (r: wasmparser::Parser)
    ensures
        r == *parser,
;

/// Relies on wasmparser::WasmFeatures::all: the feature set with every
/// optional grammar extension enabled. Nothing is claimed of the value.
pub assume_specification[ wasmparser::WasmFeatures::all ]() -> wasmparser::WasmFeatures;

/// Relies on wasmparser::Validator::new_with_features: a fresh semantic
/// state accepting the given grammar extensions. Each validator value is
/// stamped with a process-wide identity, so nothing is claimed of the value;
/// the check results are named as functions of whichever value came back.
pub assume_specification[ wasmparser::Validator::new_with_features ](
    features: wasmparser::WasmFeatures,
) -> wasmparser::Validator;

/// Relies on wasmparser::BinaryReaderError::message: a field read.
pub assume_specification[ wasmparser::BinaryReaderError::message ](
    error: &wasmparser::BinaryReaderError,
) -> (r: &str)
    ensures
        r@ == error_message(*error),
;

/// Relies on wasmparser::BinaryReaderError::offset: a field read.
pub assume_specification[ wasmparser::BinaryReaderError::offset ](
    error: &wasmparser::BinaryReaderError,
) -> (r: u64)
    ensures
        r == error_offset(*error),
;

/// One engine transaction: the next unit decoded and checked, or the reason
/// there is none.
pub enum EngineStep {
    /// Not enough buffered bytes to decode a unit; at least this many more
    /// are needed. Never answered once `eof` was passed.
    NeedMore(usize),
    /// The buffered bytes cannot form a valid unit.
    DecodeFailed(wasmparser::BinaryReaderError),
    /// A unit was decoded but violates a semantic rule.
    CheckFailed(wasmparser::BinaryReaderError),
    /// A unit was decoded and accepted, consuming this many buffered bytes:
    /// the end marker of the current container, a unit opening a nested
    /// container (carrying that container's fresh parser), or an ordinary
    /// unit.
    Unit { consumed: usize, is_end: bool, nested: Option<wasmparser::Parser> },
}

/// Relies on wasmparser::Parser::parse and wasmparser::Validator::payload,
/// the format engine's two per-unit primitives, both functions of their
/// arguments alone (the validator is built on ordered containers). The
/// contract names each primitive's result: parse's outcome over
/// (parser, data, eof), payload's over those plus the validator; the only
/// unit decoded without consuming a byte is an end marker, insufficiency is
/// never reported once `eof` is passed, and the nested-container parsers are
/// those carried by the module and component section units.
#[verifier::external_body]
pub(crate) fn engine_step(
    parser: &mut wasmparser::Parser,
    validator: &mut wasmparser::Validator,
    data: &[u8],
    eof: bool,
) -> (r: EngineStep)
    ensures
        (r is DecodeFailed <==> decode_errs(*old(parser), data@, eof)),
        (r matches EngineStep::DecodeFailed(e) ==> e == decode_error(*old(parser), data@, eof)),
        (!decode_errs(*old(parser), data@, eof) ==> (r is NeedMore <==> decode_needs_more(
            *old(parser),
            data@,
            eof,
        ))),
        (r matches EngineStep::NeedMore(hint) ==> hint == decode_hint(*old(parser), data@, eof)
            && !eof),
        (!decode_errs(*old(parser), data@, eof) && !decode_needs_more(*old(parser), data@, eof)
            ==> (r is CheckFailed <==> check_errs(*old(parser), *old(validator), data@, eof))),
        (r matches EngineStep::CheckFailed(e) ==> e == check_error(
            *old(parser),
            *old(validator),
            data@,
            eof,
        )),
        (r matches EngineStep::Unit { consumed, is_end, nested } ==> {
            &&& consumed == decode_consumed(*old(parser), data@, eof)
            &&& consumed <= data@.len()
            &&& (consumed == 0 ==> is_end)
            &&& is_end == decode_is_end(*old(parser), data@, eof)
            &&& (is_end ==> nested is None)
            &&& (nested is Some <==> decode_opens(*old(parser), data@, eof))
            &&& (nested matches Some(q) ==> q == decode_sub_parser(*old(parser), data@, eof))
            &&& *final(parser) == decode_next_parser(*old(parser), data@, eof)
            &&& *final(validator) == check_next_validator(*old(parser), *old(validator), data@, eof)
        }),
{
    let (consumed, payload) = match parser.parse(data, eof) {
        Err(e) => return EngineStep::DecodeFailed(e),
        Ok(wasmparser::Chunk::NeedMoreData(hint)) => return EngineStep::NeedMore(hint),
        Ok(wasmparser::Chunk::Parsed { consumed, payload }) => (consumed, payload),
    };
    let nested = match &payload {
        wasmparser::Payload::ModuleSection { parser, .. } => Some(parser.clone()),
        wasmparser::Payload::ComponentSection { parser, .. } => Some(parser.clone()),
        _ => None,
    };
    match validator.payload(&payload) {
        Err(e) => EngineStep::CheckFailed(e),
        Ok(wasmparser::ValidPayload::End(_)) => EngineStep::Unit { consumed, is_end: true, nested },
        Ok(_) => EngineStep::Unit { consumed, is_end: false, nested },
    }
}

} // verus!
