//! The validation driver: it owns the byte window, the engine's parser and
//! semantic state, and the nesting stack, and runs the decode/nest/check/
//! drain loop until the top-level container closes or the first error.
//!
//! The driver's contracts pin the loop down over the engine's named results:
//! `verdict_step` folds those names over the evolving state, `run` returns
//! exactly that fold once the input is over, and `validate` returns exactly
//! `verdict` of the whole input. Alongside the verdict, the contracts carry
//! the structural guarantees: consumption is monotone, the window holds
//! exactly the not-yet-consumed suffix of everything supplied, and success
//! is announced only when the top-level container ends with no nested
//! container still open.

use vstd::prelude::*;

use crate::engine;
use crate::engine::EngineStep;
use crate::failure::ValidationFailure;
use crate::window::ByteWindow;

verus! {

/// The outcome of one driver step: one attempt to decode and check a unit.
pub enum Step {
    /// Not enough buffered bytes to decode the next unit; at least this many
    /// more are needed before stepping again.
    NeedInput(usize),
    /// One unit was decoded, checked and drained; the call is not finished.
    Progress,
    /// The top-level container just closed: validation succeeded.
    Done,
    /// Decoding or checking failed; the call is over.
    Failed(ValidationFailure),
}

/// The outcome of driving steps as far as the buffered input allows.
pub enum RunStatus {
    /// Progress stopped for want of input; at least this many more bytes are
    /// needed before running again.
    NeedInput(usize),
    /// The top-level container closed: validation succeeded.
    Done,
    /// Decoding or checking failed; the call is over.
    Failed(ValidationFailure),
}

/// The engine's wording for input that ends before the current unit does.
pub open spec fn engine_eof_message() -> Seq<char> {
    "unexpected end-of-file"@
}

/// This library's distinct message for input that ends prematurely at the
/// top level.
pub open spec fn premature_end_message() -> Seq<char> {
    "unexpected end of input"@
}

/// This library's distinct message for input that ends while a nested
/// container is still open.
pub open spec fn unclosed_container_message() -> Seq<char> {
    "unclosed nested container"@
}

/// The message a decode failure carries: the engine's own text, except that
/// its end-of-file wording is replaced by the distinct premature-end
/// messages, which tell an unclosed nested container apart from a truncated
/// top level.
pub open spec fn decode_failure_message(raw: Seq<char>, depth: nat) -> Seq<char> {
    if raw == engine_eof_message() {
        if depth > 0 {
            unclosed_container_message()
        } else {
            premature_end_message()
        }
    } else {
        raw
    }
}

/// The verdict of the remaining validation, as a fold of the engine's named
/// results over the remaining state, once the input is complete: the parser,
/// the validator, the suspended parser states of the open containers, and
/// the buffered bytes. A failure carries its message and offset. The fuel
/// only bounds the recursion; every unit but an end marker consumes a byte,
/// so on any actual state the fold ends long before the fuel does.
pub open spec fn verdict_step(
    parser: wasmparser::Parser,
    validator: wasmparser::Validator,
    saved: Seq<wasmparser::Parser>,
    buf: Seq<u8>,
    fuel: nat,
) -> Result<(), (Seq<char>, u64)>
    decreases fuel,
{
    if engine::decode_errs(parser, buf, true) {
        Err(
            (
                decode_failure_message(
                    engine::error_message(engine::decode_error(parser, buf, true)),
                    saved.len(),
                ),
                engine::error_offset(engine::decode_error(parser, buf, true)),
            ),
        )
    } else if engine::decode_needs_more(parser, buf, true) {
        // the engine never asks for more bytes once told the input is over;
        // no actual run reaches this case
        Err((premature_end_message(), 0))
    } else if engine::check_errs(parser, validator, buf, true) {
        Err(
            (
                engine::error_message(engine::check_error(parser, validator, buf, true)),
                engine::error_offset(engine::check_error(parser, validator, buf, true)),
            ),
        )
    } else if engine::decode_is_end(parser, buf, true) {
        if saved.len() == 0 {
            Ok(())
        } else if fuel == 0 {
            Ok(())
        } else {
            verdict_step(
                saved.last(),
                engine::check_next_validator(parser, validator, buf, true),
                saved.drop_last(),
                buf.skip(engine::decode_consumed(parser, buf, true) as int),
                (fuel - 1) as nat,
            )
        }
    } else if fuel == 0 {
        Ok(())
    } else {
        verdict_step(
            if engine::decode_opens(parser, buf, true) {
                engine::decode_sub_parser(parser, buf, true)
            } else {
                engine::decode_next_parser(parser, buf, true)
            },
            engine::check_next_validator(parser, validator, buf, true),
            if engine::decode_opens(parser, buf, true) {
                saved.push(engine::decode_next_parser(parser, buf, true))
            } else {
                saved
            },
            buf.skip(engine::decode_consumed(parser, buf, true) as int),
            (fuel - 1) as nat,
        )
    }
}

/// The verdict on a complete input: the fold started on a fresh parser at
/// offset zero and on the given initial semantic state. The engine stamps
/// each validator value with a process-wide identity, so a validation call
/// fixes the initial value existentially rather than by name.
pub open spec fn verdict(v0: wasmparser::Validator, input: Seq<u8>) -> Result<
    (),
    (Seq<char>, u64),
> {
    verdict_step(engine::fresh_parser(0), v0, Seq::empty(), input, (2 * input.len() + 1) as nat)
}

/// The verdict of the remaining validation from a driver's current state.
pub open spec fn verdict_from(d: Driver) -> Result<(), (Seq<char>, u64)> {
    verdict_step(
        d.parser_state(),
        d.validator_state(),
        d.saved_states(),
        d.buffered(),
        (2 * d.buffered().len() + d.depth() + 1) as nat,
    )
}

/// One validation call's entire state: window, parser, nesting stack and
/// cumulative semantic state. Created at the start of the call, discarded at
/// its end; nothing is shared between calls.
pub struct Driver {
    parser: wasmparser::Parser,
    stack: Vec<wasmparser::Parser>,
    validator: wasmparser::Validator,
    window: ByteWindow,
    eof: bool,
    finished: bool,
    opened: u64,
    history: Ghost<Seq<u8>>,
}

impl Driver {
    /// Every byte ever supplied to this call, in order.
    pub closed spec fn supplied(&self) -> Seq<u8> {
        self.history@
    }

    /// The buffered bytes not yet consumed by the decoder.
    pub closed spec fn buffered(&self) -> Seq<u8> {
        self.window@
    }

    /// How many supplied bytes the decoder has consumed so far.
    pub open spec fn consumed(&self) -> int {
        self.supplied().len() - self.buffered().len()
    }

    /// How many nested containers are open: the depth of the nesting stack.
    pub closed spec fn depth(&self) -> nat {
        self.stack@.len()
    }

    /// Whether the caller has declared that no more input will ever come.
    pub closed spec fn input_ended(&self) -> bool {
        self.eof
    }

    /// Whether the top-level container has closed successfully.
    pub closed spec fn is_finished(&self) -> bool {
        self.finished
    }

    /// How many nested containers have been entered over the whole call
    /// (saturating at the counter's limit).
    pub closed spec fn levels_opened(&self) -> u64 {
        self.opened
    }

    /// The engine's parser value for the container currently being decoded.
    pub closed spec fn parser_state(&self) -> wasmparser::Parser {
        self.parser
    }

    /// The engine's cumulative semantic state.
    pub closed spec fn validator_state(&self) -> wasmparser::Validator {
        self.validator
    }

    /// The suspended parser states of the containers entered and not yet
    /// closed, outermost first.
    pub closed spec fn saved_states(&self) -> Seq<wasmparser::Parser> {
        self.stack@
    }

    /// Whether the engine's next decode on this state fails.
    pub open spec fn next_decode_errs(&self) -> bool {
        engine::decode_errs(self.parser_state(), self.buffered(), self.input_ended())
    }

    /// The error the engine's next decode fails with, when it does.
    pub open spec fn next_decode_error(&self) -> wasmparser::BinaryReaderError {
        engine::decode_error(self.parser_state(), self.buffered(), self.input_ended())
    }

    /// Whether the buffered bytes are insufficient for the next unit.
    pub open spec fn next_needs_more(&self) -> bool {
        engine::decode_needs_more(self.parser_state(), self.buffered(), self.input_ended())
    }

    /// How many more bytes the engine asks for when they are insufficient.
    pub open spec fn next_hint(&self) -> usize {
        engine::decode_hint(self.parser_state(), self.buffered(), self.input_ended())
    }

    /// How many buffered bytes the next unit consumes.
    pub open spec fn next_consumed(&self) -> usize {
        engine::decode_consumed(self.parser_state(), self.buffered(), self.input_ended())
    }

    /// Whether the next unit is the end marker of the current container.
    pub open spec fn next_is_end(&self) -> bool {
        engine::decode_is_end(self.parser_state(), self.buffered(), self.input_ended())
    }

    /// Whether the next unit opens a nested container.
    pub open spec fn next_opens(&self) -> bool {
        engine::decode_opens(self.parser_state(), self.buffered(), self.input_ended())
    }

    /// The fresh parser for the nested container the next unit opens.
    pub open spec fn next_sub_parser(&self) -> wasmparser::Parser {
        engine::decode_sub_parser(self.parser_state(), self.buffered(), self.input_ended())
    }

    /// The parser value after the next unit is decoded.
    pub open spec fn next_parser_after(&self) -> wasmparser::Parser {
        engine::decode_next_parser(self.parser_state(), self.buffered(), self.input_ended())
    }

    /// Whether the semantic check rejects the next unit.
    pub open spec fn next_check_errs(&self) -> bool {
        engine::check_errs(
            self.parser_state(),
            self.validator_state(),
            self.buffered(),
            self.input_ended(),
        )
    }

    /// The error the semantic check rejects the next unit with, when it does.
    pub open spec fn next_check_error(&self) -> wasmparser::BinaryReaderError {
        engine::check_error(
            self.parser_state(),
            self.validator_state(),
            self.buffered(),
            self.input_ended(),
        )
    }

    /// The validator value after the next unit is checked.
    pub open spec fn next_validator_after(&self) -> wasmparser::Validator {
        engine::check_next_validator(
            self.parser_state(),
            self.validator_state(),
            self.buffered(),
            self.input_ended(),
        )
    }

    /// The driver's invariant: the window holds exactly the not-yet-consumed
    /// suffix of the supplied bytes, and a finished driver has no nested
    /// container still open.
    pub closed spec fn inv(&self) -> bool {
        &&& self.window@.len() <= self.history@.len()
        &&& self.window@ == self.history@.skip(self.history@.len() - self.window@.len())
        &&& (self.finished ==> self.stack@.len() == 0)
    }

    /// Total consumption never exceeds total supply, and the window retains
    /// exactly the bytes supplied and not yet consumed.
    pub proof fn lemma_monotonic_consumption(&self)
        requires
            self.inv(),
        ensures
            0 <= self.consumed() <= self.supplied().len(),
            self.buffered() == self.supplied().skip(self.consumed()),
    {
    }

    /// The nesting stack's depth never goes below zero, and a call that has
    /// finished successfully has no nested container still open.
    pub proof fn lemma_nesting_invariant(&self)
        requires
            self.inv(),
        ensures
            self.depth() >= 0,
            self.is_finished() ==> self.depth() == 0,
    {
    }

    /// Whether the top-level container has closed successfully.
    pub fn finished(&self) -> (r: bool)
        ensures
            r == self.is_finished(),
    {
        self.finished
    }

    /// Whether the caller has declared the end of the input.
    pub fn ended(&self) -> (r: bool)
        ensures
            r == self.input_ended(),
    {
        self.eof
    }

    /// The depth of the nesting stack: how many containers are entered and
    /// not yet closed.
    pub fn nesting_depth(&self) -> (r: usize)
        ensures
            r == self.depth(),
    {
        self.stack.len()
    }

    /// How many nested containers have been entered over the whole call.
    pub fn levels(&self) -> (r: u64)
        ensures
            r == self.levels_opened(),
    {
        self.opened
    }

    /// How many bytes are buffered and not yet consumed.
    pub fn buffered_len(&self) -> (r: usize)
        ensures
            r == self.buffered().len(),
    {
        self.window.len()
    }

    /// A driver for a fresh validation call, at stream offset zero, with
    /// every optional grammar extension enabled.
    pub fn new() -> (r: Driver)
        ensures
            r.inv(),
            r.supplied() == Seq::<u8>::empty(),
            r.buffered() == Seq::<u8>::empty(),
            r.depth() == 0,
            !r.input_ended(),
            !r.is_finished(),
            r.levels_opened() == 0,
            r.parser_state() == engine::fresh_parser(0),
            r.saved_states() == Seq::<wasmparser::Parser>::empty(),
    {
        let features = wasmparser::WasmFeatures::all();
        let driver = Driver {
            parser: wasmparser::Parser::new(0),
            stack: Vec::new(),
            validator: wasmparser::Validator::new_with_features(features),
            window: ByteWindow::new(),
            eof: false,
            finished: false,
            opened: 0,
            history: Ghost(Seq::empty()),
        };
        proof {
            assert(driver.window@ =~= driver.history@.skip(
                driver.history@.len() - driver.window@.len(),
            ));
        }
        driver
    }

    /// Appends freshly read bytes to the window. Allowed only while the input
    /// has not been declared over and the call has not finished.
    pub fn feed(&mut self, chunk: &[u8])
        requires
            old(self).inv(),
            !old(self).input_ended(),
            !old(self).is_finished(),
        ensures
            final(self).inv(),
            final(self).supplied() == old(self).supplied() + chunk@,
            final(self).buffered() == old(self).buffered() + chunk@,
            final(self).consumed() == old(self).consumed(),
            final(self).depth() == old(self).depth(),
            !final(self).input_ended(),
            !final(self).is_finished(),
            final(self).levels_opened() == old(self).levels_opened(),
            final(self).parser_state() == old(self).parser_state(),
            final(self).validator_state() == old(self).validator_state(),
            final(self).saved_states() == old(self).saved_states(),
    {
        self.window.append(chunk);
        proof {
            self.history@ = self.history@ + chunk@;
            assert(self.window@ =~= self.history@.skip(
                self.history@.len() - self.window@.len(),
            ));
        }
    }

    /// Declares that no more input will ever come: the source is exhausted.
    pub fn declare_end(&mut self)
        requires
            old(self).inv(),
        ensures
            final(self).inv(),
            final(self).input_ended(),
            final(self).supplied() == old(self).supplied(),
            final(self).buffered() == old(self).buffered(),
            final(self).depth() == old(self).depth(),
            final(self).is_finished() == old(self).is_finished(),
            final(self).levels_opened() == old(self).levels_opened(),
            final(self).parser_state() == old(self).parser_state(),
            final(self).validator_state() == old(self).validator_state(),
            final(self).saved_states() == old(self).saved_states(),
    {
        self.eof = true;
    }

    /// Attempts to decode, check and drain exactly one unit.
    ///
    /// The outcome is pinned to the engine's named results on the state the
    /// step starts from: a decode failure carries that error's message (with
    /// the engine's end-of-file wording replaced by the distinct
    /// premature-end messages) and offset; insufficiency asks for the named
    /// hint; a rejected unit carries the check error's message and offset; an
    /// accepted unit drains exactly the named consumed prefix, pushes the
    /// current parser and enters the named fresh one when it opens a nested
    /// container, pops and resumes the suspended parser on an end marker, and
    /// finishes the call on the end marker of the top-level container.
    pub fn step(&mut self) -> (r: Step)
        requires
            old(self).inv(),
            !old(self).is_finished(),
        ensures
            final(self).inv(),
            final(self).supplied() == old(self).supplied(),
            final(self).input_ended() == old(self).input_ended(),
            old(self).consumed() <= final(self).consumed(),
            final(self).levels_opened() >= old(self).levels_opened(),
            final(self).depth() <= old(self).depth() + 1,
            old(self).depth() <= final(self).depth() + 1,
            (final(self).is_finished() <==> r is Done),
            (old(self).next_decode_errs() ==> (r matches Step::Failed(f) && f.message@
                == decode_failure_message(
                engine::error_message(old(self).next_decode_error()),
                old(self).depth(),
            ) && f.offset == Some(engine::error_offset(old(self).next_decode_error())))),
            (!old(self).next_decode_errs() && old(self).next_needs_more() ==> r
                == Step::NeedInput(old(self).next_hint())),
            (!old(self).next_decode_errs() && !old(self).next_needs_more() && old(self).next_check_errs() ==> (r matches Step::Failed(f) && f.message@
                == engine::error_message(old(self).next_check_error()) && f.offset == Some(
                engine::error_offset(old(self).next_check_error()),
            ))),
            (!old(self).next_decode_errs() && !old(self).next_needs_more() && !old(self).next_check_errs() ==> final(self).validator_state() == old(self).next_validator_after() && (if old(self).next_is_end() {
                if old(self).depth() == 0 {
                    r is Done && final(self).buffered() == old(self).buffered() && final(self).saved_states() == old(self).saved_states()
                } else {
                    r is Progress && final(self).parser_state() == old(self).saved_states().last()
                        && final(self).saved_states() == old(self).saved_states().drop_last()
                        && final(self).buffered() == old(self).buffered().skip(
                        old(self).next_consumed() as int,
                    )
                }
            } else {
                r is Progress && final(self).buffered() == old(self).buffered().skip(
                    old(self).next_consumed() as int,
                ) && (if old(self).next_opens() {
                    final(self).parser_state() == old(self).next_sub_parser() && final(self).saved_states() == old(self).saved_states().push(old(self).next_parser_after())
                } else {
                    final(self).parser_state() == old(self).next_parser_after() && final(self).saved_states() == old(self).saved_states()
                })
            })),
            (r matches Step::Failed(f) ==> f.offset is Some && (old(self).next_decode_errs() || (
            !old(self).next_needs_more() && old(self).next_check_errs()))),
            (r is NeedInput ==> !old(self).input_ended() && final(self).buffered() == old(self).buffered() && final(self).depth() == old(self).depth() && final(self).levels_opened()
                == old(self).levels_opened() && final(self).saved_states() == old(self).saved_states()),
            (r is Done ==> old(self).depth() == 0 && final(self).depth() == 0 && final(self).buffered() == old(self).buffered()),
            (r is Progress ==> 2 * final(self).buffered().len() + final(self).depth() < 2 * old(self).buffered().len() + old(self).depth()),
    {
        match engine::engine_step(
            &mut self.parser,
            &mut self.validator,
            self.window.as_bytes(),
            self.eof,
        ) {
            EngineStep::NeedMore(hint) => Step::NeedInput(hint),
            EngineStep::DecodeFailed(e) => {
                let depth = self.stack.len();
                Step::Failed(decode_failure(&e, depth))
            },
            EngineStep::CheckFailed(e) => Step::Failed(check_failure(&e)),
            EngineStep::Unit { consumed, is_end, nested } => {
                match nested {
                    Some(fresh) => {
                        let suspended = self.parser.clone();
                        self.stack.push(suspended);
                        self.parser = fresh;
                        if self.opened < u64::MAX {
                            self.opened = self.opened + 1;
                        }
                    },
                    None => {},
                }
                if is_end {
                    match self.stack.pop() {
                        Some(parent) => {
                            self.parser = parent;
                            self.drain(consumed);
                            Step::Progress
                        },
                        None => {
                            // The top-level container just closed: the call
                            // is complete, and any further input bytes are
                            // not consumed.
                            self.finished = true;
                            Step::Done
                        },
                    }
                } else {
                    self.drain(consumed);
                    Step::Progress
                }
            },
        }
    }

    /// Drops a consumed prefix from the window, keeping the invariant that
    /// the window is the unconsumed suffix of everything supplied.
    fn drain(&mut self, consumed: usize)
        requires
            consumed <= old(self).window@.len(),
            old(self).window@.len() <= old(self).history@.len(),
            old(self).window@ == old(self).history@.skip(
                old(self).history@.len() - old(self).window@.len(),
            ),
        ensures
            final(self).window@ == old(self).window@.skip(consumed as int),
            final(self).history == old(self).history,
            final(self).parser == old(self).parser,
            final(self).stack == old(self).stack,
            final(self).validator == old(self).validator,
            final(self).eof == old(self).eof,
            final(self).finished == old(self).finished,
            final(self).opened == old(self).opened,
            final(self).window@.len() <= final(self).history@.len(),
            final(self).window@ == final(self).history@.skip(
                final(self).history@.len() - final(self).window@.len(),
            ),
    {
        self.window.drain_front(consumed);
        proof {
            assert(self.window@ =~= self.history@.skip(
                self.history@.len() - self.window@.len(),
            ));
        }
    }

    /// Drives steps until more input is needed, the top-level container
    /// closes, or the first failure, which short-circuits the loop. Once the
    /// end of the input was declared, the result is exactly the verdict fold
    /// on the state the run starts from.
    pub fn run(&mut self) -> (r: RunStatus)
        requires
            old(self).inv(),
            !old(self).is_finished(),
        ensures
            final(self).inv(),
            final(self).supplied() == old(self).supplied(),
            final(self).input_ended() == old(self).input_ended(),
            old(self).consumed() <= final(self).consumed(),
            final(self).levels_opened() >= old(self).levels_opened(),
            (r is NeedInput ==> !final(self).input_ended()),
            (r is Done ==> final(self).depth() == 0),
            (final(self).is_finished() <==> r is Done),
            (r matches RunStatus::Failed(f) ==> f.offset is Some),
            (old(self).input_ended() ==> !(r is NeedInput) && (r is Done <==> verdict_from(
                *old(self),
            ) is Ok) && (r matches RunStatus::Failed(f) ==> verdict_from(*old(self)) matches Err(e)
                && f.message@ == e.0 && f.offset == Some(e.1))),
    {
        let ghost target = verdict_from(*old(self));
        let ghost mut fuel: nat = (2 * old(self).buffered().len() + old(self).depth() + 1) as nat;
        loop
            invariant
                self.inv(),
                !self.is_finished(),
                self.supplied() == old(self).supplied(),
                self.input_ended() == old(self).input_ended(),
                old(self).consumed() <= self.consumed(),
                self.levels_opened() >= old(self).levels_opened(),
                target == verdict_from(*old(self)),
                (old(self).input_ended() ==> fuel >= 2 * self.buffered().len() + self.depth() + 1
                    && verdict_step(
                    self.parser_state(),
                    self.validator_state(),
                    self.saved_states(),
                    self.buffered(),
                    fuel,
                ) == target),
            decreases 2 * self.buffered().len() + self.depth(),
        {
            let ghost pre = *self;
            match self.step() {
                Step::Progress => {
                    proof {
                        if pre.input_ended() {
                            assert(verdict_step(
                                pre.parser_state(),
                                pre.validator_state(),
                                pre.saved_states(),
                                pre.buffered(),
                                fuel,
                            ) == verdict_step(
                                self.parser_state(),
                                self.validator_state(),
                                self.saved_states(),
                                self.buffered(),
                                (fuel - 1) as nat,
                            ));
                            fuel = (fuel - 1) as nat;
                        }
                    }
                },
                Step::NeedInput(hint) => {
                    return RunStatus::NeedInput(hint);
                },
                Step::Done => {
                    proof {
                        if pre.input_ended() {
                            assert(verdict_step(
                                pre.parser_state(),
                                pre.validator_state(),
                                pre.saved_states(),
                                pre.buffered(),
                                fuel,
                            ) == Ok::<(), (Seq<char>, u64)>(()));
                        }
                    }
                    return RunStatus::Done;
                },
                Step::Failed(f) => {
                    proof {
                        if pre.input_ended() {
                            assert(verdict_step(
                                pre.parser_state(),
                                pre.validator_state(),
                                pre.saved_states(),
                                pre.buffered(),
                                fuel,
                            ) matches Err(e) && f.message@ == e.0 && f.offset == Some(e.1));
                        }
                    }
                    return RunStatus::Failed(f);
                },
            }
        }
    }
}

/// Turns an engine decode error into the call's failure value: the engine's
/// end-of-file wording becomes this library's distinct premature-end message,
/// or the unclosed-nested-container message when containers are still open;
/// any other message and the offset are kept verbatim.
fn decode_failure(e: &wasmparser::BinaryReaderError, depth: usize) -> (r: ValidationFailure)
    ensures
        r.message@ == decode_failure_message(engine::error_message(*e), depth as nat),
        r.offset == Some(engine::error_offset(*e)),
{
    let raw = String::from_str(e.message());
    let offset = e.offset();
    let eof_wording = String::from_str("unexpected end-of-file");
    let message = if raw == eof_wording {
        if depth > 0 {
            String::from_str("unclosed nested container")
        } else {
            String::from_str("unexpected end of input")
        }
    } else {
        raw
    };
    ValidationFailure { message, offset: Some(offset) }
}

/// Turns an engine check error into the call's failure value, keeping its
/// message and the byte offset it was detected at.
fn check_failure(e: &wasmparser::BinaryReaderError) -> (r: ValidationFailure)
    ensures
        r.message@ == engine::error_message(*e),
        r.offset == Some(engine::error_offset(*e)),
{
    ValidationFailure { message: String::from_str(e.message()), offset: Some(e.offset()) }
}

/// Validates a whole in-memory buffer as one module or component: for the
/// fresh semantic state this call created, the result is exactly the verdict
/// fold of the engine's named results on the input.
pub fn validate(input: &[u8]) -> (r: Result<(), ValidationFailure>)
    ensures
        exists|v0: wasmparser::Validator|
            {
                &&& (r is Ok <==> #[trigger] verdict(v0, input@) is Ok)
                &&& (r matches Err(f) ==> verdict(v0, input@) matches Err(e) && f.message@ == e.0
                    && f.offset == Some(e.1))
            },
{
    let mut driver = Driver::new();
    driver.feed(input);
    driver.declare_end();
    let ghost v0 = driver.validator_state();
    proof {
        assert(driver.buffered() =~= input@);
        assert(verdict_from(driver) == verdict(v0, input@));
    }
    match driver.run() {
        RunStatus::Done => Ok(()),
        RunStatus::Failed(f) => Err(f),
        RunStatus::NeedInput(_) => {
            // run never asks for input once the end was declared
            proof {
                assert(false);
            }
            Ok(())
        },
    }
}

/// Validates input supplied as a sequence of chunks, pulling the next chunk
/// only when the decoder reports that the buffered bytes are insufficient,
/// exactly as a streaming source would be read.
pub fn validate_chunks(chunks: &Vec<Vec<u8>>) -> (r: Result<(), ValidationFailure>)
    ensures
        (r matches Err(f) ==> f.offset is Some),
{
    let mut driver = Driver::new();
    let mut next: usize = 0;
    loop
        invariant
            driver.inv(),
            !driver.is_finished(),
            !driver.input_ended(),
            next <= chunks@.len(),
        decreases chunks@.len() - next,
    {
        match driver.run() {
            RunStatus::Done => {
                return Ok(());
            },
            RunStatus::Failed(f) => {
                return Err(f);
            },
            RunStatus::NeedInput(_) => {
                if next < chunks.len() {
                    driver.feed(chunks[next].as_slice());
                    next = next + 1;
                } else {
                    break;
                }
            },
        }
    }
    driver.declare_end();
    match driver.run() {
        RunStatus::Done => Ok(()),
        RunStatus::Failed(f) => Err(f),
        RunStatus::NeedInput(_) => {
            // run never asks for input once the end was declared
            proof {
                assert(false);
            }
            Ok(())
        },
    }
}

} // verus!
