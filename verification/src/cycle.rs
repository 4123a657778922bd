//! What the loop does next.
//!
//! The program around the library does the outside work: it connects to the
//! windowing server, reads the metrics, writes the property, sleeps. After
//! each piece of work it says what happened, and `step` answers with the
//! phase the loop is in from then on and the work to do there.
//!
//! A tick goes from sampling to publishing to sleeping and back. A reader
//! that fails costs its own field, and a line that cannot be encoded costs
//! that tick's publish; only a failure of the windowing connection ends the
//! loop.

use vstd::prelude::*;
use vstd::utf8::*;
use crate::battery::SENTINEL;
use crate::clock::{clock_shaped, lemma_clock_shaped_nul_free, lemma_no_instant_nul_free, NO_INSTANT};
use crate::line::{layout, lemma_layout_nul_free, DisplayLine, Fields};
use crate::text::{lemma_nul_byte_iff_nul_char, nul_free, nul_position};
use crate::warning::Warning;

verus! {

/// The pause at the end of each tick, in seconds.
pub const TICK_SECONDS: u64 = 1;

/// The property of the root window that holds the line.
pub const PROPERTY_NAME: &'static str = "WM_NAME";

/// The type that the property is given.
pub const PROPERTY_TYPE: &'static str = "UTF8_STRING";

/// The width in bits of one unit of the property's value.
pub const PROPERTY_FORMAT: u8 = 8;

/// Where the loop stands.
#[derive(Clone, Copy, Debug, PartialEq, Eq, Structural)]
pub enum Phase {
    /// Before the connection is made.
    Init,
    /// The readers run.
    Sampling,
    /// The line is written to the property, or a held-back line reported.
    Publishing,
    /// The pause before the next tick.
    Sleeping,
}

/// What the program around the library has just done.
#[derive(Debug)]
pub enum Event {
    /// The connection is made, both atoms are resolved and the metrics
    /// snapshot is built.
    Ready,
    /// The connection could not be made, or an atom not resolved.
    SetupFailed,
    /// Every reader has run; these are the fields.
    Sampled(DisplayLine),
    /// The property holds the new line and the connection is flushed.
    Published,
    /// The property could not be written or the connection not flushed.
    PublishFailed,
    /// The warning went to the error stream.
    Reported,
    /// The pause is over.
    Woke,
}

/// What the program around the library does next.
#[derive(Debug)]
pub enum Action {
    /// Run every reader and hand in the fields.
    Sample,
    /// Replace the whole value of the root window's `PROPERTY_NAME` with
    /// these bytes, as a `PROPERTY_TYPE` of `PROPERTY_FORMAT` bits a unit,
    /// and flush the connection.
    Publish(Vec<u8>),
    /// Leave the property alone and write the warning to the error stream.
    Report(Warning),
    /// Pause for this many seconds.
    Sleep(u64),
    /// End the process: the loop cannot go on.
    Abort,
}

/// The answer of `step`.
#[derive(Debug)]
pub struct Step {
    pub phase: Phase,
    pub action: Action,
}

/// An `Event`, with the line as numbers and texts.
pub enum EventView {
    Ready,
    SetupFailed,
    Sampled(Fields),
    Published,
    PublishFailed,
    Reported,
    Woke,
}

/// An `Action`, with the bytes as a sequence.
pub enum ActionView {
    Sample,
    Publish(Seq<u8>),
    Report(Warning),
    Sleep(nat),
    Abort,
}

impl View for Event {
    type V = EventView;

    open spec fn view(&self) -> EventView {
        match *self {
            Event::Ready => EventView::Ready,
            Event::SetupFailed => EventView::SetupFailed,
            Event::Sampled(line) => EventView::Sampled(line@),
            Event::Published => EventView::Published,
            Event::PublishFailed => EventView::PublishFailed,
            Event::Reported => EventView::Reported,
            Event::Woke => EventView::Woke,
        }
    }
}

impl View for Action {
    type V = ActionView;

    open spec fn view(&self) -> ActionView {
        match *self {
            Action::Sample => ActionView::Sample,
            Action::Publish(bytes) => ActionView::Publish(bytes@),
            Action::Report(warning) => ActionView::Report(warning),
            Action::Sleep(seconds) => ActionView::Sleep(seconds as nat),
            Action::Abort => ActionView::Abort,
        }
    }
}

/// What is done with the fields of a tick: the line is published, unless its
/// bytes would hold a NUL; then the tick's publish is skipped and the place
/// of the first NUL reported.
pub open spec fn publish_or_report(fields: Fields) -> ActionView {
    let bytes = encode_utf8(layout(fields));
    if bytes.contains(0u8) {
        ActionView::Report(Warning::NulInLine { position: nul_position(bytes) as usize })
    } else {
        ActionView::Publish(bytes)
    }
}

/// The work that follows `event` in `phase`. An event that the phase does
/// not wait for ends the loop, as a failure of the connection does.
pub open spec fn next_action(phase: Phase, event: EventView) -> ActionView {
    match (phase, event) {
        (Phase::Init, EventView::Ready) => ActionView::Sample,
        (Phase::Sampling, EventView::Sampled(fields)) => publish_or_report(fields),
        (Phase::Publishing, EventView::Published) => ActionView::Sleep(TICK_SECONDS as nat),
        (Phase::Publishing, EventView::Reported) => ActionView::Sleep(TICK_SECONDS as nat),
        (Phase::Sleeping, EventView::Woke) => ActionView::Sample,
        _ => ActionView::Abort,
    }
}

/// The phase that follows `event` in `phase`. Where the loop ends the phase
/// is left as it was.
pub open spec fn next_phase(phase: Phase, event: EventView) -> Phase {
    match (phase, event) {
        (Phase::Init, EventView::Ready) => Phase::Sampling,
        (Phase::Sampling, EventView::Sampled(_)) => Phase::Publishing,
        (Phase::Publishing, EventView::Published) => Phase::Sleeping,
        (Phase::Publishing, EventView::Reported) => Phase::Sleeping,
        (Phase::Sleeping, EventView::Woke) => Phase::Sampling,
        _ => phase,
    }
}

/// What the root window's name holds once `action` has been carried out,
/// having held `before`: a publish replaces the whole value, and nothing
/// else touches it.
pub open spec fn name_after(before: Seq<u8>, action: ActionView) -> Seq<u8> {
    match action {
        ActionView::Publish(bytes) => bytes,
        _ => before,
    }
}

/// The phase and the work that follow `event` in `phase`.
pub fn step(phase: Phase, event: Event) -> (next: Step)
    ensures
        next.phase == next_phase(phase, event@),
        next.action@ == next_action(phase, event@),
{
    match (phase, event) {
        (Phase::Init, Event::Ready) => Step { phase: Phase::Sampling, action: Action::Sample },
        (Phase::Sampling, Event::Sampled(line)) => {
            let action = match line.encode() {
                Ok(bytes) => Action::Publish(bytes),
                Err(warning) => Action::Report(warning),
            };
            Step { phase: Phase::Publishing, action }
        },
        (Phase::Publishing, Event::Published) => Step {
            phase: Phase::Sleeping,
            action: Action::Sleep(TICK_SECONDS),
        },
        (Phase::Publishing, Event::Reported) => Step {
            phase: Phase::Sleeping,
            action: Action::Sleep(TICK_SECONDS),
        },
        (Phase::Sleeping, Event::Woke) => Step { phase: Phase::Sampling, action: Action::Sample },
        (phase, _) => Step { phase, action: Action::Abort },
    }
}

/// Whatever the readers came back with, the tick goes on to publishing: no
/// failed reading ends the loop.
pub proof fn lemma_sampling_never_aborts(fields: Fields)
    ensures
        next_action(Phase::Sampling, EventView::Sampled(fields)) !is Abort,
        next_phase(Phase::Sampling, EventView::Sampled(fields)) == Phase::Publishing,
{
}

/// A line is published exactly when neither its battery token nor its clock
/// holds a NUL character.
pub proof fn lemma_published_iff_nul_free(fields: Fields)
    ensures
        next_action(Phase::Sampling, EventView::Sampled(fields)) is Publish <==> nul_free(
            fields.battery,
        ) && nul_free(fields.clock),
{
    lemma_layout_nul_free(fields);
    lemma_nul_byte_iff_nul_char(layout(fields));
}

/// A battery that could not be read does not keep the tick from publishing:
/// with the sentinel for its token the line goes out whenever the clock
/// holds no NUL.
pub proof fn lemma_sentinel_is_published(fields: Fields)
    requires
        fields.battery == SENTINEL@,
        nul_free(fields.clock),
    ensures
        next_action(Phase::Sampling, EventView::Sampled(fields)) is Publish,
{
    reveal_strlit("error");
    lemma_published_iff_nul_free(fields);
}

/// What the clock field shows for a known zone, a time in the field's
/// layout or the text that stands in for it, never keeps the tick from
/// publishing: the line goes out whenever the battery token holds no NUL.
pub proof fn lemma_clock_time_is_published(fields: Fields)
    requires
        clock_shaped(fields.clock) || fields.clock == NO_INSTANT@,
        nul_free(fields.battery),
    ensures
        next_action(Phase::Sampling, EventView::Sampled(fields)) is Publish,
{
    if clock_shaped(fields.clock) {
        lemma_clock_shaped_nul_free(fields.clock);
    } else {
        lemma_no_instant_nul_free();
    }
    lemma_published_iff_nul_free(fields);
}

/// Two ticks whose lines read the same get the same answer, so the second
/// fails only if the first did; and carrying both out leaves the root
/// window's name as the first one left it.
pub proof fn lemma_publish_is_idempotent(before: Seq<u8>, first: Fields, second: Fields)
    requires
        layout(first) == layout(second),
    ensures
        ({
            let once = next_action(Phase::Sampling, EventView::Sampled(first));
            let again = next_action(Phase::Sampling, EventView::Sampled(second));
            &&& again == once
            &&& name_after(name_after(before, once), again) == name_after(before, once)
        }),
{
}

/// A line whose bytes hold a NUL is not written, in part or in whole: the
/// tick reports it and the root window's name stays what it was.
pub proof fn lemma_nul_keeps_name(before: Seq<u8>, fields: Fields)
    requires
        encode_utf8(layout(fields)).contains(0u8),
    ensures
        ({
            let action = next_action(Phase::Sampling, EventView::Sampled(fields));
            &&& action is Report
            &&& name_after(before, action) == before
        }),
{
}

/// What is published is the line's text in UTF-8, well formed and without
/// a NUL byte.
pub proof fn lemma_published_bytes(fields: Fields)
    ensures
        next_action(Phase::Sampling, EventView::Sampled(fields)) matches ActionView::Publish(
            bytes,
        ) ==> bytes == encode_utf8(layout(fields)) && valid_utf8(bytes) && !bytes.contains(0u8),
{
    encode_utf8_valid_utf8(layout(fields));
}

} // verus!
