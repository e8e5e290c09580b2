use vstd::prelude::*;

verus! {

/// One observable action on the 4-wire control bus, as the controller sees it.
///
/// A sequence of these is the ghost trace of a bus: the contracts of the
/// driver promise, operation by operation, exactly which events each call
/// appends.
#[verifier::ext_equal]
pub enum BusEvent {
    /// The reset pin was pulsed low then high `pulses` times, with
    /// `settle_ms` milliseconds of settling between edges.
    Reset { pulses: u8, settle_ms: u8 },
    /// One opcode byte was written with the data/command select line low.
    Command { code: u8 },
    /// A payload was written with the data/command select line high.
    Data { bytes: Seq<u8> },
    /// `count` copies of `value` were written as data, streamed without a
    /// materialised buffer.
    Fill { value: u8, count: u32 },
    /// The busy line was polled, blocking, until it reported idle under the
    /// given polarity.
    WaitIdle { active_low: bool },
}

/// The 4-wire bus a controller driver talks through: a fallible byte
/// transport plus chip-select, data/command select, reset, and a busy-status
/// input.
///
/// The bus layer has no protocol knowledge: a command is one byte with the
/// data/command line low, data is one or more bytes with the line high.
///
/// Ghost state: `trace()` is the sequence of actions performed so far, and
/// `pin_level()` the raw level the busy-status input currently shows. Every
/// mutating operation may change `pin_level()` arbitrarily (the controller
/// goes busy on its own schedule); only `wait_until_idle` pins it down.
pub trait DisplayBus: Sized {
    /// The transport's error type, propagated unchanged on failed writes.
    type Error;

    /// The actions performed on this bus so far, in order. The default
    /// stands for an implementation that keeps no model of its history; a
    /// verified implementation overrides it with its own record.
    open spec fn trace(&self) -> Seq<BusEvent> {
        Seq::empty()
    }

    /// The raw level of the busy-status input. The default stands for an
    /// implementation that keeps no model of the line; a verified
    /// implementation overrides it.
    open spec fn pin_level(&self) -> bool {
        true
    }

    /// Drive the reset pin low then high `pulses` times, with `settle_ms`
    /// milliseconds of settling between edges. The controller re-enters its
    /// power-on state; a busy-wait must follow before any command.
    fn reset(&mut self, pulses: u8, settle_ms: u8)
        ensures
            final(self).trace() == old(self).trace().push(
                BusEvent::Reset { pulses, settle_ms },
            ),
    ;

    /// Assert chip-select, set data/command select to "command", write one
    /// byte, de-assert chip-select. A transport failure is returned as is and
    /// the event is not part of the trace.
    fn send_command(&mut self, code: u8) -> (r: Result<(), Self::Error>)
        ensures
            r is Ok ==> final(self).trace() == old(self).trace().push(
                BusEvent::Command { code },
            ),
            r is Err ==> final(self).trace() == old(self).trace(),
    ;

    /// Assert chip-select, set data/command select to "data", write the full
    /// byte sequence, de-assert chip-select.
    fn send_data(&mut self, data: &[u8]) -> (r: Result<(), Self::Error>)
        ensures
            r is Ok ==> final(self).trace() == old(self).trace().push(
                BusEvent::Data { bytes: data@ },
            ),
            r is Err ==> final(self).trace() == old(self).trace(),
    ;

    /// Write `count` copies of `value` as data, without requiring the caller
    /// to materialise a `count`-sized buffer.
    fn fill(&mut self, value: u8, count: u32) -> (r: Result<(), Self::Error>)
        ensures
            r is Ok ==> final(self).trace() == old(self).trace().push(
                BusEvent::Fill { value, count },
            ),
            r is Err ==> final(self).trace() == old(self).trace(),
    ;

    /// Busy-poll until the status pin reports idle under the given polarity.
    /// There is no timeout: an unresponsive panel blocks indefinitely, as the
    /// datasheet's wait-for-completion contract demands.
    fn wait_until_idle(&mut self, active_low: bool)
        ensures
            final(self).trace() == old(self).trace().push(
                BusEvent::WaitIdle { active_low },
            ),
            final(self).pin_level() == active_low,
    ;

    /// Non-blocking read of the busy state: busy exactly when the raw pin
    /// level differs from the idle level that `active_low` names.
    fn is_busy(&mut self, active_low: bool) -> (r: bool)
        ensures
            final(self).trace() == old(self).trace(),
            r == (old(self).pin_level() != active_low),
    ;
}

} // verus!
