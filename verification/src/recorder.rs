use vstd::prelude::*;

use crate::interface::{BusEvent, DisplayBus};

verus! {

/// One recorded bus action, held as plain data so tests can inspect it.
#[derive(Debug, PartialEq, Eq)]
pub enum RecordedEvent {
    /// A reset pulse train.
    Reset { pulses: u8, settle_ms: u8 },
    /// One opcode byte.
    Command { code: u8 },
    /// A data payload.
    Data { bytes: Vec<u8> },
    /// A streamed repeat-fill.
    Fill { value: u8, count: u32 },
    /// A blocking busy-wait.
    WaitIdle { active_low: bool },
}

impl View for RecordedEvent {
    type V = BusEvent;

    open spec fn view(&self) -> BusEvent {
        match self {
            RecordedEvent::Reset { pulses, settle_ms } => BusEvent::Reset {
                pulses: *pulses,
                settle_ms: *settle_ms,
            },
            RecordedEvent::Command { code } => BusEvent::Command { code: *code },
            RecordedEvent::Data { bytes } => BusEvent::Data { bytes: bytes@ },
            RecordedEvent::Fill { value, count } => BusEvent::Fill {
                value: *value,
                count: *count,
            },
            RecordedEvent::WaitIdle { active_low } => BusEvent::WaitIdle {
                active_low: *active_low,
            },
        }
    }
}

/// The trace that a sequence of recorded events stands for.
pub open spec fn trace_of(events: Seq<RecordedEvent>) -> Seq<BusEvent> {
    events.map_values(|e: RecordedEvent| e@)
}

proof fn lemma_trace_of_push(events: Seq<RecordedEvent>, e: RecordedEvent)
    ensures
        trace_of(events.push(e)) == trace_of(events).push(e@),
{
    assert(trace_of(events.push(e)) =~= trace_of(events).push(e@));
}

/// A bus that performs nothing and records everything: every action lands in
/// `events`, and the busy line is a settable flag. It lets the protocol layer
/// run, and its traces be checked, without a panel attached.
pub struct RecordingBus {
    /// Every action performed on this bus, in order.
    pub events: Vec<RecordedEvent>,
    /// The raw level the fake busy-status input currently shows.
    pub level: bool,
}

impl RecordingBus {
    /// A fresh bus with an empty trace, with the status pin high.
    pub fn new() -> (r: RecordingBus)
        ensures
            r.trace() == Seq::<BusEvent>::empty(),
            r.pin_level() == true,
    {
        RecordingBus { events: Vec::new(), level: true }
    }

    /// Set the raw level of the fake busy-status input.
    pub fn set_level(&mut self, level: bool)
        ensures
            final(self).trace() == old(self).trace(),
            final(self).pin_level() == level,
    {
        self.level = level;
    }
}

impl DisplayBus for RecordingBus {
    type Error = ();

    open spec fn trace(&self) -> Seq<BusEvent> {
        trace_of(self.events@)
    }

    open spec fn pin_level(&self) -> bool {
        self.level
    }

    fn reset(&mut self, pulses: u8, settle_ms: u8) {
        let ghost pre = self.events@;
        let e = RecordedEvent::Reset { pulses, settle_ms };
        proof {
            lemma_trace_of_push(pre, e);
        }
        self.events.push(e);
    }

    fn send_command(&mut self, code: u8) -> (r: Result<(), ()>) {
        let ghost pre = self.events@;
        let e = RecordedEvent::Command { code };
        proof {
            lemma_trace_of_push(pre, e);
        }
        self.events.push(e);
        Ok(())
    }

    fn send_data(&mut self, data: &[u8]) -> (r: Result<(), ()>) {
        let ghost pre = self.events@;
        let mut bytes: Vec<u8> = Vec::new();
        let mut i: usize = 0;
        while i < data.len()
            invariant
                i <= data.len(),
                bytes@ == data@.take(i as int),
            decreases data.len() - i,
        {
            bytes.push(data[i]);
            proof {
                assert(bytes@ =~= data@.take(i + 1));
            }
            i = i + 1;
        }
        proof {
            assert(bytes@ =~= data@);
        }
        let e = RecordedEvent::Data { bytes };
        proof {
            lemma_trace_of_push(pre, e);
        }
        self.events.push(e);
        Ok(())
    }

    fn fill(&mut self, value: u8, count: u32) -> (r: Result<(), ()>) {
        let ghost pre = self.events@;
        let e = RecordedEvent::Fill { value, count };
        proof {
            lemma_trace_of_push(pre, e);
        }
        self.events.push(e);
        Ok(())
    }

    fn wait_until_idle(&mut self, active_low: bool) {
        let ghost pre = self.events@;
        let e = RecordedEvent::WaitIdle { active_low };
        proof {
            lemma_trace_of_push(pre, e);
        }
        self.events.push(e);
        self.level = active_low;
    }

    fn is_busy(&mut self, active_low: bool) -> (r: bool) {
        self.level != active_low
    }
}

} // verus!
