use vstd::prelude::*;

use crate::command::Command;
use crate::epd7in5_hd::{cmd_data_trace, ev_wait_idle, init_trace, RESET_SETTLE_MS};
use crate::interface::BusEvent;

verus! {

/// The controller-side registers that the bring-up sequence addresses: the
/// RAM address window, the RAM address counters, and the data-entry mode.
/// Each register holds the raw payload bytes last written to it.
#[verifier::ext_equal]
pub struct RegisterFile {
    /// Payload of the RAM X address window command.
    pub x_window: Seq<u8>,
    /// Payload of the RAM Y address window command.
    pub y_window: Seq<u8>,
    /// Payload of the RAM X address counter command.
    pub x_counter: Seq<u8>,
    /// Payload of the RAM Y address counter command.
    pub y_counter: Seq<u8>,
    /// Payload of the data-entry mode command.
    pub data_entry: Seq<u8>,
    /// Opcode of the most recently issued command; it selects which register
    /// the next data payload lands in.
    pub selected: u8,
}

/// The registers after a hardware reset, modelled as cleared: the reset
/// pulse returns the controller to its power-on state, forgetting every
/// earlier write.
pub open spec fn power_on_registers() -> RegisterFile {
    RegisterFile {
        x_window: Seq::empty(),
        y_window: Seq::empty(),
        x_counter: Seq::empty(),
        y_counter: Seq::empty(),
        data_entry: Seq::empty(),
        selected: 0,
    }
}

/// Route a data payload into the register the given opcode addresses; data
/// for any opcode this model does not track (pixel data, timings, masks)
/// leaves the tracked registers unchanged.
pub open spec fn write_payload(r: RegisterFile, code: u8, bytes: Seq<u8>) -> RegisterFile {
    if code == Command::SetRamXStartEnd.spec_address() {
        RegisterFile { x_window: bytes, ..r }
    } else if code == Command::SetRamYStartEnd.spec_address() {
        RegisterFile { y_window: bytes, ..r }
    } else if code == Command::SetRamXAc.spec_address() {
        RegisterFile { x_counter: bytes, ..r }
    } else if code == Command::SetRamYAc.spec_address() {
        RegisterFile { y_counter: bytes, ..r }
    } else if code == Command::DataEntry.spec_address() {
        RegisterFile { data_entry: bytes, ..r }
    } else {
        r
    }
}

/// How one bus event moves the tracked registers: a reset restores power-on
/// state, a command selects a register, a data payload writes it, and fills
/// and busy-waits touch RAM contents or time only, never these registers.
pub open spec fn apply_event(r: RegisterFile, e: BusEvent) -> RegisterFile {
    match e {
        BusEvent::Reset { .. } => power_on_registers(),
        BusEvent::Command { code } => RegisterFile { selected: code, ..r },
        BusEvent::Data { bytes } => write_payload(r, r.selected, bytes),
        BusEvent::Fill { .. } => r,
        BusEvent::WaitIdle { .. } => r,
    }
}

/// The tracked registers after a whole trace of bus events.
pub open spec fn apply_trace(r: RegisterFile, t: Seq<BusEvent>) -> RegisterFile
    decreases t.len(),
{
    if t.len() == 0 {
        r
    } else {
        apply_trace(apply_event(r, t.first()), t.drop_first())
    }
}

/// The addressable state the bring-up sequence establishes: the RAM window
/// spans the full panel extent, both address counters sit at the window
/// origin, and data entry is configured; the Y address counter command is
/// the last one issued.
pub open spec fn init_registers() -> RegisterFile {
    RegisterFile {
        x_window: seq![0x00u8, 0x00, 0x6F, 0x03],
        y_window: seq![0xAFu8, 0x02, 0x00, 0x00],
        x_counter: seq![0x00u8, 0x00],
        y_counter: seq![0x00u8, 0x00],
        data_entry: seq![0x01u8],
        selected: Command::SetRamYAc.spec_address(),
    }
}

/// A one-event trace acts as its event does.
proof fn lemma_apply_one(r: RegisterFile, e: BusEvent)
    ensures
        apply_trace(r, seq![e]) == apply_event(r, e),
{
    assert(seq![e].drop_first() =~= Seq::<BusEvent>::empty());
    assert(seq![e].first() == e);
    assert(apply_trace(apply_event(r, e), Seq::<BusEvent>::empty()) == apply_event(r, e));
    assert(apply_trace(r, seq![e]) == apply_trace(
        apply_event(r, seq![e].first()),
        seq![e].drop_first(),
    ));
}

/// A two-event trace acts as its events do, in order.
proof fn lemma_apply_two(r: RegisterFile, e1: BusEvent, e2: BusEvent)
    ensures
        apply_trace(r, seq![e1, e2]) == apply_event(apply_event(r, e1), e2),
{
    assert(seq![e1, e2].drop_first() =~= seq![e2]);
    lemma_apply_one(apply_event(r, e1), e2);
}

/// Folding a concatenation folds the two parts in order.
proof fn lemma_apply_concat(r: RegisterFile, a: Seq<BusEvent>, b: Seq<BusEvent>)
    ensures
        apply_trace(r, a + b) == apply_trace(apply_trace(r, a), b),
    decreases a.len(),
{
    if a.len() == 0 {
        assert(a + b =~= b);
    } else {
        assert((a + b).first() == a.first());
        assert((a + b).drop_first() =~= a.drop_first() + b);
        lemma_apply_concat(apply_event(r, a.first()), a.drop_first(), b);
    }
}

/// A command with its payload selects the register its opcode names and
/// writes the payload there.
proof fn lemma_apply_cmd_data(r: RegisterFile, c: Command, bytes: Seq<u8>)
    ensures
        apply_trace(r, cmd_data_trace(c, bytes)) == write_payload(
            RegisterFile { selected: c.spec_address(), ..r },
            c.spec_address(),
            bytes,
        ),
{
    let e1 = BusEvent::Command { code: c.spec_address() };
    let e2 = BusEvent::Data { bytes };
    assert(cmd_data_trace(c, bytes) == seq![e1, e2]);
    lemma_apply_two(r, e1, e2);
}

/// The bring-up sequence establishes the same addressable RAM window and
/// counters from any starting state: its first event is the hardware reset,
/// and it writes every tracked register before it ends.
pub proof fn lemma_init_establishes_registers(r: RegisterFile)
    ensures
        apply_trace(r, init_trace()) == init_registers(),
{
    let w = ev_wait_idle();
    let e_reset = BusEvent::Reset { pulses: 2, settle_ms: RESET_SETTLE_MS };
    let e_swreset = BusEvent::Command { code: Command::SwReset.spec_address() };
    let e_ma = BusEvent::Command { code: Command::MasterActivation.spec_address() };

    let head = seq![e_reset, w, e_swreset, w];
    let s_awr = cmd_data_trace(Command::AutoWriteRed, seq![0xF7u8]);
    let s_awb = cmd_data_trace(Command::AutoWriteBw, seq![0xF7u8]);
    let s_soft = cmd_data_trace(Command::SoftStart, seq![0xAEu8, 0xC7, 0xC3, 0xC0, 0x40]);
    let s_doc = cmd_data_trace(Command::DriverOutputControl, seq![0xAFu8, 0x02, 0x01]);
    let s_de = cmd_data_trace(Command::DataEntry, seq![0x01u8]);
    let s_xw = cmd_data_trace(Command::SetRamXStartEnd, seq![0x00u8, 0x00, 0x6F, 0x03]);
    let s_yw = cmd_data_trace(Command::SetRamYStartEnd, seq![0xAFu8, 0x02, 0x00, 0x00]);
    let s_vbd = cmd_data_trace(Command::VbdControl, seq![0x05u8]);
    let s_tmp = cmd_data_trace(Command::TemperatureSensorControl, seq![0x80u8]);
    let s_duc = cmd_data_trace(Command::DisplayUpdateControl2, seq![0xB1u8]);
    let s_ma = seq![e_ma, w];
    let s_xc = cmd_data_trace(Command::SetRamXAc, seq![0x00u8, 0x00]);
    let s_yc = cmd_data_trace(Command::SetRamYAc, seq![0x00u8, 0x00]);

    // The controller forgets its state at the reset pulse; from there every
    // step is a concrete register move.
    assert(head =~= seq![e_reset, w] + seq![e_swreset, w]);
    lemma_apply_concat(r, seq![e_reset, w], seq![e_swreset, w]);
    lemma_apply_two(r, e_reset, w);
    lemma_apply_two(apply_trace(r, seq![e_reset, w]), e_swreset, w);
    let r0 = apply_trace(r, head);

    lemma_apply_concat(r, head, s_awr);
    lemma_apply_cmd_data(r0, Command::AutoWriteRed, seq![0xF7u8]);
    let t1 = head + s_awr;
    let r1 = apply_trace(r, t1);

    lemma_apply_concat(r, t1, seq![w]);
    lemma_apply_one(r1, w);
    let t2 = t1 + seq![w];
    let r2 = apply_trace(r, t2);

    lemma_apply_concat(r, t2, s_awb);
    lemma_apply_cmd_data(r2, Command::AutoWriteBw, seq![0xF7u8]);
    let t3 = t2 + s_awb;
    let r3 = apply_trace(r, t3);

    lemma_apply_concat(r, t3, seq![w]);
    lemma_apply_one(r3, w);
    let t4 = t3 + seq![w];
    let r4 = apply_trace(r, t4);

    lemma_apply_concat(r, t4, s_soft);
    lemma_apply_cmd_data(r4, Command::SoftStart, seq![0xAEu8, 0xC7, 0xC3, 0xC0, 0x40]);
    let t5 = t4 + s_soft;
    let r5 = apply_trace(r, t5);

    lemma_apply_concat(r, t5, s_doc);
    lemma_apply_cmd_data(r5, Command::DriverOutputControl, seq![0xAFu8, 0x02, 0x01]);
    let t6 = t5 + s_doc;
    let r6 = apply_trace(r, t6);

    lemma_apply_concat(r, t6, s_de);
    lemma_apply_cmd_data(r6, Command::DataEntry, seq![0x01u8]);
    let t7 = t6 + s_de;
    let r7 = apply_trace(r, t7);

    lemma_apply_concat(r, t7, s_xw);
    lemma_apply_cmd_data(r7, Command::SetRamXStartEnd, seq![0x00u8, 0x00, 0x6F, 0x03]);
    let t8 = t7 + s_xw;
    let r8 = apply_trace(r, t8);

    lemma_apply_concat(r, t8, s_yw);
    lemma_apply_cmd_data(r8, Command::SetRamYStartEnd, seq![0xAFu8, 0x02, 0x00, 0x00]);
    let t9 = t8 + s_yw;
    let r9 = apply_trace(r, t9);

    lemma_apply_concat(r, t9, s_vbd);
    lemma_apply_cmd_data(r9, Command::VbdControl, seq![0x05u8]);
    let t10 = t9 + s_vbd;
    let r10 = apply_trace(r, t10);

    lemma_apply_concat(r, t10, s_tmp);
    lemma_apply_cmd_data(r10, Command::TemperatureSensorControl, seq![0x80u8]);
    let t11 = t10 + s_tmp;
    let r11 = apply_trace(r, t11);

    lemma_apply_concat(r, t11, s_duc);
    lemma_apply_cmd_data(r11, Command::DisplayUpdateControl2, seq![0xB1u8]);
    let t12 = t11 + s_duc;
    let r12 = apply_trace(r, t12);

    lemma_apply_concat(r, t12, s_ma);
    lemma_apply_two(r12, e_ma, w);
    let t13 = t12 + s_ma;
    let r13 = apply_trace(r, t13);

    lemma_apply_concat(r, t13, s_xc);
    lemma_apply_cmd_data(r13, Command::SetRamXAc, seq![0x00u8, 0x00]);
    let t14 = t13 + s_xc;
    let r14 = apply_trace(r, t14);

    lemma_apply_concat(r, t14, s_yc);
    lemma_apply_cmd_data(r14, Command::SetRamYAc, seq![0x00u8, 0x00]);

    assert(apply_trace(r, init_trace()) =~~= init_registers());
}

/// Running the bring-up sequence twice leaves the controller in the same
/// addressable state as running it once.
pub proof fn lemma_init_idempotent(r: RegisterFile)
    ensures
        apply_trace(apply_trace(r, init_trace()), init_trace()) == apply_trace(r, init_trace()),
{
    lemma_init_establishes_registers(r);
    lemma_init_establishes_registers(apply_trace(r, init_trace()));
}

} // verus!
