use vstd::prelude::*;

use crate::color::Color;
use crate::command::Command;
use crate::interface::{BusEvent, DisplayBus};

verus! {

/// Width of the display, in pixels.
pub const WIDTH: u32 = 880;

/// Height of the display, in pixels.
pub const HEIGHT: u32 = 528;

/// Default background color.
pub const DEFAULT_BACKGROUND_COLOR: Color = Color::Black;

/// Bytes in one full frame buffer: one bit per pixel, eight pixels per byte.
pub const FRAME_BUFFER_SIZE: u32 = WIDTH * HEIGHT / 8;

/// The busy-status polarity of this controller model: the line is active
/// low, so a high raw level means idle. Never runtime-configurable.
pub const IS_BUSY_LOW: bool = true;

/// Milliseconds the driver lets the reset pin settle between edges.
pub const RESET_SETTLE_MS: u8 = 10;

/// The busy-wait event with this controller's fixed polarity.
pub open spec fn ev_wait_idle() -> BusEvent {
    BusEvent::WaitIdle { active_low: IS_BUSY_LOW }
}

/// The two bus events of one command with its immediate payload.
pub open spec fn cmd_data_trace(c: Command, bytes: Seq<u8>) -> Seq<BusEvent> {
    seq![
        BusEvent::Command { code: c.spec_address() },
        BusEvent::Data { bytes },
    ]
}

/// The full hardware bring-up sequence: reset, software reset, auto-write
/// for both color planes, soft-start timing, driver output control, RAM
/// data-entry direction, the RAM X and Y address windows (the full panel
/// extent), border behavior, temperature-sensor source, the update-control
/// mask, master activation, and finally the RAM X and Y address counters at
/// the window origin. Every payload byte is a constant fixed by the
/// controller datasheet.
pub open spec fn init_trace() -> Seq<BusEvent> {
    seq![
        BusEvent::Reset { pulses: 2, settle_ms: RESET_SETTLE_MS },
        ev_wait_idle(),
        BusEvent::Command { code: Command::SwReset.spec_address() },
        ev_wait_idle(),
    ] + cmd_data_trace(Command::AutoWriteRed, seq![0xF7u8]) + seq![ev_wait_idle()]
        + cmd_data_trace(Command::AutoWriteBw, seq![0xF7u8]) + seq![ev_wait_idle()]
        + cmd_data_trace(Command::SoftStart, seq![0xAEu8, 0xC7, 0xC3, 0xC0, 0x40])
        + cmd_data_trace(Command::DriverOutputControl, seq![0xAFu8, 0x02, 0x01])
        + cmd_data_trace(Command::DataEntry, seq![0x01u8])
        + cmd_data_trace(Command::SetRamXStartEnd, seq![0x00u8, 0x00, 0x6F, 0x03])
        + cmd_data_trace(Command::SetRamYStartEnd, seq![0xAFu8, 0x02, 0x00, 0x00])
        + cmd_data_trace(Command::VbdControl, seq![0x05u8])
        + cmd_data_trace(Command::TemperatureSensorControl, seq![0x80u8])
        + cmd_data_trace(Command::DisplayUpdateControl2, seq![0xB1u8])
        + seq![
            BusEvent::Command { code: Command::MasterActivation.spec_address() },
            ev_wait_idle(),
        ] + cmd_data_trace(Command::SetRamXAc, seq![0x00u8, 0x00])
        + cmd_data_trace(Command::SetRamYAc, seq![0x00u8, 0x00])
}

/// The bus events of `sleep`: wait idle, then deep sleep with its mode byte.
pub open spec fn sleep_trace() -> Seq<BusEvent> {
    seq![ev_wait_idle()] + cmd_data_trace(Command::DeepSleep, seq![0x01u8])
}

/// The bus events of `update_frame`: wait idle, reset the Y address counter
/// to the window origin, stream the buffer into the black/white RAM plane,
/// and arm the update mask for a full refresh. No visible repaint happens.
pub open spec fn update_frame_trace(buffer: Seq<u8>) -> Seq<BusEvent> {
    seq![ev_wait_idle()] + cmd_data_trace(Command::SetRamYAc, seq![0x00u8, 0x00])
        + cmd_data_trace(Command::WriteRamBw, buffer)
        + cmd_data_trace(Command::DisplayUpdateControl2, seq![0xF7u8])
}

/// The bus events of `display_frame`: master activation, then wait idle.
pub open spec fn display_frame_trace() -> Seq<BusEvent> {
    seq![
        BusEvent::Command { code: Command::MasterActivation.spec_address() },
        ev_wait_idle(),
    ]
}

/// The bus events of `clear_frame`: wait idle, reset the Y address counter,
/// stream the blank pattern into both RAM planes as a repeat-fill, arm the
/// refresh mask, trigger master activation, and wait idle. No frame-sized
/// payload appears: both planes are filled by a streamed constant.
pub open spec fn clear_frame_trace() -> Seq<BusEvent> {
    seq![ev_wait_idle()] + cmd_data_trace(Command::SetRamYAc, seq![0x00u8, 0x00])
        + seq![
            BusEvent::Command { code: Command::WriteRamBw.spec_address() },
            BusEvent::Fill { value: 0xFF, count: FRAME_BUFFER_SIZE },
            BusEvent::Command { code: Command::WriteRamRed.spec_address() },
            BusEvent::Fill { value: 0xFF, count: FRAME_BUFFER_SIZE },
        ] + cmd_data_trace(Command::DisplayUpdateControl2, seq![0xF7u8])
        + seq![
            BusEvent::Command { code: Command::MasterActivation.spec_address() },
            ev_wait_idle(),
        ]
}

/// Driver for the 7.5 inch HD e-paper panel.
///
/// It owns its bus interface for its whole lifetime. Every public operation
/// issues one or more commands through that interface and returns only after
/// any mandatory busy-wait completed; the contracts state the exact event
/// trace of each operation.
pub struct EPD7in5<B> {
    /// Connection interface.
    interface: B,
    /// Background color.
    color: Color,
}

impl<B: DisplayBus> EPD7in5<B> {
    /// Every bus action this driver has performed, in order.
    pub closed spec fn trace(&self) -> Seq<BusEvent> {
        self.interface.trace()
    }

    /// The raw level of the busy-status input.
    pub closed spec fn pin_level(&self) -> bool {
        self.interface.pin_level()
    }

    /// The background color the driver currently records.
    pub closed spec fn spec_background_color(&self) -> Color {
        self.color
    }

    /// Build a driver around the given bus and run the bring-up sequence.
    /// Fails with the transport's error if any command of the sequence fails.
    pub fn new(interface: B) -> (r: Result<EPD7in5<B>, B::Error>)
        ensures
            r is Ok ==> r->Ok_0.trace() == interface.trace() + init_trace(),
            r is Ok ==> r->Ok_0.spec_background_color() == DEFAULT_BACKGROUND_COLOR,
    {
        let mut epd = EPD7in5 { interface, color: DEFAULT_BACKGROUND_COLOR };
        match epd.init() {
            Ok(()) => Ok(epd),
            Err(e) => Err(e),
        }
    }

    /// The literal hardware bring-up sequence of this controller. The events
    /// it emits are `init_trace()`, whatever state the driver starts from; a
    /// failed transport write stops the sequence where it failed, leaving
    /// the already emitted prefix in place.
    #[verifier::rlimit(50)]
    pub fn init(&mut self) -> (r: Result<(), B::Error>)
        ensures
            final(self).spec_background_color() == old(self).spec_background_color(),
            r is Ok ==> final(self).trace() == old(self).trace() + init_trace(),
            r is Err ==> old(self).trace().is_prefix_of(final(self).trace()),
    {
        self.interface.reset(2, RESET_SETTLE_MS);
        self.wait_until_idle();
        self.command(Command::SwReset)?;
        self.wait_until_idle();

        self.cmd_with_data(Command::AutoWriteRed, &[0xF7])?;
        self.wait_until_idle();
        self.cmd_with_data(Command::AutoWriteBw, &[0xF7])?;
        self.wait_until_idle();

        self.cmd_with_data(Command::SoftStart, &[0xAE, 0xC7, 0xC3, 0xC0, 0x40])?;
        self.cmd_with_data(Command::DriverOutputControl, &[0xAF, 0x02, 0x01])?;
        self.cmd_with_data(Command::DataEntry, &[0x01])?;
        self.cmd_with_data(Command::SetRamXStartEnd, &[0x00, 0x00, 0x6F, 0x03])?;
        self.cmd_with_data(Command::SetRamYStartEnd, &[0xAF, 0x02, 0x00, 0x00])?;
        self.cmd_with_data(Command::VbdControl, &[0x05])?;
        self.cmd_with_data(Command::TemperatureSensorControl, &[0x80])?;
        self.cmd_with_data(Command::DisplayUpdateControl2, &[0xB1])?;

        self.command(Command::MasterActivation)?;
        self.wait_until_idle();

        self.cmd_with_data(Command::SetRamXAc, &[0x00, 0x00])?;
        self.cmd_with_data(Command::SetRamYAc, &[0x00, 0x00])?;

        proof {
            assert(self.trace() =~~= old(self).trace() + init_trace());
        }
        Ok(())
    }

    /// Re-establish the power state after sleep: the full bring-up sequence.
    pub fn wake_up(&mut self) -> (r: Result<(), B::Error>)
        ensures
            final(self).spec_background_color() == old(self).spec_background_color(),
            r is Ok ==> final(self).trace() == old(self).trace() + init_trace(),
            r is Err ==> old(self).trace().is_prefix_of(final(self).trace()),
    {
        self.init()
    }

    /// Wait idle, then enter deep sleep. Only `wake_up` leaves this state.
    pub fn sleep(&mut self) -> (r: Result<(), B::Error>)
        ensures
            final(self).spec_background_color() == old(self).spec_background_color(),
            r is Ok ==> final(self).trace() == old(self).trace() + sleep_trace(),
            r is Err ==> old(self).trace().is_prefix_of(final(self).trace()),
    {
        self.wait_until_idle();
        self.cmd_with_data(Command::DeepSleep, &[0x01])?;
        proof {
            assert(self.trace() =~~= old(self).trace() + sleep_trace());
        }
        Ok(())
    }

    /// Transfer a full frame into the black/white RAM plane and arm the
    /// update mask. The buffer is borrowed only for this call and never
    /// retained; nothing becomes visible until `display_frame`.
    pub fn update_frame(&mut self, buffer: &[u8]) -> (r: Result<(), B::Error>)
        requires
            buffer@.len() == FRAME_BUFFER_SIZE,
        ensures
            final(self).spec_background_color() == old(self).spec_background_color(),
            r is Ok ==> final(self).trace() == old(self).trace() + update_frame_trace(buffer@),
            r is Err ==> old(self).trace().is_prefix_of(final(self).trace()),
    {
        self.wait_until_idle();
        self.cmd_with_data(Command::SetRamYAc, &[0x00, 0x00])?;
        self.cmd_with_data(Command::WriteRamBw, buffer)?;
        self.cmd_with_data(Command::DisplayUpdateControl2, &[0xF7])?;
        proof {
            assert(self.trace() =~~= old(self).trace() + update_frame_trace(buffer@));
        }
        Ok(())
    }

    /// Issue master activation and wait idle: the one operation that makes
    /// the panel visibly repaint what RAM already holds.
    pub fn display_frame(&mut self) -> (r: Result<(), B::Error>)
        ensures
            final(self).spec_background_color() == old(self).spec_background_color(),
            r is Ok ==> final(self).trace() == old(self).trace() + display_frame_trace(),
            r is Err ==> old(self).trace().is_prefix_of(final(self).trace()),
    {
        self.command(Command::MasterActivation)?;
        self.wait_until_idle();
        proof {
            assert(self.trace() =~~= old(self).trace() + display_frame_trace());
        }
        Ok(())
    }

    /// Transfer a frame, then trigger the visible update: exactly the events
    /// of `update_frame` followed by those of `display_frame`, with nothing
    /// added or reordered in between.
    pub fn update_and_display_frame(&mut self, buffer: &[u8]) -> (r: Result<(), B::Error>)
        requires
            buffer@.len() == FRAME_BUFFER_SIZE,
        ensures
            final(self).spec_background_color() == old(self).spec_background_color(),
            r is Ok ==> final(self).trace() == old(self).trace() + update_frame_trace(buffer@)
                + display_frame_trace(),
            r is Err ==> old(self).trace().is_prefix_of(final(self).trace()),
    {
        self.update_frame(buffer)?;
        self.display_frame()?;
        proof {
            assert(self.trace() =~~= old(self).trace() + update_frame_trace(buffer@)
                + display_frame_trace());
        }
        Ok(())
    }

    /// Clear both RAM planes to the blank pattern and repaint. The blank
    /// bytes are streamed as a repeat-fill over the bus: no frame-sized
    /// buffer is built, as the trace it emits shows.
    pub fn clear_frame(&mut self) -> (r: Result<(), B::Error>)
        ensures
            final(self).spec_background_color() == old(self).spec_background_color(),
            r is Ok ==> final(self).trace() == old(self).trace() + clear_frame_trace(),
            r is Err ==> old(self).trace().is_prefix_of(final(self).trace()),
    {
        self.wait_until_idle();
        self.cmd_with_data(Command::SetRamYAc, &[0x00, 0x00])?;

        self.command(Command::WriteRamBw)?;
        self.interface.fill(0xFF, FRAME_BUFFER_SIZE)?;
        self.command(Command::WriteRamRed)?;
        self.interface.fill(0xFF, FRAME_BUFFER_SIZE)?;

        self.cmd_with_data(Command::DisplayUpdateControl2, &[0xF7])?;
        self.command(Command::MasterActivation)?;
        self.wait_until_idle();
        proof {
            assert(self.trace() =~~= old(self).trace() + clear_frame_trace());
        }
        Ok(())
    }

    /// Record a background color for later frame and clear operations. No
    /// bus event is emitted: the hardware state is untouched.
    pub fn set_background_color(&mut self, color: Color)
        ensures
            final(self).spec_background_color() == color,
            final(self).trace() == old(self).trace(),
    {
        self.color = color;
    }

    /// The background color currently recorded.
    pub fn background_color(&self) -> (r: &Color)
        ensures
            *r == self.spec_background_color(),
    {
        &self.color
    }

    /// The fixed panel width, in pixels.
    pub fn width(&self) -> (r: u32)
        ensures
            r == WIDTH,
    {
        WIDTH
    }

    /// The fixed panel height, in pixels.
    pub fn height(&self) -> (r: u32)
        ensures
            r == HEIGHT,
    {
        HEIGHT
    }

    /// Non-blocking probe of the busy line. With this panel's active-low
    /// polarity the report is the inverse of the raw pin level: a high pin
    /// reads as idle.
    pub fn is_busy(&mut self) -> (r: bool)
        ensures
            final(self).trace() == old(self).trace(),
            final(self).spec_background_color() == old(self).spec_background_color(),
            r == (old(self).pin_level() != IS_BUSY_LOW),
            r == !old(self).pin_level(),
    {
        self.interface.is_busy(IS_BUSY_LOW)
    }

    /// Dissolve the driver and hand its bus interface back, with the trace
    /// of everything the driver did through it.
    pub fn into_interface(self) -> (r: B)
        ensures
            r.trace() == self.trace(),
            r.pin_level() == self.pin_level(),
    {
        self.interface
    }

    /// Send one opcode byte.
    fn command(&mut self, command: Command) -> (r: Result<(), B::Error>)
        ensures
            final(self).spec_background_color() == old(self).spec_background_color(),
            r is Ok ==> final(self).trace() == old(self).trace().push(
                BusEvent::Command { code: command.spec_address() },
            ),
            r is Err ==> final(self).trace() == old(self).trace(),
    {
        let code = command.address();
        self.interface.send_command(code)
    }

    /// Send a data payload.
    fn send_data(&mut self, data: &[u8]) -> (r: Result<(), B::Error>)
        ensures
            final(self).spec_background_color() == old(self).spec_background_color(),
            r is Ok ==> final(self).trace() == old(self).trace().push(
                BusEvent::Data { bytes: data@ },
            ),
            r is Err ==> final(self).trace() == old(self).trace(),
    {
        self.interface.send_data(data)
    }

    /// Send one opcode byte followed by its payload: the common case, since
    /// nearly every opcode carries an immediate operand.
    fn cmd_with_data(&mut self, command: Command, data: &[u8]) -> (r: Result<(), B::Error>)
        ensures
            final(self).spec_background_color() == old(self).spec_background_color(),
            r is Ok ==> final(self).trace() == old(self).trace() + cmd_data_trace(
                command,
                data@,
            ),
            r is Err ==> old(self).trace().is_prefix_of(final(self).trace()),
    {
        self.command(command)?;
        match self.send_data(data) {
            Ok(()) => {
                proof {
                    assert(self.trace() =~~= old(self).trace() + cmd_data_trace(command, data@));
                }
                Ok(())
            },
            Err(e) => {
                proof {
                    assert(old(self).trace().is_prefix_of(self.trace()));
                }
                Err(e)
            },
        }
    }

    /// Block until the busy line reports idle under this panel's polarity.
    fn wait_until_idle(&mut self)
        ensures
            final(self).spec_background_color() == old(self).spec_background_color(),
            final(self).trace() == old(self).trace().push(ev_wait_idle()),
            final(self).pin_level() == IS_BUSY_LOW,
    {
        self.interface.wait_until_idle(IS_BUSY_LOW);
    }
}

/// The panel geometry packs exactly into whole bytes: width times height is
/// divisible by eight, so a full frame is exactly `FRAME_BUFFER_SIZE` bytes
/// with one bit per pixel and no slack.
pub proof fn lemma_geometry_byte_aligned()
    ensures
        (WIDTH * HEIGHT) % 8 == 0,
        FRAME_BUFFER_SIZE * 8 == WIDTH * HEIGHT,
{
}

/// `clear_frame` streams the blank pattern: its trace fills each of the two
/// color planes with a repeat-fill of the blank byte over the full pixel
/// count, and no event of the trace carries a payload anywhere near frame
/// size, so no frame-sized buffer is ever materialised on the bus.
pub proof fn lemma_clear_frame_streams_fill()
    ensures
        clear_frame_trace()[4] == (BusEvent::Fill { value: 0xFF, count: FRAME_BUFFER_SIZE }),
        clear_frame_trace()[6] == (BusEvent::Fill { value: 0xFF, count: FRAME_BUFFER_SIZE }),
        forall|i: int|
            0 <= i < clear_frame_trace().len() ==> ((#[trigger] clear_frame_trace()[i]) matches
            BusEvent::Data { bytes } ==> bytes.len() <= 2),
{
    assert forall|i: int|
        0 <= i < clear_frame_trace().len() implies ((#[trigger] clear_frame_trace()[i]) matches
        BusEvent::Data { bytes } ==> bytes.len() <= 2) by {
        assert(clear_frame_trace().len() == 11);
        if i == 2 {
            assert(clear_frame_trace()[2] == (BusEvent::Data { bytes: seq![0x00u8, 0x00] }));
        } else if i == 8 {
            assert(clear_frame_trace()[8] == (BusEvent::Data { bytes: seq![0xF7u8] }));
        }
    }
}

} // verus!
