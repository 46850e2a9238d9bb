//! The bus between the driver and the panel: the actions a driver asks for,
//! and a model of what the panel's pins see when they are carried out.
//!
//! The panel listens on a serial data line framed by two control lines.
//! Chip-select is active low: the panel takes in a byte only while it is low.
//! The data/command line says what a byte is: low for an opcode, high for a
//! parameter.

use vstd::prelude::*;

verus! {

/// The level of a digital line.
#[derive(Clone, Copy, Debug, PartialEq, Eq, Structural)]
pub enum Level {
    Low,
    High,
}

/// One thing the owner of the hardware does on the driver's behalf.
#[derive(Clone, Debug, PartialEq, Eq)]
pub enum Action {
    /// Drive the chip-select line to this level.
    ChipSelect(Level),
    /// Drive the data/command line to this level.
    DataCommand(Level),
    /// Drive the reset line to this level.
    Reset(Level),
    /// Write these bytes to the serial bus, in order, as one transfer.
    Write(Vec<u8>),
    /// Do nothing for this many milliseconds.
    DelayMs(u32),
    /// Poll the busy line until the panel is ready (see `JD79661::busy_wait`).
    AwaitReady,
}

/// An `Action` as a mathematical value.
pub enum Signal {
    ChipSelect(Level),
    DataCommand(Level),
    Reset(Level),
    Write(Seq<u8>),
    DelayMs(u32),
    AwaitReady,
}

impl DeepView for Action {
    type V = Signal;

    open spec fn deep_view(&self) -> Signal {
        match *self {
            Action::ChipSelect(l) => Signal::ChipSelect(l),
            Action::DataCommand(l) => Signal::DataCommand(l),
            Action::Reset(l) => Signal::Reset(l),
            Action::Write(bytes) => Signal::Write(bytes@),
            Action::DelayMs(ms) => Signal::DelayMs(ms),
            Action::AwaitReady => Signal::AwaitReady,
        }
    }
}

/// A byte as the panel takes it in: an opcode or a parameter.
pub enum WireByte {
    Command(u8),
    Data(u8),
}

/// What the panel's pins hold, and every byte the panel has taken in so far.
pub struct Wire {
    pub chip_select: Level,
    pub data_command: Level,
    pub reset: Level,
    pub seen: Seq<WireByte>,
}

impl Wire {
    /// `bytes` as the panel reads them while the data/command line is at `mode`.
    pub open spec fn tagged(mode: Level, bytes: Seq<u8>) -> Seq<WireByte> {
        Seq::new(
            bytes.len(),
            |i: int|
                if mode == Level::Low {
                    WireByte::Command(bytes[i])
                } else {
                    WireByte::Data(bytes[i])
                },
        )
    }

    /// The wire after one signal. Bytes written while chip-select is high
    /// pass the panel by; waiting changes nothing on the wire.
    pub open spec fn after(self, signal: Signal) -> Wire {
        match signal {
            Signal::ChipSelect(l) => Wire { chip_select: l, ..self },
            Signal::DataCommand(l) => Wire { data_command: l, ..self },
            Signal::Reset(l) => Wire { reset: l, ..self },
            Signal::Write(bytes) => if self.chip_select == Level::Low {
                Wire { seen: self.seen + Wire::tagged(self.data_command, bytes), ..self }
            } else {
                self
            },
            Signal::DelayMs(_) => self,
            Signal::AwaitReady => self,
        }
    }

    /// The wire after a whole script, signal by signal.
    pub open spec fn run(self, script: Seq<Signal>) -> Wire
        decreases script.len(),
    {
        if script.len() == 0 {
            self
        } else {
            self.run(script.drop_last()).after(script.last())
        }
    }

    /// Running two scripts one after the other is running their concatenation.
    pub proof fn lemma_run_concat(self, first: Seq<Signal>, second: Seq<Signal>)
        ensures
            self.run(first + second) == self.run(first).run(second),
        decreases second.len(),
    {
        if second.len() == 0 {
            assert(first + second =~= first);
        } else {
            self.lemma_run_concat(first, second.drop_last());
            assert((first + second).drop_last() =~= first + second.drop_last());
        }
    }
}

} // verus!
