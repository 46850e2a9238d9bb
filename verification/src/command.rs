//! The panel's command catalogue: a closed set of named operations, each of
//! which maps to one opcode byte and a run of parameter bytes.

use vstd::prelude::*;

verus! {

/// One operation of the panel controller, with its parameter bytes.
#[derive(Clone, Debug, PartialEq, Eq)]
pub enum Command {
    /// Any opcode the catalogue has no name for, with its parameters.
    Misc(u8, Vec<u8>),
    /// Panel setting.
    PSR([u8; 2]),
    /// Power setting.
    PWR([u8; 6]),
    /// Power off.
    POF,
    /// Power on.
    PON,
    /// Booster soft start.
    BTST([u8; 7]),
    /// Deep sleep.
    DSLP,
    /// Data transfer; the payload is a whole frame.
    DTM(Vec<u8>),
    /// Display start: ends a data transfer.
    DSP,
    /// Display refresh.
    DRF([u8; 1]),
    /// Automatic sequence: power on, refresh, power off.
    AUTO([u8; 1]),
    /// Oscillator and PLL control.
    PLL([u8; 1]),
    /// VCOM and data interval.
    CDI([u8; 1]),
    /// Resolution.
    TRES([u8; 4]),
}

impl Command {
    /// The opcode byte that announces this command on the wire.
    pub open spec fn opcode(self) -> u8 {
        match self {
            Command::Misc(c, _) => c,
            Command::PSR(_) => 0x00,
            Command::PWR(_) => 0x01,
            Command::POF => 0x02,
            Command::PON => 0x04,
            Command::BTST(_) => 0x06,
            Command::DSLP => 0x07,
            Command::DTM(_) => 0x10,
            Command::DSP => 0x11,
            Command::DRF(_) => 0x12,
            Command::AUTO(_) => 0x17,
            Command::PLL(_) => 0x30,
            Command::CDI(_) => 0x50,
            Command::TRES(_) => 0x61,
        }
    }

    /// The parameter bytes that follow the opcode, in wire order.
    pub open spec fn params(self) -> Seq<u8> {
        match self {
            Command::Misc(_, d) => d@,
            Command::PSR(d) => d@,
            Command::PWR(d) => d@,
            Command::POF => seq![0x00u8],
            Command::PON => Seq::empty(),
            Command::BTST(d) => d@,
            Command::DSLP => seq![0xA5u8],
            Command::DTM(d) => d@,
            Command::DSP => Seq::empty(),
            Command::DRF(d) => d@,
            Command::AUTO(d) => d@,
            Command::PLL(d) => d@,
            Command::CDI(d) => d@,
            Command::TRES(d) => d@,
        }
    }
}

/// A command as a mathematical value: its opcode and its parameter bytes.
pub struct WireCommand {
    pub opcode: u8,
    pub params: Seq<u8>,
}

impl DeepView for Command {
    type V = WireCommand;

    open spec fn deep_view(&self) -> WireCommand {
        WireCommand { opcode: self.opcode(), params: self.params() }
    }
}

/// A command as it goes over the wire: the opcode and its parameter bytes.
#[derive(Clone, Debug, PartialEq, Eq)]
pub struct CommandData {
    pub opcode: u8,
    pub params: Vec<u8>,
}

impl DeepView for CommandData {
    type V = WireCommand;

    open spec fn deep_view(&self) -> WireCommand {
        WireCommand { opcode: self.opcode, params: self.params@ }
    }
}

/// Copies the bytes of `bytes` into a fresh vector.
pub fn bytes_of(bytes: &[u8]) -> (out: Vec<u8>)
    ensures
        out@ == bytes@,
{
    let mut out: Vec<u8> = Vec::new();
    let mut i: usize = 0;
    while i < bytes.len()
        invariant
            i <= bytes.len(),
            out@ == bytes@.subrange(0, i as int),
        decreases bytes.len() - i,
    {
        out.push(bytes[i]);
        i = i + 1;
    }
    assert(bytes@.subrange(0, bytes.len() as int) == bytes@);
    out
}

impl CommandData {
    /// The wire form of `command`.
    pub fn from(command: &Command) -> (data: CommandData)
        ensures
            data.deep_view() == command.deep_view(),
    {
        let data = match command {
            Command::Misc(c, d) => CommandData { opcode: *c, params: bytes_of(d.as_slice()) },
            Command::PSR(d) => CommandData { opcode: 0x00, params: bytes_of(d.as_slice()) },
            Command::PWR(d) => CommandData { opcode: 0x01, params: bytes_of(d.as_slice()) },
            Command::POF => CommandData { opcode: 0x02, params: vec![0x00u8] },
            Command::PON => CommandData { opcode: 0x04, params: Vec::new() },
            Command::BTST(d) => CommandData { opcode: 0x06, params: bytes_of(d.as_slice()) },
            Command::DSLP => CommandData { opcode: 0x07, params: vec![0xA5u8] },
            Command::DTM(d) => CommandData { opcode: 0x10, params: bytes_of(d.as_slice()) },
            Command::DSP => CommandData { opcode: 0x11, params: Vec::new() },
            Command::DRF(d) => CommandData { opcode: 0x12, params: bytes_of(d.as_slice()) },
            Command::AUTO(d) => CommandData { opcode: 0x17, params: bytes_of(d.as_slice()) },
            Command::PLL(d) => CommandData { opcode: 0x30, params: bytes_of(d.as_slice()) },
            Command::CDI(d) => CommandData { opcode: 0x50, params: bytes_of(d.as_slice()) },
            Command::TRES(d) => CommandData { opcode: 0x61, params: bytes_of(d.as_slice()) },
        };
        assert(data.params@ =~= command.params());
        data
    }
}

/// The wire form of a command with this opcode and these parameters.
pub open spec fn wire_command(opcode: u8, params: Seq<u8>) -> WireCommand {
    WireCommand { opcode, params }
}

/// The commands that configure a panel after reset, in the order in which
/// the controller expects them; the last one switches the power rails on.
pub open spec fn start_sequence_spec() -> Seq<WireCommand> {
    seq![
        wire_command(0x4D, seq![0x78]),
        wire_command(0x00, seq![0x8F, 0x29]),
        wire_command(0x01, seq![0x07, 0x00, 0x00, 0x00, 0x00, 0x00]),
        wire_command(0x03, seq![0x10, 0x54, 0x44]),
        wire_command(0x06, seq![0x05, 0x00, 0x3F, 0x0A, 0x25, 0x12, 0x1A]),
        wire_command(0x50, seq![0x37]),
        wire_command(0x60, seq![0x02, 0x02]),
        wire_command(0x61, seq![0, 128, 0, 250]),
        wire_command(0xE7, seq![0x1C]),
        wire_command(0xE3, seq![0x22]),
        wire_command(0xB4, seq![0xD0]),
        wire_command(0xB5, seq![0x03]),
        wire_command(0xE9, seq![0x01]),
        wire_command(0x30, seq![0x08]),
        wire_command(0x04, seq![]),
    ]
}

/// Builds the start sequence.
pub fn start_sequence() -> (commands: Vec<Command>)
    ensures
        commands.deep_view() == start_sequence_spec(),
{
    let commands = vec![
        Command::Misc(0x4D, vec![0x78]),
        // 128 x 250; scan up, first line G1 to G2; shift right, first data S1 to S2
        Command::PSR([0x8F, 0x29]),
        Command::PWR([0x07, 0x00, 0, 0, 0, 0]),
        // power-off sequence
        Command::Misc(0x03, vec![0x10, 0x54, 0x44]),
        Command::BTST([0x05, 0x00, 0x3F, 0x0A, 0x25, 0x12, 0x1A]),
        Command::CDI([0x37]),
        // gate and source non-overlap periods
        Command::Misc(0x60, vec![0x02, 0x02]),
        Command::TRES([0, 128, 0, 250]),
        Command::Misc(0xE7, vec![0x1C]),
        Command::Misc(0xE3, vec![0x22]),
        Command::Misc(0xB4, vec![0xD0]),
        Command::Misc(0xB5, vec![0x03]),
        Command::Misc(0xE9, vec![0x01]),
        Command::PLL([0x08]),
        Command::PON,
    ];
    assert(commands.deep_view() =~= start_sequence_spec()) by {
        assert forall|i: int| 0 <= i < 15 implies commands.deep_view()[i]
            == start_sequence_spec()[i] by {
            assert(commands@[i].params() =~= start_sequence_spec()[i].params);
        }
    }
    commands
}

} // verus!
