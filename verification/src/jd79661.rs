//! The driver of the JD79661 panel.
//!
//! The driver does not touch the hardware. Each lifecycle operation hands
//! out a script: the bus actions that perform it, in order. Whoever owns the
//! serial bus and the four control lines carries the script out, action by
//! action, and never interleaves two scripts.
//!
//! A panel is brought up with `power_up`. It then takes a frame with
//! `write_buffer` and shows it with `update`, any number of times. With
//! `power_down` it goes into deep sleep, and only another `power_up`, which
//! resets it, brings it back. While the panel works on a command it holds
//! its busy line low; a script says where to wait for it, and `busy_wait`
//! says how.

use vstd::prelude::*;
use crate::bus::{Action, Level, Signal, Wire, WireByte};
use crate::command::{
    bytes_of, start_sequence, start_sequence_spec, wire_command, Command, CommandData,
    WireCommand,
};

verus! {

/// Pixels in a row of the panel.
pub const WIDTH: usize = 128;

/// Rows of the panel.
pub const HEIGHT: usize = 250;

/// Bits that hold one pixel.
pub const PIXDEPTH: usize = 2;

/// Bytes in one frame.
pub const BUFFER_LEN: usize = WIDTH * HEIGHT * PIXDEPTH / 8;

/// Milliseconds between two polls of the busy line.
pub const BUSY_POLL_MS: u32 = 10;

/// The reset pulse: high, low, high, each level held for its time.
pub open spec fn reset_script() -> Seq<Signal> {
    seq![
        Signal::Reset(Level::High),
        Signal::DelayMs(20),
        Signal::Reset(Level::Low),
        Signal::DelayMs(40),
        Signal::Reset(Level::High),
        Signal::DelayMs(50),
    ]
}

/// The framing of one command: deselect, switch to command mode, select,
/// send the opcode, switch to data mode, send the parameters, deselect.
pub open spec fn frame(command: WireCommand) -> Seq<Signal> {
    seq![
        Signal::ChipSelect(Level::High),
        Signal::DataCommand(Level::Low),
        Signal::ChipSelect(Level::Low),
        Signal::Write(seq![command.opcode]),
        Signal::DataCommand(Level::High),
        Signal::Write(command.params),
        Signal::ChipSelect(Level::High),
    ]
}

/// The framings of a list of commands, one after the other.
pub open spec fn frames(commands: Seq<WireCommand>) -> Seq<Signal>
    decreases commands.len(),
{
    if commands.len() == 0 {
        Seq::empty()
    } else {
        frames(commands.drop_last()) + frame(commands.last())
    }
}

/// What the panel takes in from the framing of one command: the opcode as a
/// command byte, then each parameter as a data byte.
pub open spec fn packet(command: WireCommand) -> Seq<WireByte> {
    seq![WireByte::Command(command.opcode)] + Wire::tagged(Level::High, command.params)
}

/// What the panel takes in from the framings of a list of commands.
pub open spec fn packets(commands: Seq<WireCommand>) -> Seq<WireByte>
    decreases commands.len(),
{
    if commands.len() == 0 {
        Seq::empty()
    } else {
        packets(commands.drop_last()) + packet(commands.last())
    }
}

/// The script of `power_up`.
pub open spec fn power_up_script() -> Seq<Signal> {
    reset_script() + seq![Signal::AwaitReady, Signal::DelayMs(10)] + frames(start_sequence_spec())
        + seq![Signal::AwaitReady]
}

/// The script of `power_down`.
pub open spec fn power_down_script() -> Seq<Signal> {
    frame(wire_command(0x02, seq![0x00])) + seq![Signal::AwaitReady] + frame(
        wire_command(0x07, seq![0xA5]),
    ) + seq![Signal::DelayMs(100)]
}

/// The script of `update`.
pub open spec fn update_script() -> Seq<Signal> {
    frame(wire_command(0x12, seq![0x00])) + seq![Signal::AwaitReady]
}

/// The script of `sleeping_update`.
pub open spec fn sleeping_update_script() -> Seq<Signal> {
    frame(wire_command(0x17, seq![0xA5])) + seq![Signal::AwaitReady]
}

/// The script of `write_buffer` for a frame of these bytes.
pub open spec fn write_buffer_script(buffer: Seq<u8>) -> Seq<Signal> {
    frame(wire_command(0x10, buffer)) + frame(wire_command(0x11, seq![]))
}

/// The lines before the driver has asked for anything: the pull-downs hold
/// every line low, and the panel has taken in nothing.
pub open spec fn idle_wire() -> Wire {
    Wire { chip_select: Level::Low, data_command: Level::Low, reset: Level::Low, seen: Seq::empty() }
}

/// The panel driver. It stands for the serial bus and the control lines of
/// one panel, and remembers every signal it has asked for.
pub struct JD79661 {
    issued: Ghost<Seq<Signal>>,
}

impl View for JD79661 {
    type V = Seq<Signal>;

    /// Every signal the driver has asked for since `begin`, in order.
    closed spec fn view(&self) -> Seq<Signal> {
        self.issued@
    }
}

impl JD79661 {
    /// The lines and the panel's intake once everything asked for so far has
    /// been carried out.
    pub open spec fn wire(&self) -> Wire {
        idle_wire().run(self@)
    }

    /// Between two operations the panel is never selected.
    #[verifier::type_invariant]
    spec fn deselected(&self) -> bool {
        idle_wire().run(self.issued@).chip_select == Level::High
    }

    /// Takes charge of the panel's lines. The script deselects the panel;
    /// nothing is sent to it yet.
    pub fn begin() -> (started: (JD79661, Vec<Action>))
        ensures
            started.1.deep_view() == seq![Signal::ChipSelect(Level::High)],
            started.0@ == started.1.deep_view(),
            started.0.wire().chip_select == Level::High,
    {
        let script = vec![Action::ChipSelect(Level::High)];
        let ghost signals = seq![Signal::ChipSelect(Level::High)];
        proof {
            assert(script.deep_view() =~= signals);
            lemma_run_push(idle_wire(), Seq::empty(), Signal::ChipSelect(Level::High));
        }
        (JD79661 { issued: Ghost(signals) }, script)
    }

    /// Pulses the reset line. The order and the delays are the controller's:
    /// a shorter pulse may leave it unresponsive.
    pub fn hardware_reset(&mut self) -> (script: Vec<Action>)
        ensures
            script.deep_view() == reset_script(),
            final(self)@ == old(self)@ + script.deep_view(),
            final(self).wire().chip_select == Level::High,
    {
        let script = vec![
            Action::Reset(Level::High),
            Action::DelayMs(20),
            Action::Reset(Level::Low),
            Action::DelayMs(40),
            Action::Reset(Level::High),
            Action::DelayMs(50),
        ];
        proof {
            use_type_invariant(&*self);
            assert(script.deep_view() =~= reset_script());
            lemma_reset_on_wire(idle_wire().run(self.issued@));
            idle_wire().lemma_run_concat(self.issued@, reset_script());
        }
        self.issued = Ghost(self.issued@ + reset_script());
        script
    }

    /// Decides one round of waiting for the panel, from the level just read
    /// from the busy line. The line is low while the panel is busy: then the
    /// caller waits `BUSY_POLL_MS` and reads the line again. Once it is high
    /// the panel is ready and the wait is over. The driver sets no limit on
    /// the number of rounds.
    pub fn busy_wait(&mut self, busy: Level) -> (next: Option<Action>)
        ensures
            busy == Level::Low ==> next.deep_view() == Some(Signal::DelayMs(BUSY_POLL_MS))
                && final(self)@ == old(self)@.push(Signal::DelayMs(BUSY_POLL_MS)),
            busy == Level::High ==> next is None && final(self)@ == old(self)@,
            final(self).wire().chip_select == Level::High,
    {
        proof {
            use_type_invariant(&*self);
        }
        match busy {
            Level::Low => {
                proof {
                    lemma_run_push(idle_wire(), self.issued@, Signal::DelayMs(BUSY_POLL_MS));
                }
                self.issued = Ghost(self.issued@.push(Signal::DelayMs(BUSY_POLL_MS)));
                Some(Action::DelayMs(BUSY_POLL_MS))
            },
            Level::High => None,
        }
    }

    /// Frames each command of `commands`, in order.
    pub fn command_list(&mut self, commands: &[Command]) -> (script: Vec<Action>)
        ensures
            script.deep_view() == frames(commands.deep_view()),
            final(self)@ == old(self)@ + script.deep_view(),
            final(self).wire().chip_select == Level::High,
    {
        let mut script: Vec<Action> = Vec::new();
        let ghost all = commands.deep_view();
        let ghost before = self.issued@;
        proof {
            use_type_invariant(&*self);
            assert(script.deep_view() =~= frames(all.take(0)));
            assert(before + script.deep_view() =~= before);
        }
        let mut i: usize = 0;
        while i < commands.len()
            invariant
                i <= commands.len(),
                all == commands.deep_view(),
                script.deep_view() == frames(all.take(i as int)),
                self.issued@ == before + script.deep_view(),
                idle_wire().run(self.issued@).chip_select == Level::High,
            decreases commands.len() - i,
        {
            let data = CommandData::from(&commands[i]);
            let ghost command = all[i as int];
            let ghost so_far = script.deep_view();
            script.push(Action::ChipSelect(Level::High));
            script.push(Action::DataCommand(Level::Low));
            script.push(Action::ChipSelect(Level::Low));
            let opcode = vec![data.opcode];
            assert(opcode@ =~= seq![command.opcode]);
            script.push(Action::Write(opcode));
            script.push(Action::DataCommand(Level::High));
            script.push(Action::Write(data.params));
            script.push(Action::ChipSelect(Level::High));
            proof {
                assert(data.deep_view() == command);
                assert(script.deep_view() =~= so_far + frame(command));
                assert(all.take(i + 1).drop_last() =~= all.take(i as int));
                lemma_frame_on_wire(idle_wire().run(self.issued@), command);
                idle_wire().lemma_run_concat(self.issued@, frame(command));
                assert(before + (so_far + frame(command)) =~= (before + so_far) + frame(command));
            }
            self.issued = Ghost(self.issued@ + frame(command));
            i = i + 1;
        }
        proof {
            assert(all.take(commands.len() as int) =~= all);
        }
        script
    }

    /// Adds a pause to `script`: a delay, or a wait for the panel.
    fn pause(&mut self, script: &mut Vec<Action>, action: Action)
        requires
            action is DelayMs || action is AwaitReady,
        ensures
            final(script).deep_view() == old(script).deep_view().push(action.deep_view()),
            final(self)@ == old(self)@.push(action.deep_view()),
    {
        let ghost signal = action.deep_view();
        proof {
            use_type_invariant(&*self);
            lemma_run_push(idle_wire(), self.issued@, signal);
        }
        self.issued = Ghost(self.issued@.push(signal));
        script.push(action);
        assert(script.deep_view() =~= old(script).deep_view().push(signal));
    }

    /// Brings the panel from any state to ready: the reset pulse, a wait for
    /// the controller, the start sequence, and a wait for the power rails.
    pub fn power_up(&mut self) -> (script: Vec<Action>)
        ensures
            script.deep_view() == power_up_script(),
            final(self)@ == old(self)@ + script.deep_view(),
            final(self).wire().chip_select == Level::High,
    {
        let mut script = self.hardware_reset();
        self.pause(&mut script, Action::AwaitReady);
        self.pause(&mut script, Action::DelayMs(10));
        let ghost head = script.deep_view();
        let start = start_sequence();
        let list = start.as_slice();
        proof {
            assert(list.deep_view() =~= start.deep_view());
        }
        let mut body = self.command_list(list);
        let ghost middle = body.deep_view();
        script.append(&mut body);
        assert(script.deep_view() =~= head + middle);
        self.pause(&mut script, Action::AwaitReady);
        proof {
            use_type_invariant(&*self);
            assert(script.deep_view() =~= power_up_script());
            assert(self@ =~= old(self)@ + power_up_script());
        }
        script
    }

    /// Switches the power rails off, waits for the panel, and sends it into
    /// deep sleep, from which only a reset wakes it.
    pub fn power_down(&mut self) -> (script: Vec<Action>)
        ensures
            script.deep_view() == power_down_script(),
            final(self)@ == old(self)@ + script.deep_view(),
            final(self).wire().chip_select == Level::High,
    {
        let power_off = [Command::POF];
        let off = power_off.as_slice();
        let mut script = self.command_list(off);
        proof {
            lemma_frames_one(off.deep_view()[0]);
            assert(off.deep_view() =~= seq![off.deep_view()[0]]);
            assert(off.deep_view()[0].params =~= seq![0x00u8]);
        }
        self.pause(&mut script, Action::AwaitReady);
        let ghost head = script.deep_view();
        let deep_sleep = [Command::DSLP];
        let sleep = deep_sleep.as_slice();
        let mut tail = self.command_list(sleep);
        let ghost middle = tail.deep_view();
        proof {
            lemma_frames_one(sleep.deep_view()[0]);
            assert(sleep.deep_view() =~= seq![sleep.deep_view()[0]]);
            assert(sleep.deep_view()[0].params =~= seq![0xA5u8]);
        }
        script.append(&mut tail);
        assert(script.deep_view() =~= head + middle);
        self.pause(&mut script, Action::DelayMs(100));
        proof {
            use_type_invariant(&*self);
            assert(script.deep_view() =~= power_down_script());
            assert(self@ =~= old(self)@ + power_down_script());
        }
        script
    }

    /// Shows the frame that the panel holds, and waits until the panel has
    /// finished, which takes seconds.
    pub fn update(&mut self) -> (script: Vec<Action>)
        ensures
            script.deep_view() == update_script(),
            final(self)@ == old(self)@ + script.deep_view(),
            final(self).wire().chip_select == Level::High,
    {
        let display_refresh = [Command::DRF([0x00])];
        let refresh = display_refresh.as_slice();
        let mut script = self.command_list(refresh);
        proof {
            lemma_frames_one(refresh.deep_view()[0]);
            assert(refresh.deep_view() =~= seq![refresh.deep_view()[0]]);
            assert(refresh.deep_view()[0].params =~= seq![0x00u8]);
        }
        self.pause(&mut script, Action::AwaitReady);
        proof {
            use_type_invariant(&*self);
            assert(script.deep_view() =~= update_script());
            assert(self@ =~= old(self)@ + update_script());
        }
        script
    }

    /// Shows the frame that the panel holds in one command: the controller
    /// itself switches the power on, refreshes, and switches the power off.
    pub fn sleeping_update(&mut self) -> (script: Vec<Action>)
        ensures
            script.deep_view() == sleeping_update_script(),
            final(self)@ == old(self)@ + script.deep_view(),
            final(self).wire().chip_select == Level::High,
    {
        // power on, then refresh, then power off
        let sequence = [Command::AUTO([0xA5])];
        let auto = sequence.as_slice();
        let mut script = self.command_list(auto);
        proof {
            lemma_frames_one(auto.deep_view()[0]);
            assert(auto.deep_view() =~= seq![auto.deep_view()[0]]);
            assert(auto.deep_view()[0].params =~= seq![0xA5u8]);
        }
        self.pause(&mut script, Action::AwaitReady);
        proof {
            use_type_invariant(&*self);
            assert(script.deep_view() =~= sleeping_update_script());
            assert(self@ =~= old(self)@ + sleeping_update_script());
        }
        script
    }

    /// Loads a frame into the panel without showing it: the data transfer
    /// with the whole frame as its payload, then the display start.
    pub fn write_buffer(&mut self, buffer: &[u8; BUFFER_LEN]) -> (script: Vec<Action>)
        ensures
            script.deep_view() == write_buffer_script(buffer@),
            final(self)@ == old(self)@ + script.deep_view(),
            final(self).wire().chip_select == Level::High,
    {
        let transfer = [Command::DTM(bytes_of(buffer.as_slice())), Command::DSP];
        let list = transfer.as_slice();
        let script = self.command_list(list);
        proof {
            use_type_invariant(&*self);
            let commands = list.deep_view();
            assert(commands[0].params =~= buffer@);
            assert(commands[1].params =~= seq![]);
            assert(commands =~= seq![commands[0]].push(commands[1]));
            lemma_frames_one(commands[0]);
            lemma_frames_push(seq![commands[0]], commands[1]);
        }
        script
    }
}

/// One more command at the end of a list is one more framing at the end.
pub proof fn lemma_frames_push(commands: Seq<WireCommand>, command: WireCommand)
    ensures
        frames(commands.push(command)) == frames(commands) + frame(command),
{
    assert(commands.push(command).drop_last() =~= commands);
}

/// The framing of a list of one command is the framing of that command.
pub proof fn lemma_frames_one(command: WireCommand)
    ensures
        frames(seq![command]) == frame(command),
{
    lemma_frames_push(Seq::empty(), command);
    assert(Seq::<WireCommand>::empty().push(command) =~= seq![command]);
    assert(frames(Seq::<WireCommand>::empty()) + frame(command) =~= frame(command));
}

/// One more signal at the end of a script is one more step on the wire.
pub proof fn lemma_run_push(start: Wire, script: Seq<Signal>, signal: Signal)
    ensures
        start.run(script.push(signal)) == start.run(script).after(signal),
{
    assert(script.push(signal).drop_last() =~= script);
}

/// The reset pulse leaves the reset line high and touches nothing else.
pub proof fn lemma_reset_on_wire(start: Wire)
    ensures
        start.run(reset_script()) == (Wire { reset: Level::High, ..start }),
{
    let s0 = Seq::<Signal>::empty();
    let s1 = s0.push(Signal::Reset(Level::High));
    let s2 = s1.push(Signal::DelayMs(20));
    let s3 = s2.push(Signal::Reset(Level::Low));
    let s4 = s3.push(Signal::DelayMs(40));
    let s5 = s4.push(Signal::Reset(Level::High));
    let s6 = s5.push(Signal::DelayMs(50));
    lemma_run_push(start, s0, Signal::Reset(Level::High));
    lemma_run_push(start, s1, Signal::DelayMs(20));
    lemma_run_push(start, s2, Signal::Reset(Level::Low));
    lemma_run_push(start, s3, Signal::DelayMs(40));
    lemma_run_push(start, s4, Signal::Reset(Level::High));
    lemma_run_push(start, s5, Signal::DelayMs(50));
    assert(s6 =~= reset_script());
}

/// The framing of a command puts on the wire exactly one opcode byte, in
/// command mode, and then each parameter byte, in data mode and in order,
/// and leaves the panel deselected. This holds of every command, also of one
/// without parameters, and whatever the lines held before.
pub proof fn lemma_frame_on_wire(start: Wire, command: WireCommand)
    ensures
        start.run(frame(command)) == (Wire {
            chip_select: Level::High,
            data_command: Level::High,
            reset: start.reset,
            seen: start.seen + packet(command),
        }),
        packet(command).len() == 1 + command.params.len(),
        packet(command)[0] == WireByte::Command(command.opcode),
        forall|i: int|
            0 <= i < command.params.len() ==> #[trigger] packet(command)[1 + i] == WireByte::Data(
                command.params[i],
            ),
{
    let a0 = Signal::ChipSelect(Level::High);
    let a1 = Signal::DataCommand(Level::Low);
    let a2 = Signal::ChipSelect(Level::Low);
    let a3 = Signal::Write(seq![command.opcode]);
    let a4 = Signal::DataCommand(Level::High);
    let a5 = Signal::Write(command.params);
    let a6 = Signal::ChipSelect(Level::High);
    let s0 = Seq::<Signal>::empty();
    let s1 = s0.push(a0);
    let s2 = s1.push(a1);
    let s3 = s2.push(a2);
    let s4 = s3.push(a3);
    let s5 = s4.push(a4);
    let s6 = s5.push(a5);
    let s7 = s6.push(a6);
    lemma_run_push(start, s0, a0);
    lemma_run_push(start, s1, a1);
    lemma_run_push(start, s2, a2);
    lemma_run_push(start, s3, a3);
    lemma_run_push(start, s4, a4);
    lemma_run_push(start, s5, a5);
    lemma_run_push(start, s6, a6);
    assert(s7 =~= frame(command));
    assert(Wire::tagged(Level::Low, seq![command.opcode]) =~= seq![
        WireByte::Command(command.opcode),
    ]);
    assert(start.run(s7).seen =~= start.seen + packet(command));
}

/// The framings of a list of commands put on the wire the packets of the
/// commands, in the order of the list, and nothing else; the reset line is
/// left alone, and after the last framing the panel is deselected.
pub proof fn lemma_frames_on_wire(start: Wire, commands: Seq<WireCommand>)
    ensures
        start.run(frames(commands)).seen == start.seen + packets(commands),
        start.run(frames(commands)).reset == start.reset,
        commands.len() > 0 ==> start.run(frames(commands)).chip_select == Level::High,
    decreases commands.len(),
{
    if commands.len() == 0 {
        assert(start.seen + packets(commands) =~= start.seen);
    } else {
        let rest = commands.drop_last();
        lemma_frames_on_wire(start, rest);
        start.lemma_run_concat(frames(rest), frame(commands.last()));
        lemma_frame_on_wire(start.run(frames(rest)), commands.last());
        assert((start.seen + packets(rest)) + packet(commands.last()) =~= start.seen + packets(
            commands,
        ));
    }
}

/// `power_up` resets before it sends anything: its script begins with the
/// whole reset pulse and the wait for the controller, nothing is written to
/// the bus until both are over, and what the panel then takes in is the
/// start sequence, whole and in order.
pub proof fn lemma_power_up_resets_first(start: Wire)
    ensures
        power_up_script().take(6) == reset_script(),
        power_up_script()[6] == Signal::AwaitReady,
        forall|i: int| 0 <= i < 8 ==> !(#[trigger] power_up_script()[i] is Write),
        start.run(power_up_script().take(8)).seen == start.seen,
        start.run(power_up_script().take(8)).reset == Level::High,
        start.run(power_up_script()).seen == start.seen + packets(start_sequence_spec()),
        start.run(power_up_script()).chip_select == Level::High,
{
    let pauses = seq![Signal::AwaitReady, Signal::DelayMs(10)];
    let head = reset_script() + pauses;
    let body = frames(start_sequence_spec());
    let tail = seq![Signal::AwaitReady];
    assert(power_up_script().take(6) =~= reset_script());
    assert(power_up_script().take(8) =~= head);
    assert(power_up_script() =~= head + body + tail);

    lemma_reset_on_wire(start);
    start.lemma_run_concat(reset_script(), pauses);
    let reset = start.run(reset_script());
    lemma_run_push(reset, Seq::empty(), Signal::AwaitReady);
    lemma_run_push(reset, seq![Signal::AwaitReady], Signal::DelayMs(10));
    assert(seq![Signal::AwaitReady].push(Signal::DelayMs(10)) =~= pauses);
    assert(start.run(head) == reset);

    start.lemma_run_concat(head, body);
    lemma_frames_on_wire(reset, start_sequence_spec());
    start.lemma_run_concat(head + body, tail);
    lemma_run_push(start.run(head + body), Seq::empty(), Signal::AwaitReady);
    assert(Seq::<Signal>::empty().push(Signal::AwaitReady) =~= tail);
}

/// `power_down` switches the power off before it sends the panel to sleep:
/// the panel takes in the power-off command, the driver waits for the panel,
/// and only then the panel takes in the deep-sleep command.
pub proof fn lemma_power_down_order(start: Wire)
    ensures
        power_down_script().take(7) == frame(wire_command(0x02, seq![0x00])),
        power_down_script()[7] == Signal::AwaitReady,
        power_down_script().subrange(8, 15) == frame(wire_command(0x07, seq![0xA5])),
        power_down_script()[15] == Signal::DelayMs(100),
        power_down_script().len() == 16,
        start.run(power_down_script()).seen == start.seen + seq![
            WireByte::Command(0x02),
            WireByte::Data(0x00),
            WireByte::Command(0x07),
            WireByte::Data(0xA5),
        ],
        start.run(power_down_script()).chip_select == Level::High,
{
    let off = frame(wire_command(0x02, seq![0x00]));
    let wait = seq![Signal::AwaitReady];
    let sleep = frame(wire_command(0x07, seq![0xA5]));
    let settle = seq![Signal::DelayMs(100)];
    assert(power_down_script().take(7) =~= off);
    assert(power_down_script().subrange(8, 15) =~= sleep);

    lemma_frame_on_wire(start, wire_command(0x02, seq![0x00]));
    let w1 = start.run(off);
    start.lemma_run_concat(off, wait);
    lemma_run_push(w1, Seq::empty(), Signal::AwaitReady);
    assert(Seq::<Signal>::empty().push(Signal::AwaitReady) =~= wait);
    start.lemma_run_concat(off + wait, sleep);
    lemma_frame_on_wire(w1, wire_command(0x07, seq![0xA5]));
    let w2 = w1.run(sleep);
    start.lemma_run_concat(off + wait + sleep, settle);
    lemma_run_push(w2, Seq::empty(), Signal::DelayMs(100));
    assert(Seq::<Signal>::empty().push(Signal::DelayMs(100)) =~= settle);
    assert(start.run(power_down_script()).seen =~= start.seen + seq![
        WireByte::Command(0x02),
        WireByte::Data(0x00),
        WireByte::Command(0x07),
        WireByte::Data(0xA5),
    ]);
}

/// `write_buffer` puts on the wire the data-transfer opcode, then every byte
/// of the frame as data and in order, then the display-start opcode, and
/// nothing else.
pub proof fn lemma_write_buffer_on_wire(start: Wire, buffer: Seq<u8>)
    ensures
        start.run(write_buffer_script(buffer)).seen == start.seen + seq![WireByte::Command(0x10)]
            + Wire::tagged(Level::High, buffer) + seq![WireByte::Command(0x11)],
        start.run(write_buffer_script(buffer)).chip_select == Level::High,
{
    let transfer = wire_command(0x10, buffer);
    let show = wire_command(0x11, seq![]);
    lemma_frame_on_wire(start, transfer);
    start.lemma_run_concat(frame(transfer), frame(show));
    lemma_frame_on_wire(start.run(frame(transfer)), show);
    assert(start.run(write_buffer_script(buffer)).seen =~= start.seen + seq![
        WireByte::Command(0x10),
    ] + Wire::tagged(Level::High, buffer) + seq![WireByte::Command(0x11)]);
}

} // verus!
