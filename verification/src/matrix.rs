//! The latch matrix that powers the dispenser motors.
//!
//! Eight data lines D0..D7 form a bus that is shared between writing the three
//! 8-bit latches U2, U3 and U4 and reading the motor-home and can-present
//! sensors. Three clock lines latch the bus into the flip-flops on their rising
//! edge, the output-enable line switches the external buffer between driving
//! outward (high) and letting the sensors drive the bus (low), and the clear
//! line resets all flip-flops while it is low.
//!
//! The driver does not touch pins. It hands out `PinOp`s, which the program
//! around it performs in order; `Matrix` says what those operations do to the
//! hardware, and is what the guarantees of the driver are stated over.

use vstd::prelude::*;

verus! {

/// The compressor relay hangs on bit 4 of U2.
pub const COMPRESSOR_BIT: u8 = 0x10;

/// The byte on the bus when every data line is released.
pub const BUS_RELEASED: u8 = 0xFF;

/// How long each phase of a clock pulse is held, in microseconds.
pub const CLOCK_PHASE_US: u32 = 1;

/// How long the buffer is given to settle after it changes direction, in microseconds.
pub const SETTLE_US: u32 = 20;

/// How long the power-on dwell and the clear pulse last, in microseconds.
pub const CLEAR_PULSE_US: u32 = 50;

/// One operation on the pins of the matrix.
#[derive(Clone, Copy, Debug, PartialEq, Eq, Structural)]
pub enum PinOp {
    /// Put a byte on D0..D7: a line is pulled low where its bit is 0 and
    /// released where it is 1.
    DriveBus(u8),
    /// Set clock line `index` (0 for U2, 1 for U3, 2 for U4).
    Clock { index: u8, high: bool },
    /// Set the output-enable line of the buffer.
    OutputEnable { high: bool },
    /// Set the clear line of the flip-flops.
    Clear { high: bool },
    /// Read the level of data line `index`; the level is reported back to the driver.
    Sample { index: u8 },
    /// Hold the pins as they are for this many microseconds.
    DelayMicros(u32),
}

/// The state of the matrix hardware.
#[derive(Clone, Copy, Debug, PartialEq, Eq, Structural)]
pub struct Matrix {
    /// The byte that the controller puts on D0..D7.
    pub bus: u8,
    pub clk0: bool,
    pub clk1: bool,
    pub clk2: bool,
    /// Output enable: high while the buffer drives outward.
    pub oe: bool,
    /// Clear: low while the flip-flops are held in reset.
    pub clr: bool,
    pub u2: u8,
    pub u3: u8,
    pub u4: u8,
    /// Set once the bus discipline was broken: a latch was clocked, or a data
    /// line pulled low, while the sensors drove the bus, or a line was sampled
    /// while they did not.
    pub fault: bool,
}

/// U2 with the compressor bit as the flag says.
pub open spec fn with_compressor(u2: u8, compressor_on: bool) -> u8 {
    if compressor_on {
        u2 | COMPRESSOR_BIT
    } else {
        u2
    }
}

impl Matrix {
    /// What one operation does to the hardware.
    pub open spec fn apply(self, op: PinOp) -> Matrix {
        match op {
            PinOp::DriveBus(byte) => Matrix {
                bus: byte,
                fault: self.fault || (!self.oe && byte != BUS_RELEASED),
                ..self
            },
            PinOp::Clock { index, high } => {
                if index == 0 {
                    let edge = high && !self.clk0;
                    Matrix {
                        clk0: high,
                        u2: if edge && self.clr { self.bus } else { self.u2 },
                        fault: self.fault || (edge && !self.oe),
                        ..self
                    }
                } else if index == 1 {
                    let edge = high && !self.clk1;
                    Matrix {
                        clk1: high,
                        u3: if edge && self.clr { self.bus } else { self.u3 },
                        fault: self.fault || (edge && !self.oe),
                        ..self
                    }
                } else if index == 2 {
                    let edge = high && !self.clk2;
                    Matrix {
                        clk2: high,
                        u4: if edge && self.clr { self.bus } else { self.u4 },
                        fault: self.fault || (edge && !self.oe),
                        ..self
                    }
                } else {
                    self
                }
            },
            PinOp::OutputEnable { high } => Matrix {
                oe: high,
                fault: self.fault || (!high && self.bus != BUS_RELEASED),
                ..self
            },
            PinOp::Clear { high } => Matrix {
                clr: high,
                u2: if high { self.u2 } else { 0 },
                u3: if high { self.u3 } else { 0 },
                u4: if high { self.u4 } else { 0 },
                ..self
            },
            PinOp::Sample { index } => Matrix { fault: self.fault || self.oe, ..self },
            PinOp::DelayMicros(_) => self,
        }
    }

    /// What a sequence of operations, performed in order, does to the hardware.
    pub open spec fn run(self, ops: Seq<PinOp>) -> Matrix
        decreases ops.len(),
    {
        if ops.len() == 0 {
            self
        } else {
            self.run(ops.drop_last()).apply(ops.last())
        }
    }

    /// The lines rest where no operation is under way: bus released, clocks
    /// high, clear released, and the discipline never broken.
    pub open spec fn quiet(self) -> bool {
        &&& self.bus == BUS_RELEASED
        &&& self.clk0
        &&& self.clk1
        &&& self.clk2
        &&& self.clr
        &&& !self.fault
    }

    /// The latches hold exactly these three bytes.
    pub open spec fn holds(self, u2: u8, u3: u8, u4: u8) -> bool {
        self.u2 == u2 && self.u3 == u3 && self.u4 == u4
    }

    /// No motor is powered: the lines are quiet, the buffer drives outward, and
    /// the latches hold nothing but the compressor bit.
    pub open spec fn idle(self, compressor_on: bool) -> bool {
        &&& self.quiet()
        &&& self.oe
        &&& self.holds(with_compressor(0, compressor_on), 0, 0)
    }

    /// The matrix as the power-on clear leaves it: all lines high, all
    /// latches zero.
    pub fn new() -> (m: Matrix)
        ensures
            m.idle(false),
            !(m.u2 & COMPRESSOR_BIT != 0),
    {
        assert(0u8 & 0x10u8 == 0u8) by (bit_vector);
        Matrix {
            bus: BUS_RELEASED,
            clk0: true,
            clk1: true,
            clk2: true,
            oe: true,
            clr: true,
            u2: 0,
            u3: 0,
            u4: 0,
            fault: false,
        }
    }

    /// Performs one operation.
    pub fn perform(&mut self, op: PinOp)
        ensures
            *final(self) == old(self).apply(op),
    {
        match op {
            PinOp::DriveBus(byte) => {
                self.fault = self.fault || (!self.oe && byte != BUS_RELEASED);
                self.bus = byte;
            },
            PinOp::Clock { index, high } => {
                if index == 0 {
                    let edge = high && !self.clk0;
                    if edge && self.clr {
                        self.u2 = self.bus;
                    }
                    self.fault = self.fault || (edge && !self.oe);
                    self.clk0 = high;
                } else if index == 1 {
                    let edge = high && !self.clk1;
                    if edge && self.clr {
                        self.u3 = self.bus;
                    }
                    self.fault = self.fault || (edge && !self.oe);
                    self.clk1 = high;
                } else if index == 2 {
                    let edge = high && !self.clk2;
                    if edge && self.clr {
                        self.u4 = self.bus;
                    }
                    self.fault = self.fault || (edge && !self.oe);
                    self.clk2 = high;
                }
            },
            PinOp::OutputEnable { high } => {
                self.fault = self.fault || (!high && self.bus != BUS_RELEASED);
                self.oe = high;
            },
            PinOp::Clear { high } => {
                if !high {
                    self.u2 = 0;
                    self.u3 = 0;
                    self.u4 = 0;
                }
                self.clr = high;
            },
            PinOp::Sample { index } => {
                self.fault = self.fault || self.oe;
            },
            PinOp::DelayMicros(_) => {},
        }
    }

    /// Performs a sequence of operations in order.
    pub fn perform_all(&mut self, ops: &Vec<PinOp>)
        ensures
            *final(self) == old(self).run(ops@),
    {
        let mut i: usize = 0;
        while i < ops.len()
            invariant
                i <= ops.len(),
                *self == old(self).run(ops@.take(i as int)),
            decreases ops.len() - i,
        {
            proof {
                assert(ops@.take(i + 1).drop_last() =~= ops@.take(i as int));
            }
            self.perform(ops[i]);
            i = i + 1;
        }
        proof {
            assert(ops@.take(i as int) =~= ops@);
        }
    }

    /// Whether a motor line is powered: any latch bit but the compressor's.
    pub fn motor_energized(&self) -> (on: bool)
        ensures
            on == (self.u2 & !COMPRESSOR_BIT != 0 || self.u3 != 0 || self.u4 != 0),
    {
        self.u2 & !COMPRESSOR_BIT != 0 || self.u3 != 0 || self.u4 != 0
    }

    /// Whether the compressor relay is powered.
    pub fn compressor_energized(&self) -> (on: bool)
        ensures
            on == (self.u2 & COMPRESSOR_BIT != 0),
    {
        self.u2 & COMPRESSOR_BIT != 0
    }
}

/// The operations that latch one byte: bus, clock low, clock high.
pub open spec fn latch_byte_ops(index: u8, byte: u8) -> Seq<PinOp> {
    seq![
        PinOp::DriveBus(byte),
        PinOp::Clock { index, high: false },
        PinOp::DelayMicros(CLOCK_PHASE_US),
        PinOp::Clock { index, high: true },
        PinOp::DelayMicros(CLOCK_PHASE_US),
    ]
}

/// The operations of one latch write: U2, U3 and U4 in turn, then the bus
/// is released.
pub open spec fn latch_write_ops(u2: u8, u3: u8, u4: u8) -> Seq<PinOp> {
    latch_byte_ops(0, u2) + latch_byte_ops(1, u3) + latch_byte_ops(2, u4) + seq![
        PinOp::DriveBus(BUS_RELEASED),
    ]
}

/// The operations that turn the buffer: towards the sensors (`reading`) or
/// back outward, each followed by the settling time.
pub open spec fn buffer_ops(reading: bool) -> Seq<PinOp> {
    seq![PinOp::OutputEnable { high: !reading }, PinOp::DelayMicros(SETTLE_US)]
}

/// The operations that read one sensor bit: buffer to the sensors, sample,
/// buffer back outward.
pub open spec fn sensor_read_ops(index: u8) -> Seq<PinOp> {
    buffer_ops(true) + seq![PinOp::Sample { index }] + buffer_ops(false)
}

/// The power-on sequence: dwell, pulse clear low, release it.
pub open spec fn power_on_ops() -> Seq<PinOp> {
    seq![
        PinOp::DelayMicros(CLEAR_PULSE_US),
        PinOp::Clear { high: false },
        PinOp::DelayMicros(CLEAR_PULSE_US),
        PinOp::Clear { high: true },
    ]
}

/// The time that a sequence of operations holds the pins, in microseconds.
pub open spec fn total_delay_us(ops: Seq<PinOp>) -> int
    decreases ops.len(),
{
    if ops.len() == 0 {
        0
    } else {
        total_delay_us(ops.drop_last()) + match ops.last() {
            PinOp::DelayMicros(us) => us as int,
            _ => 0,
        }
    }
}

/// How often a sequence of operations pulls the clear line low.
pub open spec fn clear_count(ops: Seq<PinOp>) -> int
    decreases ops.len(),
{
    if ops.len() == 0 {
        0
    } else {
        clear_count(ops.drop_last()) + match ops.last() {
            PinOp::Clear { high } => if high { 0int } else { 1int },
            _ => 0,
        }
    }
}

/// Appends the operations of one latch write to `ops`.
pub fn push_latch_write(ops: &mut Vec<PinOp>, u2: u8, u3: u8, u4: u8)
    ensures
        final(ops)@ == old(ops)@ + latch_write_ops(u2, u3, u4),
{
    push_latch_byte(ops, 0, u2);
    push_latch_byte(ops, 1, u3);
    push_latch_byte(ops, 2, u4);
    ops.push(PinOp::DriveBus(BUS_RELEASED));
    proof {
        assert(ops@ =~= old(ops)@ + latch_write_ops(u2, u3, u4));
    }
}

fn push_latch_byte(ops: &mut Vec<PinOp>, index: u8, byte: u8)
    ensures
        final(ops)@ == old(ops)@ + latch_byte_ops(index, byte),
{
    ops.push(PinOp::DriveBus(byte));
    ops.push(PinOp::Clock { index, high: false });
    ops.push(PinOp::DelayMicros(CLOCK_PHASE_US));
    ops.push(PinOp::Clock { index, high: true });
    ops.push(PinOp::DelayMicros(CLOCK_PHASE_US));
    proof {
        assert(ops@ =~= old(ops)@ + latch_byte_ops(index, byte));
    }
}

/// Appends the operations that turn the buffer to `ops`.
pub fn push_buffer(ops: &mut Vec<PinOp>, reading: bool)
    ensures
        final(ops)@ == old(ops)@ + buffer_ops(reading),
{
    ops.push(PinOp::OutputEnable { high: !reading });
    ops.push(PinOp::DelayMicros(SETTLE_US));
    proof {
        assert(ops@ =~= old(ops)@ + buffer_ops(reading));
    }
}

/// Appends the operations that read sensor bit `index` to `ops`.
pub fn push_sensor_read(ops: &mut Vec<PinOp>, index: u8)
    ensures
        final(ops)@ == old(ops)@ + sensor_read_ops(index),
{
    push_buffer(ops, true);
    ops.push(PinOp::Sample { index });
    push_buffer(ops, false);
    proof {
        assert(ops@ =~= old(ops)@ + sensor_read_ops(index));
    }
}

/// The operations that latch `u2`, `u3` and `u4`, with the compressor bit
/// added to U2 as the flag says, and release the bus.
pub fn write_latches(u2: u8, u3: u8, u4: u8, compressor_on: bool) -> (ops: Vec<PinOp>)
    ensures
        ops@ == latch_write_ops(with_compressor(u2, compressor_on), u3, u4),
{
    let first: u8 = if compressor_on {
        u2 | COMPRESSOR_BIT
    } else {
        u2
    };
    let mut ops: Vec<PinOp> = Vec::new();
    push_latch_write(&mut ops, first, u3, u4);
    proof {
        assert(ops@ =~= latch_write_ops(first, u3, u4));
    }
    ops
}

/// The operations that read sensor bit `index` while a motor is powered:
/// output enable low, settle, sample, output enable high, settle.
pub fn read_sensor_bit(index: u8) -> (ops: Vec<PinOp>)
    ensures
        ops@ == sensor_read_ops(index),
{
    let mut ops: Vec<PinOp> = Vec::new();
    push_sensor_read(&mut ops, index);
    proof {
        assert(ops@ =~= sensor_read_ops(index));
    }
    ops
}

/// The operations of the power-on sequence.
pub fn power_on() -> (ops: Vec<PinOp>)
    ensures
        ops@ == power_on_ops(),
{
    let mut ops: Vec<PinOp> = Vec::new();
    ops.push(PinOp::DelayMicros(CLEAR_PULSE_US));
    ops.push(PinOp::Clear { high: false });
    ops.push(PinOp::DelayMicros(CLEAR_PULSE_US));
    ops.push(PinOp::Clear { high: true });
    proof {
        assert(ops@ =~= power_on_ops());
    }
    ops
}

/// The levels of D0..D7 that put `byte` on the bus: line `i` is high where
/// bit `i` of the byte is set.
pub fn bus_levels(byte: u8) -> (levels: [bool; 8])
    ensures
        forall|i: int| 0 <= i < 8 ==> levels[i] == (byte & (1u8 << (i as u8)) != 0),
{
    let levels = [
        byte & 0x01 != 0,
        byte & 0x02 != 0,
        byte & 0x04 != 0,
        byte & 0x08 != 0,
        byte & 0x10 != 0,
        byte & 0x20 != 0,
        byte & 0x40 != 0,
        byte & 0x80 != 0,
    ];
    proof {
        assert(1u8 << 0u8 == 0x01 && 1u8 << 1u8 == 0x02 && 1u8 << 2u8 == 0x04 && 1u8 << 3u8
            == 0x08 && 1u8 << 4u8 == 0x10 && 1u8 << 5u8 == 0x20 && 1u8 << 6u8 == 0x40 && 1u8
            << 7u8 == 0x80) by (bit_vector);
    }
    levels
}

/// Running a sequence that ends in `op` is running the rest, then `op`.
pub proof fn lemma_run_push(m: Matrix, ops: Seq<PinOp>, op: PinOp)
    ensures
        m.run(ops.push(op)) == m.run(ops).apply(op),
{
    assert(ops.push(op).drop_last() =~= ops);
}

/// Running two sequences one after the other is running their concatenation.
pub proof fn lemma_run_concat(m: Matrix, first: Seq<PinOp>, second: Seq<PinOp>)
    ensures
        m.run(first + second) == m.run(first).run(second),
    decreases second.len(),
{
    if second.len() == 0 {
        assert(first + second =~= first);
    } else {
        lemma_run_concat(m, first, second.drop_last());
        assert((first + second).drop_last() =~= first + second.drop_last());
    }
}

/// Latching one byte with the buffer driving outward stores that byte in the
/// latch that was clocked, and nothing else changes but the bus.
pub proof fn lemma_latch_byte(m: Matrix, index: u8, byte: u8)
    requires
        index < 3,
        m.oe,
        m.clr,
        !m.fault,
        m.clk0 && m.clk1 && m.clk2,
    ensures
        m.run(latch_byte_ops(index, byte)) == (Matrix {
            bus: byte,
            u2: if index == 0 { byte } else { m.u2 },
            u3: if index == 1 { byte } else { m.u3 },
            u4: if index == 2 { byte } else { m.u4 },
            ..m
        }),
{
    let o0 = PinOp::DriveBus(byte);
    let o1 = PinOp::Clock { index, high: false };
    let o2 = PinOp::DelayMicros(CLOCK_PHASE_US);
    let o3 = PinOp::Clock { index, high: true };
    let o4 = PinOp::DelayMicros(CLOCK_PHASE_US);
    let s0 = Seq::<PinOp>::empty();
    lemma_run_push(m, s0, o0);
    lemma_run_push(m, s0.push(o0), o1);
    lemma_run_push(m, s0.push(o0).push(o1), o2);
    lemma_run_push(m, s0.push(o0).push(o1).push(o2), o3);
    lemma_run_push(m, s0.push(o0).push(o1).push(o2).push(o3), o4);
    assert(latch_byte_ops(index, byte) =~= s0.push(o0).push(o1).push(o2).push(o3).push(o4));
}

/// A latch write that starts with quiet lines and the buffer driving outward
/// leaves exactly the three bytes in the latches, the lines quiet again, and
/// the buffer as it was.
pub proof fn lemma_latch_write(m: Matrix, u2: u8, u3: u8, u4: u8)
    requires
        m.quiet(),
        m.oe,
    ensures
        m.run(latch_write_ops(u2, u3, u4)) == (Matrix { u2, u3, u4, ..m }),
{
    let a = latch_byte_ops(0, u2);
    let b = latch_byte_ops(1, u3);
    let c = latch_byte_ops(2, u4);
    let release = PinOp::DriveBus(BUS_RELEASED);
    lemma_latch_byte(m, 0, u2);
    let m1 = m.run(a);
    lemma_latch_byte(m1, 1, u3);
    let m2 = m1.run(b);
    lemma_latch_byte(m2, 2, u4);
    let m3 = m2.run(c);
    lemma_run_concat(m, a, b);
    lemma_run_concat(m, a + b, c);
    lemma_run_push(m, a + b + c, release);
    assert(latch_write_ops(u2, u3, u4) =~= (a + b + c).push(release));
}

/// Turning the buffer while the bus is released changes the output-enable
/// line and nothing else.
pub proof fn lemma_buffer(m: Matrix, reading: bool)
    requires
        m.bus == BUS_RELEASED,
    ensures
        m.run(buffer_ops(reading)) == (Matrix { oe: !reading, ..m }),
{
    let o0 = PinOp::OutputEnable { high: !reading };
    let o1 = PinOp::DelayMicros(SETTLE_US);
    let s0 = Seq::<PinOp>::empty();
    lemma_run_push(m, s0, o0);
    lemma_run_push(m, s0.push(o0), o1);
    assert(buffer_ops(reading) =~= s0.push(o0).push(o1));
}

/// Reading a sensor bit with the bus released leaves the matrix as it was,
/// with the buffer driving outward again.
pub proof fn lemma_sensor_read(m: Matrix, index: u8)
    requires
        m.bus == BUS_RELEASED,
    ensures
        m.run(sensor_read_ops(index)) == (Matrix { oe: true, ..m }),
{
    let sample = PinOp::Sample { index };
    lemma_buffer(m, true);
    let m1 = m.run(buffer_ops(true));
    lemma_run_push(m, buffer_ops(true), sample);
    let m2 = m1.apply(sample);
    lemma_buffer(m2, false);
    assert(buffer_ops(true) + seq![sample] =~= buffer_ops(true).push(sample));
    lemma_run_concat(m, buffer_ops(true) + seq![sample], buffer_ops(false));
}

/// The power-on sequence asserts clear exactly once and leaves every latch
/// zero, whatever the flip-flops held before; lines that idled high are idle
/// afterwards, with no motor and no compressor powered.
pub proof fn lemma_power_on(m: Matrix)
    ensures
        clear_count(power_on_ops()) == 1,
        m.run(power_on_ops()) == (Matrix { clr: true, u2: 0, u3: 0, u4: 0, ..m }),
        m.bus == BUS_RELEASED && m.clk0 && m.clk1 && m.clk2 && m.oe && !m.fault ==> m.run(
            power_on_ops(),
        ).idle(false),
{
    let o0 = PinOp::DelayMicros(CLEAR_PULSE_US);
    let o1 = PinOp::Clear { high: false };
    let o2 = PinOp::DelayMicros(CLEAR_PULSE_US);
    let o3 = PinOp::Clear { high: true };
    let s0 = Seq::<PinOp>::empty();
    let s1 = s0.push(o0);
    let s2 = s1.push(o1);
    let s3 = s2.push(o2);
    let s4 = s3.push(o3);
    lemma_run_push(m, s0, o0);
    lemma_run_push(m, s1, o1);
    lemma_run_push(m, s2, o2);
    lemma_run_push(m, s3, o3);
    assert(power_on_ops() =~= s4);
    assert(s4.drop_last() =~= s3);
    assert(s3.drop_last() =~= s2);
    assert(s2.drop_last() =~= s1);
    assert(s1.drop_last() =~= s0);
    assert(clear_count(s0) == 0);
    assert(clear_count(s1) == 0);
    assert(clear_count(s2) == 1);
    assert(clear_count(s3) == 1);
    assert(clear_count(s4) == 1);
}

/// The clear count of a sequence that ends in `op`.
pub proof fn lemma_clear_count_push(ops: Seq<PinOp>, op: PinOp)
    ensures
        clear_count(ops.push(op)) == clear_count(ops) + (if op == (PinOp::Clear { high: false }) {
            1int
        } else {
            0int
        }),
{
    assert(ops.push(op).drop_last() =~= ops);
}

/// The clear count of a concatenation is the sum of the counts.
pub proof fn lemma_clear_count_concat(first: Seq<PinOp>, second: Seq<PinOp>)
    ensures
        clear_count(first + second) == clear_count(first) + clear_count(second),
    decreases second.len(),
{
    if second.len() == 0 {
        assert(first + second =~= first);
    } else {
        lemma_clear_count_concat(first, second.drop_last());
        assert((first + second).drop_last() =~= first + second.drop_last());
    }
}

/// The delay of a sequence that ends in `op`.
pub proof fn lemma_delay_push(ops: Seq<PinOp>, op: PinOp)
    ensures
        total_delay_us(ops.push(op)) == total_delay_us(ops) + (match op {
            PinOp::DelayMicros(us) => us as int,
            _ => 0,
        }),
{
    assert(ops.push(op).drop_last() =~= ops);
}

/// The delay of a concatenation is the sum of the delays.
pub proof fn lemma_delay_concat(first: Seq<PinOp>, second: Seq<PinOp>)
    ensures
        total_delay_us(first + second) == total_delay_us(first) + total_delay_us(second),
    decreases second.len(),
{
    if second.len() == 0 {
        assert(first + second =~= first);
    } else {
        lemma_delay_concat(first, second.drop_last());
        assert((first + second).drop_last() =~= first + second.drop_last());
    }
}

/// Latching one byte never touches the clear line and holds the pins for
/// the two phases of its clock pulse.
pub proof fn lemma_latch_byte_shape(index: u8, byte: u8)
    ensures
        clear_count(latch_byte_ops(index, byte)) == 0,
        total_delay_us(latch_byte_ops(index, byte)) == 2 * CLOCK_PHASE_US,
{
    let o0 = PinOp::DriveBus(byte);
    let o1 = PinOp::Clock { index, high: false };
    let o2 = PinOp::DelayMicros(CLOCK_PHASE_US);
    let o3 = PinOp::Clock { index, high: true };
    let o4 = PinOp::DelayMicros(CLOCK_PHASE_US);
    let s0 = Seq::<PinOp>::empty();
    let s1 = s0.push(o0);
    let s2 = s1.push(o1);
    let s3 = s2.push(o2);
    let s4 = s3.push(o3);
    lemma_clear_count_push(s0, o0);
    lemma_clear_count_push(s1, o1);
    lemma_clear_count_push(s2, o2);
    lemma_clear_count_push(s3, o3);
    lemma_clear_count_push(s4, o4);
    lemma_delay_push(s0, o0);
    lemma_delay_push(s1, o1);
    lemma_delay_push(s2, o2);
    lemma_delay_push(s3, o3);
    lemma_delay_push(s4, o4);
    assert(latch_byte_ops(index, byte) =~= s4.push(o4));
}

/// A latch write never touches the clear line and holds the pins for six
/// clock phases.
pub proof fn lemma_latch_write_shape(u2: u8, u3: u8, u4: u8)
    ensures
        clear_count(latch_write_ops(u2, u3, u4)) == 0,
        total_delay_us(latch_write_ops(u2, u3, u4)) == 6 * CLOCK_PHASE_US,
{
    let a = latch_byte_ops(0, u2);
    let b = latch_byte_ops(1, u3);
    let c = latch_byte_ops(2, u4);
    let release = PinOp::DriveBus(BUS_RELEASED);
    lemma_latch_byte_shape(0, u2);
    lemma_latch_byte_shape(1, u3);
    lemma_latch_byte_shape(2, u4);
    lemma_clear_count_concat(a, b);
    lemma_clear_count_concat(a + b, c);
    lemma_clear_count_push(a + b + c, release);
    lemma_delay_concat(a, b);
    lemma_delay_concat(a + b, c);
    lemma_delay_push(a + b + c, release);
    assert(latch_write_ops(u2, u3, u4) =~= (a + b + c).push(release));
}

/// Turning the buffer never touches the clear line and takes the settling
/// time.
pub proof fn lemma_buffer_shape(reading: bool)
    ensures
        clear_count(buffer_ops(reading)) == 0,
        total_delay_us(buffer_ops(reading)) == SETTLE_US,
{
    let o0 = PinOp::OutputEnable { high: !reading };
    let o1 = PinOp::DelayMicros(SETTLE_US);
    let s0 = Seq::<PinOp>::empty();
    lemma_clear_count_push(s0, o0);
    lemma_clear_count_push(s0.push(o0), o1);
    lemma_delay_push(s0, o0);
    lemma_delay_push(s0.push(o0), o1);
    assert(buffer_ops(reading) =~= s0.push(o0).push(o1));
}

/// Reading a sensor bit never touches the clear line and takes the settling
/// time twice.
pub proof fn lemma_sensor_read_shape(index: u8)
    ensures
        clear_count(sensor_read_ops(index)) == 0,
        total_delay_us(sensor_read_ops(index)) == 2 * SETTLE_US,
{
    let sample = PinOp::Sample { index };
    lemma_buffer_shape(true);
    lemma_buffer_shape(false);
    lemma_clear_count_push(buffer_ops(true), sample);
    lemma_delay_push(buffer_ops(true), sample);
    assert(buffer_ops(true) + seq![sample] =~= buffer_ops(true).push(sample));
    lemma_clear_count_concat(buffer_ops(true) + seq![sample], buffer_ops(false));
    lemma_delay_concat(buffer_ops(true) + seq![sample], buffer_ops(false));
}

} // verus!
