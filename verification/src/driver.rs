//! The sensor driver: reset, mode change, readiness polling, sample read,
//! and factory self-test, each with a contract that pins down the bus
//! traffic it issues and the value it returns.

use vstd::prelude::*;

use crate::bus::BusOp;
use crate::bus::Transport;
use crate::codec::decode_sample;
use crate::codec::decode_sample_bytes;
use crate::codec::judge_self_test;
use crate::codec::self_test_pass;
use crate::regs::AK09915_ADDRESS;
use crate::regs::AK09915_MODE_POWERDOWN;
use crate::regs::AK09915_REG_CNTL2;
use crate::regs::AK09915_REG_CNTL3;
use crate::regs::AK09915_REG_HXL;
use crate::regs::AK09915_REG_ST1;
use crate::regs::MODE_SETTLE_US;
use crate::regs::Mode;
use crate::regs::POLL_INTERVAL_US;
use crate::regs::POLL_RETRIES;

verus! {

/// A register write transaction: one addressed write carrying the register
/// number and the value.
pub open spec fn reg_write(addr: u8, reg: u8, value: u8, ok: bool) -> BusOp {
    BusOp::Write(addr, seq![reg, value], ok)
}

/// A one-byte register read transaction: an addressed write of the
/// register number, then a one-byte read returning `byte`.
pub open spec fn reg_read(addr: u8, reg: u8, byte: u8, ok: bool) -> BusOp {
    BusOp::WriteRead(addr, seq![reg], seq![byte], ok)
}

/// `op` is a one-byte read of the status register with outcome `ok`.
pub open spec fn is_status_read(addr: u8, op: BusOp, ok: bool) -> bool {
    &&& op matches BusOp::WriteRead(a, w, d, o)
    &&& a == addr
    &&& w == seq![AK09915_REG_ST1]
    &&& d.len() == 1
    &&& o == ok
}

/// The status byte carried by `op` has the data-ready bit set.
pub open spec fn status_ready(op: BusOp) -> bool {
    &&& op matches BusOp::WriteRead(_, _, d, _)
    &&& d.len() == 1
    &&& d[0] & 0x01 != 0
}

/// `ops` is exactly `n` unready polling rounds: a successful status read
/// with the ready bit clear, then the fixed poll interval, `n` times over.
pub open spec fn unready_polls(addr: u8, ops: Seq<BusOp>, n: nat) -> bool
    decreases n,
{
    if n == 0 {
        ops.len() == 0
    } else {
        &&& ops.len() == 2 * n
        &&& is_status_read(addr, ops[0], true)
        &&& !status_ready(ops[0])
        &&& ops[1] == BusOp::Delay(POLL_INTERVAL_US)
        &&& unready_polls(addr, ops.skip(2), (n - 1) as nat)
    }
}

/// Transcript delta of a readiness poll that ended on a status read with
/// the ready bit set, after fewer than the maximum number of rounds.
pub open spec fn poll_delta_ready(addr: u8, d: Seq<BusOp>) -> bool {
    &&& d.len() % 2 == 1
    &&& d.len() < 2 * POLL_RETRIES
    &&& unready_polls(addr, d.take(d.len() - 1), ((d.len() - 1) / 2) as nat)
    &&& is_status_read(addr, d.last(), true)
    &&& status_ready(d.last())
}

/// Transcript delta of a readiness poll that exhausted every round
/// without seeing the ready bit.
pub open spec fn poll_delta_exhausted(addr: u8, d: Seq<BusOp>) -> bool {
    &&& d.len() == 2 * POLL_RETRIES
    &&& unready_polls(addr, d, POLL_RETRIES as nat)
}

/// Transcript delta of a readiness poll aborted by a failing status read.
pub open spec fn poll_delta_failed(addr: u8, d: Seq<BusOp>) -> bool {
    &&& d.len() % 2 == 1
    &&& d.len() < 2 * POLL_RETRIES
    &&& unready_polls(addr, d.take(d.len() - 1), ((d.len() - 1) / 2) as nat)
    &&& is_status_read(addr, d.last(), false)
}

/// Transcript delta of a readiness poll that ran to a result, ready or
/// not, without a transport failure.
pub open spec fn poll_delta_done(addr: u8, d: Seq<BusOp>) -> bool {
    poll_delta_ready(addr, d) || poll_delta_exhausted(addr, d)
}

/// Transcript delta of a fully successful mode change: power-down write,
/// settling delay, target-mode write.
pub open spec fn set_mode_delta_ok(addr: u8, mode: Mode) -> Seq<BusOp> {
    seq![
        reg_write(addr, AK09915_REG_CNTL2, AK09915_MODE_POWERDOWN, true),
        BusOp::Delay(MODE_SETTLE_US),
        reg_write(addr, AK09915_REG_CNTL2, mode.pattern(), true),
    ]
}

/// Transcript delta of a mode change whose initial power-down write
/// failed: nothing further is attempted.
pub open spec fn set_mode_delta_fail_first(addr: u8) -> Seq<BusOp> {
    seq![reg_write(addr, AK09915_REG_CNTL2, AK09915_MODE_POWERDOWN, false)]
}

/// Transcript delta of a mode change whose target-mode write failed after
/// a successful power-down write: the device is left in power-down.
pub open spec fn set_mode_delta_fail_second(addr: u8, mode: Mode) -> Seq<BusOp> {
    seq![
        reg_write(addr, AK09915_REG_CNTL2, AK09915_MODE_POWERDOWN, true),
        BusOp::Delay(MODE_SETTLE_US),
        reg_write(addr, AK09915_REG_CNTL2, mode.pattern(), false),
    ]
}

/// `op` is the six-byte sample read transaction carrying `data`, with
/// outcome `ok`.
pub open spec fn is_sample_read(addr: u8, op: BusOp, ok: bool) -> bool {
    &&& op matches BusOp::WriteRead(a, w, d, o)
    &&& a == addr
    &&& w == seq![AK09915_REG_HXL]
    &&& d.len() == 6
    &&& o == ok
}

/// The sample bytes carried by a six-byte read transaction.
pub open spec fn sample_read_data(op: BusOp) -> Seq<u8> {
    op->WriteRead_2
}

/// Driver for the AK09915 magnetometer: one transport handle and the
/// fixed device address.
pub struct Ak09915<B> {
    /// The bus transport the driver issues its transactions on.
    pub i2c: B,
    /// The device's bus address.
    pub address: u8,
}

impl<B: Transport> Ak09915<B> {
    /// Binds a transport to the fixed device address. Issues no bus
    /// traffic: the transport's transcript is untouched.
    pub fn new(i2c: B) -> (s: Self)
        ensures
            s.i2c == i2c,
            s.i2c.log() == i2c.log(),
            s.address == AK09915_ADDRESS,
    {
        Ak09915 { i2c, address: AK09915_ADDRESS }
    }

    /// Writes one value to one register: a single addressed write of the
    /// register number and the value.
    fn write_register(&mut self, register: u8, value: u8) -> (r: Result<(), B::Error>)
        ensures
            final(self).address == old(self).address,
            final(self).i2c.log() == old(self).i2c.log().push(
                reg_write(old(self).address, register, value, r is Ok),
            ),
    {
        let mut bytes: Vec<u8> = Vec::new();
        bytes.push(register);
        bytes.push(value);
        proof {
            assert(bytes@ =~= seq![register, value]);
        }
        self.i2c.write(self.address, bytes.as_slice())
    }

    /// Reads one byte from one register: a single addressed
    /// write-then-read transaction.
    fn read_register(&mut self, register: u8) -> (r: Result<u8, B::Error>)
        ensures
            final(self).address == old(self).address,
            ({
                let l0 = old(self).i2c.log();
                let l1 = final(self).i2c.log();
                let a = old(self).address;
                match r {
                    Ok(b) => l1 == l0.push(reg_read(a, register, b, true)),
                    Err(_) => {
                        &&& l1.len() == l0.len() + 1
                        &&& l1.drop_last() == l0
                        &&& l1.last() matches BusOp::WriteRead(aa, w, d, ok)
                        &&& aa == a
                        &&& w == seq![register]
                        &&& d.len() == 1
                        &&& !ok
                    },
                }
            }),
    {
        let mut out: Vec<u8> = Vec::new();
        out.push(register);
        let mut buffer: Vec<u8> = Vec::new();
        buffer.push(0);
        proof {
            assert(out@ =~= seq![register]);
        }
        let res = self.i2c.write_read(self.address, out.as_slice(), &mut buffer);
        proof {
            assert(buffer@ =~= seq![buffer@[0]]);
            assert(self.i2c.log().drop_last() =~= old(self).i2c.log());
        }
        match res {
            Ok(()) => Ok(buffer[0]),
            Err(e) => Err(e),
        }
    }

    /// Soft-resets the device by writing the reset command to control
    /// register 3; on success the device is back in power-down with its
    /// default configuration. Fails exactly when the single transport
    /// write fails.
    pub fn reset(&mut self) -> (r: Result<(), B::Error>)
        ensures
            final(self).address == old(self).address,
            final(self).i2c.log() == old(self).i2c.log().push(
                reg_write(old(self).address, AK09915_REG_CNTL3, 0x01, r is Ok),
            ),
    {
        self.write_register(AK09915_REG_CNTL3, 0x01)?;
        Ok(())
    }

    /// Changes the operating mode. Every change writes power-down first,
    /// waits out the chip's settling time, then writes the target
    /// pattern; a failure of either write surfaces as the error, and a
    /// failure of the second write leaves the device in power-down.
    pub fn set_mode(&mut self, mode: Mode) -> (r: Result<(), B::Error>)
        ensures
            final(self).address == old(self).address,
            ({
                let l0 = old(self).i2c.log();
                let l1 = final(self).i2c.log();
                let a = old(self).address;
                &&& r is Ok ==> l1 == l0 + set_mode_delta_ok(a, mode)
                &&& r is Err ==> (l1 == l0 + set_mode_delta_fail_first(a) || l1 == l0
                    + set_mode_delta_fail_second(a, mode))
            }),
    {
        let ghost l0 = self.i2c.log();
        let ghost a = self.address;
        let reg = mode.bits();
        match self.write_register(AK09915_REG_CNTL2, AK09915_MODE_POWERDOWN) {
            Ok(()) => {},
            Err(e) => {
                proof {
                    assert(self.i2c.log() =~= l0 + set_mode_delta_fail_first(a));
                }
                return Err(e);
            },
        }
        self.i2c.delay_us(MODE_SETTLE_US);
        match self.write_register(AK09915_REG_CNTL2, reg) {
            Ok(()) => {
                proof {
                    assert(self.i2c.log() =~= l0 + set_mode_delta_ok(a, mode));
                }
                Ok(())
            },
            Err(e) => {
                proof {
                    assert(self.i2c.log() =~= l0 + set_mode_delta_fail_second(a, mode));
                }
                Err(e)
            },
        }
    }

    /// Soft-resets the device and puts it in 50 Hz continuous
    /// measurement. Stops at the first failing write.
    pub fn init(&mut self) -> (r: Result<(), B::Error>)
        ensures
            final(self).address == old(self).address,
            ({
                let l0 = old(self).i2c.log();
                let l1 = final(self).i2c.log();
                let a = old(self).address;
                let rst_ok = seq![reg_write(a, AK09915_REG_CNTL3, 0x01, true)];
                &&& r is Ok ==> l1 == l0 + rst_ok + set_mode_delta_ok(a, Mode::ContMeasurement50)
                &&& r is Err ==> ({
                    ||| l1 == l0 + seq![reg_write(a, AK09915_REG_CNTL3, 0x01, false)]
                    ||| l1 == l0 + rst_ok + set_mode_delta_fail_first(a)
                    ||| l1 == l0 + rst_ok + set_mode_delta_fail_second(
                        a,
                        Mode::ContMeasurement50,
                    )
                })
            }),
    {
        let ghost l0 = self.i2c.log();
        let ghost a = self.address;
        match self.reset() {
            Ok(()) => {},
            Err(e) => {
                proof {
                    assert(self.i2c.log() =~= l0 + seq![
                        reg_write(a, AK09915_REG_CNTL3, 0x01, false),
                    ]);
                }
                return Err(e);
            },
        }
        let ghost l1 = self.i2c.log();
        proof {
            assert(l1 =~= l0 + seq![reg_write(a, AK09915_REG_CNTL3, 0x01, true)]);
        }
        match self.set_mode(Mode::ContMeasurement50) {
            Ok(()) => {
                proof {
                    assert(self.i2c.log() =~= l0 + seq![
                        reg_write(a, AK09915_REG_CNTL3, 0x01, true),
                    ] + set_mode_delta_ok(a, Mode::ContMeasurement50));
                }
                Ok(())
            },
            Err(e) => {
                proof {
                    let rst_ok = seq![reg_write(a, AK09915_REG_CNTL3, 0x01, true)];
                    if self.i2c.log() == l1 + set_mode_delta_fail_first(a) {
                        assert(self.i2c.log() =~= l0 + rst_ok + set_mode_delta_fail_first(a));
                    } else {
                        assert(self.i2c.log() =~= l0 + rst_ok + set_mode_delta_fail_second(
                            a,
                            Mode::ContMeasurement50,
                        ));
                    }
                }
                Err(e)
            },
        }
    }

    /// Polls the status register's ready bit, up to the fixed number of
    /// rounds with the fixed interval between them. Returns true at the
    /// first read with the ready bit set; false, not an error, when every
    /// round saw the bit clear; and the transport's error at once if a
    /// read fails.
    pub fn is_data_ready(&mut self) -> (r: Result<bool, B::Error>)
        ensures
            final(self).address == old(self).address,
            old(self).i2c.log().is_prefix_of(final(self).i2c.log()),
            ({
                let l0 = old(self).i2c.log();
                let d = final(self).i2c.log().skip(l0.len() as int);
                let a = old(self).address;
                match r {
                    Ok(true) => poll_delta_ready(a, d),
                    Ok(false) => poll_delta_exhausted(a, d),
                    Err(_) => poll_delta_failed(a, d),
                }
            }),
    {
        let ghost l0 = self.i2c.log();
        let ghost a = self.address;
        let mut attempts: u32 = 0;
        while attempts < POLL_RETRIES
            invariant
                a == old(self).address,
                l0 == old(self).i2c.log(),
                self.address == a,
                attempts <= POLL_RETRIES,
                l0.is_prefix_of(self.i2c.log()),
                self.i2c.log().len() == l0.len() + 2 * attempts,
                unready_polls(a, self.i2c.log().skip(l0.len() as int), attempts as nat),
            decreases POLL_RETRIES - attempts,
        {
            let ghost d = self.i2c.log().skip(l0.len() as int);
            let status = match self.read_register(AK09915_REG_ST1) {
                Ok(b) => b,
                Err(e) => {
                    proof {
                        let l1 = self.i2c.log();
                        let d2 = l1.skip(l0.len() as int);
                        assert(d2.drop_last() =~= d);
                        assert(d2.take(d2.len() - 1) =~= d);
                        assert(d2.last() == l1.last());
                        assert(l0.is_prefix_of(l1));
                    }
                    return Err(e);
                },
            };
            if status & 0x01 != 0 {
                proof {
                    let l1 = self.i2c.log();
                    let d2 = l1.skip(l0.len() as int);
                    assert(d2 =~= d.push(reg_read(a, AK09915_REG_ST1, status, true)));
                    assert(d2.take(d2.len() - 1) =~= d);
                    assert(d2.last() == l1.last());
                    assert(l0.is_prefix_of(l1));
                }
                return Ok(true);
            }
            self.i2c.delay_us(POLL_INTERVAL_US);
            attempts = attempts + 1;
            proof {
                let d2 = self.i2c.log().skip(l0.len() as int);
                let rd = reg_read(a, AK09915_REG_ST1, status, true);
                assert(d2 =~= d + seq![rd, BusOp::Delay(POLL_INTERVAL_US)]);
                lemma_unready_polls_snoc(a, d, (attempts - 1) as nat, rd);
            }
        }
        Ok(false)
    }

    /// Reads one raw sample: a single six-byte write-then-read starting
    /// at the X low-byte register, decoded into the little-endian signed
    /// (x, y, z) triple. No readiness check is made here; callers poll
    /// first.
    pub fn read_mag(&mut self) -> (r: Result<(i16, i16, i16), B::Error>)
        ensures
            final(self).address == old(self).address,
            ({
                let l0 = old(self).i2c.log();
                let l1 = final(self).i2c.log();
                let a = old(self).address;
                &&& l1.len() == l0.len() + 1
                &&& l1.drop_last() == l0
                &&& is_sample_read(a, l1.last(), r is Ok)
                &&& r matches Ok(t) ==> t == decode_sample(sample_read_data(l1.last()))
            }),
    {
        let mut out: Vec<u8> = Vec::new();
        out.push(AK09915_REG_HXL);
        let mut buffer: Vec<u8> = Vec::new();
        buffer.push(0);
        buffer.push(0);
        buffer.push(0);
        buffer.push(0);
        buffer.push(0);
        buffer.push(0);
        proof {
            assert(out@ =~= seq![AK09915_REG_HXL]);
            assert(buffer@.len() == 6);
        }
        let res = self.i2c.write_read(self.address, out.as_slice(), &mut buffer);
        proof {
            assert(self.i2c.log().drop_last() =~= old(self).i2c.log());
        }
        match res {
            Ok(()) => Ok(decode_sample_bytes(&buffer)),
            Err(e) => Err(e),
        }
    }

    /// Runs the factory self-test: enters self-test mode, checks
    /// readiness once, reads one sample, and judges it against the fixed
    /// acceptance bounds. Returns the judgment; the prior operating mode
    /// is not restored.
    pub fn self_test(&mut self) -> (r: Result<bool, B::Error>)
        ensures
            final(self).address == old(self).address,
            old(self).i2c.log().is_prefix_of(final(self).i2c.log()),
            ({
                let l0 = old(self).i2c.log();
                let d = final(self).i2c.log().skip(l0.len() as int);
                let a = old(self).address;
                match r {
                    Ok(passed) => {
                        &&& d.len() > 4
                        &&& d.take(3) == set_mode_delta_ok(a, Mode::SelfTest)
                        &&& poll_delta_done(a, d.subrange(3, d.len() - 1))
                        &&& is_sample_read(a, d.last(), true)
                        &&& ({
                            let t = decode_sample(sample_read_data(d.last()));
                            passed == self_test_pass(t.0, t.1, t.2)
                        })
                    },
                    Err(_) => {
                        ||| d == set_mode_delta_fail_first(a)
                        ||| d == set_mode_delta_fail_second(a, Mode::SelfTest)
                        ||| (d.len() >= 3 && d.take(3) == set_mode_delta_ok(a, Mode::SelfTest)
                            && poll_delta_failed(a, d.skip(3)))
                        ||| (d.len() > 4 && d.take(3) == set_mode_delta_ok(a, Mode::SelfTest)
                            && poll_delta_done(a, d.subrange(3, d.len() - 1)) && is_sample_read(
                            a,
                            d.last(),
                            false,
                        ))
                    },
                }
            }),
    {
        let ghost l0 = self.i2c.log();
        let ghost a = self.address;
        match self.set_mode(Mode::SelfTest) {
            Ok(()) => {},
            Err(e) => {
                proof {
                    if self.i2c.log() == l0 + set_mode_delta_fail_first(a) {
                        assert(self.i2c.log().skip(l0.len() as int) =~= set_mode_delta_fail_first(
                            a,
                        ));
                    } else {
                        assert(self.i2c.log().skip(l0.len() as int) =~= set_mode_delta_fail_second(
                            a,
                            Mode::SelfTest,
                        ));
                    }
                }
                return Err(e);
            },
        }
        let ghost l1 = self.i2c.log();
        proof {
            assert(l1 == l0 + set_mode_delta_ok(a, Mode::SelfTest));
        }
        match self.is_data_ready() {
            Ok(_) => {},
            Err(e) => {
                proof {
                    let l2 = self.i2c.log();
                    let p = l2.skip(l1.len() as int);
                    let d = l2.skip(l0.len() as int);
                    assert(l2 =~= l1 + p);
                    assert(d =~= set_mode_delta_ok(a, Mode::SelfTest) + p);
                    assert(d.take(3) =~= set_mode_delta_ok(a, Mode::SelfTest));
                    assert(d.skip(3) =~= p);
                }
                return Err(e);
            },
        }
        let ghost l2 = self.i2c.log();
        let ghost p = l2.skip(l1.len() as int);
        proof {
            assert(l2 =~= l1 + p);
        }
        let res = self.read_mag();
        proof {
            let l3 = self.i2c.log();
            let d = l3.skip(l0.len() as int);
            assert(l3.drop_last() == l2);
            assert(l3 =~= l2.push(l3.last()));
            assert(d =~= set_mode_delta_ok(a, Mode::SelfTest) + p + seq![l3.last()]);
            assert(d.take(3) =~= set_mode_delta_ok(a, Mode::SelfTest));
            assert(d.subrange(3, d.len() - 1) =~= p);
            assert(d.last() == l3.last());
            assert(l0.is_prefix_of(l3));
        }
        match res {
            Ok((x, y, z)) => Ok(judge_self_test(x, y, z)),
            Err(e) => Err(e),
        }
    }
}

/// Appending one more unready round to `n` unready rounds gives `n + 1`
/// unready rounds.
proof fn lemma_unready_polls_snoc(addr: u8, d: Seq<BusOp>, n: nat, rd: BusOp)
    requires
        unready_polls(addr, d, n),
        is_status_read(addr, rd, true),
        !status_ready(rd),
    ensures
        unready_polls(addr, d + seq![rd, BusOp::Delay(POLL_INTERVAL_US)], n + 1),
    decreases n,
{
    let d2 = d + seq![rd, BusOp::Delay(POLL_INTERVAL_US)];
    if n == 0 {
        assert(d2.len() == 2);
        assert(d2[0] == rd);
        assert(d2[1] == BusOp::Delay(POLL_INTERVAL_US));
        assert(d2.skip(2) =~= Seq::<BusOp>::empty());
        assert(unready_polls(addr, d2.skip(2), 0));
        assert(unready_polls(addr, d2, 1));
    } else {
        lemma_unready_polls_snoc(addr, d.skip(2), (n - 1) as nat, rd);
        assert(d2.skip(2) =~= d.skip(2) + seq![rd, BusOp::Delay(POLL_INTERVAL_US)]);
        assert(d2[0] == d[0]);
        assert(d2[1] == d[1]);
        assert(unready_polls(addr, d2.skip(2), n));
        assert(unready_polls(addr, d2, n + 1));
    }
}

} // verus!
