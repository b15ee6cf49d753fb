use vstd::prelude::*;
use crate::bits::lemma_u32_bits;

use super::I2cConfig;
use crate::error::DevError;

verus! {

#[derive(Copy, Clone, Debug, PartialEq, Eq, Structural)]
pub enum I2cId {
    I2C0,
    I2C1,
}

/// The control register value programmed at configuration: master mode,
/// fast speed, restarts allowed, slave disabled.
pub const IC_CON_MASTER_FAST: u32 = 0x65;

/// The fields of IC_CON: master mode (bit 0), speed (bits 1-2; 2 is fast),
/// restart enable (bit 5), slave disable (bit 6).
pub open spec fn ic_con_word(master: bool, speed: int, restart_en: bool, slave_disable: bool) -> int {
    (if master { 1int } else { 0 }) + speed * 2 + (if restart_en { 32int } else { 0 }) + (if slave_disable {
        64int
    } else {
        0
    })
}

/// The controller registers the driver programs.
#[derive(Copy, Clone, Debug, PartialEq, Eq, Structural)]
pub enum I2cReg {
    Enable,
    Con,
    Tar,
    FsSclHcnt,
    FsSclLcnt,
}

/// One step of programming the controller.
#[derive(Copy, Clone, Debug, PartialEq, Eq, Structural)]
pub enum I2cStep {
    /// Write `value` to `reg`.
    Write { reg: I2cReg, value: u32 },
    /// Wait until the enable status shows the controller disabled.
    WaitDisabled,
}

/// Configuration: disable the controller, set master fast mode with
/// restarts and the slave disabled, target address 0 (7-bit addressing),
/// the SCL high and low counts, then enable the controller.
pub open spec fn config_steps_spec(cfg: I2cConfig) -> Seq<I2cStep> {
    let period = cfg.clk_sys / cfg.baudrate;
    seq![
        I2cStep::Write { reg: I2cReg::Enable, value: 0 },
        I2cStep::Write { reg: I2cReg::Con, value: ic_con_word(true, 2, true, true) as u32 },
        I2cStep::Write { reg: I2cReg::Tar, value: 0 },
        I2cStep::Write { reg: I2cReg::FsSclHcnt, value: ((period / 2) % 65536) as u32 },
        I2cStep::Write { reg: I2cReg::FsSclLcnt, value: ((period - period / 2) % 65536) as u32 },
        I2cStep::Write { reg: I2cReg::Enable, value: 1 },
    ]
}

/// Changing the target address: disable the controller, wait until it is
/// disabled, write the address, enable it again.
pub open spec fn target_steps_spec(addr: u8) -> Seq<I2cStep> {
    seq![
        I2cStep::Write { reg: I2cReg::Enable, value: 0 },
        I2cStep::WaitDisabled,
        I2cStep::Write { reg: I2cReg::Tar, value: addr as u32 },
        I2cStep::Write { reg: I2cReg::Enable, value: 1 },
    ]
}

/// The steps that program the controller for `cfg`.
pub fn config_steps(cfg: &I2cConfig) -> (v: Vec<I2cStep>)
    requires
        cfg.baudrate > 0,
    ensures
        v@ == config_steps_spec(*cfg),
{
    let (hcnt, lcnt) = scl_counts(cfg);
    let v = vec![
        I2cStep::Write { reg: I2cReg::Enable, value: 0 },
        I2cStep::Write { reg: I2cReg::Con, value: IC_CON_MASTER_FAST },
        I2cStep::Write { reg: I2cReg::Tar, value: 0 },
        I2cStep::Write { reg: I2cReg::FsSclHcnt, value: hcnt as u32 },
        I2cStep::Write { reg: I2cReg::FsSclLcnt, value: lcnt as u32 },
        I2cStep::Write { reg: I2cReg::Enable, value: 1 },
    ];
    assert(v@ =~= config_steps_spec(*cfg));
    v
}

/// The steps that set the target address to `addr`.
pub fn target_steps(addr: u8) -> (v: Vec<I2cStep>)
    ensures
        v@ == target_steps_spec(addr),
{
    let v = vec![
        I2cStep::Write { reg: I2cReg::Enable, value: 0 },
        I2cStep::WaitDisabled,
        I2cStep::Write { reg: I2cReg::Tar, value: addr as u32 },
        I2cStep::Write { reg: I2cReg::Enable, value: 1 },
    ];
    assert(v@ =~= target_steps_spec(addr));
    v
}

/// A data-command word writing byte `b` (bit 8 clear), with a stop (bit 9)
/// after it when `stop`.
pub open spec fn write_cmd_word(b: u8, stop: bool) -> u32 {
    (b + (if stop { 512int } else { 0 })) as u32
}

/// A data-command word reading a byte (bit 8), with a restart (bit 10)
/// before it and a stop (bit 9) after it as asked.
pub open spec fn read_cmd_word(restart: bool, stop: bool) -> u32 {
    (256 + (if stop { 512int } else { 0 }) + (if restart { 1024int } else { 0 })) as u32
}

/// The command words of a write transfer: every byte written, a stop after
/// the last.
pub open spec fn write_cmds_spec(data: Seq<u8>) -> Seq<u32> {
    Seq::new(data.len(), |i: int| write_cmd_word(data[i], i == data.len() - 1))
}

/// The command words of a read transfer of `n` bytes: a stop after the last.
pub open spec fn read_cmds_spec(n: int) -> Seq<u32> {
    Seq::new(n as nat, |i: int| read_cmd_word(false, i == n - 1))
}

/// The command words of a combined transfer: the bytes written without stop,
/// then `n` reads, the first after a restart and the last with a stop.
pub open spec fn write_read_cmds_spec(w: Seq<u8>, n: int) -> Seq<u32> {
    Seq::new(w.len(), |i: int| write_cmd_word(w[i], false)) + Seq::new(
        n as nat,
        |i: int| read_cmd_word(i == 0, i == n - 1),
    )
}

/// SCL high and low counts for a baud rate: the clock period in system
/// clocks split in two halves, the high half rounded down; each count is
/// programmed into a 16-bit field.
pub fn scl_counts(cfg: &I2cConfig) -> (r: (u16, u16))
    requires
        cfg.baudrate > 0,
    ensures
        r.0 == ((cfg.clk_sys / cfg.baudrate) / 2) % 65536,
        r.1 == ((cfg.clk_sys / cfg.baudrate) - (cfg.clk_sys / cfg.baudrate) / 2) % 65536,
{
    let period = cfg.clk_sys / cfg.baudrate;
    let high = period / 2;
    let low = period - high;
    ((high % 65536) as u16, (low % 65536) as u16)
}

/// The data-command words of a write of `data`.
pub fn write_cmds(data: &[u8]) -> (v: Vec<u32>)
    ensures
        v@ == write_cmds_spec(data@),
{
    let mut v: Vec<u32> = Vec::new();
    let mut i: usize = 0;
    while i < data.len()
        invariant
            i <= data@.len(),
            v@ == write_cmds_spec(data@).subrange(0, i as int),
        decreases data@.len() - i,
    {
        let is_last = i == data.len() - 1;
        let w = data[i] as u32 + (if is_last {
            512
        } else {
            0
        });
        v.push(w);
        i = i + 1;
        assert(v@ =~= write_cmds_spec(data@).subrange(0, i as int));
    }
    assert(write_cmds_spec(data@).subrange(0, i as int) =~= write_cmds_spec(data@));
    v
}

/// The data-command words of a read of `n` bytes.
pub fn read_cmds(n: usize) -> (v: Vec<u32>)
    ensures
        v@ == read_cmds_spec(n as int),
{
    let mut v: Vec<u32> = Vec::new();
    let mut i: usize = 0;
    while i < n
        invariant
            i <= n,
            v@ == read_cmds_spec(n as int).subrange(0, i as int),
        decreases n - i,
    {
        let w: u32 = 256 + (if i == n - 1 {
            512
        } else {
            0
        });
        v.push(w);
        i = i + 1;
        assert(v@ =~= read_cmds_spec(n as int).subrange(0, i as int));
    }
    assert(read_cmds_spec(n as int).subrange(0, i as int) =~= read_cmds_spec(n as int));
    v
}

/// The data-command words of a write followed by a read of `n` bytes.
pub fn write_read_cmds(w: &[u8], n: usize) -> (v: Vec<u32>)
    ensures
        v@ == write_read_cmds_spec(w@, n as int),
{
    let mut v: Vec<u32> = Vec::new();
    let mut i: usize = 0;
    while i < w.len()
        invariant
            i <= w@.len(),
            v@ == Seq::new(i as nat, |k: int| write_cmd_word(w@[k], false)),
        decreases w@.len() - i,
    {
        v.push(w[i] as u32);
        i = i + 1;
        assert(v@ =~= Seq::new(i as nat, |k: int| write_cmd_word(w@[k], false)));
    }
    let ghost head = v@;
    let mut j: usize = 0;
    while j < n
        invariant
            j <= n,
            head == Seq::new(w@.len(), |k: int| write_cmd_word(w@[k], false)),
            v@ == head + Seq::new(j as nat, |k: int| read_cmd_word(k == 0, k == n - 1)),
        decreases n - j,
    {
        let word: u32 = 256 + (if j == n - 1 {
            512
        } else {
            0
        }) + (if j == 0 {
            1024
        } else {
            0
        });
        v.push(word);
        j = j + 1;
        assert(v@ =~= head + Seq::new(j as nat, |k: int| read_cmd_word(k == 0, k == n - 1)));
    }
    v
}

/// The outcome of one look at the status while waiting for a received
/// byte.
#[derive(Copy, Clone, Debug, PartialEq, Eq, Structural)]
pub enum RxPoll {
    /// A byte is ready.
    Ready,
    /// Not yet; `remaining` looks are left.
    Wait { remaining: u32 },
}

/// One look while waiting for a received byte: ready when the receive FIFO
/// is not empty (status bit 3); an aborted transfer (raw interrupt bit 6) is
/// an I/O error; the wait times out after the given number of looks.
pub fn rx_poll(status: u32, raw_intr: u32, remaining: u32) -> (r: Result<RxPoll, DevError>)
    requires
        remaining > 0,
    ensures
        (status / 8) % 2 == 1 ==> r == Ok::<RxPoll, DevError>(RxPoll::Ready),
        (status / 8) % 2 == 0 && (raw_intr / 64) % 2 == 1 ==> r == Err::<RxPoll, DevError>(DevError::Io),
        (status / 8) % 2 == 0 && (raw_intr / 64) % 2 == 0 && remaining == 1 ==> r == Err::<
            RxPoll,
            DevError,
        >(DevError::Timeout),
        (status / 8) % 2 == 0 && (raw_intr / 64) % 2 == 0 && remaining > 1 ==> r == Ok::<
            RxPoll,
            DevError,
        >(RxPoll::Wait { remaining: (remaining - 1) as u32 }),
{
    let rfne = status & 0x8;
    let abrt = raw_intr & 0x40;
    proof {
        lemma_u32_bits(status);
        lemma_u32_bits(raw_intr);
    }
    if rfne != 0 {
        return Ok(RxPoll::Ready);
    }
    if abrt != 0 {
        return Err(DevError::Io);
    }
    let left = remaining - 1;
    if left == 0 {
        return Err(DevError::Timeout);
    }
    Ok(RxPoll::Wait { remaining: left })
}

/// Looks allowed while waiting for a received byte.
pub const RX_TIMEOUT_POLLS: u32 = 100_000;

/// Status register: transmit FIFO not full (bit 1).
pub fn tx_not_full(status: u32) -> (r: bool)
    ensures
        r == ((status / 2) % 2 == 1),
{
    proof {
        lemma_u32_bits(status);
    }
    let b = status & 0x2;
    b != 0
}

/// Status register: the controller is active (bit 0).
pub fn activity(status: u32) -> (r: bool)
    ensures
        r == (status % 2 == 1),
{
    proof {
        lemma_u32_bits(status);
    }
    let b = status & 0x1;
    b != 0
}

/// The target address and read buffer of a device read request
/// (`[addr, buffer...]`); shorter requests are refused.
pub fn i2c_read_request(data: &[u8]) -> (r: Result<u8, DevError>)
    ensures
        data@.len() < 2 ==> r == Err::<u8, DevError>(DevError::InvalidArg),
        data@.len() >= 2 ==> r == Ok::<u8, DevError>(data@[0]),
{
    if data.len() < 2 {
        return Err(DevError::InvalidArg);
    }
    Ok(data[0])
}

/// The I2C controller driver's state.
pub struct Rp235xI2cInner {
    id: I2cId,
}

/// An I2C controller.
pub struct Rp235xI2c {
    pub inner: Rp235xI2cInner,
}

impl Rp235xI2cInner {
    pub closed spec fn i2c_id(&self) -> I2cId {
        self.id
    }

    pub fn new(id: I2cId) -> (s: Self)
        ensures
            s.i2c_id() == id,
    {
        Rp235xI2cInner { id }
    }

    /// The bit of this controller in the reset registers (4 and 5).
    pub fn reset_mask(&self) -> (m: u32)
        ensures
            self.i2c_id() == I2cId::I2C0 ==> m == 0x10,
            self.i2c_id() == I2cId::I2C1 ==> m == 0x20,
    {
        match self.id {
            I2cId::I2C0 => 0x10,
            I2cId::I2C1 => 0x20,
        }
    }
}

impl Rp235xI2c {
    /// The name the driver registers under.
    pub fn compatible(&self) -> (s: &'static str)
        ensures
            s@ == "RP235x I2C"@,
    {
        "RP235x I2C"
    }

    pub fn new(id: I2cId) -> (s: Self)
        ensures
            s.inner.i2c_id() == id,
    {
        Rp235xI2c { inner: Rp235xI2cInner::new(id) }
    }

    /// The register steps a configuration performs, in order.
    pub fn config(&self, cfg: &I2cConfig) -> (v: Vec<I2cStep>)
        requires
            cfg.baudrate > 0,
        ensures
            v@ == config_steps_spec(*cfg),
    {
        config_steps(cfg)
    }
}

} // verus!
