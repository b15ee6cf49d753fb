use vstd::prelude::*;

use crate::bits::{lemma_flag_constants, lemma_u16_bits, lemma_u32_bits, lemma_u8_bits, lemma_usize_bits};
use crate::error::DevError;
use crate::wire::{fill_bytes, get_le32, le32, le32_bytes, overwrite, put_bytes, put_le32};

verus! {

/// gSPI function numbers.
#[derive(Copy, Clone, Debug, PartialEq, Eq, Structural)]
pub enum Func {
    /// SPI-specific registers.
    Bus,
    /// Registers and memories of the other blocks of the chip.
    Backplane,
    /// WLAN packets.
    Wlan,
}

/// Number of a gSPI function.
pub open spec fn func_number(f: Func) -> u32 {
    match f {
        Func::Bus => 0u32,
        Func::Backplane => 1u32,
        Func::Wlan => 2u32,
    }
}

/// Cores of the chip that are reset during firmware download.
#[derive(Copy, Clone, Debug, PartialEq, Eq, Structural)]
pub enum CoreId {
    WlanArm,
    Socram,
}

/// Dummy bytes the chip sends before a backplane read response.
pub const CYW43_BACKPLANE_READ_PAD_LEN_BYTES: usize = 16;
/// Largest backplane block transfer.
pub const CYW43_BUS_MAX_BLOCK_SIZE: usize = 64;
/// Value of the read-test register.
pub const TEST_PATTERN: u32 = 0xfeed_bead;
/// The backplane window covers the low 15 address bits.
pub const BACKPLANE_ADDR_MASK: u32 = 0x7fff;
/// Marks 32-bit backplane accesses.
pub const SBSDIO_SB_ACCESS_2_4B_FLAG: u32 = 0x8000;
pub const CHIPCOMMON_BASE_ADDRESS: u32 = 0x1800_0000;
pub const WLAN_ARMCM3_BASE_ADDRESS: u32 = 0x1800_3000;
pub const SOCSRAM_BASE_ADDRESS: u32 = 0x1800_4000;
pub const WRAPPER_REGISTER_OFFSET: u32 = 0x10_0000;
pub const SDIO_BACKPLANE_ADDRESS_LOW: u32 = 0x1000a;
pub const SDIO_BACKPLANE_ADDRESS_MID: u32 = 0x1000b;
pub const SDIO_BACKPLANE_ADDRESS_HIGH: u32 = 0x1000c;

/// The gSPI command word: bit 31 write, bit 30 auto-increment, bits 29..28
/// function, bits 27..11 register address, bits 10..0 byte count.
pub open spec fn cmd_word(write: bool, incr: bool, func: Func, addr: u32, len: int) -> int {
    (if write { 2147483648int } else { 0int }) + (if incr { 1073741824int } else { 0int })
        + func_number(func) * 268435456 + (addr % 131072) * 2048 + len % 2048
}

/// The word with the bytes of each half swapped.
pub open spec fn swap16x2_spec(v: u32) -> u32 {
    (((v & 0x00ff_00ff) << 8u32) | ((v & 0xff00_ff00) >> 8u32)) as u32
}

impl Func {
    pub fn number(self) -> (n: u32)
        ensures
            n == func_number(self),
    {
        match self {
            Func::Bus => 0,
            Func::Backplane => 1,
            Func::Wlan => 2,
        }
    }
}

/// Register widths the bus reads and writes.
pub trait RegValue: Sized {
    spec fn raw_spec(self) -> u32;

    spec fn byte_size() -> usize;

    fn size() -> (n: usize)
        ensures
            n == Self::byte_size(),
    ;

    /// The register value carried in the low bytes of `v`.
    fn from_raw(v: u32) -> (r: Self)
        ensures
            r.raw_spec() == (v as int) % pow256(Self::byte_size()),
    ;

    /// The value as a bus word.
    fn into_raw(self) -> (v: u32)
        ensures
            v == self.raw_spec(),
    ;
}

/// 256 to the power `n` for the register widths.
pub open spec fn pow256(n: usize) -> int {
    if n == 1 {
        256
    } else if n == 2 {
        65536
    } else {
        4294967296
    }
}

impl RegValue for u8 {
    open spec fn raw_spec(self) -> u32 {
        self as u32
    }

    open spec fn byte_size() -> usize {
        1
    }

    fn size() -> (n: usize) {
        1
    }

    fn from_raw(v: u32) -> (r: u8) {
        (v % 256) as u8
    }

    fn into_raw(self) -> (v: u32) {
        self as u32
    }
}

impl RegValue for u16 {
    open spec fn raw_spec(self) -> u32 {
        self as u32
    }

    open spec fn byte_size() -> usize {
        2
    }

    fn size() -> (n: usize) {
        2
    }

    fn from_raw(v: u32) -> (r: u16) {
        (v % 65536) as u16
    }

    fn into_raw(self) -> (v: u32) {
        self as u32
    }
}

impl RegValue for u32 {
    open spec fn raw_spec(self) -> u32 {
        self
    }

    open spec fn byte_size() -> usize {
        4
    }

    fn size() -> (n: usize) {
        4
    }

    fn from_raw(v: u32) -> (r: u32) {
        v
    }

    fn into_raw(self) -> (v: u32) {
        self
    }
}

/// A register write on the backplane function: register address and byte.
#[derive(Copy, Clone, Debug, PartialEq, Eq, Structural)]
pub struct RegWrite {
    pub addr: u32,
    pub value: u8,
}

/// The bus state kept between transfers: which 32 KiB window of the
/// backplane is currently mapped.
pub struct Cyw43Bus {
    pub cur_backplane_window: u32,
}

/// The register writes that map the window of `addr` when `cur` is mapped:
/// one per address byte that differs, high byte first.
pub open spec fn window_writes_spec(cur: u32, addr: u32) -> Seq<RegWrite> {
    let a = addr - addr % 32768;
    if a == cur {
        Seq::empty()
    } else {
        (if a / 16777216 != cur / 16777216 {
            seq![RegWrite { addr: SDIO_BACKPLANE_ADDRESS_HIGH, value: (a / 16777216) as u8 }]
        } else {
            Seq::empty()
        }) + (if (a / 65536) % 256 != (cur / 65536) % 256 {
            seq![RegWrite { addr: SDIO_BACKPLANE_ADDRESS_MID, value: ((a / 65536) % 256) as u8 }]
        } else {
            Seq::empty()
        }) + (if (a / 256) % 256 != (cur / 256) % 256 {
            seq![RegWrite { addr: SDIO_BACKPLANE_ADDRESS_LOW, value: ((a / 256) % 256) as u8 }]
        } else {
            Seq::empty()
        })
    }
}

/// The window that maps `addr`.
pub open spec fn window_of(addr: u32) -> u32 {
    (addr - addr % 32768) as u32
}

/// Outcome of the first look at a gSPI status word.
#[derive(Copy, Clone, Debug, PartialEq, Eq, Structural)]
pub enum StatusDecision {
    /// The device did not answer.
    NoResponse,
    /// No packet is waiting.
    NoPacket,
    /// The reported length is unusable; the frame must be dropped.
    Invalid,
    /// A packet of `len` bytes waits; `xfer_len` bytes are to be read.
    Read { len: usize, xfer_len: usize },
}

/// Status-register bits.
pub const STATUS_UNDERFLOW: u32 = 0x0000_0002;
pub const STATUS_F2_RX_READY: u32 = 0x0000_0020;
pub const STATUS_F2_PKT_AVAILABLE: u32 = 0x0000_0100;
pub const STATUS_F2_PKT_LEN_MASK: u32 = 0x000F_FE00;
/// Largest frame a status word may announce.
pub const MAX_RX_FRAME: usize = 1536;

/// The decision taken on a status word.
pub open spec fn status_decision_spec(status: u32) -> StatusDecision {
    let len = (status % 1048576) / 512;
    if status == 0xffff_ffff {
        StatusDecision::NoResponse
    } else if (status / 256) % 2 == 0 {
        StatusDecision::NoPacket
    } else if len == 0 || len > MAX_RX_FRAME || (status / 2) % 2 == 1 {
        StatusDecision::Invalid
    } else {
        StatusDecision::Read { len: len as usize, xfer_len: (4 + (len + 3) / 4 * 4) as usize }
    }
}

/// Takes apart a gSPI status word: device silence, no packet, a bad length,
/// or the length of the packet to read and of the padded transfer.
pub fn decode_spi_status(status: u32) -> (d: StatusDecision)
    ensures
        d == status_decision_spec(status),
{
    if status == 0xffff_ffff {
        return StatusDecision::NoResponse;
    }
    proof {
        lemma_u32_bits(status);
    }
    let available = status & STATUS_F2_PKT_AVAILABLE;
    if available == 0 {
        return StatusDecision::NoPacket;
    }
    let bytes_pending = ((status & STATUS_F2_PKT_LEN_MASK) >> 9u32) as usize;
    let underflow = status & STATUS_UNDERFLOW;
    if bytes_pending == 0 || bytes_pending > MAX_RX_FRAME || underflow != 0 {
        return StatusDecision::Invalid;
    }
    let len = bytes_pending;
    let xfer_len = 4 + (len + 3) / 4 * 4;
    StatusDecision::Read { len, xfer_len }
}

/// What the interrupt register says before a read: whether to write it back
/// to clear it, and whether a packet is available.
pub fn spi_interrupt_decision(spi_int: u16) -> (r: (bool, bool))
    ensures
        r.0 == (spi_int != 0),
        r.1 == ((spi_int / 32) % 2 == 1),
{
    proof {
        lemma_u16_bits(spi_int);
    }
    let f2 = spi_int & 0x0020;
    (spi_int != 0, f2 != 0)
}

/// Dummy bytes that precede the data of a block read of `func`.
pub open spec fn read_pad(func: Func) -> int {
    if func == Func::Backplane { 16 } else { 0 }
}

/// `n` rounded up to a whole number of words.
pub open spec fn align4(n: int) -> int {
    n + (4 - n % 4) % 4
}

/// Length of the transfer of a block read of `read_len` bytes.
pub open spec fn read_xfer_len(func: Func, read_len: int) -> int {
    4 + read_pad(func) + align4(read_len)
}

/// `n` zero bytes.
pub open spec fn zeros(n: int) -> Seq<u8> {
    Seq::new(n as nat, |i: int| 0u8)
}

/// The receive buffer of a block read before the transfer: the read
/// command, then zeros over the dummy bytes and the data.
pub open spec fn read_block_frame_spec(func: Func, addr: u32, read_len: int) -> Seq<u8> {
    le32_bytes(cmd_word(false, true, func, addr, read_len) as u32) + zeros(read_pad(func) + align4(read_len))
}

/// Whether a block write of `len` bytes of `func` is refused: empty, longer
/// than the bus takes, or more than one block on the backplane.
pub open spec fn write_refused(func: Func, len: int) -> bool {
    align4(len) == 0 || align4(len) > 0x7f8 || (func == Func::Backplane && len > 64)
}

/// The bytes of a block write: the write command, the data, then zeros up
/// to a whole number of words.
pub open spec fn write_block_frame_spec(func: Func, addr: u32, data: Seq<u8>) -> Seq<u8> {
    le32_bytes(cmd_word(true, true, func, addr, data.len() as int) as u32) + data + zeros(
        align4(data.len() as int) - data.len(),
    )
}

impl Cyw43Bus {
    pub fn new() -> (b: Self)
        ensures
            b.cur_backplane_window == 0,
    {
        Cyw43Bus { cur_backplane_window: 0 }
    }

    /// Builds a gSPI command word.
    pub fn make_cmd(write: bool, incr: bool, func: Func, addr: u32, len: usize) -> (cmd: u32)
        ensures
            cmd == cmd_word(write, incr, func, addr, len as int),
    {
        let w: u32 = if write {
            1
        } else {
            0
        };
        let i: u32 = if incr {
            1
        } else {
            0
        };
        let f = func.number();
        let l = (len % 2048) as u32;
        let cmd = (w << 31u32) | (i << 30u32) | ((f & 0b11) << 28u32) | ((addr & 0x1_ffff) << 11u32)
            | (l & 0x7ff);
        assert(cmd == w * 2147483648 + i * 1073741824 + f * 268435456 + (addr % 131072) * 2048 + l)
            by (bit_vector)
            requires
                w <= 1,
                i <= 1,
                f <= 2,
                l < 2048,
                cmd == (w << 31u32) | (i << 30u32) | ((f & 0b11) << 28u32) | ((addr & 0x1_ffff)
                    << 11u32) | (l & 0x7ff),
        ;
        cmd
    }

    /// Swaps the two bytes of each half-word (the order the chip uses until
    /// it has been configured for 32-bit words).
    pub fn swap16x2(val: u32) -> (r: u32)
        ensures
            r == swap16x2_spec(val),
    {
        ((val & 0x00ff_00ff) << 8u32) | ((val & 0xff00_ff00) >> 8u32)
    }

    /// Padding in front of a register read's response, and the index of the
    /// response word in the received words.
    pub fn read_reg_layout(func: Func) -> (r: (usize, usize))
        ensures
            func == Func::Backplane ==> r == (16usize, 5usize),
            func != Func::Backplane ==> r == (0usize, 1usize),
    {
        match func {
            Func::Backplane => (CYW43_BACKPLANE_READ_PAD_LEN_BYTES, CYW43_BACKPLANE_READ_PAD_LEN_BYTES
                / 4 + 1),
            _ => (0, 1),
        }
    }

    /// The eight bytes that write a register of 1, 2 or 4 bytes: the command
    /// word, then the value, little-endian; other widths are refused.
    pub fn write_reg_frame(func: Func, addr: u32, val: u32, size: usize) -> (r: Result<Vec<u8>, DevError>)
        ensures
            (size == 1 || size == 2 || size == 4) ==> r is Ok && r->Ok_0@ == write_reg_frame_spec(
                func,
                addr,
                val,
                size,
            ),
            !(size == 1 || size == 2 || size == 4) ==> r == Err::<Vec<u8>, DevError>(
                DevError::InvalidArg,
            ),
    {
        let cmd = Self::make_cmd(true, true, func, addr, size);
        let mut tx: Vec<u8> = vec![0u8, 0, 0, 0, 0, 0, 0, 0];
        put_le32(&mut tx, 0, cmd);
        if size == 1 {
            tx.set(4, (val % 256) as u8);
        } else if size == 2 {
            tx.set(4, (val % 256) as u8);
            tx.set(5, ((val / 256) % 256) as u8);
        } else if size == 4 {
            put_le32(&mut tx, 4, val);
        } else {
            return Err(DevError::InvalidArg);
        }
        assert(tx@ =~= write_reg_frame_spec(func, addr, val, size));
        Ok(tx)
    }

    /// The command bytes of a 32-bit register read before the chip is
    /// configured (half-words swapped).
    pub fn swap_read_cmd(func: Func, addr: u32) -> (tx: Vec<u8>)
        ensures
            tx@ == le32_bytes(swap16x2_spec(cmd_word(false, true, func, addr, 4) as u32)),
    {
        let cmd = Self::make_cmd(false, true, func, addr, 4);
        let mut tx: Vec<u8> = vec![0u8, 0, 0, 0];
        put_le32(&mut tx, 0, Self::swap16x2(cmd));
        assert(tx@ =~= le32_bytes(swap16x2_spec(cmd_word(false, true, func, addr, 4) as u32)));
        tx
    }

    /// The register value in the response of a swapped 32-bit read.
    pub fn swap_read_result(rx: &Vec<u8>) -> (v: u32)
        requires
            rx.len() == 8,
        ensures
            v == swap16x2_spec(le32(rx@, 4) as u32),
    {
        Self::swap16x2(get_le32(rx, 4))
    }

    /// The eight bytes of a 32-bit register write before the chip is
    /// configured (half-words swapped).
    pub fn swap_write_frame(func: Func, addr: u32, val: u32) -> (tx: Vec<u8>)
        ensures
            tx@ == le32_bytes(swap16x2_spec(cmd_word(true, true, func, addr, 4) as u32))
                + le32_bytes(swap16x2_spec(val)),
    {
        let cmd = Self::make_cmd(true, true, func, addr, 4);
        let mut tx: Vec<u8> = vec![0u8, 0, 0, 0, 0, 0, 0, 0];
        put_le32(&mut tx, 0, Self::swap16x2(cmd));
        put_le32(&mut tx, 4, Self::swap16x2(val));
        assert(tx@ =~= le32_bytes(swap16x2_spec(cmd_word(true, true, func, addr, 4) as u32))
            + le32_bytes(swap16x2_spec(val)));
        tx
    }

    /// Prepares a block read of `read_len` bytes in `buf`, which serves as
    /// the receive buffer of a single transfer laid out as the 4-byte command,
    /// the dummy bytes of the function (16 for the backplane), then the data
    /// rounded up to whole words: the command goes in front and the rest of
    /// the transfer is zeroed. Gives the transfer length; a buffer too short
    /// for it is refused and left as it was.
    pub fn read_block_frame(func: Func, addr: u32, read_len: usize, buf: &mut Vec<u8>) -> (r: Result<
        usize,
        DevError,
    >)
        requires
            read_len <= usize::MAX - 32,
        ensures
            old(buf)@.len() < read_xfer_len(func, read_len as int) ==> r == Err::<usize, DevError>(
                DevError::InvalidArg,
            ) && final(buf)@ == old(buf)@,
            old(buf)@.len() >= read_xfer_len(func, read_len as int) ==> r == Ok::<usize, DevError>(
                read_xfer_len(func, read_len as int) as usize,
            ) && final(buf)@ == overwrite(old(buf)@, 0, read_block_frame_spec(func, addr, read_len as int)),
    {
        proof {
            lemma_usize_bits(4);
        }
        let aligned_len = super::align_up(read_len, 4);
        proof {
            lemma_usize_bits(aligned_len);
        }
        let pad = if func == Func::Backplane {
            CYW43_BACKPLANE_READ_PAD_LEN_BYTES
        } else {
            0
        };
        let xfer_len = 4 + pad + aligned_len;
        if buf.len() < xfer_len {
            return Err(DevError::InvalidArg);
        }
        let ghost before = buf@;
        fill_bytes(buf, 4, xfer_len - 4, 0);
        let cmd = Self::make_cmd(false, true, func, addr, read_len);
        put_le32(buf, 0, cmd);
        assert(buf@ =~= overwrite(before, 0, read_block_frame_spec(func, addr, read_len as int)));
        Ok(xfer_len)
    }

    /// After the transfer of a block read, moves the `read_len` data bytes,
    /// which follow the command and the dummy bytes, to the front of `buf`,
    /// and gives their number.
    pub fn read_block_payload(func: Func, read_len: usize, buf: &mut Vec<u8>) -> (n: usize)
        requires
            read_len <= usize::MAX - 32,
            old(buf)@.len() >= read_xfer_len(func, read_len as int),
        ensures
            n == read_len,
            final(buf)@ == overwrite(
                old(buf)@,
                0,
                old(buf)@.subrange(
                    4 + read_pad(func),
                    4 + read_pad(func) + read_len,
                ),
            ),
    {
        let off: usize = if func == Func::Backplane {
            4 + CYW43_BACKPLANE_READ_PAD_LEN_BYTES
        } else {
            4
        };
        let ghost old_buf = buf@;
        let mut k: usize = 0;
        while k < read_len
            invariant
                off == 4 + read_pad(func),
                k <= read_len,
                off + read_len <= old_buf.len(),
                buf@.len() == old_buf.len(),
                buf@ == overwrite(old_buf, 0, old_buf.subrange(off as int, off + k)),
            decreases read_len - k,
        {
            assert(off + k < buf.len());
            let b = buf[off + k];
            buf.set(k, b);
            assert(buf@ =~= overwrite(old_buf, 0, old_buf.subrange(off as int, off + k + 1)));
            k = k + 1;
        }
        read_len
    }

    /// Checks a block write of `len` bytes and gives the padded length:
    /// empty or over-long writes are refused, and backplane writes may not
    /// exceed one block.
    pub fn write_bytes_check(func: Func, len: usize) -> (r: Result<usize, DevError>)
        requires
            len <= usize::MAX - 4,
        ensures
            ({
                let aligned = len + (4 - len % 4) % 4;
                &&& (aligned == 0 || aligned > 0x7f8) ==> r == Err::<usize, DevError>(DevError::InvalidArg)
                &&& !(aligned == 0 || aligned > 0x7f8) && func == Func::Backplane && len > 64 ==> r
                    == Err::<usize, DevError>(DevError::InvalidArg)
                &&& !(aligned == 0 || aligned > 0x7f8) && !(func == Func::Backplane && len > 64) ==> r
                    == Ok::<usize, DevError>(aligned as usize)
            }),
    {
        proof {
            lemma_usize_bits(4);
        }
        let aligned_len = super::align_up(len, 4);
        proof {
            lemma_usize_bits(aligned_len);
        }
        if aligned_len == 0 || aligned_len > 0x7f8 {
            return Err(DevError::InvalidArg);
        }
        if func == Func::Backplane && len > CYW43_BUS_MAX_BLOCK_SIZE {
            return Err(DevError::InvalidArg);
        }
        Ok(aligned_len)
    }

    /// The bytes sent in one transfer by a block write of `data`; refused
    /// writes give `InvalidArg`.
    pub fn write_block_frame(func: Func, addr: u32, data: &[u8]) -> (r: Result<Vec<u8>, DevError>)
        requires
            data@.len() <= usize::MAX - 8,
        ensures
            write_refused(func, data@.len() as int) ==> r == Err::<Vec<u8>, DevError>(DevError::InvalidArg),
            !write_refused(func, data@.len() as int) ==> r is Ok && r->Ok_0@ == write_block_frame_spec(
                func,
                addr,
                data@,
            ),
    {
        let aligned = Self::write_bytes_check(func, data.len())?;
        let mut f: Vec<u8> = Vec::new();
        let mut i: usize = 0;
        while i < aligned + 4
            invariant
                aligned <= 0x7f8,
                i <= aligned + 4,
                f@ == zeros(i as int),
            decreases aligned + 4 - i,
        {
            f.push(0);
            i = i + 1;
            assert(f@ =~= zeros(i as int));
        }
        let cmd = Self::make_cmd(true, true, func, addr, data.len());
        put_le32(&mut f, 0, cmd);
        put_bytes(&mut f, 4, data);
        assert(f@ =~= write_block_frame_spec(func, addr, data@));
        Ok(f)
    }

    /// The chip answered the read test with the expected pattern.
    pub fn is_alive(test: u32) -> (r: bool)
        ensures
            r == (test == TEST_PATTERN),
    {
        test == TEST_PATTERN
    }

    /// The bus-control word set at start-up: 32-bit words, big endian, high
    /// speed, active-high interrupt, wake-up, a response delay of 4 and
    /// status reported with interrupts.
    pub fn bus_control_word() -> (w: u32)
        ensures
            w == 0x0002_04b3,
    {
        proof {
            lemma_flag_constants();
        }
        let w: u32 = 0x01 | 0x02 | 0x10 | 0x20 | 0x80 | (0x4u32 << 8u32) | (0x02u32 << 16u32);
        w
    }

    /// The interrupts enabled at start-up: FIFO under/overflow, command and
    /// data errors, F2 packet available, F1 overflow.
    pub fn enabled_interrupts() -> (w: u16)
        ensures
            w == 0x00be,
    {
        proof {
            lemma_flag_constants();
        }
        let w: u16 = 0x0002 | 0x0004 | 0x0008 | 0x0010 | 0x0020 | 0x0080;
        w
    }

    /// The error bits cleared at start-up: data unavailable, command and data
    /// errors, F1 overflow.
    pub fn error_interrupts() -> (w: u8)
        ensures
            w == 0x99,
    {
        proof {
            lemma_flag_constants();
        }
        let w: u16 = 0x0001 | 0x0008 | 0x0010 | 0x0080;
        w as u8
    }

    /// The clock CSR shows the ALP clock available.
    pub fn alp_available(reg: u8) -> (r: bool)
        ensures
            r == ((reg / 64) % 2 == 1),
    {
        proof {
            lemma_u8_bits(reg);
        }
        let b = reg & 0x40;
        b != 0
    }

    /// The clock CSR shows the HT clock available.
    pub fn ht_available(reg: u8) -> (r: bool)
        ensures
            r == (reg >= 128),
    {
        proof {
            lemma_u8_bits(reg);
        }
        let b = reg & 0x80;
        b != 0
    }

    /// The status register shows F2 ready to receive.
    pub fn f2_rx_ready(status: u32) -> (r: bool)
        ensures
            r == ((status / 32) % 2 == 1),
    {
        proof {
            lemma_u32_bits(status);
        }
        let b = status & STATUS_F2_RX_READY;
        b != 0
    }

    /// The interrupt register must be written back when it shows data
    /// unavailable.
    pub fn needs_data_unavailable_clear(int_status: u16) -> (r: bool)
        ensures
            r == (int_status % 2 == 1),
    {
        proof {
            lemma_u16_bits(int_status);
        }
        let b = int_status & 0x0001;
        b != 0
    }

    /// The register writes that move the backplane window to the one of
    /// `addr`; none when it is already mapped.
    pub fn backplane_window_writes(&self, addr: u32) -> (w: Vec<RegWrite>)
        ensures
            w@ == window_writes_spec(self.cur_backplane_window, addr),
    {
        proof {
            lemma_u32_bits(addr);
        }
        let a = addr & !BACKPLANE_ADDR_MASK;
        let cur = self.cur_backplane_window;
        let mut w: Vec<RegWrite> = Vec::new();
        if a == cur {
            return w;
        }
        if a / 16777216 != cur / 16777216 {
            w.push(RegWrite { addr: SDIO_BACKPLANE_ADDRESS_HIGH, value: (a / 16777216) as u8 });
        }
        if (a / 65536) % 256 != (cur / 65536) % 256 {
            w.push(RegWrite { addr: SDIO_BACKPLANE_ADDRESS_MID, value: ((a / 65536) % 256) as u8 });
        }
        if (a / 256) % 256 != (cur / 256) % 256 {
            w.push(RegWrite { addr: SDIO_BACKPLANE_ADDRESS_LOW, value: ((a / 256) % 256) as u8 });
        }
        assert(w@ =~= window_writes_spec(cur, addr));
        w
    }

    /// Records that the window of `addr` is mapped.
    pub fn commit_backplane_window(&mut self, addr: u32)
        ensures
            final(self).cur_backplane_window == window_of(addr),
    {
        proof {
            lemma_u32_bits(addr);
        }
        let a = addr & !BACKPLANE_ADDR_MASK;
        self.cur_backplane_window = a;
    }

    /// The function-1 address of backplane address `addr` inside its window,
    /// with the 32-bit access flag.
    pub fn backplane_local_addr(addr: u32) -> (r: u32)
        ensures
            r == addr % 32768 + 32768,
    {
        proof {
            lemma_u32_bits(addr);
        }
        let r = (addr & BACKPLANE_ADDR_MASK) | SBSDIO_SB_ACCESS_2_4B_FLAG;
        r
    }

    /// The value of a backplane read of `size` bytes from the raw response;
    /// only 1 and 4 bytes are supported.
    pub fn backplane_read_value(val: u32, size: usize) -> (r: Result<u32, DevError>)
        ensures
            size == 1 ==> r == Ok::<u32, DevError>(val % 256),
            size == 4 ==> r == Ok::<u32, DevError>(val),
            size != 1 && size != 4 ==> r == Err::<u32, DevError>(DevError::InvalidArg),
    {
        if size == 1 {
            proof {
                lemma_u32_bits(val);
            }
            let v = val & 0xff;
            Ok(v)
        } else if size == 4 {
            Ok(val)
        } else {
            Err(DevError::InvalidArg)
        }
    }

    /// Backplane writes must be of 1 or 4 bytes.
    pub fn backplane_write_check(size: usize) -> (r: Result<(), DevError>)
        ensures
            (size == 1 || size == 4) <==> r is Ok,
            r is Err ==> r == Err::<(), DevError>(DevError::InvalidArg),
    {
        if size == 1 || size == 4 {
            Ok(())
        } else {
            Err(DevError::InvalidArg)
        }
    }

    /// Base of the wrapper registers of a core.
    pub fn get_core_address(&self, core_id: CoreId) -> (a: u32)
        ensures
            core_id == CoreId::WlanArm ==> a == 0x1810_3000,
            core_id == CoreId::Socram ==> a == 0x1810_4000,
    {
        match core_id {
            CoreId::WlanArm => WLAN_ARMCM3_BASE_ADDRESS + WRAPPER_REGISTER_OFFSET,
            CoreId::Socram => SOCSRAM_BASE_ADDRESS + WRAPPER_REGISTER_OFFSET,
        }
    }
}

/// The frame of a register write.
pub open spec fn write_reg_frame_spec(func: Func, addr: u32, val: u32, size: usize) -> Seq<u8> {
    let cmd = le32_bytes(cmd_word(true, true, func, addr, size as int) as u32);
    if size == 1 {
        cmd + seq![(val % 256) as u8, 0u8, 0u8, 0u8]
    } else if size == 2 {
        cmd + seq![(val % 256) as u8, ((val / 256) % 256) as u8, 0u8, 0u8]
    } else {
        cmd + le32_bytes(val)
    }
}

/// Swapping the bytes of each half-word twice gives the word back.
pub proof fn lemma_swap16x2_involution(v: u32)
    ensures
        swap16x2_spec(swap16x2_spec(v)) == v,
{
    assert(((((((v & 0x00ff_00ffu32) << 8u32) | ((v & 0xff00_ff00u32) >> 8u32)) & 0x00ff_00ffu32)
        << 8u32) | (((((v & 0x00ff_00ffu32) << 8u32) | ((v & 0xff00_ff00u32) >> 8u32))
        & 0xff00_ff00u32) >> 8u32)) == v) by (bit_vector);
}

/// Once the window of `addr` is mapped, mapping it again writes nothing.
pub proof fn lemma_window_idempotent(addr: u32)
    ensures
        window_writes_spec(window_of(addr), addr) == Seq::<RegWrite>::empty(),
{
}

} // verus!
