//! Control of the PIO state machine that runs the gSPI bus: where the
//! program wraps, which instructions are forced into it, and how a transmit
//! buffer becomes FIFO words.
use vstd::prelude::*;

use crate::bits::lemma_usize_bits;
use crate::error::DevError;
use crate::wire::be32;
use pio::{InstructionOperands, JmpCondition, MovDestination, MovOperation, MovSource, OutDestination};

verus! {

/// Offset of the transmit loop in the bus program.
pub const SPI_OFFSET_LP: u8 = 0;

/// Offset just past the transmit-only loop.
pub const SPI_OFFSET_LP1_END: u8 = 2;

/// Offset just past the whole program (transmit then receive).
pub const SPI_OFFSET_END: u8 = 6;

/// The scratch registers a word can be shifted into.
#[derive(Clone, Copy, Debug, PartialEq, Eq, Structural)]
pub enum OutReg {
    X,
    Y,
}

/// The destination number of an `OUT` register.
pub open spec fn out_reg_code(r: OutReg) -> u16 {
    match r {
        OutReg::X => 1,
        OutReg::Y => 2,
    }
}

/// Encoding of `OUT reg, bit_count` by `pio::InstructionOperands::encode`:
/// the `OUT` opcode in the top three bits, the destination in bits 5 to 7
/// and the bit count modulo 32 below (the crate panics on a count outside
/// 1..=32).
#[verifier::external_body]
fn out_operands(reg: OutReg, bit_count: u8) -> (w: u16)
    requires
        1 <= bit_count <= 32,
    ensures
        w == 0x6000 + out_reg_code(reg) * 32 + bit_count % 32,
{
    let destination = match reg {
        OutReg::X => OutDestination::X,
        OutReg::Y => OutDestination::Y,
    };
    InstructionOperands::OUT { destination, bit_count }.encode()
}

/// Encoding of an unconditional `JMP address` by
/// `pio::InstructionOperands::encode`: the opcode and the condition are
/// zero, so the word is the address itself.
#[verifier::external_body]
fn jmp_always_operands(address: u8) -> (w: u16)
    ensures
        w == address,
{
    InstructionOperands::JMP { condition: JmpCondition::Always, address }.encode()
}

/// Encoding of `MOV PINS, NULL` by `pio::InstructionOperands::encode`: the
/// `MOV` opcode, destination 0, no operation, source 3.
#[verifier::external_body]
fn mov_pins_null_operands() -> (w: u16)
    ensures
        w == 0xa003,
{
    InstructionOperands::MOV {
        destination: MovDestination::PINS,
        op: MovOperation::None,
        source: MovSource::NULL,
    }.encode()
}

/// The bus state machine: its index, its bit in the PIO's per-machine
/// registers, and where its program was loaded.
pub struct PioCtrl {
    sm_index: u8,
    sm_mask: u8,
    program_offset: u8,
}

impl PioCtrl {
    pub closed spec fn spec_sm_index(&self) -> u8 {
        self.sm_index
    }

    pub closed spec fn spec_sm_mask(&self) -> u8 {
        self.sm_mask
    }

    pub closed spec fn spec_program_offset(&self) -> u8 {
        self.program_offset
    }

    /// Before a program is loaded: machine 1, no mask, offset 0.
    pub fn new() -> (c: Self)
        ensures
            c.spec_sm_index() == 1,
            c.spec_sm_mask() == 0,
            c.spec_program_offset() == 0,
    {
        PioCtrl { sm_index: 1, sm_mask: 0, program_offset: 0 }
    }

    /// Records the machine that runs the program and where it was loaded.
    pub fn load_program(&mut self, sm_index: u8, offset: u8)
        requires
            sm_index < 8,
        ensures
            final(self).spec_sm_index() == sm_index,
            final(self).spec_sm_mask() == (1u8 << sm_index),
            final(self).spec_program_offset() == offset,
    {
        self.sm_index = sm_index;
        self.sm_mask = 1u8 << sm_index;
        self.program_offset = offset;
    }

    pub fn sm_index(&self) -> (i: u8)
        ensures
            i == self.spec_sm_index(),
    {
        self.sm_index
    }

    pub fn program_offset(&self) -> (o: u8)
        ensures
            o == self.spec_program_offset(),
    {
        self.program_offset
    }

    /// The transmit-stall bits to clear before waiting for the machine.
    pub fn stall_mask(&self) -> (m: u8)
        ensures
            m == self.spec_sm_mask(),
    {
        self.sm_mask
    }

    /// Whether the debug register shows the machine stalled on an empty
    /// transmit FIFO, that is, done.
    pub fn is_idle(&self, txstall: u8) -> (r: bool)
        ensures
            r == (txstall & self.spec_sm_mask() != 0),
    {
        txstall & self.sm_mask != 0
    }

    /// The wrap bounds (bottom, top) for the program's `target` and
    /// `source` offsets.
    fn wrap(&self, target: u8, source: u8) -> (w: (u8, u8))
        requires
            self.spec_program_offset() + source <= 255,
            target <= source,
        ensures
            w.0 == self.spec_program_offset() + target,
            w.1 == self.spec_program_offset() + source,
    {
        (self.program_offset + target, self.program_offset + source)
    }

    /// Wrap bounds that loop over the transmit part only.
    pub fn wrap_tx_only(&self) -> (w: (u8, u8))
        requires
            self.spec_program_offset() + SPI_OFFSET_LP1_END - 1 <= 255,
        ensures
            w == (self.spec_program_offset(), (self.spec_program_offset() + 1) as u8),
    {
        self.wrap(SPI_OFFSET_LP, SPI_OFFSET_LP1_END - 1)
    }

    /// Wrap bounds that loop over the whole program.
    pub fn wrap_tx_rx(&self) -> (w: (u8, u8))
        requires
            self.spec_program_offset() + SPI_OFFSET_END - 1 <= 255,
        ensures
            w == (self.spec_program_offset(), (self.spec_program_offset() + 5) as u8),
    {
        self.wrap(SPI_OFFSET_LP, SPI_OFFSET_END - 1)
    }

    /// The forced instruction that loads the bit count into X.
    pub fn exec_out_x_32(&self) -> (w: u16)
        ensures
            w == 0x6020,
    {
        out_operands(OutReg::X, 32)
    }

    /// The forced instruction that loads the bit count into Y.
    pub fn exec_out_y_32(&self) -> (w: u16)
        ensures
            w == 0x6040,
    {
        out_operands(OutReg::Y, 32)
    }

    /// The forced jump to the start of the program.
    pub fn exec_jmp_start(&self) -> (w: u16)
        ensures
            w == self.spec_program_offset(),
    {
        jmp_always_operands(self.program_offset)
    }

    /// The forced instruction that drives the output pins low.
    pub fn exec_mov_pins_null(&self) -> (w: u16)
        ensures
            w == 0xa003,
    {
        mov_pins_null_operands()
    }
}

/// What a PIO transfer is asked to do.
#[derive(Clone, Copy, Debug, PartialEq, Eq, Structural)]
pub enum TransferKind {
    TxOnly,
    TxRx,
    RxOnly,
}

/// The kind of a transfer with the given buffer lengths; a transfer with
/// neither buffer is never asked for.
pub fn transfer_kind(tx_len: usize, rx_len: usize) -> (k: TransferKind)
    requires
        tx_len > 0 || rx_len > 0,
    ensures
        k == (if tx_len > 0 && rx_len == 0 {
            TransferKind::TxOnly
        } else if tx_len > 0 {
            TransferKind::TxRx
        } else {
            TransferKind::RxOnly
        }),
{
    if tx_len > 0 && rx_len == 0 {
        TransferKind::TxOnly
    } else if tx_len > 0 {
        TransferKind::TxRx
    } else {
        TransferKind::RxOnly
    }
}

/// The FIFO words of a transmit buffer: each group of four bytes, most
/// significant byte first.
pub open spec fn tx_words_spec(buf: Seq<u8>) -> Seq<u32> {
    Seq::new(buf.len() / 4, |i: int| be32(buf, 4 * i) as u32)
}

/// What a write of `buf`, stored at address `buf_addr`, feeds the state
/// machine: the bit count less one (loaded into X) and the FIFO words. An
/// empty buffer, one that is not a whole number of words, or one that does
/// not start on a word boundary is refused.
pub fn tx_plan(buf: &[u8], buf_addr: usize) -> (r: Result<(u32, Vec<u32>), DevError>)
    requires
        buf@.len() * 8 <= u32::MAX,
    ensures
        (buf@.len() > 0 && buf@.len() % 4 == 0 && buf_addr % 4 == 0) <==> r is Ok,
        r is Err ==> r == Err::<(u32, Vec<u32>), DevError>(DevError::InvalidArg),
        r matches Ok(p) ==> p.0 == buf@.len() * 8 - 1 && p.1@ == tx_words_spec(buf@),
{
    let n = buf.len();
    if n == 0 {
        return Err(DevError::InvalidArg);
    }
    proof {
        lemma_usize_bits(n);
        lemma_usize_bits(buf_addr);
    }
    if n & 0b11 != 0 {
        return Err(DevError::InvalidArg);
    }
    if buf_addr & 0b11 != 0 {
        return Err(DevError::InvalidArg);
    }
    let bits = (n as u32) * 8;
    let mut words: Vec<u32> = Vec::new();
    let mut i: usize = 0;
    while i < n / 4
        invariant
            n == buf@.len(),
            n % 4 == 0,
            i <= n / 4,
            words@ =~= tx_words_spec(buf@).subrange(0, i as int),
        decreases n / 4 - i,
    {
        let k = 4 * i;
        let w = (buf[k] as u32) * 16777216 + (buf[k + 1] as u32) * 65536 + (buf[k + 2] as u32)
            * 256 + buf[k + 3] as u32;
        words.push(w);
        i += 1;
    }
    Ok((bits - 1, words))
}

} // verus!
