use vstd::prelude::*;
use crate::bits::{lemma_flag_constants, lemma_u32_bits, lemma_usize_bits};

use super::ioctl::IOCTL_PAYLOAD_OFFSET;
use super::{Cyw43Inner, Cyw43Model, SPID_BUF_LEN};
use crate::error::DevError;
use crate::wire::{get_le32, le16_bytes, le32, le32_bytes, overwrite, put_bytes, put_le16, put_le32};

verus! {

/// Length of the trailer searched for the version string.
pub const FW_END_LEN: usize = 800;
/// Size of the chip's RAM.
pub const CYW43_RAM_SIZE: usize = 512 * 1024;
/// Bytes of CLM data sent per ioctl.
pub const CLM_CHUNK_LEN: usize = 1024;
pub const DLOAD_HANDLER_VER: u16 = 0x1000;
pub const DL_BEGIN: u16 = 2;
pub const DL_END: u16 = 4;
pub const DL_TYPE_CLM: u16 = 2;

/// The bytes of `Version: `.
pub open spec fn version_tag() -> Seq<u8> {
    seq![86u8, 101, 114, 115, 105, 111, 110, 58, 32]
}

/// The trailer of the firmware image of `size` bytes declares a length
/// below 500 behind a zero byte, and the tag `Version: ` ends 80 or more
/// (and less than the declared length) bytes before that zero byte.
pub open spec fn fw_valid(fw: Seq<u8>, size: int) -> bool {
    let base = size - 800;
    let trail_len = fw[base + 782] + fw[base + 783] * 256;
    &&& trail_len < 500
    &&& fw[base + 781] == 0
    &&& exists|i: int|
        80 <= i < trail_len && #[trigger] fw.subrange(base + 781 - i, base + 790 - i)
            == version_tag()
}

/// Checks that `fw` holds a chip firmware image of `fw_size` bytes: sizes
/// outside the image or below the trailer are refused, and an image whose
/// trailer does not carry a version string is an I/O error.
pub fn check_valid_chipset_firmware(fw: &[u8], fw_size: usize) -> (r: Result<(), DevError>)
    ensures
        (fw_size < FW_END_LEN || fw_size > fw@.len()) ==> r == Err::<(), DevError>(
            DevError::InvalidArg,
        ),
        !(fw_size < FW_END_LEN || fw_size > fw@.len()) ==> (r is Ok <==> fw_valid(fw@, fw_size as int)),
        !(fw_size < FW_END_LEN || fw_size > fw@.len()) && !fw_valid(fw@, fw_size as int) ==> r
            == Err::<(), DevError>(DevError::Io),
{
    if fw_size < FW_END_LEN || fw_size > fw.len() {
        return Err(DevError::InvalidArg);
    }
    let base = fw_size - FW_END_LEN;
    let fw_end: usize = FW_END_LEN - 16;
    let trail_len = fw[base + fw_end - 2] as usize + (fw[base + fw_end - 1] as usize) * 256;
    if trail_len < 500 && fw[base + fw_end - 3] == 0 {
        let tag: [u8; 9] = [86, 101, 114, 115, 105, 111, 110, 58, 32];
        assert(tag@ =~= version_tag());
        let mut i: usize = 80;
        while i < trail_len
            invariant
                80 <= i,
                fw_end == 784,
                800 <= fw_size <= fw@.len(),
                base == fw_size - 800,
                fw@[base + 781] == 0,
                trail_len < 500,
                base + 800 <= fw@.len(),
                trail_len == fw@[base + 782] + fw@[base + 783] * 256,
                tag@ == version_tag(),
                forall|k: int|
                    80 <= k < i ==> #[trigger] fw@.subrange(base + 781 - k, base + 790 - k)
                        != version_tag(),
            decreases trail_len - i,
        {
            let pos = base + fw_end - 3 - i;
            let mut j: usize = 0;
            let mut same = true;
            while j < 9
                invariant
                    j <= 9,
                    pos + 9 <= fw@.len(),
                    fw@.len() == fw.len(),
                    pos == base + 781 - i,
                    tag@ == version_tag(),
                    same == (forall|m: int| 0 <= m < j ==> #[trigger] fw@[pos + m] == tag@[m]),
                decreases 9 - j,
            {
                if fw[pos + j] != tag[j] {
                    same = false;
                }
                j = j + 1;
            }
            if same {
                assert forall|m: int| 0 <= m < 9 implies #[trigger] fw@.subrange(pos as int, pos + 9)[m]
                    == version_tag()[m] by {
                    assert(fw@[pos + m] == tag@[m]);
                }
                assert(fw@.subrange(pos as int, pos + 9) =~= version_tag());
                assert(fw@.subrange(base + 781 - i, base + 790 - i) == version_tag());
                assert(fw_valid(fw@, fw_size as int));
                return Ok(());
            }
            assert(!(forall|m: int| 0 <= m < 9 ==> #[trigger] fw@[pos + m] == tag@[m]));
            assert(fw@.subrange(pos as int, pos + 9) != version_tag()) by {
                if fw@.subrange(pos as int, pos + 9) == version_tag() {
                    assert forall|m: int| 0 <= m < 9 implies #[trigger] fw@[pos + m] == tag@[m] by {
                        assert(fw@.subrange(pos as int, pos + 9)[m] == fw@[pos + m]);
                    }
                }
            }
            i = i + 1;
        }
    }
    Err(DevError::Io)
}

/// A firmware resource must be a whole number of words.
pub fn resource_len_check(len: usize) -> (r: Result<(), DevError>)
    ensures
        (len % 4 == 0) <==> r is Ok,
        r is Err ==> r == Err::<(), DevError>(DevError::InvalidArg),
{
    proof {
        lemma_usize_bits(len);
    }
    let low = len & 0b11;
    if low != 0 {
        Err(DevError::InvalidArg)
    } else {
        Ok(())
    }
}

/// One block of a resource download.
#[derive(Copy, Clone, Debug, PartialEq, Eq, Structural)]
pub struct ResourceChunk {
    /// Backplane address the block goes to.
    pub dest_addr: u32,
    /// Function-1 address of that place inside its window.
    pub local_addr: u32,
    /// First byte of the block in the resource.
    pub start: usize,
    /// One past its last byte.
    pub end: usize,
}

/// The block of a resource of `len` bytes, to be placed at `addr`, that
/// starts at byte `offset`; a block crossing the end of its backplane window
/// is refused.
pub fn resource_chunk(addr: u32, offset: usize, len: usize) -> (r: Result<ResourceChunk, DevError>)
    requires
        offset < len,
        addr + offset <= u32::MAX,
        len <= usize::MAX - 64,
    ensures
        ({
            let end = if offset + 64 < len { offset + 64 } else { len as int };
            let dest = addr + offset;
            &&& dest % 32768 + (end - offset) > 32768 ==> r == Err::<ResourceChunk, DevError>(
                DevError::InvalidArg,
            )
            &&& dest % 32768 + (end - offset) <= 32768 ==> r == Ok::<ResourceChunk, DevError>(
                ResourceChunk {
                    dest_addr: dest as u32,
                    local_addr: (dest % 32768 + 32768) as u32,
                    start: offset,
                    end: end as usize,
                },
            )
        }),
{
    let end = if offset + 64 < len {
        offset + 64
    } else {
        len
    };
    let dest_addr = addr + offset as u32;
    proof {
        lemma_u32_bits(dest_addr);
    }
    let in_window = (dest_addr & 0x7fff) as usize;
    if in_window + (end - offset) > 0x8000 {
        return Err(DevError::InvalidArg);
    }
    let local_addr = super::bus::Cyw43Bus::backplane_local_addr(dest_addr);
    Ok(ResourceChunk { dest_addr, local_addr, start: offset, end })
}

/// Where the NVRAM image of `nvram_len` bytes goes: just below the last word
/// of RAM.
pub fn nvram_address(nvram_len: usize) -> (a: u32)
    requires
        nvram_len <= CYW43_RAM_SIZE - 4,
    ensures
        a == CYW43_RAM_SIZE - 4 - nvram_len,
{
    (CYW43_RAM_SIZE - 4 - nvram_len) as u32
}

/// The word stored in the last word of RAM announcing the NVRAM size in
/// words: the complement of the count in the top half, the count below.
pub fn nvram_size_word(nvram_len: usize) -> (w: u32)
    requires
        nvram_len <= CYW43_RAM_SIZE,
    ensures
        w == ((!((nvram_len / 4) as u32) & 0xffff) << 16u32) | ((nvram_len / 4) as u32),
        nvram_len / 4 < 65536 ==> w == (65535 - nvram_len / 4) * 65536 + nvram_len / 4,
{
    let n = (nvram_len / 4) as u32;
    let w = ((!n & 0xffff) << 16u32) | n;
    assert(n < 65536 ==> w == (65535 - n) * 65536 + n) by (bit_vector)
        requires
            w == ((!n & 0xffffu32) << 16u32) | n,
    ;
    w
}

/// The length and flags of the CLM chunk starting at `off` of a blob of
/// `total` bytes.
pub open spec fn clm_chunk_len(off: int, total: int) -> int {
    if total - off < 1024 { total - off } else { 1024 }
}

/// Cuts the CLM blob into chunks: at most 1024 bytes each, the first marked
/// as the beginning, the last as the end, all with the handler version.
pub fn clm_chunk(off: usize, total: usize) -> (r: (usize, u16))
    requires
        off < total,
    ensures
        r.0 == clm_chunk_len(off as int, total as int),
        1 <= r.0 <= CLM_CHUNK_LEN,
        off + r.0 <= total,
        r.1 == DLOAD_HANDLER_VER + (if off == 0 { DL_BEGIN } else { 0 }) + (if off + r.0 == total {
            DL_END
        } else {
            0
        }),
{
    let len = if CLM_CHUNK_LEN < total - off {
        CLM_CHUNK_LEN
    } else {
        total - off
    };
    proof {
        lemma_flag_constants();
    }
    let mut flag: u16 = DLOAD_HANDLER_VER;
    if off == 0 {
        flag = flag | DL_BEGIN;
    }
    if off + len >= total {
        flag = flag | DL_END;
    }
    (len, flag)
}

/// The flags of chunk `i` of `n`: the handler version, the beginning on the
/// first, the end on the last.
pub open spec fn clm_flag(i: int, n: int) -> u16 {
    (DLOAD_HANDLER_VER + (if i == 0 { DL_BEGIN } else { 0 }) + (if i == n - 1 { DL_END } else { 0 })) as u16
}

/// The chunks of a CLM blob of `total` bytes, as (offset, length, flags):
/// consecutive pieces of at most 1024 bytes that start at 0, each starting
/// where the one before ends, and together cover the blob exactly; the
/// first alone is marked as the beginning and the last alone as the end.
pub fn clm_plan(total: usize) -> (v: Vec<(usize, usize, u16)>)
    requires
        total <= usize::MAX - CLM_CHUNK_LEN,
    ensures
        total == 0 <==> v@.len() == 0,
        (v@.len() - 1) * 1024 < total <= v@.len() * 1024,
        forall|i: int| 0 <= i < v@.len() ==> (#[trigger] v@[i]).0 == 1024 * i,
        forall|i: int| 0 <= i < v@.len() ==> 1 <= (#[trigger] v@[i]).1 <= CLM_CHUNK_LEN,
        forall|i: int| 0 <= i < v@.len() ==> (#[trigger] v@[i]).1 == clm_chunk_len(1024 * i, total as int),
        forall|i: int| 0 <= i && i + 1 < v@.len() ==> (#[trigger] v@[i]).0 + v@[i].1 == v@[i + 1].0,
        v@.len() > 0 ==> v@.last().0 + v@.last().1 == total,
        forall|i: int| 0 <= i < v@.len() ==> (#[trigger] v@[i]).2 == clm_flag(i, v@.len() as int),
{
    let mut v: Vec<(usize, usize, u16)> = Vec::new();
    let mut off: usize = 0;
    while off < total
        invariant
            total <= usize::MAX - CLM_CHUNK_LEN,
            off <= total,
            off == total || off == 1024 * v@.len(),
            v@.len() == 0 <==> off == 0,
            v@.len() > 0 ==> v@.last().0 + v@.last().1 == off,
            v@.len() > 0 ==> (v@.len() - 1) * 1024 < off <= v@.len() * 1024,
            forall|i: int| 0 <= i < v@.len() ==> (#[trigger] v@[i]).0 == 1024 * i,
            forall|i: int| 0 <= i < v@.len() ==> 1 <= (#[trigger] v@[i]).1 <= CLM_CHUNK_LEN,
            forall|i: int| 0 <= i < v@.len() ==> (#[trigger] v@[i]).1 == clm_chunk_len(1024 * i, total as int),
            forall|i: int| 0 <= i && i + 1 < v@.len() ==> (#[trigger] v@[i]).0 + v@[i].1 == v@[i + 1].0,
            forall|i: int| 0 <= i && i + 1 < v@.len() ==> (#[trigger] v@[i]).1 == CLM_CHUNK_LEN,
            forall|i: int|
                0 <= i < v@.len() ==> (#[trigger] v@[i]).2 == DLOAD_HANDLER_VER + (if i == 0 {
                    DL_BEGIN
                } else {
                    0
                }) + (if v@[i].0 + v@[i].1 == total {
                    DL_END
                } else {
                    0
                }),
        decreases total - off,
    {
        let (len, flag) = clm_chunk(off, total);
        let ghost before = v@;
        v.push((off, len, flag));
        proof {
            assert(v@[v@.len() - 1] == (off, len, flag));
            assert forall|i: int| 0 <= i < before.len() implies #[trigger] v@[i] == before[i] by {}
        }
        off = off + len;
    }
    proof {
        assert forall|i: int| 0 <= i < v@.len() implies (#[trigger] v@[i]).2 == clm_flag(i, v@.len() as int) by {
            if i + 1 < v@.len() {
                assert(v@[i].0 + v@[i].1 == v@[i + 1].0);
                assert(v@[i + 1].0 + v@[i + 1].1 <= total);
            }
        }
    }
    v
}

/// The `clmload` payload of a chunk: name, flags, type, length, a zero word,
/// then the data.
pub open spec fn clm_payload(chunk: Seq<u8>, flag: u16) -> Seq<u8> {
    seq![99u8, 108, 109, 108, 111, 97, 100, 0] + le16_bytes(flag) + le16_bytes(DL_TYPE_CLM)
        + le32_bytes(chunk.len() as u32) + le32_bytes(0) + chunk
}

/// The `clmload_status` query payload: the name, zero padded to 19 bytes.
pub open spec fn clm_status_payload() -> Seq<u8> {
    seq![99u8, 108, 109, 108, 111, 97, 100, 95, 115, 116, 97, 116, 117, 115, 0, 0, 0, 0, 0]
}

/// Reset-control register shows the core held in reset.
pub fn core_in_reset(resetctrl: u32) -> (r: bool)
    ensures
        r == (resetctrl % 2 == 1),
{
    proof {
        lemma_u32_bits(resetctrl);
    }
    let b = resetctrl & 1;
    b != 0
}

/// A core is up when its clock is enabled without forced gating and it is
/// out of reset; otherwise it is an I/O error.
pub fn core_up_check(ioctrl: u32, resetctrl: u32) -> (r: Result<(), DevError>)
    ensures
        r is Ok <==> (ioctrl % 4 == 1 && resetctrl % 2 == 0),
        r is Err ==> r == Err::<(), DevError>(DevError::Io),
{
    proof {
        lemma_u32_bits(ioctrl);
    }
    let m = ioctrl & 0x3;
    if m != 0x1 {
        return Err(DevError::Io);
    }
    if core_in_reset(resetctrl) {
        return Err(DevError::Io);
    }
    Ok(())
}

/// The IO-control values written while resetting a core: first with forced
/// gating and the clock on, then with the clock on; the CPU-halt bit added
/// when the core is to stay halted.
pub fn core_reset_ioctrl(core_halt: bool) -> (r: (u32, u32))
    ensures
        r == (if core_halt { (0x23u32, 0x21u32) } else { (0x3u32, 0x1u32) }),
{
    let halt: u32 = if core_halt {
        0x0020
    } else {
        0
    };
    let first = 0x0002 | 0x0001 | halt;
    let second = 0x0001 | halt;
    proof {
        lemma_flag_constants();
    }
    (first, second)
}

impl Cyw43Inner {
    /// Places the `clmload` payload of a chunk and gives the ioctl length
    /// (the payload rounded up to eight bytes).
    pub fn clm_chunk_payload(&mut self, chunk: &[u8], flag: u16) -> (n: usize)
        requires
            old(self).wf(),
            chunk@.len() <= CLM_CHUNK_LEN,
        ensures
            final(self).wf(),
            n == 20 + chunk@.len() + (8 - (20 + chunk@.len()) % 8) % 8,
            final(self)@ == (Cyw43Model {
                buf: overwrite(old(self)@.buf, IOCTL_PAYLOAD_OFFSET as int, clm_payload(chunk@, flag)),
                ..old(self)@
            }),
    {
        let len = chunk.len();
        let name: [u8; 8] = [99, 108, 109, 108, 111, 97, 100, 0];
        put_bytes(&mut self.spid_buf, IOCTL_PAYLOAD_OFFSET, name.as_slice());
        put_le16(&mut self.spid_buf, IOCTL_PAYLOAD_OFFSET + 8, flag);
        put_le16(&mut self.spid_buf, IOCTL_PAYLOAD_OFFSET + 10, DL_TYPE_CLM);
        put_le32(&mut self.spid_buf, IOCTL_PAYLOAD_OFFSET + 12, len as u32);
        put_le32(&mut self.spid_buf, IOCTL_PAYLOAD_OFFSET + 16, 0);
        put_bytes(&mut self.spid_buf, IOCTL_PAYLOAD_OFFSET + 20, chunk);
        assert(self@.buf =~= overwrite(old(self)@.buf, IOCTL_PAYLOAD_OFFSET as int, clm_payload(chunk@, flag)));
        let s = 20 + len + 0b111;
        let n = s & !0b111usize;
        assert(n == (20 + len) + (8 - (20 + len) % 8) % 8) by (bit_vector)
            requires
                len <= 1024,
                s == 20 + len + 7,
                n == s & !7usize,
        ;
        n
    }

    /// Places the `clmload_status` query and gives its length.
    pub fn clm_status_payload(&mut self) -> (n: usize)
        requires
            old(self).wf(),
        ensures
            final(self).wf(),
            n == 19,
            final(self)@ == (Cyw43Model {
                buf: overwrite(old(self)@.buf, IOCTL_PAYLOAD_OFFSET as int, clm_status_payload()),
                ..old(self)@
            }),
    {
        let p: [u8; 19] = [99, 108, 109, 108, 111, 97, 100, 95, 115, 116, 97, 116, 117, 115, 0, 0, 0, 0, 0];
        assert(p@ =~= clm_status_payload());
        put_bytes(&mut self.spid_buf, IOCTL_PAYLOAD_OFFSET, p.as_slice());
        19
    }

    /// The firmware's answer to the `clmload_status` query: a zero status
    /// word accepts the chunk, any other refuses the load.
    pub fn clm_status_check(&self) -> (r: Result<(), DevError>)
        requires
            self.wf(),
        ensures
            r is Ok <==> le32(self@.buf, IOCTL_PAYLOAD_OFFSET as int) == 0,
            r is Err ==> r == Err::<(), DevError>(DevError::InvalidArg),
    {
        let status = get_le32(&self.spid_buf, IOCTL_PAYLOAD_OFFSET);
        if status != 0 {
            Err(DevError::InvalidArg)
        } else {
            Ok(())
        }
    }
}

} // verus!
