//! SCSI command processing and the BlockDevice trait.
use crate::class::msc::ScsiSenseKey;
use crate::codec::{be32_bytes, write_be_u32};
use vstd::prelude::*;

verus! {

/// A block-addressed storage device. Implementors may state more of their
/// methods in their own `ensures`; users of the trait rely on nothing but
/// the values returned.
pub trait BlockDevice {
    fn block_count(&self) -> u32;

    /// Bytes per block; 512 unless the implementor says otherwise.
    fn block_size(&self) -> (r: u32)
        default_ensures
            r == 512,
    {
        512
    }

    /// Whether blocks may be written; `true` unless the implementor says otherwise.
    fn is_writable(&self) -> (r: bool)
        default_ensures
            r,
    {
        true
    }

    /// Reads block `lba` into the start of `buf`; `Err` where it cannot.
    fn read_block(&mut self, lba: u32, buf: &mut [u8]) -> Result<(), ()>;

    /// Writes the start of `buf` to block `lba`; `Err` where it cannot.
    fn write_block(&mut self, lba: u32, buf: &[u8]) -> Result<(), ()>;
}

/// In-memory RAM disk implementation of BlockDevice for testing and fast prototyping.
pub struct RamDisk<const BLOCKS: usize> {
    data: [[u8; 512]; BLOCKS],
}

impl<const BLOCKS: usize> RamDisk<BLOCKS> {
    /// The contents of every block, in order.
    pub closed spec fn blocks(self) -> Seq<Seq<u8>> {
        Seq::new(BLOCKS as nat, |i: int| self.data@[i]@)
    }

    /// A disk of `BLOCKS` zeroed blocks of 512 bytes.
    pub fn new() -> (r: Self)
        ensures
            r.blocks().len() == BLOCKS,
            forall|i: int, j: int| 0 <= i < BLOCKS && 0 <= j < 512 ==> #[trigger] r.blocks()[i][j] == 0,
    {
        RamDisk { data: [[0u8; 512]; BLOCKS] }
    }
}

impl<const BLOCKS: usize> Default for RamDisk<BLOCKS> {
    fn default() -> (r: Self)
        ensures
            r.blocks().len() == BLOCKS,
            forall|i: int, j: int| 0 <= i < BLOCKS && 0 <= j < 512 ==> #[trigger] r.blocks()[i][j] == 0,
    {
        RamDisk::new()
    }
}

impl<const BLOCKS: usize> BlockDevice for RamDisk<BLOCKS> {
    fn block_count(&self) -> (r: u32)
        ensures
            r == BLOCKS as u32,
    {
        BLOCKS as u32
    }

    fn block_size(&self) -> (r: u32)
        ensures
            r == 512,
    {
        512
    }

    fn is_writable(&self) -> (r: bool)
        ensures
            r,
    {
        true
    }

    fn read_block(&mut self, lba: u32, buf: &mut [u8]) -> (r: Result<(), ()>)
        ensures
            final(self).blocks() == old(self).blocks(),
            final(self).blocks().len() == BLOCKS,
            r is Ok <==> (lba < BLOCKS && old(buf)@.len() >= 512),
            r is Ok ==> final(buf)@ == old(self).blocks()[lba as int] + old(buf)@.skip(512),
            r is Err ==> final(buf)@ == old(buf)@,
    {
        if (lba as usize) < BLOCKS && buf.len() >= 512 {
            let l = lba as usize;
            let mut i: usize = 0;
            while i < 512
                invariant
                    i <= 512,
                    l < BLOCKS,
                    buf@.len() == old(buf)@.len(),
                    buf@.len() >= 512,
                    forall|j: int| 0 <= j < i ==> buf@[j] == self.data@[l as int]@[j],
                    forall|j: int| 512 <= j < buf@.len() ==> buf@[j] == old(buf)@[j],
                decreases 512 - i,
            {
                buf[i] = self.data[l][i];
                i = i + 1;
            }
            assert(buf@ =~= self.blocks()[lba as int] + old(buf)@.skip(512));
            Ok(())
        } else {
            Err(())
        }
    }

    fn write_block(&mut self, lba: u32, buf: &[u8]) -> (r: Result<(), ()>)
        ensures
            final(self).blocks().len() == BLOCKS,
            r is Ok <==> (lba < BLOCKS && buf@.len() >= 512),
            r is Ok ==> final(self).blocks() == old(self).blocks().update(lba as int, buf@.take(512)),
            r is Err ==> final(self).blocks() == old(self).blocks(),
    {
        if (lba as usize) < BLOCKS && buf.len() >= 512 {
            let l = lba as usize;
            let mut block = [0u8; 512];
            let mut i: usize = 0;
            while i < 512
                invariant
                    i <= 512,
                    buf@.len() >= 512,
                    forall|j: int| 0 <= j < i ==> block@[j] == buf@[j],
                decreases 512 - i,
            {
                block[i] = buf[i];
                i = i + 1;
            }
            assert(block@ =~= buf@.take(512));
            self.data[l] = block;
            assert(self.blocks() =~= old(self).blocks().update(lba as int, buf@.take(512)));
            Ok(())
        } else {
            Err(())
        }
    }
}

/// After a successful write of `data` to block `lba`, reading that block gives
/// the first 512 bytes of `data`, and every other block reads as before.
pub proof fn lemma_ramdisk_read_after_write<const BLOCKS: usize>(
    before: RamDisk<BLOCKS>,
    after: RamDisk<BLOCKS>,
    lba: u32,
    data: Seq<u8>,
)
    requires
        lba < BLOCKS,
        after.blocks() == before.blocks().update(lba as int, data.take(512)),
    ensures
        after.blocks()[lba as int] == data.take(512),
        after.blocks().len() == BLOCKS,
        forall|k: int| 0 <= k < BLOCKS && k != lba ==> after.blocks()[k] == before.blocks()[k],
{
}

/// Every RAM disk holds exactly `BLOCKS` blocks of 512 bytes.
pub proof fn lemma_ramdisk_shape<const BLOCKS: usize>(d: RamDisk<BLOCKS>)
    ensures
        d.blocks().len() == BLOCKS,
        forall|k: int| 0 <= k < BLOCKS ==> #[trigger] d.blocks()[k].len() == 512,
{
}

/// SCSI sense state and the responses to the commands that need no medium access.
pub struct ScsiHandler {
    pub sense_key: ScsiSenseKey,
    pub asc: u8,
    pub ascq: u8,
}

/// Byte `i` of a standard INQUIRY response of `n` bytes.
pub open spec fn inquiry_byte(vendor: Seq<u8>, product: Seq<u8>, revision: Seq<u8>, n: int, i: int) -> u8 {
    if i == 0 {
        0x00
    } else if i == 1 {
        0x80
    } else if i == 2 {
        0x02
    } else if i == 3 {
        0x02
    } else if i == 4 {
        31
    } else if 8 <= i < 16 && n >= 16 {
        vendor[i - 8]
    } else if 16 <= i < 32 && n >= 32 {
        product[i - 16]
    } else if 32 <= i < 36 && n >= 36 {
        revision[i - 32]
    } else {
        0
    }
}

/// The first `n` bytes of the INQUIRY response: direct-access device, removable
/// medium, SCSI-2, then the vendor, product and revision fields where they fit.
pub open spec fn inquiry_response(vendor: Seq<u8>, product: Seq<u8>, revision: Seq<u8>, n: int) -> Seq<u8> {
    Seq::new(n as nat, |i: int| inquiry_byte(vendor, product, revision, n, i))
}

/// Byte `i` of fixed-format sense data for the given sense state.
pub open spec fn sense_byte(key: ScsiSenseKey, asc: u8, ascq: u8, i: int) -> u8 {
    if i == 0 {
        0xF0
    } else if i == 2 {
        key.spec_to_u8() & 0x0F
    } else if i == 7 {
        10
    } else if i == 12 {
        asc
    } else if i == 13 {
        ascq
    } else {
        0
    }
}

/// The first `n` bytes of fixed-format sense data (response code 0x70, valid bit set).
pub open spec fn sense_response(key: ScsiSenseKey, asc: u8, ascq: u8, n: int) -> Seq<u8> {
    Seq::new(n as nat, |i: int| sense_byte(key, asc, ascq, i))
}

/// The MODE SENSE(6) header: data length 3, medium type 0, the write-protect
/// bit, no block descriptors.
pub open spec fn mode_sense_response(writable: bool) -> Seq<u8> {
    seq![3u8, 0u8, if writable { 0u8 } else { 0x80u8 }, 0u8]
}

/// The READ CAPACITY(10) data: the last LBA then the block size, both big-endian.
pub open spec fn read_capacity_response(total_blocks: u32, block_size: u32) -> Seq<u8> {
    be32_bytes((total_blocks - 1) as u32) + be32_bytes(block_size)
}

impl ScsiHandler {
    /// Whether the sense state is the given one.
    pub open spec fn sense_is(&self, key: ScsiSenseKey, asc: u8, ascq: u8) -> bool {
        self.sense_key == key && self.asc == asc && self.ascq == ascq
    }

    /// A handler with no sense data pending.
    pub fn new() -> (r: Self)
        ensures
            r.sense_is(ScsiSenseKey::NoSense, 0, 0),
    {
        ScsiHandler { sense_key: ScsiSenseKey::NoSense, asc: 0, ascq: 0 }
    }

    pub fn set_sense(&mut self, key: ScsiSenseKey, asc: u8, ascq: u8)
        ensures
            final(self).sense_is(key, asc, ascq),
    {
        self.sense_key = key;
        self.asc = asc;
        self.ascq = ascq;
    }

    /// Writes the INQUIRY response into the first `min(36, buf.len())` bytes of
    /// `buf`, returns that length and clears the sense data.
    pub fn handle_inquiry(
        &mut self,
        vendor: &[u8; 8],
        product: &[u8; 16],
        revision: &[u8; 4],
        buf: &mut [u8],
    ) -> (r: usize)
        requires
            old(buf)@.len() >= 5,
        ensures
            r == (if old(buf)@.len() < 36 { old(buf)@.len() } else { 36 }),
            final(buf)@ == inquiry_response(vendor@, product@, revision@, r as int) + old(buf)@.skip(
                r as int,
            ),
            final(self).sense_is(ScsiSenseKey::NoSense, 0, 0),
    {
        let resp_len: usize = if buf.len() < 36 { buf.len() } else { 36 };
        let mut i: usize = 0;
        while i < resp_len
            invariant
                i <= resp_len <= buf@.len(),
                buf@.len() == old(buf)@.len(),
                forall|j: int| 0 <= j < i ==> buf@[j] == 0,
                forall|j: int| resp_len <= j < buf@.len() ==> buf@[j] == old(buf)@[j],
            decreases resp_len - i,
        {
            buf[i] = 0;
            i = i + 1;
        }
        buf[0] = 0x00;
        buf[1] = 0x80;
        buf[2] = 0x02;
        buf[3] = 0x02;
        buf[4] = 31;
        if resp_len >= 16 {
            let mut k: usize = 0;
            while k < 8
                invariant
                    k <= 8,
                    resp_len >= 16,
                    resp_len <= buf@.len(),
                    buf@.len() == old(buf)@.len(),
                    forall|j: int| 0 <= j < k ==> buf@[8 + j] == vendor@[j],
                    forall|j: int| 0 <= j < 5 ==> buf@[j] == inquiry_byte(vendor@, product@, revision@, resp_len as int, j),
                    forall|j: int| 5 <= j < 8 || 8 + k <= j < resp_len ==> buf@[j] == 0,
                    forall|j: int| resp_len <= j < buf@.len() ==> buf@[j] == old(buf)@[j],
                decreases 8 - k,
            {
                buf[8 + k] = vendor[k];
                k = k + 1;
            }
        }
        if resp_len >= 32 {
            let mut k: usize = 0;
            while k < 16
                invariant
                    k <= 16,
                    resp_len >= 32,
                    resp_len <= buf@.len(),
                    buf@.len() == old(buf)@.len(),
                    forall|j: int| 0 <= j < 8 ==> buf@[8 + j] == vendor@[j],
                    forall|j: int| 0 <= j < k ==> buf@[16 + j] == product@[j],
                    forall|j: int| 0 <= j < 5 ==> buf@[j] == inquiry_byte(vendor@, product@, revision@, resp_len as int, j),
                    forall|j: int| 5 <= j < 8 || 16 + k <= j < resp_len ==> buf@[j] == 0,
                    forall|j: int| resp_len <= j < buf@.len() ==> buf@[j] == old(buf)@[j],
                decreases 16 - k,
            {
                buf[16 + k] = product[k];
                k = k + 1;
            }
        }
        if resp_len >= 36 {
            let mut k: usize = 0;
            while k < 4
                invariant
                    k <= 4,
                    resp_len >= 36,
                    resp_len <= buf@.len(),
                    buf@.len() == old(buf)@.len(),
                    forall|j: int| 0 <= j < 8 ==> buf@[8 + j] == vendor@[j],
                    forall|j: int| 0 <= j < 16 ==> buf@[16 + j] == product@[j],
                    forall|j: int| 0 <= j < k ==> buf@[32 + j] == revision@[j],
                    forall|j: int| 0 <= j < 5 ==> buf@[j] == inquiry_byte(vendor@, product@, revision@, resp_len as int, j),
                    forall|j: int| 5 <= j < 8 || 32 + k <= j < resp_len ==> buf@[j] == 0,
                    forall|j: int| resp_len <= j < buf@.len() ==> buf@[j] == old(buf)@[j],
                decreases 4 - k,
            {
                buf[32 + k] = revision[k];
                k = k + 1;
            }
        }
        proof {
            let want = inquiry_response(vendor@, product@, revision@, resp_len as int) + old(buf)@.skip(resp_len as int);
            assert forall|j: int| 0 <= j < buf@.len() implies buf@[j] == want[j] by {
                if j >= 8 && j < 16 && resp_len >= 16 {
                    assert(buf@[8 + (j - 8)] == vendor@[j - 8]);
                } else if j >= 16 && j < 32 && resp_len >= 32 {
                    assert(buf@[16 + (j - 16)] == product@[j - 16]);
                } else if j >= 32 && j < 36 && resp_len >= 36 {
                    assert(buf@[32 + (j - 32)] == revision@[j - 32]);
                }
            }
            assert(buf@ =~= want);
        }
        self.set_sense(ScsiSenseKey::NoSense, 0, 0);
        resp_len
    }

    /// Writes READ CAPACITY(10) data for a device of `total_blocks` blocks of
    /// `block_size` bytes: the last LBA and the block size, big-endian, in the
    /// first 8 bytes of `buf`, and returns 8. Returns 0 and records sense data
    /// when `buf` is shorter than 8 bytes (ILLEGAL REQUEST, 0x24) or the device
    /// has no blocks or a zero block size (NOT READY, 0x3A).
    pub fn read_capacity_10(&mut self, total_blocks: u32, block_size: u32, buf: &mut [u8]) -> (r: usize)
        ensures
            old(buf)@.len() < 8 ==> r == 0 && final(buf)@ == old(buf)@ && final(self).sense_is(
                ScsiSenseKey::IllegalRequest,
                0x24,
                0,
            ),
            old(buf)@.len() >= 8 && (total_blocks == 0 || block_size == 0) ==> r == 0 && final(buf)@ == old(buf)@ && final(self).sense_is(ScsiSenseKey::NotReady, 0x3A, 0),
            old(buf)@.len() >= 8 && total_blocks != 0 && block_size != 0 ==> r == 8 && final(buf)@
                == read_capacity_response(total_blocks, block_size) + old(buf)@.skip(8)
                && final(self).sense_is(ScsiSenseKey::NoSense, 0, 0),
    {
        if buf.len() < 8 {
            self.set_sense(ScsiSenseKey::IllegalRequest, 0x24, 0x00);
            return 0;
        }
        self.fill_capacity(total_blocks, block_size, buf)
    }

    fn fill_capacity(&mut self, total_blocks: u32, block_size: u32, buf: &mut [u8]) -> (r: usize)
        requires
            old(buf)@.len() >= 8,
        ensures
            (total_blocks == 0 || block_size == 0) ==> r == 0 && final(buf)@ == old(buf)@
                && final(self).sense_is(ScsiSenseKey::NotReady, 0x3A, 0),
            total_blocks != 0 && block_size != 0 ==> r == 8 && final(buf)@
                == read_capacity_response(total_blocks, block_size) + old(buf)@.skip(8)
                && final(self).sense_is(ScsiSenseKey::NoSense, 0, 0),
    {
        if total_blocks == 0 || block_size == 0 {
            self.set_sense(ScsiSenseKey::NotReady, 0x3A, 0x00);
            return 0;
        }
        let last_lba = total_blocks - 1;
        write_be_u32(buf, 0, last_lba);
        write_be_u32(buf, 4, block_size);
        assert(buf@ =~= read_capacity_response(total_blocks, block_size) + old(buf)@.skip(8));
        self.set_sense(ScsiSenseKey::NoSense, 0, 0);
        8
    }

    /// READ CAPACITY(10) against `dev`: `read_capacity_10` on the block count
    /// and block size that `dev` reports, which it is asked for only when `buf`
    /// holds at least 8 bytes. A device with no blocks or a zero block size
    /// gets NOT READY (0x3A) and nothing is written.
    pub fn handle_read_capacity_10<B: BlockDevice>(&mut self, dev: &B, buf: &mut [u8]) -> (r: usize)
        ensures
            old(buf)@.len() < 8 ==> r == 0 && final(buf)@ == old(buf)@ && final(self).sense_is(
                ScsiSenseKey::IllegalRequest,
                0x24,
                0,
            ),
            old(buf)@.len() >= 8 ==> exists|n: u32, s: u32|
                #[trigger] call_ensures(B::block_count, (dev,), n) && #[trigger] call_ensures(
                    B::block_size,
                    (dev,),
                    s,
                ) && (if n == 0 || s == 0 {
                    r == 0 && final(buf)@ == old(buf)@ && final(self).sense_is(
                        ScsiSenseKey::NotReady,
                        0x3A,
                        0,
                    )
                } else {
                    r == 8 && final(buf)@ == read_capacity_response(n, s) + old(buf)@.skip(8)
                        && final(self).sense_is(ScsiSenseKey::NoSense, 0, 0)
                }),
    {
        if buf.len() < 8 {
            self.set_sense(ScsiSenseKey::IllegalRequest, 0x24, 0x00);
            return 0;
        }
        let total_blocks = dev.block_count();
        let block_size = dev.block_size();
        self.fill_capacity(total_blocks, block_size, buf)
    }

    /// Writes fixed-format sense data for the pending sense state into the first
    /// `min(18, buf.len())` bytes of `buf`, returns that length and clears the
    /// sense state.
    pub fn handle_request_sense(&mut self, buf: &mut [u8]) -> (r: usize)
        requires
            old(buf)@.len() >= 14,
        ensures
            r == (if old(buf)@.len() < 18 { old(buf)@.len() } else { 18 }),
            final(buf)@ == sense_response(old(self).sense_key, old(self).asc, old(self).ascq, r as int)
                + old(buf)@.skip(r as int),
            final(self).sense_is(ScsiSenseKey::NoSense, 0, 0),
    {
        let len: usize = if buf.len() < 18 { buf.len() } else { 18 };
        let mut i: usize = 0;
        while i < len
            invariant
                i <= len <= buf@.len(),
                buf@.len() == old(buf)@.len(),
                forall|j: int| 0 <= j < i ==> buf@[j] == 0,
                forall|j: int| len <= j < buf@.len() ==> buf@[j] == old(buf)@[j],
            decreases len - i,
        {
            buf[i] = 0;
            i = i + 1;
        }
        buf[0] = 0xF0;
        buf[2] = self.sense_key.to_u8() & 0x0F;
        buf[7] = 10;
        buf[12] = self.asc;
        buf[13] = self.ascq;
        assert(buf@ =~= sense_response(self.sense_key, self.asc, self.ascq, len as int) + old(buf)@.skip(len as int));
        self.set_sense(ScsiSenseKey::NoSense, 0, 0);
        len
    }

    /// Writes the MODE SENSE(6) header into the first 4 bytes of `buf` and
    /// returns 4 (clearing the sense state); returns 0 and changes nothing when
    /// `buf` is shorter.
    pub fn handle_mode_sense_6(&mut self, writable: bool, buf: &mut [u8]) -> (r: usize)
        ensures
            old(buf)@.len() < 4 ==> r == 0 && final(buf)@ == old(buf)@ && *final(self) == *old(self),
            old(buf)@.len() >= 4 ==> r == 4 && final(buf)@ == mode_sense_response(writable) + old(buf)@.skip(4) && final(self).sense_is(ScsiSenseKey::NoSense, 0, 0),
    {
        if buf.len() < 4 {
            return 0;
        }
        buf[0] = 3;
        buf[1] = 0;
        buf[2] = if writable { 0 } else { 0x80 };
        buf[3] = 0;
        assert(buf@ =~= mode_sense_response(writable) + old(buf)@.skip(4));
        self.set_sense(ScsiSenseKey::NoSense, 0, 0);
        4
    }
}

impl Default for ScsiHandler {
    fn default() -> (r: Self)
        ensures
            r.sense_is(ScsiSenseKey::NoSense, 0, 0),
    {
        ScsiHandler::new()
    }
}


/// The standard INQUIRY data (SPC, 36 bytes): peripheral device type 0 (direct
/// access block device) in byte 0, the removable-medium bit (0x80) in byte 1,
/// version 2 and response data format 2 in bytes 2 and 3, additional length
/// 31 (36 - 5) in byte 4, bytes 5..8 zero, then the 8-byte vendor, 16-byte
/// product and 4-byte revision fields at 8, 16 and 32.
pub proof fn lemma_inquiry_layout(vendor: Seq<u8>, product: Seq<u8>, revision: Seq<u8>)
    requires
        vendor.len() == 8,
        product.len() == 16,
        revision.len() == 4,
    ensures
        ({
            let r = inquiry_response(vendor, product, revision, 36);
            &&& r.len() == 36
            &&& r[0] == 0 && r[1] == 0x80 && r[2] == 2 && r[3] == 2 && r[4] == 36 - 5
            &&& r[5] == 0 && r[6] == 0 && r[7] == 0
            &&& r.subrange(8, 16) == vendor
            &&& r.subrange(16, 32) == product
            &&& r.subrange(32, 36) == revision
        }),
{
    let r = inquiry_response(vendor, product, revision, 36);
    assert(r.subrange(8, 16) =~= vendor);
    assert(r.subrange(16, 32) =~= product);
    assert(r.subrange(32, 36) =~= revision);
}

/// Fixed-format sense data (SPC, 18 bytes): response code 0x70 with the valid
/// bit (0xF0) in byte 0, the sense key in the low four bits of byte 2,
/// additional sense length 10 (18 - 8) in byte 7, the ASC and ASCQ in bytes 12
/// and 13, every other byte zero.
pub proof fn lemma_sense_layout(key: ScsiSenseKey, asc: u8, ascq: u8)
    ensures
        ({
            let r = sense_response(key, asc, ascq, 18);
            &&& r.len() == 18
            &&& r[0] == 0xF0 && r[2] == key.spec_to_u8() % 16 && r[7] == 18 - 8 && r[12] == asc
                && r[13] == ascq
            &&& forall|i: int|
                0 <= i < 18 && i != 0 && i != 2 && i != 7 && i != 12 && i != 13 ==> r[i] == 0
        }),
{
    let k = key.spec_to_u8();
    assert(k & 0x0F == k % 16) by (bit_vector);
}

/// The MODE SENSE(6) parameter header (SPC, 4 bytes): mode data length 3 (the
/// bytes after it), medium type 0, the device-specific parameter whose bit 7
/// is set exactly for a write-protected device, block descriptor length 0.
pub proof fn lemma_mode_sense_layout(writable: bool)
    ensures
        mode_sense_response(writable).len() == 4,
        mode_sense_response(writable)[0] == 4 - 1,
        mode_sense_response(writable)[1] == 0,
        (mode_sense_response(writable)[2] >= 0x80) == !writable,
        mode_sense_response(writable)[2] % 0x80 == 0,
        mode_sense_response(writable)[3] == 0,
{
}

/// The READ CAPACITY(10) data (SBC, 8 bytes): the last logical block address,
/// one less than the block count, big-endian in bytes 0..4, and the block size
/// big-endian in bytes 4..8.
pub proof fn lemma_read_capacity_layout(total_blocks: u32, block_size: u32)
    requires
        total_blocks > 0,
    ensures
        ({
            let r = read_capacity_response(total_blocks, block_size);
            &&& r.len() == 8
            &&& 16777216 * r[0] + 65536 * r[1] + 256 * r[2] + r[3] == total_blocks - 1
            &&& 16777216 * r[4] + 65536 * r[5] + 256 * r[6] + r[7] == block_size
        }),
{
    let a = (total_blocks - 1) as u32;
    let b = block_size;
    assert(16777216 * ((a / 16777216) as u8) + 65536 * (((a / 65536) % 256) as u8) + 256 * (((a
        / 256) % 256) as u8) + ((a % 256) as u8) == a) by (bit_vector);
    assert(16777216 * ((b / 16777216) as u8) + 65536 * (((b / 65536) % 256) as u8) + 256 * (((b
        / 256) % 256) as u8) + ((b % 256) as u8) == b) by (bit_vector);
}

} // verus!
