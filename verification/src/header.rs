//! The boot-identification header (`eGON.BT0` format): the fixed-layout
//! record the boot ROM reads, at a fixed offset from the image start, to
//! validate and locate this image before any code here runs.
//!
//! The record is pure data. Its correctness requirement is byte-exact layout:
//! the serialized form places each field at a declared offset, and the magic
//! field carries the vendor signature the boot ROM insists on.

use vstd::prelude::*;

verus! {

/// Total serialized size of the header, in bytes.
pub const HEAD_SIZE: usize = 44;

/// Offset of the 8-byte magic signature.
pub const MAGIC_OFFSET: usize = 0;
/// Offset of the 32-bit checksum field.
pub const CHECKSUM_OFFSET: usize = 8;
/// Offset of the 32-bit image-length field.
pub const LENGTH_OFFSET: usize = 12;
/// Offset of the 32-bit public-head-size field.
pub const PUB_HEAD_SIZE_OFFSET: usize = 16;
/// Offset of the 4-byte public-head-version field.
pub const PUB_HEAD_VERSION_OFFSET: usize = 20;
/// Offset of the 32-bit return-address field.
pub const RETURN_ADDR_OFFSET: usize = 24;
/// Offset of the 32-bit run-address field.
pub const RUN_ADDR_OFFSET: usize = 28;
/// Offset of the 32-bit boot-CPU field.
pub const BOOT_CPU_OFFSET: usize = 32;
/// Offset of the 8-byte platform tag.
pub const PLATFORM_OFFSET: usize = 36;

/// The vendor signature `eGON.BT0` as bytes; the boot ROM rejects any image
/// whose header does not begin with exactly these eight bytes.
pub open spec fn magic_seq() -> Seq<u8> {
    seq![0x65u8, 0x47u8, 0x4fu8, 0x4eu8, 0x2eu8, 0x42u8, 0x54u8, 0x30u8]
}

/// The public-head version tag `3000` as bytes.
pub open spec fn version_seq() -> Seq<u8> {
    seq![0x33u8, 0x30u8, 0x30u8, 0x30u8]
}

/// The platform tag `\0\03.0.0\0` as bytes.
pub open spec fn platform_seq() -> Seq<u8> {
    seq![0x00u8, 0x00u8, 0x33u8, 0x2eu8, 0x30u8, 0x2eu8, 0x30u8, 0x00u8]
}

/// `eGON.BT0` identifying structure, laid out field by field exactly as the
/// boot ROM expects it at the head of the image.
pub struct EgonHead {
    /// Vendor signature; must equal the bytes of `magic_seq`.
    pub magic: [u8; 8],
    /// Placeholder at build time; an external signing tool overwrites it
    /// after linking, and nothing here ever reads it.
    pub checksum: u32,
    /// Total image size, in bytes, that the boot ROM must copy and verify.
    pub length: u32,
    /// Opaque pass-through value of the vendor boot protocol.
    pub pub_head_size: u32,
    /// Opaque pass-through value of the vendor boot protocol.
    pub pub_head_version: [u8; 4],
    /// Opaque pass-through value of the vendor boot protocol.
    pub return_addr: u32,
    /// Opaque pass-through value of the vendor boot protocol.
    pub run_addr: u32,
    /// Opaque pass-through value of the vendor boot protocol.
    pub boot_cpu: u32,
    /// Opaque pass-through value of the vendor boot protocol.
    pub platform: [u8; 8],
}

/// A 32-bit value as four little-endian bytes, least significant first: raw
/// in-memory order on this machine, no transformation.
pub open spec fn le_bytes_u32(x: u32) -> Seq<u8> {
    seq![
        (x as int % 0x100) as u8,
        (x as int / 0x100 % 0x100) as u8,
        (x as int / 0x10000 % 0x100) as u8,
        (x as int / 0x1000000 % 0x100) as u8,
    ]
}

/// The serialized form of a header: every field in declaration order, fixed
/// offsets, multi-byte integers in little-endian order.
pub open spec fn head_bytes(h: EgonHead) -> Seq<u8> {
    h.magic@ + le_bytes_u32(h.checksum) + le_bytes_u32(h.length) + le_bytes_u32(h.pub_head_size)
        + h.pub_head_version@ + le_bytes_u32(h.return_addr) + le_bytes_u32(h.run_addr)
        + le_bytes_u32(h.boot_cpu) + h.platform@
}

/// The header this image embeds: vendor signature, build-time checksum
/// placeholder, declared image length, and the vendor protocol's pass-through
/// fields. Constructed once as immutable data and never mutated at runtime.
pub fn egon_head() -> (h: EgonHead)
    ensures
        h.magic@ == magic_seq(),
        h.checksum == 0x5F0A6C39u32,
        h.length == 0x8000u32,
        h.pub_head_size == 0u32,
        h.pub_head_version@ == version_seq(),
        h.return_addr == 0u32,
        h.run_addr == 0u32,
        h.boot_cpu == 0u32,
        h.platform@ == platform_seq(),
{
    let magic: [u8; 8] = [0x65, 0x47, 0x4f, 0x4e, 0x2e, 0x42, 0x54, 0x30];
    let pub_head_version: [u8; 4] = [0x33, 0x30, 0x30, 0x30];
    let platform: [u8; 8] = [0x00, 0x00, 0x33, 0x2e, 0x30, 0x2e, 0x30, 0x00];
    proof {
        assert(magic@ =~= magic_seq());
        assert(pub_head_version@ =~= version_seq());
        assert(platform@ =~= platform_seq());
    }
    EgonHead {
        magic,
        checksum: 0x5F0A6C39,
        length: 0x8000,
        pub_head_size: 0,
        pub_head_version,
        return_addr: 0,
        run_addr: 0,
        boot_cpu: 0,
        platform,
    }
}

/// Appends the four little-endian bytes of `x`.
fn push_le_u32(out: &mut Vec<u8>, x: u32)
    ensures
        final(out)@ == old(out)@ + le_bytes_u32(x),
{
    out.push((x % 0x100) as u8);
    out.push((x / 0x100 % 0x100) as u8);
    out.push((x / 0x10000 % 0x100) as u8);
    out.push((x / 0x1000000 % 0x100) as u8);
    assert(out@ =~= old(out)@ + le_bytes_u32(x));
}

/// Appends all eight bytes of `a`.
fn push_bytes8(out: &mut Vec<u8>, a: &[u8; 8])
    ensures
        final(out)@ == old(out)@ + a@,
{
    out.push(a[0]);
    out.push(a[1]);
    out.push(a[2]);
    out.push(a[3]);
    out.push(a[4]);
    out.push(a[5]);
    out.push(a[6]);
    out.push(a[7]);
    assert(out@ =~= old(out)@ + a@);
}

/// Appends all four bytes of `a`.
fn push_bytes4(out: &mut Vec<u8>, a: &[u8; 4])
    ensures
        final(out)@ == old(out)@ + a@,
{
    out.push(a[0]);
    out.push(a[1]);
    out.push(a[2]);
    out.push(a[3]);
    assert(out@ =~= old(out)@ + a@);
}

impl EgonHead {
    /// Serializes the header into its exact boot-ROM byte layout.
    pub fn serialize(&self) -> (out: Vec<u8>)
        ensures
            out@ == head_bytes(*self),
    {
        let mut out: Vec<u8> = Vec::new();
        push_bytes8(&mut out, &self.magic);
        push_le_u32(&mut out, self.checksum);
        push_le_u32(&mut out, self.length);
        push_le_u32(&mut out, self.pub_head_size);
        push_bytes4(&mut out, &self.pub_head_version);
        push_le_u32(&mut out, self.return_addr);
        push_le_u32(&mut out, self.run_addr);
        push_le_u32(&mut out, self.boot_cpu);
        push_bytes8(&mut out, &self.platform);
        assert(out@ =~= head_bytes(*self));
        out
    }
}

/// Law: the serialized header has the declared total size, and each field
/// occupies exactly its declared offset range — the magic signature first,
/// then each 32-bit field in little-endian order, then the byte-array fields
/// verbatim.
pub proof fn lemma_head_layout(h: EgonHead)
    ensures
        head_bytes(h).len() == HEAD_SIZE,
        head_bytes(h).subrange(MAGIC_OFFSET as int, CHECKSUM_OFFSET as int) == h.magic@,
        head_bytes(h).subrange(CHECKSUM_OFFSET as int, LENGTH_OFFSET as int) == le_bytes_u32(
            h.checksum,
        ),
        head_bytes(h).subrange(LENGTH_OFFSET as int, PUB_HEAD_SIZE_OFFSET as int) == le_bytes_u32(
            h.length,
        ),
        head_bytes(h).subrange(PUB_HEAD_SIZE_OFFSET as int, PUB_HEAD_VERSION_OFFSET as int)
            == le_bytes_u32(h.pub_head_size),
        head_bytes(h).subrange(PUB_HEAD_VERSION_OFFSET as int, RETURN_ADDR_OFFSET as int)
            == h.pub_head_version@,
        head_bytes(h).subrange(RETURN_ADDR_OFFSET as int, RUN_ADDR_OFFSET as int) == le_bytes_u32(
            h.return_addr,
        ),
        head_bytes(h).subrange(RUN_ADDR_OFFSET as int, BOOT_CPU_OFFSET as int) == le_bytes_u32(
            h.run_addr,
        ),
        head_bytes(h).subrange(BOOT_CPU_OFFSET as int, PLATFORM_OFFSET as int) == le_bytes_u32(
            h.boot_cpu,
        ),
        head_bytes(h).subrange(PLATFORM_OFFSET as int, HEAD_SIZE as int) == h.platform@,
{
    assert(head_bytes(h).subrange(MAGIC_OFFSET as int, CHECKSUM_OFFSET as int) =~= h.magic@);
    assert(head_bytes(h).subrange(CHECKSUM_OFFSET as int, LENGTH_OFFSET as int) =~= le_bytes_u32(
        h.checksum,
    ));
    assert(head_bytes(h).subrange(LENGTH_OFFSET as int, PUB_HEAD_SIZE_OFFSET as int)
        =~= le_bytes_u32(h.length));
    assert(head_bytes(h).subrange(PUB_HEAD_SIZE_OFFSET as int, PUB_HEAD_VERSION_OFFSET as int)
        =~= le_bytes_u32(h.pub_head_size));
    assert(head_bytes(h).subrange(PUB_HEAD_VERSION_OFFSET as int, RETURN_ADDR_OFFSET as int)
        =~= h.pub_head_version@);
    assert(head_bytes(h).subrange(RETURN_ADDR_OFFSET as int, RUN_ADDR_OFFSET as int)
        =~= le_bytes_u32(h.return_addr));
    assert(head_bytes(h).subrange(RUN_ADDR_OFFSET as int, BOOT_CPU_OFFSET as int) =~= le_bytes_u32(
        h.run_addr,
    ));
    assert(head_bytes(h).subrange(BOOT_CPU_OFFSET as int, PLATFORM_OFFSET as int) =~= le_bytes_u32(
        h.boot_cpu,
    ));
    assert(head_bytes(h).subrange(PLATFORM_OFFSET as int, HEAD_SIZE as int) =~= h.platform@);
}

/// Law: any header carrying the vendor signature serializes with exactly
/// those eight bytes first — at the offset where the boot ROM looks for them.
pub proof fn lemma_serialized_magic(h: EgonHead)
    requires
        h.magic@ == magic_seq(),
    ensures
        head_bytes(h).subrange(MAGIC_OFFSET as int, MAGIC_OFFSET as int + 8) == magic_seq(),
{
    lemma_head_layout(h);
}

} // verus!
