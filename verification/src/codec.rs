//! Framing codec: explicit field-by-field encodings of the wire records.
//!
//! Every record is encoded little-endian with the fixed field widths and
//! field order declared in `wire`; the encoding never depends on the
//! host's in-memory struct layout. Decoding rejects a buffer of the wrong
//! length instead of reinterpreting it.

use vstd::bytes::lemma_auto_spec_u32_to_from_le_bytes;
use vstd::bytes::lemma_auto_spec_u64_to_from_le_bytes;
use vstd::bytes::spec_u32_from_le_bytes;
use vstd::bytes::spec_u32_to_le_bytes;
use vstd::bytes::spec_u64_from_le_bytes;
use vstd::bytes::spec_u64_to_le_bytes;
use vstd::bytes::u32_from_le_bytes;
use vstd::bytes::u32_to_le_bytes;
use vstd::bytes::u64_from_le_bytes;
use vstd::bytes::u64_to_le_bytes;
use vstd::prelude::*;
use vstd::slice::slice_subrange;

use crate::error::FramingError;
use crate::wire::BarAccessMsg;
use crate::wire::MsgHeader;
use crate::wire::PciConfDataMsg;
use crate::wire::spec_ret_no_data_header;
use crate::wire::spec_ret_u64_header;
use crate::wire::SyncSysmemMsg;
use crate::wire::BAR_ACCESS_MSG_SIZE;
use crate::wire::HDR_SIZE;
use crate::wire::PCI_CONF_DATA_MSG_SIZE;
use crate::wire::SYNC_SYSMEM_SIZE;

verus! {

broadcast use vstd::array::group_array_axioms;

/// A signed 32-bit field is carried as its unsigned two's-complement bits.
pub open spec fn spec_i32_to_le_bytes(x: i32) -> Seq<u8> {
    spec_u32_to_le_bytes(x as u32)
}

/// Inverse of `spec_i32_to_le_bytes`.
pub open spec fn spec_i32_from_le_bytes(s: Seq<u8>) -> i32
    recommends
        s.len() == 4,
{
    spec_u32_from_le_bytes(s) as i32
}

/// The error with which every decoder rejects a buffer whose length is not
/// the record's fixed wire size.
pub open spec fn spec_wrong_length(expected: u64, got: nat) -> FramingError {
    FramingError::WrongLength { expected, got: got as u64 }
}

/// Carrying a signed 32-bit value through its unsigned bits loses nothing.
proof fn lemma_i32_round_trip(x: i32)
    ensures
        spec_i32_from_le_bytes(spec_i32_to_le_bytes(x)) == x,
{
    lemma_auto_spec_u32_to_from_le_bytes();
    let u: u32 = x as u32;
    assert(spec_u32_to_le_bytes(u).len() == 4);
    assert(spec_u32_from_le_bytes(spec_u32_to_le_bytes(u)) == u);
    assert(((x as u32) as i32) == x) by (bit_vector);
}

// ------------------------------------------------------------------
// MsgHeader: cmd at bytes 0..4, size at bytes 4..12.
// ------------------------------------------------------------------

/// Wire image of a header: the 32-bit command ordinal, then the 64-bit
/// payload length.
pub open spec fn spec_encode_header(h: MsgHeader) -> Seq<u8> {
    spec_i32_to_le_bytes(h.cmd) + spec_u64_to_le_bytes(h.size)
}

/// The header whose wire image an `HDR_SIZE`-byte buffer is.
pub open spec fn spec_decode_header(s: Seq<u8>) -> MsgHeader
    recommends
        s.len() == HDR_SIZE,
{
    MsgHeader {
        cmd: spec_i32_from_le_bytes(s.subrange(0, 4)),
        size: spec_u64_from_le_bytes(s.subrange(4, 12)),
    }
}

/// What `decode_header` returns on any buffer: the decoded header for a
/// buffer of exactly `HDR_SIZE` bytes, a `WrongLength` error otherwise.
pub open spec fn spec_decode_header_result(s: Seq<u8>) -> Result<MsgHeader, FramingError> {
    if s.len() == HDR_SIZE {
        Ok(spec_decode_header(s))
    } else {
        Err(spec_wrong_length(HDR_SIZE as u64, s.len()))
    }
}

/// Encode a header into its exact-length wire image.
pub fn encode_header(h: &MsgHeader) -> (r: Vec<u8>)
    ensures
        r@ == spec_encode_header(*h),
        r@.len() == HDR_SIZE,
{
    proof {
        lemma_auto_spec_u32_to_from_le_bytes();
        lemma_auto_spec_u64_to_from_le_bytes();
    }
    let mut out = u32_to_le_bytes(h.cmd as u32);
    let mut tail = u64_to_le_bytes(h.size);
    out.append(&mut tail);
    out
}

/// Decode a header from an exact-length buffer; a buffer of any other
/// length is rejected, never reinterpreted.
pub fn decode_header(buf: &[u8]) -> (r: Result<MsgHeader, FramingError>)
    ensures
        r == spec_decode_header_result(buf@),
{
    if buf.len() != HDR_SIZE {
        return Err(FramingError::WrongLength { expected: HDR_SIZE as u64, got: buf.len() as u64 });
    }
    let cmd = u32_from_le_bytes(slice_subrange(buf, 0, 4)) as i32;
    let size = u64_from_le_bytes(slice_subrange(buf, 4, 12));
    Ok(MsgHeader { cmd, size })
}

/// Round trip of the header codec: decoding the encoding of any header
/// yields that header back.
pub proof fn lemma_header_round_trip(h: MsgHeader)
    ensures
        spec_decode_header(spec_encode_header(h)) == h,
{
    lemma_auto_spec_u32_to_from_le_bytes();
    lemma_auto_spec_u64_to_from_le_bytes();
    let e = spec_encode_header(h);
    assert(e.subrange(0, 4) =~= spec_i32_to_le_bytes(h.cmd));
    assert(e.subrange(4, 12) =~= spec_u64_to_le_bytes(h.size));
    lemma_i32_round_trip(h.cmd);
}

// ------------------------------------------------------------------
// PciConfDataMsg: addr at 0..4, val at 4..8, len at 8..12.
// ------------------------------------------------------------------

/// Wire image of a configuration-space access record.
pub open spec fn spec_encode_pci_conf(m: PciConfDataMsg) -> Seq<u8> {
    spec_u32_to_le_bytes(m.addr) + spec_u32_to_le_bytes(m.val) + spec_i32_to_le_bytes(m.len)
}

/// The record whose wire image a `PCI_CONF_DATA_MSG_SIZE`-byte buffer is.
pub open spec fn spec_decode_pci_conf(s: Seq<u8>) -> PciConfDataMsg
    recommends
        s.len() == PCI_CONF_DATA_MSG_SIZE,
{
    PciConfDataMsg {
        addr: spec_u32_from_le_bytes(s.subrange(0, 4)),
        val: spec_u32_from_le_bytes(s.subrange(4, 8)),
        len: spec_i32_from_le_bytes(s.subrange(8, 12)),
    }
}

/// What `decode_pci_conf` returns on any buffer.
pub open spec fn spec_decode_pci_conf_result(s: Seq<u8>) -> Result<PciConfDataMsg, FramingError> {
    if s.len() == PCI_CONF_DATA_MSG_SIZE {
        Ok(spec_decode_pci_conf(s))
    } else {
        Err(spec_wrong_length(PCI_CONF_DATA_MSG_SIZE as u64, s.len()))
    }
}

/// Encode a configuration-space access record.
pub fn encode_pci_conf(m: &PciConfDataMsg) -> (r: Vec<u8>)
    ensures
        r@ == spec_encode_pci_conf(*m),
        r@.len() == PCI_CONF_DATA_MSG_SIZE,
{
    proof {
        lemma_auto_spec_u32_to_from_le_bytes();
    }
    let mut out = u32_to_le_bytes(m.addr);
    let mut val = u32_to_le_bytes(m.val);
    let mut len = u32_to_le_bytes(m.len as u32);
    out.append(&mut val);
    out.append(&mut len);
    out
}

/// Decode a configuration-space access record from an exact-length buffer.
pub fn decode_pci_conf(buf: &[u8]) -> (r: Result<PciConfDataMsg, FramingError>)
    ensures
        r == spec_decode_pci_conf_result(buf@),
{
    if buf.len() != PCI_CONF_DATA_MSG_SIZE {
        return Err(
            FramingError::WrongLength {
                expected: PCI_CONF_DATA_MSG_SIZE as u64,
                got: buf.len() as u64,
            },
        );
    }
    let addr = u32_from_le_bytes(slice_subrange(buf, 0, 4));
    let val = u32_from_le_bytes(slice_subrange(buf, 4, 8));
    let len = u32_from_le_bytes(slice_subrange(buf, 8, 12)) as i32;
    Ok(PciConfDataMsg { addr, val, len })
}

/// Round trip of the configuration-space access codec.
pub proof fn lemma_pci_conf_round_trip(m: PciConfDataMsg)
    ensures
        spec_decode_pci_conf(spec_encode_pci_conf(m)) == m,
{
    lemma_auto_spec_u32_to_from_le_bytes();
    let e = spec_encode_pci_conf(m);
    assert(e.subrange(0, 4) =~= spec_u32_to_le_bytes(m.addr));
    assert(e.subrange(4, 8) =~= spec_u32_to_le_bytes(m.val));
    assert(e.subrange(8, 12) =~= spec_i32_to_le_bytes(m.len));
    lemma_i32_round_trip(m.len);
}

// ------------------------------------------------------------------
// BarAccessMsg: addr at 0..8, val at 8..16, size at 16..20, memory at 20..24.
// ------------------------------------------------------------------

/// Wire image of a BAR access record.
pub open spec fn spec_encode_bar_access(m: BarAccessMsg) -> Seq<u8> {
    spec_u64_to_le_bytes(m.addr) + spec_u64_to_le_bytes(m.val) + spec_u32_to_le_bytes(m.size)
        + spec_u32_to_le_bytes(m.memory)
}

/// The record whose wire image a `BAR_ACCESS_MSG_SIZE`-byte buffer is.
pub open spec fn spec_decode_bar_access(s: Seq<u8>) -> BarAccessMsg
    recommends
        s.len() == BAR_ACCESS_MSG_SIZE,
{
    BarAccessMsg {
        addr: spec_u64_from_le_bytes(s.subrange(0, 8)),
        val: spec_u64_from_le_bytes(s.subrange(8, 16)),
        size: spec_u32_from_le_bytes(s.subrange(16, 20)),
        memory: spec_u32_from_le_bytes(s.subrange(20, 24)),
    }
}

/// What `decode_bar_access` returns on any buffer.
pub open spec fn spec_decode_bar_access_result(s: Seq<u8>) -> Result<BarAccessMsg, FramingError> {
    if s.len() == BAR_ACCESS_MSG_SIZE {
        Ok(spec_decode_bar_access(s))
    } else {
        Err(spec_wrong_length(BAR_ACCESS_MSG_SIZE as u64, s.len()))
    }
}

/// Encode a BAR access record.
pub fn encode_bar_access(m: &BarAccessMsg) -> (r: Vec<u8>)
    ensures
        r@ == spec_encode_bar_access(*m),
        r@.len() == BAR_ACCESS_MSG_SIZE,
{
    proof {
        lemma_auto_spec_u32_to_from_le_bytes();
        lemma_auto_spec_u64_to_from_le_bytes();
    }
    let mut out = u64_to_le_bytes(m.addr);
    let mut val = u64_to_le_bytes(m.val);
    let mut size = u32_to_le_bytes(m.size);
    let mut memory = u32_to_le_bytes(m.memory);
    out.append(&mut val);
    out.append(&mut size);
    out.append(&mut memory);
    out
}

/// Decode a BAR access record from an exact-length buffer.
pub fn decode_bar_access(buf: &[u8]) -> (r: Result<BarAccessMsg, FramingError>)
    ensures
        r == spec_decode_bar_access_result(buf@),
{
    if buf.len() != BAR_ACCESS_MSG_SIZE {
        return Err(
            FramingError::WrongLength {
                expected: BAR_ACCESS_MSG_SIZE as u64,
                got: buf.len() as u64,
            },
        );
    }
    let addr = u64_from_le_bytes(slice_subrange(buf, 0, 8));
    let val = u64_from_le_bytes(slice_subrange(buf, 8, 16));
    let size = u32_from_le_bytes(slice_subrange(buf, 16, 20));
    let memory = u32_from_le_bytes(slice_subrange(buf, 20, 24));
    Ok(BarAccessMsg { addr, val, size, memory })
}

/// Round trip of the BAR access codec.
pub proof fn lemma_bar_access_round_trip(m: BarAccessMsg)
    ensures
        spec_decode_bar_access(spec_encode_bar_access(m)) == m,
{
    lemma_auto_spec_u32_to_from_le_bytes();
    lemma_auto_spec_u64_to_from_le_bytes();
    let e = spec_encode_bar_access(m);
    assert(e.subrange(0, 8) =~= spec_u64_to_le_bytes(m.addr));
    assert(e.subrange(8, 16) =~= spec_u64_to_le_bytes(m.val));
    assert(e.subrange(16, 20) =~= spec_u32_to_le_bytes(m.size));
    assert(e.subrange(20, 24) =~= spec_u32_to_le_bytes(m.memory));
}

// ------------------------------------------------------------------
// SyncSysmemMsg: gpas at 0..64, sizes at 64..128, offsets at 128..192,
// each an array of eight 64-bit fields.
// ------------------------------------------------------------------

/// Wire image of a sequence of 64-bit fields: each element in order,
/// little-endian.
pub open spec fn spec_encode_u64_seq(vals: Seq<u64>) -> Seq<u8>
    decreases vals.len(),
{
    if vals.len() == 0 {
        Seq::empty()
    } else {
        spec_u64_to_le_bytes(vals[0]) + spec_encode_u64_seq(vals.skip(1))
    }
}

/// A signed 64-bit sequence is carried as its unsigned two's-complement bits.
pub open spec fn spec_encode_i64_seq(vals: Seq<i64>) -> Seq<u8> {
    spec_encode_u64_seq(vals.map_values(|x: i64| x as u64))
}

/// Each 64-bit field occupies exactly eight bytes of the image.
proof fn lemma_encode_u64_seq_len(vals: Seq<u64>)
    ensures
        spec_encode_u64_seq(vals).len() == 8 * vals.len(),
    decreases vals.len(),
{
    lemma_auto_spec_u64_to_from_le_bytes();
    if vals.len() > 0 {
        lemma_encode_u64_seq_len(vals.skip(1));
    }
}

/// The bytes of the `i`-th field stand at offset `8 * i` of the image.
proof fn lemma_encode_u64_seq_index(vals: Seq<u64>, i: int)
    requires
        0 <= i < vals.len(),
    ensures
        spec_encode_u64_seq(vals).subrange(8 * i, 8 * i + 8) == spec_u64_to_le_bytes(vals[i]),
    decreases i,
{
    lemma_auto_spec_u64_to_from_le_bytes();
    lemma_encode_u64_seq_len(vals);
    lemma_encode_u64_seq_len(vals.skip(1));
    if i == 0 {
        assert(spec_encode_u64_seq(vals).subrange(0, 8) =~= spec_u64_to_le_bytes(vals[0]));
    } else {
        lemma_encode_u64_seq_index(vals.skip(1), i - 1);
        assert(spec_encode_u64_seq(vals).subrange(8 * i, 8 * i + 8) =~= spec_encode_u64_seq(
            vals.skip(1),
        ).subrange(8 * (i - 1), 8 * (i - 1) + 8));
    }
}

/// Appending one field to a sequence appends its eight bytes to the image.
proof fn lemma_encode_u64_seq_push(vals: Seq<u64>, v: u64)
    ensures
        spec_encode_u64_seq(vals.push(v)) == spec_encode_u64_seq(vals) + spec_u64_to_le_bytes(v),
    decreases vals.len(),
{
    if vals.len() == 0 {
        let bv = spec_u64_to_le_bytes(v);
        assert(vals.push(v)[0] == v);
        assert(vals.push(v).skip(1) =~= vals);
        assert(spec_encode_u64_seq(vals) == Seq::<u8>::empty());
        assert(spec_encode_u64_seq(vals.push(v)) == bv + Seq::<u8>::empty());
        assert(bv + Seq::<u8>::empty() =~= Seq::<u8>::empty() + bv);
    } else {
        assert(vals.push(v)[0] == vals[0]);
        assert(vals.push(v).skip(1) =~= vals.skip(1).push(v));
        lemma_encode_u64_seq_push(vals.skip(1), v);
        assert(spec_encode_u64_seq(vals.push(v)) == spec_u64_to_le_bytes(vals[0]) + (
        spec_encode_u64_seq(vals.skip(1)) + spec_u64_to_le_bytes(v)));
        assert(spec_u64_to_le_bytes(vals[0]) + (spec_encode_u64_seq(vals.skip(1))
            + spec_u64_to_le_bytes(v)) =~= (spec_u64_to_le_bytes(vals[0]) + spec_encode_u64_seq(
            vals.skip(1),
        )) + spec_u64_to_le_bytes(v));
    }
}

/// Wire image of a SYNC_SYSMEM payload: the eight guest physical
/// addresses, then the eight region sizes, then the eight signed offsets.
pub open spec fn spec_encode_sync_sysmem(m: SyncSysmemMsg) -> Seq<u8> {
    spec_encode_u64_seq(m.gpas@) + spec_encode_u64_seq(m.sizes@) + spec_encode_i64_seq(m.offsets@)
}

/// The guest physical addresses a `SYNC_SYSMEM_SIZE`-byte buffer carries.
pub open spec fn spec_decode_sync_sysmem_gpas(s: Seq<u8>) -> Seq<u64>
    recommends
        s.len() == SYNC_SYSMEM_SIZE,
{
    Seq::new(8, |i: int| spec_u64_from_le_bytes(s.subrange(8 * i, 8 * i + 8)))
}

/// The region sizes a `SYNC_SYSMEM_SIZE`-byte buffer carries.
pub open spec fn spec_decode_sync_sysmem_sizes(s: Seq<u8>) -> Seq<u64>
    recommends
        s.len() == SYNC_SYSMEM_SIZE,
{
    Seq::new(8, |i: int| spec_u64_from_le_bytes(s.subrange(64 + 8 * i, 64 + 8 * i + 8)))
}

/// The signed offsets a `SYNC_SYSMEM_SIZE`-byte buffer carries.
pub open spec fn spec_decode_sync_sysmem_offsets(s: Seq<u8>) -> Seq<i64>
    recommends
        s.len() == SYNC_SYSMEM_SIZE,
{
    Seq::new(8, |i: int| spec_u64_from_le_bytes(s.subrange(128 + 8 * i, 128 + 8 * i + 8)) as i64)
}

/// Encode an array of eight 64-bit fields.
fn encode_u64_array(vals: &[u64; 8]) -> (r: Vec<u8>)
    ensures
        r@ == spec_encode_u64_seq(vals@),
        r@.len() == 64,
{
    let mut out: Vec<u8> = Vec::new();
    assert(vals@.take(0) =~= Seq::<u64>::empty());
    let mut i: usize = 0;
    while i < 8
        invariant
            i <= 8,
            out@ == spec_encode_u64_seq(vals@.take(i as int)),
        decreases 8 - i,
    {
        let mut b = u64_to_le_bytes(vals[i]);
        out.append(&mut b);
        proof {
            lemma_encode_u64_seq_push(vals@.take(i as int), vals@[i as int]);
            assert(vals@.take(i as int).push(vals@[i as int]) =~= vals@.take(i + 1 as int));
        }
        i += 1;
    }
    proof {
        assert(vals@.take(8) =~= vals@);
        lemma_encode_u64_seq_len(vals@);
    }
    out
}

/// Encode an array of eight signed 64-bit fields.
fn encode_i64_array(vals: &[i64; 8]) -> (r: Vec<u8>)
    ensures
        r@ == spec_encode_i64_seq(vals@),
        r@.len() == 64,
{
    let ghost mapped: Seq<u64> = vals@.map_values(|x: i64| x as u64);
    let mut out: Vec<u8> = Vec::new();
    assert(mapped.take(0) =~= Seq::<u64>::empty());
    let mut i: usize = 0;
    while i < 8
        invariant
            i <= 8,
            mapped == vals@.map_values(|x: i64| x as u64),
            out@ == spec_encode_u64_seq(mapped.take(i as int)),
        decreases 8 - i,
    {
        let mut b = u64_to_le_bytes(vals[i] as u64);
        out.append(&mut b);
        proof {
            lemma_encode_u64_seq_push(mapped.take(i as int), mapped[i as int]);
            assert(mapped.take(i as int).push(mapped[i as int]) =~= mapped.take(i + 1 as int));
        }
        i += 1;
    }
    proof {
        assert(mapped.take(8) =~= mapped);
        lemma_encode_u64_seq_len(mapped);
    }
    out
}

/// Encode a SYNC_SYSMEM payload.
pub fn encode_sync_sysmem(m: &SyncSysmemMsg) -> (r: Vec<u8>)
    ensures
        r@ == spec_encode_sync_sysmem(*m),
        r@.len() == SYNC_SYSMEM_SIZE,
{
    let mut out = encode_u64_array(&m.gpas);
    let mut sizes = encode_u64_array(&m.sizes);
    let mut offsets = encode_i64_array(&m.offsets);
    out.append(&mut sizes);
    out.append(&mut offsets);
    out
}

/// Decode a SYNC_SYSMEM payload from an exact-length buffer. The decoded
/// record's fields are exactly the 64-bit fields the buffer carries, in
/// the declared field order.
pub fn decode_sync_sysmem(buf: &[u8]) -> (r: Result<SyncSysmemMsg, FramingError>)
    ensures
        buf@.len() == SYNC_SYSMEM_SIZE ==> r is Ok && r->Ok_0.gpas@ == spec_decode_sync_sysmem_gpas(
            buf@,
        ) && r->Ok_0.sizes@ == spec_decode_sync_sysmem_sizes(buf@) && r->Ok_0.offsets@
            == spec_decode_sync_sysmem_offsets(buf@),
        buf@.len() != SYNC_SYSMEM_SIZE ==> r == Err::<SyncSysmemMsg, FramingError>(
            spec_wrong_length(SYNC_SYSMEM_SIZE as u64, buf@.len()),
        ),
{
    if buf.len() != SYNC_SYSMEM_SIZE {
        return Err(
            FramingError::WrongLength { expected: SYNC_SYSMEM_SIZE as u64, got: buf.len() as u64 },
        );
    }
    let mut gpas: [u64; 8] = [0; 8];
    let mut sizes: [u64; 8] = [0; 8];
    let mut offsets: [i64; 8] = [0; 8];
    let mut i: usize = 0;
    while i < 8
        invariant
            i <= 8,
            buf@.len() == SYNC_SYSMEM_SIZE,
            forall|j: int|
                0 <= j < i ==> gpas@[j] == spec_u64_from_le_bytes(
                    buf@.subrange(8 * j, 8 * j + 8),
                ),
            forall|j: int|
                0 <= j < i ==> sizes@[j] == spec_u64_from_le_bytes(
                    buf@.subrange(64 + 8 * j, 64 + 8 * j + 8),
                ),
            forall|j: int|
                0 <= j < i ==> offsets@[j] == spec_u64_from_le_bytes(
                    buf@.subrange(128 + 8 * j, 128 + 8 * j + 8),
                ) as i64,
        decreases 8 - i,
    {
        let g = u64_from_le_bytes(slice_subrange(buf, 8 * i, 8 * i + 8));
        gpas[i] = g;
        let sz = u64_from_le_bytes(slice_subrange(buf, 64 + 8 * i, 64 + 8 * i + 8));
        sizes[i] = sz;
        let off = u64_from_le_bytes(slice_subrange(buf, 128 + 8 * i, 128 + 8 * i + 8)) as i64;
        offsets[i] = off;
        i += 1;
    }
    proof {
        assert(gpas@ =~= spec_decode_sync_sysmem_gpas(buf@));
        assert(sizes@ =~= spec_decode_sync_sysmem_sizes(buf@));
        assert(offsets@ =~= spec_decode_sync_sysmem_offsets(buf@));
    }
    Ok(SyncSysmemMsg { gpas, sizes, offsets })
}

/// Round trip of the SYNC_SYSMEM codec: decoding the encoding of any
/// payload yields every field of that payload back.
pub proof fn lemma_sync_sysmem_round_trip(m: SyncSysmemMsg)
    ensures
        spec_decode_sync_sysmem_gpas(spec_encode_sync_sysmem(m)) == m.gpas@,
        spec_decode_sync_sysmem_sizes(spec_encode_sync_sysmem(m)) == m.sizes@,
        spec_decode_sync_sysmem_offsets(spec_encode_sync_sysmem(m)) == m.offsets@,
{
    lemma_auto_spec_u64_to_from_le_bytes();
    let e = spec_encode_sync_sysmem(m);
    let a = spec_encode_u64_seq(m.gpas@);
    let b = spec_encode_u64_seq(m.sizes@);
    let mapped: Seq<u64> = m.offsets@.map_values(|x: i64| x as u64);
    let c = spec_encode_u64_seq(mapped);
    lemma_encode_u64_seq_len(m.gpas@);
    lemma_encode_u64_seq_len(m.sizes@);
    lemma_encode_u64_seq_len(mapped);
    assert forall|i: int| 0 <= i < 8 implies spec_decode_sync_sysmem_gpas(e)[i]
        == m.gpas@[i] by {
        lemma_encode_u64_seq_index(m.gpas@, i);
        assert(e.subrange(8 * i, 8 * i + 8) =~= a.subrange(8 * i, 8 * i + 8));
    }
    assert(spec_decode_sync_sysmem_gpas(e) =~= m.gpas@);
    assert forall|i: int| 0 <= i < 8 implies spec_decode_sync_sysmem_sizes(e)[i]
        == m.sizes@[i] by {
        lemma_encode_u64_seq_index(m.sizes@, i);
        assert(e.subrange(64 + 8 * i, 64 + 8 * i + 8) =~= b.subrange(8 * i, 8 * i + 8));
    }
    assert(spec_decode_sync_sysmem_sizes(e) =~= m.sizes@);
    assert forall|i: int| 0 <= i < 8 implies spec_decode_sync_sysmem_offsets(e)[i]
        == m.offsets@[i] by {
        lemma_encode_u64_seq_index(mapped, i);
        assert(e.subrange(128 + 8 * i, 128 + 8 * i + 8) =~= c.subrange(8 * i, 8 * i + 8));
        let x: i64 = m.offsets@[i];
        assert(((x as u64) as i64) == x) by (bit_vector);
    }
    assert(spec_decode_sync_sysmem_offsets(e) =~= m.offsets@);
}

// ------------------------------------------------------------------
// Canonical response frames.
// ------------------------------------------------------------------

/// The wire image of the "RET, no payload" acknowledgement frame.
pub open spec fn spec_ret_no_data_bytes() -> Seq<u8> {
    spec_encode_header(spec_ret_no_data_header())
}

/// The wire image of the "RET, 8-byte value" acknowledgement frame
/// carrying `val`.
pub open spec fn spec_ret_u64_bytes(val: u64) -> Seq<u8> {
    spec_encode_header(spec_ret_u64_header()) + spec_u64_to_le_bytes(val)
}

/// The complete "RET, no payload" acknowledgement frame.
pub fn ret_data() -> (r: Vec<u8>)
    ensures
        r@ == spec_ret_no_data_bytes(),
        r@.len() == HDR_SIZE,
{
    let hdr = MsgHeader::ret_no_data();
    encode_header(&hdr)
}

/// The complete "RET, 8-byte value" acknowledgement frame carrying `val`.
pub fn ret_u64(val: u64) -> (r: Vec<u8>)
    ensures
        r@ == spec_ret_u64_bytes(val),
        r@.len() == HDR_SIZE + 8,
{
    proof {
        lemma_auto_spec_u64_to_from_le_bytes();
    }
    let hdr = MsgHeader::ret_u64();
    let mut out = encode_header(&hdr);
    let mut tail = u64_to_le_bytes(val);
    out.append(&mut tail);
    out
}

} // verus!
