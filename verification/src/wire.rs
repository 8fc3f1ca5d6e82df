//! Wire types of the protocol: the command enumeration, the message
//! header, and the fixed-size payload records, together with their wire
//! sizes and the ordinal mapping of the command enumeration.
//!
//! Every record has a fixed, protocol-defined byte size. Field widths are
//! fixed explicitly (the header's length field is always 64 bits on the
//! wire) so that the layout does not depend on the host's native integer
//! width; the byte order is little-endian throughout (see `codec`).

use vstd::prelude::*;

verus! {

/// Number of shared-memory regions a SYNC_SYSMEM message describes.
pub const REMOTE_MAX_FDS: usize = 8;

/// Wire size of an encoded `MsgHeader`: a 32-bit command ordinal followed
/// by a 64-bit payload length.
pub const HDR_SIZE: usize = 12;

/// Wire size of an encoded `SyncSysmemMsg`: three arrays of eight 64-bit
/// fields each.
pub const SYNC_SYSMEM_SIZE: usize = 192;

/// Wire size of an encoded `PciConfDataMsg`.
pub const PCI_CONF_DATA_MSG_SIZE: usize = 12;

/// Wire size of an encoded `BarAccessMsg`.
pub const BAR_ACCESS_MSG_SIZE: usize = 24;

/// The closed command enumeration. Each command has a stable 32-bit
/// ordinal, given by `spec_ordinal`: the position of the variant in this
/// declaration, starting at zero.
#[allow(non_camel_case_types)]
#[derive(Clone, Copy, Debug, PartialEq, Eq, Structural)]
pub enum MPQemuCmd {
    SYNC_SYSMEM,
    RET,
    PCI_CFGWRITE,
    PCI_CFGREAD,
    BAR_WRITE,
    BAR_READ,
    SET_IRQFD,
    DEVICE_RESET,
}

/// The wire ordinal of each command.
pub open spec fn spec_ordinal(c: MPQemuCmd) -> int {
    match c {
        MPQemuCmd::SYNC_SYSMEM => 0,
        MPQemuCmd::RET => 1,
        MPQemuCmd::PCI_CFGWRITE => 2,
        MPQemuCmd::PCI_CFGREAD => 3,
        MPQemuCmd::BAR_WRITE => 4,
        MPQemuCmd::BAR_READ => 5,
        MPQemuCmd::SET_IRQFD => 6,
        MPQemuCmd::DEVICE_RESET => 7,
    }
}

/// The total, fallible decoding of a wire ordinal: the command whose
/// ordinal is `val`, or `Err(val)` when `val` lies outside the closed
/// enumeration.
pub open spec fn spec_cmd_try_from(val: i32) -> Result<MPQemuCmd, i32> {
    if val == 0 {
        Ok(MPQemuCmd::SYNC_SYSMEM)
    } else if val == 1 {
        Ok(MPQemuCmd::RET)
    } else if val == 2 {
        Ok(MPQemuCmd::PCI_CFGWRITE)
    } else if val == 3 {
        Ok(MPQemuCmd::PCI_CFGREAD)
    } else if val == 4 {
        Ok(MPQemuCmd::BAR_WRITE)
    } else if val == 5 {
        Ok(MPQemuCmd::BAR_READ)
    } else if val == 6 {
        Ok(MPQemuCmd::SET_IRQFD)
    } else if val == 7 {
        Ok(MPQemuCmd::DEVICE_RESET)
    } else {
        Err(val)
    }
}

impl MPQemuCmd {
    /// Decode a wire ordinal. Succeeds exactly on the ordinals of the
    /// closed enumeration; any other value is rejected with a
    /// distinguishable error carrying the offending ordinal, never mapped
    /// to a default variant.
    pub fn try_from(val: i32) -> (r: Result<MPQemuCmd, i32>)
        ensures
            r == spec_cmd_try_from(val),
            r is Ok <==> 0 <= val <= 7,
            r is Ok ==> spec_ordinal(r->Ok_0) == val as int,
            r is Err ==> r->Err_0 == val,
    {
        match val {
            0 => Ok(MPQemuCmd::SYNC_SYSMEM),
            1 => Ok(MPQemuCmd::RET),
            2 => Ok(MPQemuCmd::PCI_CFGWRITE),
            3 => Ok(MPQemuCmd::PCI_CFGREAD),
            4 => Ok(MPQemuCmd::BAR_WRITE),
            5 => Ok(MPQemuCmd::BAR_READ),
            6 => Ok(MPQemuCmd::SET_IRQFD),
            7 => Ok(MPQemuCmd::DEVICE_RESET),
            _ => Err(val),
        }
    }

    /// The wire ordinal of this command.
    pub fn ordinal(&self) -> (r: i32)
        ensures
            r as int == spec_ordinal(*self),
    {
        match *self {
            MPQemuCmd::SYNC_SYSMEM => 0,
            MPQemuCmd::RET => 1,
            MPQemuCmd::PCI_CFGWRITE => 2,
            MPQemuCmd::PCI_CFGREAD => 3,
            MPQemuCmd::BAR_WRITE => 4,
            MPQemuCmd::BAR_READ => 5,
            MPQemuCmd::SET_IRQFD => 6,
            MPQemuCmd::DEVICE_RESET => 7,
        }
    }
}

/// The frame header: a 32-bit command ordinal and the payload length in
/// bytes, fixed at 64 bits on the wire.
#[derive(Clone, Copy, Debug, PartialEq, Eq, Structural)]
pub struct MsgHeader {
    pub cmd: i32,
    pub size: u64,
}

/// The canonical acknowledgement header carrying no payload.
pub open spec fn spec_ret_no_data_header() -> MsgHeader {
    MsgHeader { cmd: 1, size: 0 }
}

/// The canonical acknowledgement header carrying one 8-byte unsigned value.
pub open spec fn spec_ret_u64_header() -> MsgHeader {
    MsgHeader { cmd: 1, size: 8 }
}

impl MsgHeader {
    /// The canonical "RET, no payload" acknowledgement header.
    pub fn ret_no_data() -> (r: MsgHeader)
        ensures
            r == spec_ret_no_data_header(),
            r.cmd as int == spec_ordinal(MPQemuCmd::RET),
    {
        MsgHeader { cmd: 1, size: 0 }
    }

    /// The canonical "RET, 8-byte value" acknowledgement header.
    pub fn ret_u64() -> (r: MsgHeader)
        ensures
            r == spec_ret_u64_header(),
            r.cmd as int == spec_ordinal(MPQemuCmd::RET),
    {
        MsgHeader { cmd: 1, size: 8 }
    }
}

/// Payload of SYNC_SYSMEM: eight guest physical addresses, eight region
/// sizes, and eight signed offsets, describing up to eight shared-memory
/// regions. The out-of-band region handles are outside this library's
/// scope; only this in-band numeric payload is modeled.
#[derive(Clone, Copy, Debug, PartialEq, Eq)]
pub struct SyncSysmemMsg {
    pub gpas: [u64; REMOTE_MAX_FDS],
    pub sizes: [u64; REMOTE_MAX_FDS],
    pub offsets: [i64; REMOTE_MAX_FDS],
}

/// Payload of PCI_CFGWRITE and PCI_CFGREAD: an offset into the 256-byte
/// configuration-space window, the value to write (meaningful only for
/// writes), and the access width in bytes.
#[derive(Clone, Copy, Debug, PartialEq, Eq, Structural)]
pub struct PciConfDataMsg {
    pub addr: u32,
    pub val: u32,
    pub len: i32,
}

/// Payload of BAR_WRITE and BAR_READ: an offset within a BAR's address
/// window, the value to write (meaningful only for writes), the access
/// width, and a flag distinguishing memory-space from I/O-space access.
#[derive(Clone, Copy, Debug, PartialEq, Eq, Structural)]
pub struct BarAccessMsg {
    pub addr: u64,
    pub val: u64,
    pub size: u32,
    pub memory: u32,
}

} // verus!
