//! Dispatcher logic: from one received frame to a device-state transition
//! and a response frame.
//!
//! The dispatch loop itself lives with the caller, who owns the byte
//! channel: it reads `HDR_SIZE` bytes and decodes the header, asks
//! `frame_plan` how many payload bytes the frame carries (or learns that
//! the frame already terminates the session), reads exactly that many
//! bytes, and hands them to `handle_frame`, which mutates the device and
//! returns the response frame to write back, if the command has one. A
//! frame is handled atomically: any error terminates the session before a
//! response is written.

use vstd::prelude::*;

use crate::codec::decode_bar_access;
use crate::codec::decode_pci_conf;
use crate::codec::decode_sync_sysmem;
use crate::codec::ret_data;
use crate::codec::ret_u64;
use crate::codec::spec_decode_pci_conf;
use crate::codec::spec_ret_no_data_bytes;
use crate::codec::spec_ret_u64_bytes;
use crate::device::spec_config_read;
use crate::device::spec_config_write;
use crate::device::spec_reset;
use crate::device::DeviceState;
use crate::device::UNMODELED_SENTINEL;
use crate::error::FramingError;
use crate::error::ProtocolViolation;
use crate::error::SessionError;
use crate::wire::spec_cmd_try_from;
use crate::wire::MPQemuCmd;
use crate::wire::MsgHeader;
use crate::wire::BAR_ACCESS_MSG_SIZE;
use crate::wire::PCI_CONF_DATA_MSG_SIZE;
use crate::wire::SYNC_SYSMEM_SIZE;

verus! {

/// What a decoded header commits the session to: the command, and how many
/// payload bytes must be read before the command is handled.
#[derive(Clone, Copy, Debug, PartialEq, Eq, Structural)]
pub struct FramePlan {
    pub cmd: MPQemuCmd,
    pub payload_len: usize,
}

/// How many payload bytes each command's frame carries. SYNC_SYSMEM and
/// the PCI and BAR accesses always carry their fixed-size record;
/// SET_IRQFD and DEVICE_RESET carry none. RET carries none in this role:
/// it is never accepted as an incoming command.
pub open spec fn spec_payload_len(cmd: MPQemuCmd) -> nat {
    match cmd {
        MPQemuCmd::SYNC_SYSMEM => SYNC_SYSMEM_SIZE as nat,
        MPQemuCmd::RET => 0,
        MPQemuCmd::PCI_CFGWRITE => PCI_CONF_DATA_MSG_SIZE as nat,
        MPQemuCmd::PCI_CFGREAD => PCI_CONF_DATA_MSG_SIZE as nat,
        MPQemuCmd::BAR_WRITE => BAR_ACCESS_MSG_SIZE as nat,
        MPQemuCmd::BAR_READ => BAR_ACCESS_MSG_SIZE as nat,
        MPQemuCmd::SET_IRQFD => 0,
        MPQemuCmd::DEVICE_RESET => 0,
    }
}

/// What `frame_plan` decides for any header. A header terminates the
/// session when its command ordinal lies outside the closed enumeration
/// (a framing error), when its command is RET (never valid incoming), when
/// a SYNC_SYSMEM frame does not declare exactly the fixed record size (a
/// framing error), or when a command defined to carry no payload declares
/// a non-zero size (a protocol violation).
pub open spec fn spec_frame_plan(hdr: MsgHeader) -> Result<FramePlan, SessionError> {
    match spec_cmd_try_from(hdr.cmd) {
        Err(v) => Err(SessionError::Framing(FramingError::UnknownCommand { ordinal: v })),
        Ok(cmd) => match cmd {
            MPQemuCmd::RET => Err(SessionError::Protocol(ProtocolViolation::UnexpectedRet)),
            MPQemuCmd::SYNC_SYSMEM => if hdr.size != SYNC_SYSMEM_SIZE as u64 {
                Err(
                    SessionError::Framing(
                        FramingError::WrongLength {
                            expected: SYNC_SYSMEM_SIZE as u64,
                            got: hdr.size,
                        },
                    ),
                )
            } else {
                Ok(FramePlan { cmd, payload_len: SYNC_SYSMEM_SIZE })
            },
            MPQemuCmd::SET_IRQFD => if hdr.size != 0 {
                Err(
                    SessionError::Protocol(
                        ProtocolViolation::UnexpectedPayload { ordinal: hdr.cmd, size: hdr.size },
                    ),
                )
            } else {
                Ok(FramePlan { cmd, payload_len: 0 })
            },
            MPQemuCmd::DEVICE_RESET => if hdr.size != 0 {
                Err(
                    SessionError::Protocol(
                        ProtocolViolation::UnexpectedPayload { ordinal: hdr.cmd, size: hdr.size },
                    ),
                )
            } else {
                Ok(FramePlan { cmd, payload_len: 0 })
            },
            MPQemuCmd::PCI_CFGWRITE => Ok(FramePlan { cmd, payload_len: PCI_CONF_DATA_MSG_SIZE }),
            MPQemuCmd::PCI_CFGREAD => Ok(FramePlan { cmd, payload_len: PCI_CONF_DATA_MSG_SIZE }),
            MPQemuCmd::BAR_WRITE => Ok(FramePlan { cmd, payload_len: BAR_ACCESS_MSG_SIZE }),
            MPQemuCmd::BAR_READ => Ok(FramePlan { cmd, payload_len: BAR_ACCESS_MSG_SIZE }),
        },
    }
}

/// Decide what a decoded header commits the session to, before any payload
/// byte is read: either the command and its exact payload length, or the
/// error that terminates the session. An unrecognized ordinal is rejected
/// here, so no payload is ever read for it.
pub fn frame_plan(hdr: &MsgHeader) -> (r: Result<FramePlan, SessionError>)
    ensures
        r == spec_frame_plan(*hdr),
        r is Ok ==> !(r->Ok_0.cmd is RET) && r->Ok_0.payload_len as nat == spec_payload_len(
            r->Ok_0.cmd,
        ),
{
    let cmd = match MPQemuCmd::try_from(hdr.cmd) {
        Ok(c) => c,
        Err(v) => {
            return Err(SessionError::Framing(FramingError::UnknownCommand { ordinal: v }));
        },
    };
    match cmd {
        MPQemuCmd::RET => Err(SessionError::Protocol(ProtocolViolation::UnexpectedRet)),
        MPQemuCmd::SYNC_SYSMEM => {
            if hdr.size != SYNC_SYSMEM_SIZE as u64 {
                Err(
                    SessionError::Framing(
                        FramingError::WrongLength {
                            expected: SYNC_SYSMEM_SIZE as u64,
                            got: hdr.size,
                        },
                    ),
                )
            } else {
                Ok(FramePlan { cmd, payload_len: SYNC_SYSMEM_SIZE })
            }
        },
        MPQemuCmd::SET_IRQFD | MPQemuCmd::DEVICE_RESET => {
            if hdr.size != 0 {
                Err(
                    SessionError::Protocol(
                        ProtocolViolation::UnexpectedPayload { ordinal: hdr.cmd, size: hdr.size },
                    ),
                )
            } else {
                Ok(FramePlan { cmd, payload_len: 0 })
            }
        },
        MPQemuCmd::PCI_CFGWRITE | MPQemuCmd::PCI_CFGREAD => {
            Ok(FramePlan { cmd, payload_len: PCI_CONF_DATA_MSG_SIZE })
        },
        MPQemuCmd::BAR_WRITE | MPQemuCmd::BAR_READ => {
            Ok(FramePlan { cmd, payload_len: BAR_ACCESS_MSG_SIZE })
        },
    }
}

/// The BAR shadow registers after one frame is handled: PCI_CFGWRITE
/// applies the configuration-write table to the decoded record's offset,
/// DEVICE_RESET restores the defaults, and every other command leaves the
/// state unchanged.
pub open spec fn spec_next_bars(bars: Seq<u32>, cmd: MPQemuCmd, payload: Seq<u8>) -> Seq<u32>
    recommends
        payload.len() == spec_payload_len(cmd),
{
    match cmd {
        MPQemuCmd::PCI_CFGWRITE => spec_config_write(bars, spec_decode_pci_conf(payload).addr),
        MPQemuCmd::DEVICE_RESET => spec_reset(bars),
        _ => bars,
    }
}

/// The response frame one handled command writes back, if any. PCI_CFGREAD
/// answers the configuration-read table at the decoded record's offset and
/// BAR_READ answers the all-ones sentinel, each in a "RET, 8-byte value"
/// frame; SET_IRQFD writes no response; every other accepted command
/// acknowledges with the "RET, no payload" frame.
pub open spec fn spec_response(bars: Seq<u32>, cmd: MPQemuCmd, payload: Seq<u8>) -> Option<
    Seq<u8>,
>
    recommends
        payload.len() == spec_payload_len(cmd),
{
    match cmd {
        MPQemuCmd::SYNC_SYSMEM => Some(spec_ret_no_data_bytes()),
        MPQemuCmd::RET => None,
        MPQemuCmd::PCI_CFGWRITE => Some(spec_ret_no_data_bytes()),
        MPQemuCmd::PCI_CFGREAD => Some(
            spec_ret_u64_bytes(spec_config_read(bars, spec_decode_pci_conf(payload).addr)),
        ),
        MPQemuCmd::BAR_WRITE => Some(spec_ret_no_data_bytes()),
        MPQemuCmd::BAR_READ => Some(spec_ret_u64_bytes(UNMODELED_SENTINEL)),
        MPQemuCmd::SET_IRQFD => None,
        MPQemuCmd::DEVICE_RESET => Some(spec_ret_no_data_bytes()),
    }
}

/// Handle one complete frame whose payload has been read in full: mutate
/// the device as the command demands and return the encoded response frame
/// to write back, or `None` for the one command that is acknowledged only
/// by proceeding. The caller obtains `cmd` and the exact payload length
/// from `frame_plan`, which has already rejected RET and every malformed
/// header.
pub fn handle_frame(dev: &mut DeviceState, cmd: MPQemuCmd, payload: &[u8]) -> (r: Option<Vec<u8>>)
    requires
        !(cmd is RET),
        payload@.len() == spec_payload_len(cmd),
    ensures
        final(dev).bars() == spec_next_bars(old(dev).bars(), cmd, payload@),
        r is Some <==> spec_response(old(dev).bars(), cmd, payload@) is Some,
        r is Some ==> r->0@ == spec_response(old(dev).bars(), cmd, payload@)->0,
{
    match cmd {
        MPQemuCmd::SYNC_SYSMEM => {
            // The region descriptors are decoded and validated, but the
            // out-of-band region handles are outside this scope: the only
            // effect in this mock is the acknowledgement.
            let _msg = decode_sync_sysmem(payload).unwrap();
            Some(ret_data())
        },
        // Unreachable: the caller's plan never carries RET.
        MPQemuCmd::RET => None,
        MPQemuCmd::PCI_CFGWRITE => {
            let msg = decode_pci_conf(payload).unwrap();
            dev.config_write(msg.addr, msg.val);
            Some(ret_data())
        },
        MPQemuCmd::PCI_CFGREAD => {
            let msg = decode_pci_conf(payload).unwrap();
            let val = dev.config_read(msg.addr);
            Some(ret_u64(val))
        },
        MPQemuCmd::BAR_WRITE => {
            let msg = decode_bar_access(payload).unwrap();
            dev.bar_write(&msg);
            Some(ret_data())
        },
        MPQemuCmd::BAR_READ => {
            let msg = decode_bar_access(payload).unwrap();
            let val = dev.bar_read(&msg);
            Some(ret_u64(val))
        },
        MPQemuCmd::SET_IRQFD => None,
        MPQemuCmd::DEVICE_RESET => {
            dev.reset();
            Some(ret_data())
        },
    }
}

} // verus!
