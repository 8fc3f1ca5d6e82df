use mock_dev::codec::decode_header;
use mock_dev::codec::encode_bar_access;
use mock_dev::codec::encode_pci_conf;
use mock_dev::codec::encode_sync_sysmem;
use mock_dev::codec::ret_data;
use mock_dev::codec::ret_u64;
use mock_dev::device::DeviceState;
use mock_dev::error::FramingError;
use mock_dev::error::ProtocolViolation;
use mock_dev::error::SessionError;
use mock_dev::session::frame_plan;
use mock_dev::session::handle_frame;
use mock_dev::session::FramePlan;
use mock_dev::wire::BarAccessMsg;
use mock_dev::wire::MPQemuCmd;
use mock_dev::wire::MsgHeader;
use mock_dev::wire::PciConfDataMsg;
use mock_dev::wire::SyncSysmemMsg;
use mock_dev::wire::BAR_ACCESS_MSG_SIZE;
use mock_dev::wire::PCI_CONF_DATA_MSG_SIZE;
use mock_dev::wire::SYNC_SYSMEM_SIZE;

/// Drive one complete frame through plan and handler, as the dispatch loop
/// does once the payload bytes are in hand.
fn run_frame(dev: &mut DeviceState, hdr: MsgHeader, payload: &[u8]) -> Option<Vec<u8>> {
    let plan = frame_plan(&hdr).expect("frame must be accepted");
    assert_eq!(plan.payload_len, payload.len());
    handle_frame(dev, plan.cmd, payload)
}

#[test]
fn config_read_at_zero_answers_vendor_id() {
    let mut dev = DeviceState::new();
    let hdr = MsgHeader { cmd: MPQemuCmd::PCI_CFGREAD.ordinal(), size: 0 };
    let payload = encode_pci_conf(&PciConfDataMsg { addr: 0x00, val: 0, len: 4 });
    let response = run_frame(&mut dev, hdr, &payload).expect("a read answers");
    assert_eq!(response, ret_u64(0x1000));
    let (resp_hdr, value) = response.split_at(12);
    assert_eq!(decode_header(resp_hdr), Ok(MsgHeader::ret_u64()));
    assert_eq!(u64::from_le_bytes(value.try_into().unwrap()), 0x1000);
}

#[test]
fn config_write_then_read_answers_size_mask() {
    let mut dev = DeviceState::new();
    let write_hdr = MsgHeader { cmd: MPQemuCmd::PCI_CFGWRITE.ordinal(), size: 0 };
    let write_payload = encode_pci_conf(&PciConfDataMsg { addr: 0x10, val: 0xffffffff, len: 4 });
    let ack = run_frame(&mut dev, write_hdr, &write_payload).expect("a write acknowledges");
    assert_eq!(ack, ret_data());

    let read_hdr = MsgHeader { cmd: MPQemuCmd::PCI_CFGREAD.ordinal(), size: 0 };
    let read_payload = encode_pci_conf(&PciConfDataMsg { addr: 0x10, val: 0, len: 4 });
    let response = run_frame(&mut dev, read_hdr, &read_payload).expect("a read answers");
    assert_eq!(response, ret_u64(0xffffff01));
}

#[test]
fn config_write_then_read_at_upper_bar_answers_zero() {
    let mut dev = DeviceState::new();
    let write_hdr = MsgHeader { cmd: MPQemuCmd::PCI_CFGWRITE.ordinal(), size: 0 };
    let write_payload = encode_pci_conf(&PciConfDataMsg { addr: 0x1C, val: 0xffffffff, len: 4 });
    run_frame(&mut dev, write_hdr, &write_payload).expect("a write acknowledges");

    let read_hdr = MsgHeader { cmd: MPQemuCmd::PCI_CFGREAD.ordinal(), size: 0 };
    let read_payload = encode_pci_conf(&PciConfDataMsg { addr: 0x1C, val: 0, len: 4 });
    let response = run_frame(&mut dev, read_hdr, &read_payload).expect("a read answers");
    assert_eq!(response, ret_u64(0));
}

#[test]
fn sync_sysmem_with_short_declared_payload_is_a_framing_error() {
    let hdr = MsgHeader { cmd: MPQemuCmd::SYNC_SYSMEM.ordinal(), size: 100 };
    assert_eq!(
        frame_plan(&hdr),
        Err(SessionError::Framing(FramingError::WrongLength {
            expected: SYNC_SYSMEM_SIZE as u64,
            got: 100
        }))
    );
}

#[test]
fn unknown_ordinal_terminates_before_any_payload_is_read() {
    let hdr = MsgHeader { cmd: 42, size: 4096 };
    assert_eq!(
        frame_plan(&hdr),
        Err(SessionError::Framing(FramingError::UnknownCommand { ordinal: 42 }))
    );
}

#[test]
fn set_irqfd_with_nonzero_size_is_a_protocol_violation() {
    let hdr = MsgHeader { cmd: MPQemuCmd::SET_IRQFD.ordinal(), size: 1 };
    assert_eq!(
        frame_plan(&hdr),
        Err(SessionError::Protocol(ProtocolViolation::UnexpectedPayload { ordinal: 6, size: 1 }))
    );
}

#[test]
fn device_reset_with_nonzero_size_is_a_protocol_violation() {
    let hdr = MsgHeader { cmd: MPQemuCmd::DEVICE_RESET.ordinal(), size: 8 };
    assert_eq!(
        frame_plan(&hdr),
        Err(SessionError::Protocol(ProtocolViolation::UnexpectedPayload { ordinal: 7, size: 8 }))
    );
}

#[test]
fn incoming_ret_is_a_protocol_violation() {
    let hdr = MsgHeader { cmd: MPQemuCmd::RET.ordinal(), size: 0 };
    assert_eq!(frame_plan(&hdr), Err(SessionError::Protocol(ProtocolViolation::UnexpectedRet)));
}

#[test]
fn plan_payload_lengths() {
    let plan = |cmd: MPQemuCmd, size: u64| frame_plan(&MsgHeader { cmd: cmd.ordinal(), size });
    assert_eq!(
        plan(MPQemuCmd::SYNC_SYSMEM, SYNC_SYSMEM_SIZE as u64),
        Ok(FramePlan { cmd: MPQemuCmd::SYNC_SYSMEM, payload_len: SYNC_SYSMEM_SIZE })
    );
    // The PCI and BAR commands always carry their fixed-size record,
    // whatever the header declares.
    assert_eq!(
        plan(MPQemuCmd::PCI_CFGWRITE, 0),
        Ok(FramePlan { cmd: MPQemuCmd::PCI_CFGWRITE, payload_len: PCI_CONF_DATA_MSG_SIZE })
    );
    assert_eq!(
        plan(MPQemuCmd::PCI_CFGREAD, 99),
        Ok(FramePlan { cmd: MPQemuCmd::PCI_CFGREAD, payload_len: PCI_CONF_DATA_MSG_SIZE })
    );
    assert_eq!(
        plan(MPQemuCmd::BAR_WRITE, 0),
        Ok(FramePlan { cmd: MPQemuCmd::BAR_WRITE, payload_len: BAR_ACCESS_MSG_SIZE })
    );
    assert_eq!(
        plan(MPQemuCmd::BAR_READ, 0),
        Ok(FramePlan { cmd: MPQemuCmd::BAR_READ, payload_len: BAR_ACCESS_MSG_SIZE })
    );
    assert_eq!(
        plan(MPQemuCmd::SET_IRQFD, 0),
        Ok(FramePlan { cmd: MPQemuCmd::SET_IRQFD, payload_len: 0 })
    );
    assert_eq!(
        plan(MPQemuCmd::DEVICE_RESET, 0),
        Ok(FramePlan { cmd: MPQemuCmd::DEVICE_RESET, payload_len: 0 })
    );
}

#[test]
fn sync_sysmem_is_acknowledged_with_no_data() {
    let mut dev = DeviceState::new();
    let msg = SyncSysmemMsg {
        gpas: [0x1000, 0x2000, 0, 0, 0, 0, 0, 0],
        sizes: [4096, 4096, 0, 0, 0, 0, 0, 0],
        offsets: [0, -4096, 0, 0, 0, 0, 0, 0],
    };
    let hdr = MsgHeader { cmd: MPQemuCmd::SYNC_SYSMEM.ordinal(), size: SYNC_SYSMEM_SIZE as u64 };
    let payload = encode_sync_sysmem(&msg);
    let response = run_frame(&mut dev, hdr, &payload).expect("sync acknowledges");
    assert_eq!(response, ret_data());
}

#[test]
fn set_irqfd_writes_no_response() {
    let mut dev = DeviceState::new();
    let hdr = MsgHeader { cmd: MPQemuCmd::SET_IRQFD.ordinal(), size: 0 };
    assert_eq!(run_frame(&mut dev, hdr, &[]), None);
}

#[test]
fn device_reset_restores_defaults_and_is_idempotent() {
    let mut dev = DeviceState::new();
    let write_hdr = MsgHeader { cmd: MPQemuCmd::PCI_CFGWRITE.ordinal(), size: 0 };
    let write_payload = encode_pci_conf(&PciConfDataMsg { addr: 0x10, val: 0xffffffff, len: 4 });
    run_frame(&mut dev, write_hdr, &write_payload);

    let reset_hdr = MsgHeader { cmd: MPQemuCmd::DEVICE_RESET.ordinal(), size: 0 };
    let ack = run_frame(&mut dev, reset_hdr, &[]).expect("reset acknowledges");
    assert_eq!(ack, ret_data());
    assert_eq!(dev.config_read(0x10), 0x1);

    let once: Vec<u32> = (0..7).map(|i| dev.bar(i)).collect();
    let ack_again = run_frame(&mut dev, reset_hdr, &[]).expect("reset acknowledges");
    assert_eq!(ack_again, ret_data());
    let twice: Vec<u32> = (0..7).map(|i| dev.bar(i)).collect();
    assert_eq!(once, twice);
}

#[test]
fn bar_read_answers_sentinel_and_bar_write_acknowledges() {
    let mut dev = DeviceState::new();
    let msg = BarAccessMsg { addr: 0x10, val: 7, size: 4, memory: 1 };
    let payload = encode_bar_access(&msg);

    let read_hdr = MsgHeader { cmd: MPQemuCmd::BAR_READ.ordinal(), size: 0 };
    let response = run_frame(&mut dev, read_hdr, &payload).expect("a BAR read answers");
    assert_eq!(response, ret_u64(u64::MAX));

    let write_hdr = MsgHeader { cmd: MPQemuCmd::BAR_WRITE.ordinal(), size: 0 };
    let ack = run_frame(&mut dev, write_hdr, &payload).expect("a BAR write acknowledges");
    assert_eq!(ack, ret_data());
    assert_eq!(dev.config_read(0x10), 0x1);
}
