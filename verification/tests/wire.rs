use mock_dev::wire::MPQemuCmd;
use mock_dev::wire::MsgHeader;

#[test]
fn try_from_accepts_every_ordinal() {
    assert_eq!(MPQemuCmd::try_from(0), Ok(MPQemuCmd::SYNC_SYSMEM));
    assert_eq!(MPQemuCmd::try_from(1), Ok(MPQemuCmd::RET));
    assert_eq!(MPQemuCmd::try_from(2), Ok(MPQemuCmd::PCI_CFGWRITE));
    assert_eq!(MPQemuCmd::try_from(3), Ok(MPQemuCmd::PCI_CFGREAD));
    assert_eq!(MPQemuCmd::try_from(4), Ok(MPQemuCmd::BAR_WRITE));
    assert_eq!(MPQemuCmd::try_from(5), Ok(MPQemuCmd::BAR_READ));
    assert_eq!(MPQemuCmd::try_from(6), Ok(MPQemuCmd::SET_IRQFD));
    assert_eq!(MPQemuCmd::try_from(7), Ok(MPQemuCmd::DEVICE_RESET));
}

#[test]
fn try_from_rejects_out_of_range_ordinals() {
    assert_eq!(MPQemuCmd::try_from(8), Err(8));
    assert_eq!(MPQemuCmd::try_from(-1), Err(-1));
    assert_eq!(MPQemuCmd::try_from(i32::MAX), Err(i32::MAX));
    assert_eq!(MPQemuCmd::try_from(i32::MIN), Err(i32::MIN));
    assert_eq!(MPQemuCmd::try_from(1000), Err(1000));
}

#[test]
fn ordinal_inverts_try_from() {
    let cmds = [
        MPQemuCmd::SYNC_SYSMEM,
        MPQemuCmd::RET,
        MPQemuCmd::PCI_CFGWRITE,
        MPQemuCmd::PCI_CFGREAD,
        MPQemuCmd::BAR_WRITE,
        MPQemuCmd::BAR_READ,
        MPQemuCmd::SET_IRQFD,
        MPQemuCmd::DEVICE_RESET,
    ];
    for (i, cmd) in cmds.iter().enumerate() {
        assert_eq!(cmd.ordinal(), i as i32);
        assert_eq!(MPQemuCmd::try_from(cmd.ordinal()), Ok(*cmd));
    }
}

#[test]
fn canonical_response_headers() {
    let no_data = MsgHeader::ret_no_data();
    assert_eq!(no_data.cmd, MPQemuCmd::RET.ordinal());
    assert_eq!(no_data.size, 0);
    let with_u64 = MsgHeader::ret_u64();
    assert_eq!(with_u64.cmd, MPQemuCmd::RET.ordinal());
    assert_eq!(with_u64.size, 8);
}
