use vpp::mloi::{
    composite_id, convert_handle_to_ipcID, convert_handle_to_mbid, convert_ipcID_to_handle,
    convert_mbid_to_handle, convert_to_handle, convert_to_id, domain_tag, enumerated_index,
    MK_ERROR_e, MK_EXCEPTION_e, MK_EXECUTION_DOMAIN_TYPE_e, MK_PROCESS_PRIORITY_e, MK_SIGNAL_e,
    MK_VRE_e, VppState, VPP_FRW_TYPE_e, VPP_SCHEDULING_TYPE_e, MK_DOMAIN_TAG_APP,
    MK_DOMAIN_TAG_VPP, MK_IPC_COM_MAIN_ID, MK_IPC_MAIN_COM_ID, MK_IPC_MAIN_MGT_ID,
    MK_IPC_MGT_MAIN_ID, MK_MAILBOX_COM_MAIN_ID, MK_MAILBOX_MAIN_COM_ID, MK_MAILBOX_MAIN_MGT_ID,
    MK_MAILBOX_MGT_MAIN_ID, MK_PROCESS_COM_VPP_ID, MK_PROCESS_MAIN_APP_ID, MK_PROCESS_MGT_VPP_ID,
    MK_SIGNAL_IPC_UPDATED, MK_SIGNAL_KILL_ACCEPTED, MK_SIGNAL_KILL_REQUESTED,
};

#[test]
fn handle_is_the_widened_identifier() {
    assert_eq!(convert_to_handle(0x4000), 0x0000_4000);
    assert_eq!(convert_mbid_to_handle(0x8001), 0x0000_8001);
    assert_eq!(convert_ipcID_to_handle(0xFFFF), 0x0000_FFFF);
    assert_eq!(convert_to_handle(0), 0);
}

#[test]
fn identifier_is_the_low_half_of_the_handle() {
    assert_eq!(convert_to_id(0x0000_4000), 0x4000);
    assert_eq!(convert_to_id(0xFFFF_FFFF), 0xFFFF);
    assert_eq!(convert_handle_to_mbid(0x1234_8001), 0x8001);
    assert_eq!(convert_handle_to_ipcID(0x0001_0000), 0);
}

#[test]
fn every_identifier_survives_the_round_trip() {
    for id in 0..=u16::MAX {
        assert_eq!(convert_to_id(convert_to_handle(id)), id);
        assert_eq!(convert_handle_to_mbid(convert_mbid_to_handle(id)), id);
        assert_eq!(convert_handle_to_ipcID(convert_ipcID_to_handle(id)), id);
    }
}

#[test]
fn composite_identifier_packs_tag_and_index() {
    assert_eq!(composite_id(2, 0), 0x8000);
    assert_eq!(composite_id(2, 1), 0x8001);
    assert_eq!(composite_id(1, 0), 0x4000);
    assert_eq!(composite_id(1, 1), 0x4001);
    assert_eq!(composite_id(3, 0x3FFF), 0xFFFF);
    assert_eq!(composite_id(1, 0x4005), 0x4005);
    assert_eq!(composite_id(5, 7), 0x4007);
    assert_eq!(domain_tag(0x8001), 2);
    assert_eq!(domain_tag(0x4000), 1);
    assert_eq!(enumerated_index(0x8001), 1);
    assert_eq!(enumerated_index(0xFFFF), 0x3FFF);
}

#[test]
fn reserved_identifiers_have_their_values() {
    assert_eq!(MK_PROCESS_MGT_VPP_ID, 0x8001);
    assert_eq!(MK_PROCESS_COM_VPP_ID, 0x8000);
    assert_eq!(MK_PROCESS_MAIN_APP_ID, 0x4000);
    assert_eq!(MK_MAILBOX_COM_MAIN_ID, composite_id(MK_DOMAIN_TAG_VPP, 0));
    assert_eq!(MK_MAILBOX_MGT_MAIN_ID, composite_id(MK_DOMAIN_TAG_VPP, 1));
    assert_eq!(MK_MAILBOX_MAIN_COM_ID, composite_id(MK_DOMAIN_TAG_APP, 0));
    assert_eq!(MK_MAILBOX_MAIN_MGT_ID, composite_id(MK_DOMAIN_TAG_APP, 1));
    assert_eq!(MK_IPC_MAIN_COM_ID, 0x4000);
    assert_eq!(MK_IPC_COM_MAIN_ID, 0x8000);
    assert_eq!(MK_IPC_MAIN_MGT_ID, 0x4001);
    assert_eq!(MK_IPC_MGT_MAIN_ID, 0x8001);
}

#[test]
fn error_codes() {
    assert_eq!(usize::from(MK_ERROR_e::MK_ERROR_NONE), 0);
    assert_eq!(usize::from(MK_ERROR_e::MK_ERROR_UNKNOWN_UUID), 1);
    assert_eq!(usize::from(MK_ERROR_e::MK_ERROR_SEVERE), 2);
    assert_eq!(usize::from(MK_ERROR_e::MK_ERROR_ILLEGAL_PARAMETER), 3);
    assert_eq!(usize::from(MK_ERROR_e::MK_ERROR_UNKNOWN_ID), 4);
    assert_eq!(usize::from(MK_ERROR_e::MK_ERROR_UNKNOWN_HANDLE), 5);
    assert_eq!(usize::from(MK_ERROR_e::MK_ERROR_UNKNOWN_PRIORITY), 6);
    assert_eq!(usize::from(MK_ERROR_e::MK_ERROR_ACCESS_DENIED), 7);
    assert_eq!(usize::from(MK_ERROR_e::MK_ERROR_INTERNAL), 8);
    assert_eq!(usize::from(MK_ERROR_e::MK_ERROR_VENDOR_BASE), 32);
    assert_eq!(usize::from(MK_ERROR_e::MK_ERROR_MAX), 255);
}

#[test]
fn other_codes() {
    assert_eq!(u8::from(VPP_FRW_TYPE_e::FIRMWARE_SOFTWARE_TYPE_APP), 0x01);
    assert_eq!(u8::from(VPP_FRW_TYPE_e::FIRMWARE_SOFTWARE_TYPE_VPP), 0x02);
    assert_eq!(u8::from(VPP_FRW_TYPE_e::FIRMWARE_SOFTWARE_TYPE_SYSAPP), 0x04);
    assert_eq!(u8::from(VPP_FRW_TYPE_e::FIRMWARE_SOFTWARE_TYPE_LLOS), 0x08);
    assert_eq!(u16::from(MK_EXECUTION_DOMAIN_TYPE_e::MK_EXECUTION_DOMAIN_TYPE_APP), 0b01);
    assert_eq!(u16::from(MK_EXECUTION_DOMAIN_TYPE_e::MK_EXECUTION_DOMAIN_TYPE_VPP), 0b10);
    assert_eq!(
        composite_id(u16::from(MK_EXECUTION_DOMAIN_TYPE_e::MK_EXECUTION_DOMAIN_TYPE_VPP), 1),
        MK_PROCESS_MGT_VPP_ID
    );
    assert_eq!(u16::from(MK_PROCESS_PRIORITY_e::MK_PROCESS_PRIORITY_LOW), 0);
    assert_eq!(u16::from(MK_PROCESS_PRIORITY_e::MK_PROCESS_PRIORITY_NORMAL), 4);
    assert_eq!(u16::from(MK_PROCESS_PRIORITY_e::MK_PROCESS_PRIORITY_HIGH), 8);
    assert_eq!(u16::from(MK_PROCESS_PRIORITY_e::MK_PROCESS_PRIORITY_ERROR), 0xFFFF);
    assert_eq!(u32::from(MK_VRE_e::MK_VRE_AES), 0x01);
    assert_eq!(u32::from(MK_VRE_e::MK_VRE_ECC), 0x04);
    assert_eq!(u32::from(MK_VRE_e::MK_VRE_RAF), 0x80);
    assert_eq!(u32::from(MK_VRE_e::MK_VRE_DOMAIN_BASE), 0x100);
    assert_eq!(u16::from(MK_EXCEPTION_e::MK_EXCEPTION_ERROR), 0);
    assert_eq!(u16::from(MK_EXCEPTION_e::MK_EXCEPTION_VRE_DETACHED), 3);
    assert_eq!(u16::from(MK_EXCEPTION_e::MK_EXCEPTION_VENDOR_BASE), 16);
    assert_eq!(u16::from(MK_EXCEPTION_e::MK_EXCEPTION_MAX), 31);
    assert_eq!(u8::from(VPP_SCHEDULING_TYPE_e::MK_SCHEDULING_TYPE_COLLABORATIVE), 1);
    assert_eq!(u8::from(VPP_SCHEDULING_TYPE_e::MK_SCHEDULING_TYPE_PREEMPTIVE), 2);
}

#[test]
fn signals_are_single_bits() {
    assert_eq!(u32::from(MK_SIGNAL_e::MK_SIGNAL_TIME_OUT), 0x0000_0001);
    assert_eq!(u32::from(MK_SIGNAL_e::MK_SIGNAL_ERROR), 0x0000_0002);
    assert_eq!(u32::from(MK_SIGNAL_e::MK_SIGNAL_EXCEPTION), 0x0000_0004);
    assert_eq!(u32::from(MK_SIGNAL_e::MK_SIGNAL_DOMAIN_BASE_0), 0x0000_0008);
    assert_eq!(u32::from(MK_SIGNAL_e::MK_SIGNAL_DOMAIN_BASE_12), 0x0000_8000);
    assert_eq!(u32::from(MK_SIGNAL_e::MK_SIGNAL_DOMAIN_BASE_13), 0x0001_0000);
    assert_eq!(u32::from(MK_SIGNAL_e::MK_SIGNAL_DOMAIN_BASE_28), 0x8000_0000);
    assert_eq!(u32::from(MK_SIGNAL_IPC_UPDATED), 0x08);
    assert_eq!(u32::from(MK_SIGNAL_KILL_REQUESTED), u32::from(MK_SIGNAL_KILL_ACCEPTED));
}

#[test]
fn labels_end_in_a_line_feed() {
    assert_eq!(MK_ERROR_e::MK_ERROR_NONE.label(), "None\n");
    assert_eq!(MK_ERROR_e::MK_ERROR_UNKNOWN_HANDLE.label(), "Unknown Handle\n");
    assert_eq!(
        MK_ERROR_e::MK_ERROR_VENDOR_BASE.label(),
        "Reserved for VPP implementation specific\n"
    );
    assert_eq!(VppState::READY.label(), "Ready\n");
    assert_eq!(VppState::SUSPENDED_R.label(), "S_R\n");
    assert_eq!(VppState::SUSPENDED_W.label(), "S_W\n");
    assert_eq!(VppState::SUSPENDED_S.label(), "S_S\n");
    assert_eq!(VppState::DEAD.label(), "Dead\n");
    assert_eq!(VppState::ANY_STATE.label(), "ANY_STATE\n");
    assert_eq!(MK_PROCESS_PRIORITY_e::MK_PROCESS_PRIORITY_HIGH.label(), "High\n");
    assert_eq!(MK_PROCESS_PRIORITY_e::MK_PROCESS_PRIORITY_ERROR.label(), "Priority\n");
    assert_eq!(VPP_FRW_TYPE_e::FIRMWARE_SOFTWARE_TYPE_SYSAPP.label(), "Sys App\n");
}
