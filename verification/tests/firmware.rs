use vpp::mgt_service::{mgt_process, ResponseCode, ServiceCommands};
use vpp::mloi::{VPP_FRW_TYPE_e, VPP_SCHEDULING_TYPE_e};
use vpp::vff::{
    firmware_descriptor_rules, parse_vpp_header, try_parse_vpp_header, FwBody, FwState, MGT_ERROR_e,
    _mk_Fw_Mgt, FW, FW_DESCRIPTOR_LENGTH, MK_FORMAT_VERSION,
};

fn image() -> Vec<u8> {
    let mut bytes: Vec<u8> = (0..64).map(|i| 0xA0 + i as u8).collect();
    bytes[32] = 0x34;
    bytes[33] = 0x12;
    bytes[34] = 0xFF;
    bytes[35] = 0xFF;
    bytes[36] = 0x00;
    bytes[37] = 0x01;
    bytes[38] = 3;
    bytes[39] = 4;
    bytes[40] = 5;
    bytes[41] = 6;
    bytes
}

#[test]
fn the_fixed_part_is_read_from_its_place() {
    let header = parse_vpp_header(&image());
    let descriptor = header.fw_descriptor;
    assert_eq!(descriptor.m_uHeaderLength, 0x1234);
    assert_eq!(descriptor.m_VersionFormat, 0xFFFF);
    assert_eq!(descriptor.m_VersionFirmware, 0x0100);
    assert_eq!(descriptor.m_uProcessCount, 3);
    assert_eq!(descriptor.m_uMailboxesCount, 4);
    assert_eq!(descriptor.m_uIPCCount, 5);
    assert_eq!(descriptor.m_uLIBCount, 6);
    assert_eq!(descriptor.m_xID, 0);
    assert_eq!(descriptor.m_xFamilyID, 0);
    assert_eq!(descriptor.m_eFirmare_Software_Type, VPP_FRW_TYPE_e::FIRMWARE_SOFTWARE_TYPE_APP);
    assert_eq!(
        descriptor.m_eSchedluingType,
        VPP_SCHEDULING_TYPE_e::MK_SCHEDULING_TYPE_COLLABORATIVE
    );
    assert_eq!(header.process_descriptors.m_xID, 0);
    assert_eq!(header.process_descriptors.m_uSizeStack, 0);
    assert_eq!(header.mailbox_descriptors.m_uIX_Owner, 0);
    assert_eq!(header.ipc_descriptor.m_uLength_IPC, 0);
}

#[test]
fn the_shortest_image_is_the_fixed_part() {
    assert_eq!(FW_DESCRIPTOR_LENGTH, 42);
    let bytes = image();
    let header = try_parse_vpp_header(&bytes[..42]).unwrap();
    assert_eq!(header, parse_vpp_header(&bytes));
    assert_eq!(try_parse_vpp_header(&bytes[..41]), None);
    assert_eq!(try_parse_vpp_header(&[]), None);
    assert_eq!(try_parse_vpp_header(&bytes), Some(header));
}

#[test]
fn no_firmware_meets_the_rules_yet() {
    let firmware = FW {
        FwHeader: parse_vpp_header(&image()),
        FwBody: FwBody::default(),
        state: FwState::Enabled,
    };
    assert!(!firmware_descriptor_rules(firmware));
}

#[test]
fn firmware_codes() {
    assert_eq!(u8::from(FwState::Enabled), 1);
    assert_eq!(u8::from(FwState::Disabled), 0);
    assert_eq!(MK_FORMAT_VERSION, 4);
    assert_ne!(MGT_ERROR_e::MGT_ERROR_NONE, MGT_ERROR_e::MGT_ERROR_COMMAND_NOK);
    assert_eq!(u8::from(ServiceCommands::MGT_Store_Firmware_Header), 0x00);
    assert_eq!(u8::from(ServiceCommands::MGT_Retrieve_Firmware_Header), 0x01);
    assert_eq!(u8::from(ServiceCommands::MGT_Allocate_Firmware), 0x02);
    assert_eq!(u8::from(ServiceCommands::MGT_Delete_Firmware), 0x03);
    assert_eq!(u8::from(ServiceCommands::MGT_Enable_Firmware), 0x04);
    assert_eq!(u8::from(ServiceCommands::MGT_Disable_Firmware), 0x05);
    assert_eq!(u8::from(ServiceCommands::MGT_Is_Firmware_Enabled), 0x06);
    assert_eq!(u8::from(ServiceCommands::MGT_Open_Process_Impersonation), 0x07);
    assert_eq!(u8::from(ServiceCommands::MGT_Close_Process_Impersonation), 0x08);
    assert_eq!(u8::from(ServiceCommands::MGT_Open_Library_Impersonation), 0x09);
    assert_eq!(u8::from(ServiceCommands::MGT_Close_Library_Impersonation), 0x0A);
    assert_eq!(u8::from(ServiceCommands::MGT_Open_LLOS_Impersonation), 0x0B);
    assert_eq!(u8::from(ServiceCommands::MGT_Close_LLOS_Impersonation), 0x0C);
    assert_eq!(u8::from(ResponseCode::MGT_ERROR_NONE), 0);
    assert_eq!(u8::from(ResponseCode::MGT_ERROR_ILLEGAL_PARAMETER), 1);
    assert_eq!(u8::from(ResponseCode::MGT_ERROR_INTERNAL), 2);
    assert_eq!(u8::from(ResponseCode::MGT_ERROR_UNKNOWN_UUID), 3);
    assert_eq!(u8::from(ResponseCode::MGT_ERROR_COMMAND_NOK), 4);
}

#[test]
fn storing_a_header_answers_success() {
    let bytes = image();
    assert_eq!(
        mgt_process::MGT_Store_Firmware_Header(&bytes, ServiceCommands::MGT_Store_Firmware_Header),
        ResponseCode::MGT_ERROR_NONE
    );
    assert_eq!(
        mgt_process::MGT_Store_Firmware_Header(&[], ServiceCommands::MGT_Delete_Firmware),
        ResponseCode::MGT_ERROR_NONE
    );
}

#[test]
fn managers_take_their_firmware() {
    let firmware = || FW {
        FwHeader: parse_vpp_header(&image()),
        FwBody: FwBody::default(),
        state: FwState::Disabled,
    };
    let _process = mgt_process::new(firmware());
    let _manager = _mk_Fw_Mgt::new(firmware());
}
