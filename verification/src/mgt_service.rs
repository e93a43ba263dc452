//! The management service: its commands and answers, and the storing of a
//! firmware header.
use vstd::prelude::*;
use vstd::std_specs::convert::FromSpecImpl;
use crate::vff::{parse_vpp_header, FwBody, FwState, FW, FW_DESCRIPTOR_LENGTH};

verus! {

/// Command of the management service.
#[derive(Clone, Copy, Debug, PartialEq, Eq, Structural)]
pub enum ServiceCommands {
    /// Store the header of a firmware.
    MGT_Store_Firmware_Header,
    /// Retrieve the header of a firmware.
    MGT_Retrieve_Firmware_Header,
    /// Allocate memory for a firmware.
    MGT_Allocate_Firmware,
    /// Delete a firmware.
    MGT_Delete_Firmware,
    /// Allow a firmware to run.
    MGT_Enable_Firmware,
    /// Forbid a firmware to run.
    MGT_Disable_Firmware,
    /// Ask whether a firmware may run.
    MGT_Is_Firmware_Enabled,
    /// Begin to act for a process of a firmware.
    MGT_Open_Process_Impersonation,
    /// Cease to act for a process of a firmware.
    MGT_Close_Process_Impersonation,
    /// Begin to act for a library of a firmware.
    MGT_Open_Library_Impersonation,
    /// Cease to act for a library of a firmware.
    MGT_Close_Library_Impersonation,
    /// Begin to act for the low-level operating system.
    MGT_Open_LLOS_Impersonation,
    /// Cease to act for the low-level operating system.
    MGT_Close_LLOS_Impersonation,
}

impl ServiceCommands {
    /// The code of the command.
    pub open spec fn code(self) -> u8 {
        match self {
            ServiceCommands::MGT_Store_Firmware_Header => 0x00,
            ServiceCommands::MGT_Retrieve_Firmware_Header => 0x01,
            ServiceCommands::MGT_Allocate_Firmware => 0x02,
            ServiceCommands::MGT_Delete_Firmware => 0x03,
            ServiceCommands::MGT_Enable_Firmware => 0x04,
            ServiceCommands::MGT_Disable_Firmware => 0x05,
            ServiceCommands::MGT_Is_Firmware_Enabled => 0x06,
            ServiceCommands::MGT_Open_Process_Impersonation => 0x07,
            ServiceCommands::MGT_Close_Process_Impersonation => 0x08,
            ServiceCommands::MGT_Open_Library_Impersonation => 0x09,
            ServiceCommands::MGT_Close_Library_Impersonation => 0x0A,
            ServiceCommands::MGT_Open_LLOS_Impersonation => 0x0B,
            ServiceCommands::MGT_Close_LLOS_Impersonation => 0x0C,
        }
    }
}

impl From<ServiceCommands> for u8 {
    fn from(value: ServiceCommands) -> (code: u8) {
        match value {
            ServiceCommands::MGT_Store_Firmware_Header => 0x00,
            ServiceCommands::MGT_Retrieve_Firmware_Header => 0x01,
            ServiceCommands::MGT_Allocate_Firmware => 0x02,
            ServiceCommands::MGT_Delete_Firmware => 0x03,
            ServiceCommands::MGT_Enable_Firmware => 0x04,
            ServiceCommands::MGT_Disable_Firmware => 0x05,
            ServiceCommands::MGT_Is_Firmware_Enabled => 0x06,
            ServiceCommands::MGT_Open_Process_Impersonation => 0x07,
            ServiceCommands::MGT_Close_Process_Impersonation => 0x08,
            ServiceCommands::MGT_Open_Library_Impersonation => 0x09,
            ServiceCommands::MGT_Close_Library_Impersonation => 0x0A,
            ServiceCommands::MGT_Open_LLOS_Impersonation => 0x0B,
            ServiceCommands::MGT_Close_LLOS_Impersonation => 0x0C,
        }
    }
}

impl FromSpecImpl<ServiceCommands> for u8 {
    open spec fn obeys_from_spec() -> bool {
        true
    }

    open spec fn from_spec(value: ServiceCommands) -> u8 {
        value.code()
    }
}

/// Answer of the management service.
#[derive(Clone, Copy, Debug, PartialEq, Eq, Structural)]
pub enum ResponseCode {
    /// No error.
    MGT_ERROR_NONE,
    /// Illegal parameter.
    MGT_ERROR_ILLEGAL_PARAMETER,
    /// Internal error.
    MGT_ERROR_INTERNAL,
    /// Unknown universally unique identifier.
    MGT_ERROR_UNKNOWN_UUID,
    /// The command failed.
    MGT_ERROR_COMMAND_NOK,
}

impl ResponseCode {
    /// The code of the answer.
    pub open spec fn code(self) -> u8 {
        match self {
            ResponseCode::MGT_ERROR_NONE => 0x00,
            ResponseCode::MGT_ERROR_ILLEGAL_PARAMETER => 0x01,
            ResponseCode::MGT_ERROR_INTERNAL => 0x02,
            ResponseCode::MGT_ERROR_UNKNOWN_UUID => 0x03,
            ResponseCode::MGT_ERROR_COMMAND_NOK => 0x04,
        }
    }
}

impl From<ResponseCode> for u8 {
    fn from(value: ResponseCode) -> (code: u8) {
        match value {
            ResponseCode::MGT_ERROR_NONE => 0x00,
            ResponseCode::MGT_ERROR_ILLEGAL_PARAMETER => 0x01,
            ResponseCode::MGT_ERROR_INTERNAL => 0x02,
            ResponseCode::MGT_ERROR_UNKNOWN_UUID => 0x03,
            ResponseCode::MGT_ERROR_COMMAND_NOK => 0x04,
        }
    }
}

impl FromSpecImpl<ResponseCode> for u8 {
    open spec fn obeys_from_spec() -> bool {
        true
    }

    open spec fn from_spec(value: ResponseCode) -> u8 {
        value.code()
    }
}

/// The management process.
#[derive(Debug)]
pub struct mgt_process {
    firmware: FW,
}

impl mgt_process {
    /// The firmware that the process manages.
    pub closed spec fn managed(&self) -> FW {
        self.firmware
    }

    /// A management process for the given firmware.
    pub fn new(firmware: FW) -> (process: mgt_process)
        ensures
            process.managed() == firmware,
    {
        mgt_process { firmware }
    }

    /// Takes the bytes of a firmware header for storing. Under the command
    /// to store, the bytes hold at least the fixed part of a header, which
    /// is read; any other command reads nothing. The answer is always that
    /// of success: nothing is kept yet.
    pub fn MGT_Store_Firmware_Header(firmware_header_data: &[u8], command: ServiceCommands) -> (response:
        ResponseCode)
        requires
            command == ServiceCommands::MGT_Store_Firmware_Header ==> firmware_header_data@.len()
                >= FW_DESCRIPTOR_LENGTH,
        ensures
            response == ResponseCode::MGT_ERROR_NONE,
    {
        if command == ServiceCommands::MGT_Store_Firmware_Header {
            let fw_header = parse_vpp_header(firmware_header_data);
            let _firmware_uuid = fw_header.fw_descriptor.m_xID;
            let _Firmware = FW {
                FwHeader: fw_header,
                FwBody: FwBody::default(),
                state: FwState::Disabled,
            };
        }
        ResponseCode::MGT_ERROR_NONE
    }
}

} // verus!
