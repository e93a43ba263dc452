//! Firmware images: the header that describes an image, and the reading of
//! its fixed part from bytes.
use vstd::prelude::*;
use vstd::std_specs::convert::FromSpecImpl;
use crate::mloi::{
    MK_IPC_ID_u, MK_Index_t, MK_MAILBOX_ID_u, MK_Process_ID_u, PROCESS_Function_t, UUID_t, v32_u,
    VPP_FRW_TYPE_e, VPP_SCHEDULING_TYPE_e,
};

verus! {

/// Version of the firmware format that the kernel reads.
pub const MK_FORMAT_VERSION: u8 = 0b0100;

/// Number of bytes that the fixed part of a firmware header takes.
pub const FW_DESCRIPTOR_LENGTH: usize = 42;

/// Whether a firmware may run.
#[derive(Clone, Copy, Debug, PartialEq, Eq, Structural)]
pub enum FwState {
    /// The firmware may run.
    Enabled,
    /// The firmware may not run.
    Disabled,
}

impl FwState {
    /// The code of the state.
    pub open spec fn code(self) -> u8 {
        match self {
            FwState::Enabled => 0x01,
            FwState::Disabled => 0x00,
        }
    }
}

impl From<FwState> for u8 {
    fn from(value: FwState) -> (code: u8) {
        match value {
            FwState::Enabled => 0x01,
            FwState::Disabled => 0x00,
        }
    }
}

impl FromSpecImpl<FwState> for u8 {
    open spec fn obeys_from_spec() -> bool {
        true
    }

    open spec fn from_spec(value: FwState) -> u8 {
        value.code()
    }
}

/// The fixed part of a firmware header.
#[derive(Clone, Copy, Debug, PartialEq, Eq, Structural)]
pub struct FwDescriptor {
    /// Identifier of the firmware.
    pub m_xID: UUID_t,
    /// Identifier of the firmware family.
    pub m_xFamilyID: UUID_t,
    /// Length of the firmware header.
    pub m_uHeaderLength: u16,
    /// Major and minor version of the firmware format.
    pub m_VersionFormat: u16,
    /// Major and minor version of the firmware.
    pub m_VersionFirmware: u16,
    /// Number of process descriptors.
    pub m_uProcessCount: u8,
    /// Number of mailbox descriptors.
    pub m_uMailboxesCount: u8,
    /// Number of channel descriptors.
    pub m_uIPCCount: u8,
    /// Number of library descriptors.
    pub m_uLIBCount: u8,
    /// Kind of the firmware.
    pub m_eFirmare_Software_Type: VPP_FRW_TYPE_e,
    /// How its processes are scheduled.
    pub m_eSchedluingType: VPP_SCHEDULING_TYPE_e,
}

/// Descriptor of a channel.
#[derive(Clone, Copy, Debug, PartialEq, Eq, Structural)]
pub struct IpcDescriptor {
    /// Identifier of the channel.
    pub m_xID: MK_IPC_ID_u,
    /// Length of the shared memory in bytes.
    pub m_uLength_IPC: u16,
    /// Index of the writing process.
    pub m_uIX_Writer: MK_Index_t,
    /// Index of the reading process.
    pub m_uIX_Reader: MK_Index_t,
}

/// Descriptor of a mailbox.
#[derive(Clone, Copy, Debug, PartialEq, Eq, Structural)]
pub struct MailboxDescriptors {
    /// Identifier of the mailbox.
    pub m_xID: MK_MAILBOX_ID_u,
    /// Index of the receiving process.
    pub m_uIX_Owner: MK_Index_t,
    /// Index of the sending process.
    pub m_uIX_Sender: MK_Index_t,
}

/// Descriptor of a process.
#[derive(Clone, Copy, Debug, PartialEq, Eq, Structural)]
pub struct ProcessDescriptors {
    /// Offset of the entry point within the code segment.
    pub m_pvProcessCode: PROCESS_Function_t,
    /// Length of the code segment.
    pub m_uLength_Process_CODE: v32_u,
    /// Length of the segment of constants.
    pub m_uLength_Process_CONSTANTS: v32_u,
    /// Length of the data segment.
    pub m_uLength_Process_DATA: v32_u,
    /// Length of the segment in non-volatile memory.
    pub m_uLength_Process_NVM: v32_u,
    /// Identifier of the process.
    pub m_xID: MK_Process_ID_u,
    /// Index of the parent process.
    pub m_uParent_Process: MK_Index_t,
    /// Size of the stack in bytes.
    pub m_uSizeStack: u16,
}

/// Header of a firmware.
#[derive(Clone, Copy, Debug, PartialEq, Eq, Structural)]
pub struct FwHeader {
    /// The fixed part.
    pub fw_descriptor: FwDescriptor,
    /// The process descriptor.
    pub process_descriptors: ProcessDescriptors,
    /// The mailbox descriptor.
    pub mailbox_descriptors: MailboxDescriptors,
    /// The channel descriptor.
    pub ipc_descriptor: IpcDescriptor,
}

/// Body of a firmware.
#[derive(Debug)]
pub struct FwBody {
    CODE: Vec<u8>,
    RO: Vec<u8>,
    DATA: Vec<u8>,
    NVM: Vec<u8>,
}

impl FwBody {
    /// Whether every segment is empty.
    pub closed spec fn is_empty(&self) -> bool {
        &&& self.CODE@.len() == 0
        &&& self.RO@.len() == 0
        &&& self.DATA@.len() == 0
        &&& self.NVM@.len() == 0
    }
}

impl Default for FwBody {
    fn default() -> (body: FwBody)
        ensures
            body.is_empty(),
    {
        FwBody { CODE: Vec::new(), RO: Vec::new(), DATA: Vec::new(), NVM: Vec::new() }
    }
}

/// A firmware.
#[derive(Debug)]
pub struct FW {
    /// Its header.
    pub FwHeader: FwHeader,
    /// Its body.
    pub FwBody: FwBody,
    /// Whether it may run.
    pub state: FwState,
}

/// The part of the kernel that manages firmware.
#[derive(Debug)]
pub struct _mk_Fw_Mgt {
    Fw: FW,
}

impl _mk_Fw_Mgt {
    /// The firmware that is managed.
    pub closed spec fn firmware(&self) -> FW {
        self.Fw
    }

    /// A manager of the given firmware.
    pub fn new(fw: FW) -> (manager: _mk_Fw_Mgt)
        ensures
            manager.firmware() == fw,
    {
        _mk_Fw_Mgt { Fw: fw }
    }
}

/// Outcome of a request to the management service.
#[derive(Clone, Copy, Debug, PartialEq, Eq, Structural)]
pub enum MGT_ERROR_e {
    /// No error.
    MGT_ERROR_NONE,
    /// Illegal parameter.
    MGT_ERROR_ILLEGAL_PARAMETER,
    /// Internal error.
    MGT_ERROR_INTERNAL,
    /// Unknown universally unique identifier.
    MGT_ERROR_UNKNOWN_UUID,
    /// The command failed.
    MGT_ERROR_COMMAND_NOK,
}

/// The 16-bit number that two bytes hold, low byte first.
pub open spec fn le16(bytes: Seq<u8>, at: int) -> u16 {
    (bytes[at] as int + 256 * (bytes[at + 1] as int)) as u16
}

/// The header that the bytes of a firmware describe. Of the fixed part the
/// lengths, versions and counts are read, each from its place; the
/// identifiers and the descriptors that follow are not read and stay zero,
/// and the firmware counts as an application with collaborative scheduling.
pub open spec fn header_of(firmware: Seq<u8>) -> FwHeader {
    FwHeader {
        fw_descriptor: FwDescriptor {
            m_xID: 0,
            m_xFamilyID: 0,
            m_uHeaderLength: le16(firmware, 32),
            m_VersionFormat: le16(firmware, 34),
            m_VersionFirmware: le16(firmware, 36),
            m_uProcessCount: firmware[38],
            m_uMailboxesCount: firmware[39],
            m_uIPCCount: firmware[40],
            m_uLIBCount: firmware[41],
            m_eFirmare_Software_Type: VPP_FRW_TYPE_e::FIRMWARE_SOFTWARE_TYPE_APP,
            m_eSchedluingType: VPP_SCHEDULING_TYPE_e::MK_SCHEDULING_TYPE_COLLABORATIVE,
        },
        process_descriptors: ProcessDescriptors {
            m_pvProcessCode: 0,
            m_uLength_Process_CODE: 0,
            m_uLength_Process_CONSTANTS: 0,
            m_uLength_Process_DATA: 0,
            m_uLength_Process_NVM: 0,
            m_xID: 0,
            m_uParent_Process: 0,
            m_uSizeStack: 0,
        },
        mailbox_descriptors: MailboxDescriptors { m_xID: 0, m_uIX_Owner: 0, m_uIX_Sender: 0 },
        ipc_descriptor: IpcDescriptor { m_xID: 0, m_uLength_IPC: 0, m_uIX_Writer: 0, m_uIX_Reader: 0 },
    }
}

fn read_le16(firmware: &[u8], at: usize) -> (value: u16)
    requires
        at + 1 < firmware@.len(),
    ensures
        value == le16(firmware@, at as int),
{
    firmware[at] as u16 + 256 * (firmware[at + 1] as u16)
}

/// Reads the header of a firmware from its bytes, which hold at least the
/// fixed part.
pub fn parse_vpp_header(firmware: &[u8]) -> (header: FwHeader)
    requires
        firmware@.len() >= FW_DESCRIPTOR_LENGTH,
    ensures
        header == header_of(firmware@),
{
    let header_length = read_le16(firmware, 32);
    let version_format = read_le16(firmware, 34);
    let version_firmware = read_le16(firmware, 36);
    let process_count = firmware[38];
    let mailbox_count = firmware[39];
    let ipc_count = firmware[40];
    let lib_count = firmware[41];
    FwHeader {
        fw_descriptor: FwDescriptor {
            m_xID: 0,
            m_xFamilyID: 0,
            m_uHeaderLength: header_length,
            m_VersionFormat: version_format,
            m_VersionFirmware: version_firmware,
            m_uProcessCount: process_count,
            m_uMailboxesCount: mailbox_count,
            m_uIPCCount: ipc_count,
            m_uLIBCount: lib_count,
            m_eFirmare_Software_Type: VPP_FRW_TYPE_e::FIRMWARE_SOFTWARE_TYPE_APP,
            m_eSchedluingType: VPP_SCHEDULING_TYPE_e::MK_SCHEDULING_TYPE_COLLABORATIVE,
        },
        process_descriptors: ProcessDescriptors {
            m_pvProcessCode: 0,
            m_uLength_Process_CODE: 0,
            m_uLength_Process_CONSTANTS: 0,
            m_uLength_Process_DATA: 0,
            m_uLength_Process_NVM: 0,
            m_xID: 0,
            m_uParent_Process: 0,
            m_uSizeStack: 0,
        },
        mailbox_descriptors: MailboxDescriptors { m_xID: 0, m_uIX_Owner: 0, m_uIX_Sender: 0 },
        ipc_descriptor: IpcDescriptor { m_xID: 0, m_uLength_IPC: 0, m_uIX_Writer: 0, m_uIX_Reader: 0 },
    }
}

/// Reads the header of a firmware from its bytes, or nothing where the
/// bytes are too few to hold the fixed part.
pub fn try_parse_vpp_header(firmware: &[u8]) -> (header: Option<FwHeader>)
    ensures
        header == if firmware@.len() >= FW_DESCRIPTOR_LENGTH {
            Some(header_of(firmware@))
        } else {
            None
        },
{
    if firmware.len() >= FW_DESCRIPTOR_LENGTH {
        Some(parse_vpp_header(firmware))
    } else {
        None
    }
}

/// Whether the firmware meets the consistency rules of the format. The
/// rules are not laid down yet, so no firmware is taken to meet them.
pub fn firmware_descriptor_rules(firmware: FW) -> (consistent: bool)
    ensures
        !consistent,
{
    let fw_descriptor: FwDescriptor = firmware.FwHeader.fw_descriptor;
    let _expected_length = fw_descriptor.m_uHeaderLength;
    false
}

} // verus!
