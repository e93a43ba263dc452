//! Identifiers, handles, enumerations and limits shared by every kernel
//! object.
use vstd::prelude::*;
use vstd::std_specs::convert::FromSpecImpl;

verus! {

/// Index of an element in a typed array.
pub type MK_Index_t = u16;

/// Composite identifier of a shared-memory channel.
pub type MK_IPC_ID_u = u16;

/// Composite identifier of a mailbox.
pub type MK_MAILBOX_ID_u = u16;

/// Composite identifier of a process.
pub type MK_Process_ID_u = u16;

/// Composite identifier of a shared library.
pub type MK_LIB_ID_u = u16;

/// Enumerated identifier of a shared library.
pub type MK_LIB_ID_e = u16;

/// Handle to a kernel object.
pub type MK_HANDLE_t = u32;

/// Bitmap of signals, exceptions or library descriptors.
pub type MK_BITMAP_t = u32;

/// Absolute time in ticks.
pub type MK_TIME_t = u64;

/// Width of a memory address on the platform.
pub type XLEN = u32;

/// Address of a process entry point.
pub type PROCESS_Function_t = XLEN;

/// Universally unique identifier.
pub type UUID_t = u128;

/// Untyped 32-bit word.
pub type v32_u = u32;

/// Kind of firmware or software image.
#[derive(Clone, Copy, Debug, PartialEq, Eq, Structural)]
pub enum VPP_FRW_TYPE_e {
    /// Firmware of an application.
    FIRMWARE_SOFTWARE_TYPE_APP,
    /// Software of the platform, without the low-level operating system.
    FIRMWARE_SOFTWARE_TYPE_VPP,
    /// Firmware of the system application.
    FIRMWARE_SOFTWARE_TYPE_SYSAPP,
    /// Software of the low-level operating system.
    FIRMWARE_SOFTWARE_TYPE_LLOS,
}

impl VPP_FRW_TYPE_e {
    /// The code of the kind: one bit each.
    pub open spec fn code(self) -> u8 {
        match self {
            VPP_FRW_TYPE_e::FIRMWARE_SOFTWARE_TYPE_APP => 0x01,
            VPP_FRW_TYPE_e::FIRMWARE_SOFTWARE_TYPE_VPP => 0x02,
            VPP_FRW_TYPE_e::FIRMWARE_SOFTWARE_TYPE_SYSAPP => 0x04,
            VPP_FRW_TYPE_e::FIRMWARE_SOFTWARE_TYPE_LLOS => 0x08,
        }
    }

    /// The text shown for the kind, ending in a line feed.
    pub open spec fn label_text(self) -> Seq<char> {
        match self {
            VPP_FRW_TYPE_e::FIRMWARE_SOFTWARE_TYPE_APP => "App\n"@,
            VPP_FRW_TYPE_e::FIRMWARE_SOFTWARE_TYPE_VPP => "Vpp\n"@,
            VPP_FRW_TYPE_e::FIRMWARE_SOFTWARE_TYPE_SYSAPP => "Sys App\n"@,
            VPP_FRW_TYPE_e::FIRMWARE_SOFTWARE_TYPE_LLOS => "LLOS\n"@,
        }
    }

    /// The text shown for the kind, ending in a line feed.
    pub fn label(&self) -> (text: &'static str)
        ensures
            text@ == self.label_text(),
    {
        match self {
            VPP_FRW_TYPE_e::FIRMWARE_SOFTWARE_TYPE_APP => "App\n",
            VPP_FRW_TYPE_e::FIRMWARE_SOFTWARE_TYPE_VPP => "Vpp\n",
            VPP_FRW_TYPE_e::FIRMWARE_SOFTWARE_TYPE_SYSAPP => "Sys App\n",
            VPP_FRW_TYPE_e::FIRMWARE_SOFTWARE_TYPE_LLOS => "LLOS\n",
        }
    }
}

impl From<VPP_FRW_TYPE_e> for u8 {
    fn from(value: VPP_FRW_TYPE_e) -> (code: u8) {
        match value {
            VPP_FRW_TYPE_e::FIRMWARE_SOFTWARE_TYPE_APP => 0x01,
            VPP_FRW_TYPE_e::FIRMWARE_SOFTWARE_TYPE_VPP => 0x02,
            VPP_FRW_TYPE_e::FIRMWARE_SOFTWARE_TYPE_SYSAPP => 0x04,
            VPP_FRW_TYPE_e::FIRMWARE_SOFTWARE_TYPE_LLOS => 0x08,
        }
    }
}

impl FromSpecImpl<VPP_FRW_TYPE_e> for u8 {
    open spec fn obeys_from_spec() -> bool {
        true
    }

    open spec fn from_spec(value: VPP_FRW_TYPE_e) -> u8 {
        value.code()
    }
}

/// Execution domain of a kernel object.
#[derive(Clone, Copy, Debug, PartialEq, Eq, Structural)]
pub enum MK_EXECUTION_DOMAIN_TYPE_e {
    /// Domain of the platform's own processes.
    MK_EXECUTION_DOMAIN_TYPE_VPP,
    /// Domain of the application's processes.
    MK_EXECUTION_DOMAIN_TYPE_APP,
}

impl MK_EXECUTION_DOMAIN_TYPE_e {
    /// The tag of the domain in the top two bits of a composite identifier.
    pub open spec fn code(self) -> u16 {
        match self {
            MK_EXECUTION_DOMAIN_TYPE_e::MK_EXECUTION_DOMAIN_TYPE_VPP => 0x0002,
            MK_EXECUTION_DOMAIN_TYPE_e::MK_EXECUTION_DOMAIN_TYPE_APP => 0x0001,
        }
    }
}

impl From<MK_EXECUTION_DOMAIN_TYPE_e> for u16 {
    fn from(value: MK_EXECUTION_DOMAIN_TYPE_e) -> (code: u16) {
        match value {
            MK_EXECUTION_DOMAIN_TYPE_e::MK_EXECUTION_DOMAIN_TYPE_VPP => 0x0002,
            MK_EXECUTION_DOMAIN_TYPE_e::MK_EXECUTION_DOMAIN_TYPE_APP => 0x0001,
        }
    }
}

impl FromSpecImpl<MK_EXECUTION_DOMAIN_TYPE_e> for u16 {
    open spec fn obeys_from_spec() -> bool {
        true
    }

    open spec fn from_spec(value: MK_EXECUTION_DOMAIN_TYPE_e) -> u16 {
        value.code()
    }
}

/// Priority of a process.
#[derive(Clone, Copy, Debug, PartialEq, Eq, Structural)]
pub enum MK_PROCESS_PRIORITY_e {
    /// Lowest priority.
    MK_PROCESS_PRIORITY_LOW,
    /// Normal priority, the default.
    MK_PROCESS_PRIORITY_NORMAL,
    /// Highest priority.
    MK_PROCESS_PRIORITY_HIGH,
    /// Marks a priority that could not be retrieved.
    MK_PROCESS_PRIORITY_ERROR,
}

impl MK_PROCESS_PRIORITY_e {
    /// The code of the priority.
    pub open spec fn code(self) -> u16 {
        match self {
            MK_PROCESS_PRIORITY_e::MK_PROCESS_PRIORITY_LOW => 0x0000,
            MK_PROCESS_PRIORITY_e::MK_PROCESS_PRIORITY_NORMAL => 0x0004,
            MK_PROCESS_PRIORITY_e::MK_PROCESS_PRIORITY_HIGH => 0x0008,
            MK_PROCESS_PRIORITY_e::MK_PROCESS_PRIORITY_ERROR => 0xFFFF,
        }
    }

    /// The text shown for the priority, ending in a line feed.
    pub open spec fn label_text(self) -> Seq<char> {
        match self {
            MK_PROCESS_PRIORITY_e::MK_PROCESS_PRIORITY_LOW => "Low\n"@,
            MK_PROCESS_PRIORITY_e::MK_PROCESS_PRIORITY_NORMAL => "Normal\n"@,
            MK_PROCESS_PRIORITY_e::MK_PROCESS_PRIORITY_HIGH => "High\n"@,
            MK_PROCESS_PRIORITY_e::MK_PROCESS_PRIORITY_ERROR => "Priority\n"@,
        }
    }

    /// The text shown for the priority, ending in a line feed.
    pub fn label(&self) -> (text: &'static str)
        ensures
            text@ == self.label_text(),
    {
        match self {
            MK_PROCESS_PRIORITY_e::MK_PROCESS_PRIORITY_LOW => "Low\n",
            MK_PROCESS_PRIORITY_e::MK_PROCESS_PRIORITY_NORMAL => "Normal\n",
            MK_PROCESS_PRIORITY_e::MK_PROCESS_PRIORITY_HIGH => "High\n",
            MK_PROCESS_PRIORITY_e::MK_PROCESS_PRIORITY_ERROR => "Priority\n",
        }
    }
}

impl From<MK_PROCESS_PRIORITY_e> for u16 {
    fn from(value: MK_PROCESS_PRIORITY_e) -> (code: u16) {
        match value {
            MK_PROCESS_PRIORITY_e::MK_PROCESS_PRIORITY_LOW => 0x0000,
            MK_PROCESS_PRIORITY_e::MK_PROCESS_PRIORITY_NORMAL => 0x0004,
            MK_PROCESS_PRIORITY_e::MK_PROCESS_PRIORITY_HIGH => 0x0008,
            MK_PROCESS_PRIORITY_e::MK_PROCESS_PRIORITY_ERROR => 0xFFFF,
        }
    }
}

impl FromSpecImpl<MK_PROCESS_PRIORITY_e> for u16 {
    open spec fn obeys_from_spec() -> bool {
        true
    }

    open spec fn from_spec(value: MK_PROCESS_PRIORITY_e) -> u16 {
        value.code()
    }
}

/// Hardware functions that a process may be given access to.
#[derive(Clone, Copy, Debug, PartialEq, Eq, Structural)]
pub enum MK_VRE_e {
    /// The AES function.
    MK_VRE_AES,
    /// The ECC function.
    MK_VRE_ECC,
    /// The RSA function.
    MK_VRE_RSA,
    /// The long-term credential store.
    MK_VRE_ROT,
    /// The hash function.
    MK_VRE_HASH,
    /// The random number generator.
    MK_VRE_RNG,
    /// The remote audit function.
    MK_VRE_RAF,
    /// First identifier left to an execution domain.
    MK_VRE_DOMAIN_BASE,
}

impl MK_VRE_e {
    /// The code of the function.
    pub open spec fn code(self) -> u32 {
        match self {
            MK_VRE_e::MK_VRE_AES => 0x01,
            MK_VRE_e::MK_VRE_ECC => 0x04,
            MK_VRE_e::MK_VRE_RSA => 0x08,
            MK_VRE_e::MK_VRE_ROT => 0x10,
            MK_VRE_e::MK_VRE_HASH => 0x20,
            MK_VRE_e::MK_VRE_RNG => 0x40,
            MK_VRE_e::MK_VRE_RAF => 0x80,
            MK_VRE_e::MK_VRE_DOMAIN_BASE => 0x100,
        }
    }
}

impl From<MK_VRE_e> for u32 {
    fn from(value: MK_VRE_e) -> (code: u32) {
        match value {
            MK_VRE_e::MK_VRE_AES => 0x01,
            MK_VRE_e::MK_VRE_ECC => 0x04,
            MK_VRE_e::MK_VRE_RSA => 0x08,
            MK_VRE_e::MK_VRE_ROT => 0x10,
            MK_VRE_e::MK_VRE_HASH => 0x20,
            MK_VRE_e::MK_VRE_RNG => 0x40,
            MK_VRE_e::MK_VRE_RAF => 0x80,
            MK_VRE_e::MK_VRE_DOMAIN_BASE => 0x100,
        }
    }
}

impl FromSpecImpl<MK_VRE_e> for u32 {
    open spec fn obeys_from_spec() -> bool {
        true
    }

    open spec fn from_spec(value: MK_VRE_e) -> u32 {
        value.code()
    }
}

/// Outcome of a kernel operation.
#[derive(Clone, Copy, Debug, PartialEq, Eq, Structural)]
pub enum MK_ERROR_e {
    /// No error.
    MK_ERROR_NONE,
    /// Unknown universally unique identifier.
    MK_ERROR_UNKNOWN_UUID,
    /// Severe error.
    MK_ERROR_SEVERE,
    /// Illegal parameter.
    MK_ERROR_ILLEGAL_PARAMETER,
    /// Unknown identifier.
    MK_ERROR_UNKNOWN_ID,
    /// Unknown handle.
    MK_ERROR_UNKNOWN_HANDLE,
    /// Unknown priority.
    MK_ERROR_UNKNOWN_PRIORITY,
    /// Access denied.
    MK_ERROR_ACCESS_DENIED,
    /// Internal error.
    MK_ERROR_INTERNAL,
    /// First value left to the implementation.
    MK_ERROR_VENDOR_BASE,
    /// Largest error value.
    MK_ERROR_MAX,
}

impl MK_ERROR_e {
    /// The code of the error.
    pub open spec fn code(self) -> usize {
        match self {
            MK_ERROR_e::MK_ERROR_NONE => 0,
            MK_ERROR_e::MK_ERROR_UNKNOWN_UUID => 1,
            MK_ERROR_e::MK_ERROR_SEVERE => 2,
            MK_ERROR_e::MK_ERROR_ILLEGAL_PARAMETER => 3,
            MK_ERROR_e::MK_ERROR_UNKNOWN_ID => 4,
            MK_ERROR_e::MK_ERROR_UNKNOWN_HANDLE => 5,
            MK_ERROR_e::MK_ERROR_UNKNOWN_PRIORITY => 6,
            MK_ERROR_e::MK_ERROR_ACCESS_DENIED => 7,
            MK_ERROR_e::MK_ERROR_INTERNAL => 8,
            MK_ERROR_e::MK_ERROR_VENDOR_BASE => 32,
            MK_ERROR_e::MK_ERROR_MAX => 255,
        }
    }

    /// The text shown for the error, ending in a line feed.
    pub open spec fn label_text(self) -> Seq<char> {
        match self {
            MK_ERROR_e::MK_ERROR_NONE => "None\n"@,
            MK_ERROR_e::MK_ERROR_UNKNOWN_UUID => "Unknown UUID\n"@,
            MK_ERROR_e::MK_ERROR_SEVERE => "Severe error\n"@,
            MK_ERROR_e::MK_ERROR_ILLEGAL_PARAMETER => "Illegal Parameter\n"@,
            MK_ERROR_e::MK_ERROR_UNKNOWN_ID => "Unknown identifier\n"@,
            MK_ERROR_e::MK_ERROR_UNKNOWN_HANDLE => "Unknown Handle\n"@,
            MK_ERROR_e::MK_ERROR_UNKNOWN_PRIORITY => "Unknown Priority\n"@,
            MK_ERROR_e::MK_ERROR_ACCESS_DENIED => "Access Denied\n"@,
            MK_ERROR_e::MK_ERROR_INTERNAL => "Internal Error\n"@,
            MK_ERROR_e::MK_ERROR_VENDOR_BASE => "Reserved for VPP implementation specific\n"@,
            MK_ERROR_e::MK_ERROR_MAX => "Maximal Error Value\n"@,
        }
    }

    /// The text shown for the error, ending in a line feed.
    pub fn label(&self) -> (text: &'static str)
        ensures
            text@ == self.label_text(),
    {
        match self {
            MK_ERROR_e::MK_ERROR_NONE => "None\n",
            MK_ERROR_e::MK_ERROR_UNKNOWN_UUID => "Unknown UUID\n",
            MK_ERROR_e::MK_ERROR_SEVERE => "Severe error\n",
            MK_ERROR_e::MK_ERROR_ILLEGAL_PARAMETER => "Illegal Parameter\n",
            MK_ERROR_e::MK_ERROR_UNKNOWN_ID => "Unknown identifier\n",
            MK_ERROR_e::MK_ERROR_UNKNOWN_HANDLE => "Unknown Handle\n",
            MK_ERROR_e::MK_ERROR_UNKNOWN_PRIORITY => "Unknown Priority\n",
            MK_ERROR_e::MK_ERROR_ACCESS_DENIED => "Access Denied\n",
            MK_ERROR_e::MK_ERROR_INTERNAL => "Internal Error\n",
            MK_ERROR_e::MK_ERROR_VENDOR_BASE => "Reserved for VPP implementation specific\n",
            MK_ERROR_e::MK_ERROR_MAX => "Maximal Error Value\n",
        }
    }
}

impl From<MK_ERROR_e> for usize {
    fn from(value: MK_ERROR_e) -> (code: usize) {
        match value {
            MK_ERROR_e::MK_ERROR_NONE => 0,
            MK_ERROR_e::MK_ERROR_UNKNOWN_UUID => 1,
            MK_ERROR_e::MK_ERROR_SEVERE => 2,
            MK_ERROR_e::MK_ERROR_ILLEGAL_PARAMETER => 3,
            MK_ERROR_e::MK_ERROR_UNKNOWN_ID => 4,
            MK_ERROR_e::MK_ERROR_UNKNOWN_HANDLE => 5,
            MK_ERROR_e::MK_ERROR_UNKNOWN_PRIORITY => 6,
            MK_ERROR_e::MK_ERROR_ACCESS_DENIED => 7,
            MK_ERROR_e::MK_ERROR_INTERNAL => 8,
            MK_ERROR_e::MK_ERROR_VENDOR_BASE => 32,
            MK_ERROR_e::MK_ERROR_MAX => 255,
        }
    }
}

impl FromSpecImpl<MK_ERROR_e> for usize {
    open spec fn obeys_from_spec() -> bool {
        true
    }

    open spec fn from_spec(value: MK_ERROR_e) -> usize {
        value.code()
    }
}

/// Exception raised towards a parent process.
#[derive(Clone, Copy, Debug, PartialEq, Eq, Structural)]
pub enum MK_EXCEPTION_e {
    /// An error occurred in a child process.
    MK_EXCEPTION_ERROR,
    /// A severe exception occurred, such as a memory violation.
    MK_EXCEPTION_SEVERE,
    /// A child process died.
    MK_EXCEPTION_CHILD_PROCESS_DIED,
    /// A hardware function was detached while a process waited on it.
    MK_EXCEPTION_VRE_DETACHED,
    /// First rank left to the implementation.
    MK_EXCEPTION_VENDOR_BASE,
    /// Largest rank allowed.
    MK_EXCEPTION_MAX,
}

impl MK_EXCEPTION_e {
    /// The rank of the exception.
    pub open spec fn code(self) -> u16 {
        match self {
            MK_EXCEPTION_e::MK_EXCEPTION_ERROR => 0,
            MK_EXCEPTION_e::MK_EXCEPTION_SEVERE => 1,
            MK_EXCEPTION_e::MK_EXCEPTION_CHILD_PROCESS_DIED => 2,
            MK_EXCEPTION_e::MK_EXCEPTION_VRE_DETACHED => 3,
            MK_EXCEPTION_e::MK_EXCEPTION_VENDOR_BASE => 16,
            MK_EXCEPTION_e::MK_EXCEPTION_MAX => 31,
        }
    }
}

impl From<MK_EXCEPTION_e> for u16 {
    fn from(value: MK_EXCEPTION_e) -> (code: u16) {
        match value {
            MK_EXCEPTION_e::MK_EXCEPTION_ERROR => 0,
            MK_EXCEPTION_e::MK_EXCEPTION_SEVERE => 1,
            MK_EXCEPTION_e::MK_EXCEPTION_CHILD_PROCESS_DIED => 2,
            MK_EXCEPTION_e::MK_EXCEPTION_VRE_DETACHED => 3,
            MK_EXCEPTION_e::MK_EXCEPTION_VENDOR_BASE => 16,
            MK_EXCEPTION_e::MK_EXCEPTION_MAX => 31,
        }
    }
}

impl FromSpecImpl<MK_EXCEPTION_e> for u16 {
    open spec fn obeys_from_spec() -> bool {
        true
    }

    open spec fn from_spec(value: MK_EXCEPTION_e) -> u16 {
        value.code()
    }
}

/// Signal that a mailbox can carry: one bit of a bitmap each.
#[derive(Clone, Copy, Debug, PartialEq, Eq, Structural)]
pub enum MK_SIGNAL_e {
    /// A wait timed out.
    MK_SIGNAL_TIME_OUT,
    /// Reading a signal or a hardware function failed.
    MK_SIGNAL_ERROR,
    /// A child process raised an exception.
    MK_SIGNAL_EXCEPTION,
    /// Signal 0 for general use within an execution domain.
    MK_SIGNAL_DOMAIN_BASE_0,
    /// Signal 1 for general use within an execution domain.
    MK_SIGNAL_DOMAIN_BASE_1,
    /// Signal 2 for general use within an execution domain.
    MK_SIGNAL_DOMAIN_BASE_2,
    /// Signal 3 for general use within an execution domain.
    MK_SIGNAL_DOMAIN_BASE_3,
    /// Signal 4 for general use within an execution domain.
    MK_SIGNAL_DOMAIN_BASE_4,
    /// Signal 5 for general use within an execution domain.
    MK_SIGNAL_DOMAIN_BASE_5,
    /// Signal 6 for general use within an execution domain.
    MK_SIGNAL_DOMAIN_BASE_6,
    /// Signal 7 for general use within an execution domain.
    MK_SIGNAL_DOMAIN_BASE_7,
    /// Signal 8 for general use within an execution domain.
    MK_SIGNAL_DOMAIN_BASE_8,
    /// Signal 9 for general use within an execution domain.
    MK_SIGNAL_DOMAIN_BASE_9,
    /// Signal 10 for general use within an execution domain.
    MK_SIGNAL_DOMAIN_BASE_10,
    /// Signal 11 for general use within an execution domain.
    MK_SIGNAL_DOMAIN_BASE_11,
    /// Signal 12 for general use within an execution domain.
    MK_SIGNAL_DOMAIN_BASE_12,
    /// Signal 13 for general use within an execution domain.
    MK_SIGNAL_DOMAIN_BASE_13,
    /// Signal 14 for general use within an execution domain.
    MK_SIGNAL_DOMAIN_BASE_14,
    /// Signal 15 for general use within an execution domain.
    MK_SIGNAL_DOMAIN_BASE_15,
    /// Signal 16 for general use within an execution domain.
    MK_SIGNAL_DOMAIN_BASE_16,
    /// Signal 17 for general use within an execution domain.
    MK_SIGNAL_DOMAIN_BASE_17,
    /// Signal 18 for general use within an execution domain.
    MK_SIGNAL_DOMAIN_BASE_18,
    /// Signal 19 for general use within an execution domain.
    MK_SIGNAL_DOMAIN_BASE_19,
    /// Signal 20 for general use within an execution domain.
    MK_SIGNAL_DOMAIN_BASE_20,
    /// Signal 21 for general use within an execution domain.
    MK_SIGNAL_DOMAIN_BASE_21,
    /// Signal 22 for general use within an execution domain.
    MK_SIGNAL_DOMAIN_BASE_22,
    /// Signal 23 for general use within an execution domain.
    MK_SIGNAL_DOMAIN_BASE_23,
    /// Signal 24 for general use within an execution domain.
    MK_SIGNAL_DOMAIN_BASE_24,
    /// Signal 25 for general use within an execution domain.
    MK_SIGNAL_DOMAIN_BASE_25,
    /// Signal 26 for general use within an execution domain.
    MK_SIGNAL_DOMAIN_BASE_26,
    /// Signal 27 for general use within an execution domain.
    MK_SIGNAL_DOMAIN_BASE_27,
    /// Signal 28 for general use within an execution domain.
    MK_SIGNAL_DOMAIN_BASE_28,
}

impl MK_SIGNAL_e {
    /// The bit that stands for the signal in a bitmap.
    pub open spec fn code(self) -> u32 {
        match self {
            MK_SIGNAL_e::MK_SIGNAL_TIME_OUT => 0x0000_0001_u32,
            MK_SIGNAL_e::MK_SIGNAL_ERROR => 0x0000_0002_u32,
            MK_SIGNAL_e::MK_SIGNAL_EXCEPTION => 0x0000_0004_u32,
            MK_SIGNAL_e::MK_SIGNAL_DOMAIN_BASE_0 => 0x0000_0008_u32,
            MK_SIGNAL_e::MK_SIGNAL_DOMAIN_BASE_1 => 0x0000_0010_u32,
            MK_SIGNAL_e::MK_SIGNAL_DOMAIN_BASE_2 => 0x0000_0020_u32,
            MK_SIGNAL_e::MK_SIGNAL_DOMAIN_BASE_3 => 0x0000_0040_u32,
            MK_SIGNAL_e::MK_SIGNAL_DOMAIN_BASE_4 => 0x0000_0080_u32,
            MK_SIGNAL_e::MK_SIGNAL_DOMAIN_BASE_5 => 0x0000_0100_u32,
            MK_SIGNAL_e::MK_SIGNAL_DOMAIN_BASE_6 => 0x0000_0200_u32,
            MK_SIGNAL_e::MK_SIGNAL_DOMAIN_BASE_7 => 0x0000_0400_u32,
            MK_SIGNAL_e::MK_SIGNAL_DOMAIN_BASE_8 => 0x0000_0800_u32,
            MK_SIGNAL_e::MK_SIGNAL_DOMAIN_BASE_9 => 0x0000_1000_u32,
            MK_SIGNAL_e::MK_SIGNAL_DOMAIN_BASE_10 => 0x0000_2000_u32,
            MK_SIGNAL_e::MK_SIGNAL_DOMAIN_BASE_11 => 0x0000_4000_u32,
            MK_SIGNAL_e::MK_SIGNAL_DOMAIN_BASE_12 => 0x0000_8000_u32,
            MK_SIGNAL_e::MK_SIGNAL_DOMAIN_BASE_13 => 0x0001_0000_u32,
            MK_SIGNAL_e::MK_SIGNAL_DOMAIN_BASE_14 => 0x0002_0000_u32,
            MK_SIGNAL_e::MK_SIGNAL_DOMAIN_BASE_15 => 0x0004_0000_u32,
            MK_SIGNAL_e::MK_SIGNAL_DOMAIN_BASE_16 => 0x0008_0000_u32,
            MK_SIGNAL_e::MK_SIGNAL_DOMAIN_BASE_17 => 0x0010_0000_u32,
            MK_SIGNAL_e::MK_SIGNAL_DOMAIN_BASE_18 => 0x0020_0000_u32,
            MK_SIGNAL_e::MK_SIGNAL_DOMAIN_BASE_19 => 0x0040_0000_u32,
            MK_SIGNAL_e::MK_SIGNAL_DOMAIN_BASE_20 => 0x0080_0000_u32,
            MK_SIGNAL_e::MK_SIGNAL_DOMAIN_BASE_21 => 0x0100_0000_u32,
            MK_SIGNAL_e::MK_SIGNAL_DOMAIN_BASE_22 => 0x0200_0000_u32,
            MK_SIGNAL_e::MK_SIGNAL_DOMAIN_BASE_23 => 0x0400_0000_u32,
            MK_SIGNAL_e::MK_SIGNAL_DOMAIN_BASE_24 => 0x0800_0000_u32,
            MK_SIGNAL_e::MK_SIGNAL_DOMAIN_BASE_25 => 0x1000_0000_u32,
            MK_SIGNAL_e::MK_SIGNAL_DOMAIN_BASE_26 => 0x2000_0000_u32,
            MK_SIGNAL_e::MK_SIGNAL_DOMAIN_BASE_27 => 0x4000_0000_u32,
            MK_SIGNAL_e::MK_SIGNAL_DOMAIN_BASE_28 => 0x8000_0000_u32,
        }
    }
}

impl From<MK_SIGNAL_e> for u32 {
    fn from(value: MK_SIGNAL_e) -> (code: u32) {
        match value {
            MK_SIGNAL_e::MK_SIGNAL_TIME_OUT => 0x0000_0001_u32,
            MK_SIGNAL_e::MK_SIGNAL_ERROR => 0x0000_0002_u32,
            MK_SIGNAL_e::MK_SIGNAL_EXCEPTION => 0x0000_0004_u32,
            MK_SIGNAL_e::MK_SIGNAL_DOMAIN_BASE_0 => 0x0000_0008_u32,
            MK_SIGNAL_e::MK_SIGNAL_DOMAIN_BASE_1 => 0x0000_0010_u32,
            MK_SIGNAL_e::MK_SIGNAL_DOMAIN_BASE_2 => 0x0000_0020_u32,
            MK_SIGNAL_e::MK_SIGNAL_DOMAIN_BASE_3 => 0x0000_0040_u32,
            MK_SIGNAL_e::MK_SIGNAL_DOMAIN_BASE_4 => 0x0000_0080_u32,
            MK_SIGNAL_e::MK_SIGNAL_DOMAIN_BASE_5 => 0x0000_0100_u32,
            MK_SIGNAL_e::MK_SIGNAL_DOMAIN_BASE_6 => 0x0000_0200_u32,
            MK_SIGNAL_e::MK_SIGNAL_DOMAIN_BASE_7 => 0x0000_0400_u32,
            MK_SIGNAL_e::MK_SIGNAL_DOMAIN_BASE_8 => 0x0000_0800_u32,
            MK_SIGNAL_e::MK_SIGNAL_DOMAIN_BASE_9 => 0x0000_1000_u32,
            MK_SIGNAL_e::MK_SIGNAL_DOMAIN_BASE_10 => 0x0000_2000_u32,
            MK_SIGNAL_e::MK_SIGNAL_DOMAIN_BASE_11 => 0x0000_4000_u32,
            MK_SIGNAL_e::MK_SIGNAL_DOMAIN_BASE_12 => 0x0000_8000_u32,
            MK_SIGNAL_e::MK_SIGNAL_DOMAIN_BASE_13 => 0x0001_0000_u32,
            MK_SIGNAL_e::MK_SIGNAL_DOMAIN_BASE_14 => 0x0002_0000_u32,
            MK_SIGNAL_e::MK_SIGNAL_DOMAIN_BASE_15 => 0x0004_0000_u32,
            MK_SIGNAL_e::MK_SIGNAL_DOMAIN_BASE_16 => 0x0008_0000_u32,
            MK_SIGNAL_e::MK_SIGNAL_DOMAIN_BASE_17 => 0x0010_0000_u32,
            MK_SIGNAL_e::MK_SIGNAL_DOMAIN_BASE_18 => 0x0020_0000_u32,
            MK_SIGNAL_e::MK_SIGNAL_DOMAIN_BASE_19 => 0x0040_0000_u32,
            MK_SIGNAL_e::MK_SIGNAL_DOMAIN_BASE_20 => 0x0080_0000_u32,
            MK_SIGNAL_e::MK_SIGNAL_DOMAIN_BASE_21 => 0x0100_0000_u32,
            MK_SIGNAL_e::MK_SIGNAL_DOMAIN_BASE_22 => 0x0200_0000_u32,
            MK_SIGNAL_e::MK_SIGNAL_DOMAIN_BASE_23 => 0x0400_0000_u32,
            MK_SIGNAL_e::MK_SIGNAL_DOMAIN_BASE_24 => 0x0800_0000_u32,
            MK_SIGNAL_e::MK_SIGNAL_DOMAIN_BASE_25 => 0x1000_0000_u32,
            MK_SIGNAL_e::MK_SIGNAL_DOMAIN_BASE_26 => 0x2000_0000_u32,
            MK_SIGNAL_e::MK_SIGNAL_DOMAIN_BASE_27 => 0x4000_0000_u32,
            MK_SIGNAL_e::MK_SIGNAL_DOMAIN_BASE_28 => 0x8000_0000_u32,
        }
    }
}

impl FromSpecImpl<MK_SIGNAL_e> for u32 {
    open spec fn obeys_from_spec() -> bool {
        true
    }

    open spec fn from_spec(value: MK_SIGNAL_e) -> u32 {
        value.code()
    }
}

impl MK_SIGNAL_e {
    /// The position of the signal's bit, counted from the lowest.
    pub open spec fn position(self) -> nat {
        match self {
            MK_SIGNAL_e::MK_SIGNAL_TIME_OUT => 0,
            MK_SIGNAL_e::MK_SIGNAL_ERROR => 1,
            MK_SIGNAL_e::MK_SIGNAL_EXCEPTION => 2,
            MK_SIGNAL_e::MK_SIGNAL_DOMAIN_BASE_0 => 3,
            MK_SIGNAL_e::MK_SIGNAL_DOMAIN_BASE_1 => 4,
            MK_SIGNAL_e::MK_SIGNAL_DOMAIN_BASE_2 => 5,
            MK_SIGNAL_e::MK_SIGNAL_DOMAIN_BASE_3 => 6,
            MK_SIGNAL_e::MK_SIGNAL_DOMAIN_BASE_4 => 7,
            MK_SIGNAL_e::MK_SIGNAL_DOMAIN_BASE_5 => 8,
            MK_SIGNAL_e::MK_SIGNAL_DOMAIN_BASE_6 => 9,
            MK_SIGNAL_e::MK_SIGNAL_DOMAIN_BASE_7 => 10,
            MK_SIGNAL_e::MK_SIGNAL_DOMAIN_BASE_8 => 11,
            MK_SIGNAL_e::MK_SIGNAL_DOMAIN_BASE_9 => 12,
            MK_SIGNAL_e::MK_SIGNAL_DOMAIN_BASE_10 => 13,
            MK_SIGNAL_e::MK_SIGNAL_DOMAIN_BASE_11 => 14,
            MK_SIGNAL_e::MK_SIGNAL_DOMAIN_BASE_12 => 15,
            MK_SIGNAL_e::MK_SIGNAL_DOMAIN_BASE_13 => 16,
            MK_SIGNAL_e::MK_SIGNAL_DOMAIN_BASE_14 => 17,
            MK_SIGNAL_e::MK_SIGNAL_DOMAIN_BASE_15 => 18,
            MK_SIGNAL_e::MK_SIGNAL_DOMAIN_BASE_16 => 19,
            MK_SIGNAL_e::MK_SIGNAL_DOMAIN_BASE_17 => 20,
            MK_SIGNAL_e::MK_SIGNAL_DOMAIN_BASE_18 => 21,
            MK_SIGNAL_e::MK_SIGNAL_DOMAIN_BASE_19 => 22,
            MK_SIGNAL_e::MK_SIGNAL_DOMAIN_BASE_20 => 23,
            MK_SIGNAL_e::MK_SIGNAL_DOMAIN_BASE_21 => 24,
            MK_SIGNAL_e::MK_SIGNAL_DOMAIN_BASE_22 => 25,
            MK_SIGNAL_e::MK_SIGNAL_DOMAIN_BASE_23 => 26,
            MK_SIGNAL_e::MK_SIGNAL_DOMAIN_BASE_24 => 27,
            MK_SIGNAL_e::MK_SIGNAL_DOMAIN_BASE_25 => 28,
            MK_SIGNAL_e::MK_SIGNAL_DOMAIN_BASE_26 => 29,
            MK_SIGNAL_e::MK_SIGNAL_DOMAIN_BASE_27 => 30,
            MK_SIGNAL_e::MK_SIGNAL_DOMAIN_BASE_28 => 31,
        }
    }
}

/// Each signal is one bit: two to the power of its position.
pub proof fn lemma_signal_is_single_bit(signal: MK_SIGNAL_e)
    ensures
        signal.position() < 32,
        signal.code() as int == vstd::arithmetic::power2::pow2(signal.position()),
{
    vstd::arithmetic::power2::lemma2_to64();
}

/// Distinct signals never share a bit.
pub proof fn lemma_signals_are_distinct(a: MK_SIGNAL_e, b: MK_SIGNAL_e)
    ensures
        a.code() == b.code() <==> a == b,
{
}

/// Lifecycle state of a process.
#[derive(Clone, Copy, Debug, PartialEq, Eq, Structural)]
pub enum VppState {
    /// Waiting to be given the processor.
    READY,
    /// Executing.
    RUNNING,
    /// Suspended while ready or running.
    SUSPENDED_R,
    /// Waiting for a signal.
    WAITING,
    /// Suspended while waiting for a signal.
    SUSPENDED_W,
    /// Waiting on a synchronisation.
    SYNC,
    /// Suspended while waiting on a synchronisation.
    SUSPENDED_S,
    /// Terminated for good.
    DEAD,
    /// Matches every state; no process is ever in it.
    ANY_STATE,
}

impl VppState {
    /// The text shown for the state, ending in a line feed.
    pub open spec fn label_text(self) -> Seq<char> {
        match self {
            VppState::READY => "Ready\n"@,
            VppState::RUNNING => "Running\n"@,
            VppState::SUSPENDED_R => "S_R\n"@,
            VppState::WAITING => "Waiting\n"@,
            VppState::SUSPENDED_W => "S_W\n"@,
            VppState::SYNC => "Sync\n"@,
            VppState::SUSPENDED_S => "S_S\n"@,
            VppState::DEAD => "Dead\n"@,
            VppState::ANY_STATE => "ANY_STATE\n"@,
        }
    }

    /// The text shown for the state, ending in a line feed.
    pub fn label(&self) -> (text: &'static str)
        ensures
            text@ == self.label_text(),
    {
        match self {
            VppState::READY => "Ready\n",
            VppState::RUNNING => "Running\n",
            VppState::SUSPENDED_R => "S_R\n",
            VppState::WAITING => "Waiting\n",
            VppState::SUSPENDED_W => "S_W\n",
            VppState::SYNC => "Sync\n",
            VppState::SUSPENDED_S => "S_S\n",
            VppState::DEAD => "Dead\n",
            VppState::ANY_STATE => "ANY_STATE\n",
        }
    }
}

/// How the processes of a firmware are scheduled.
#[derive(Clone, Copy, Debug, PartialEq, Eq, Structural)]
pub enum VPP_SCHEDULING_TYPE_e {
    /// Processes give up the processor themselves.
    MK_SCHEDULING_TYPE_COLLABORATIVE,
    /// The kernel takes the processor away.
    MK_SCHEDULING_TYPE_PREEMPTIVE,
}

impl VPP_SCHEDULING_TYPE_e {
    /// The code of the scheduling type.
    pub open spec fn code(self) -> u8 {
        match self {
            VPP_SCHEDULING_TYPE_e::MK_SCHEDULING_TYPE_COLLABORATIVE => 0x01,
            VPP_SCHEDULING_TYPE_e::MK_SCHEDULING_TYPE_PREEMPTIVE => 0x02,
        }
    }
}

impl From<VPP_SCHEDULING_TYPE_e> for u8 {
    fn from(value: VPP_SCHEDULING_TYPE_e) -> (code: u8) {
        match value {
            VPP_SCHEDULING_TYPE_e::MK_SCHEDULING_TYPE_COLLABORATIVE => 0x01,
            VPP_SCHEDULING_TYPE_e::MK_SCHEDULING_TYPE_PREEMPTIVE => 0x02,
        }
    }
}

impl FromSpecImpl<VPP_SCHEDULING_TYPE_e> for u8 {
    open spec fn obeys_from_spec() -> bool {
        true
    }

    open spec fn from_spec(value: VPP_SCHEDULING_TYPE_e) -> u8 {
        value.code()
    }
}

/// Ticks granted to an application to shut down gracefully.
pub const MK_APP_STOP_GRACEFUL_TICKS: u8 = 10;

/// Smallest enumerated channel identifier open to an execution domain.
pub const MK_IPC_DOMAIN_BASE_ID: u8 = 100;

/// Largest number of channel descriptors per firmware, and of accesses that a
/// channel hands out at one time.
pub const MK_IPC_LIMIT: usize = 64;

/// Largest enumerated channel identifier.
pub const MK_IPC_MAX_ID: u16 = 0x3FFF;

/// Smallest enumerated library identifier open to an execution domain.
pub const MK_LIB_DOMAIN_BASE_ID: u8 = 100;

/// Largest number of library descriptors per firmware.
pub const MK_LIB_LIMIT: u8 = 32;

/// Largest enumerated library identifier.
pub const MK_LIB_MAX_ID: u16 = 0x3FFF;

/// Smallest enumerated mailbox identifier open to an execution domain.
pub const MK_MAILBOX_DOMAIN_BASE_ID: u8 = 100;

/// Largest number of mailbox descriptors per firmware.
pub const MK_MAILBOX_LIMIT: usize = 64;

/// Largest enumerated mailbox identifier.
pub const MK_MAILBOX_MAX_ID: u16 = 0x3FFF;

/// Number of signal bitmaps that a mailbox holds before it turns further
/// ones away.
pub const MK_MAILBOX_SIGNAL_LIMIT: usize = 32;

/// Smallest number of channels that a process can hold open at one time.
pub const MK_MIN_CONCURRENT_IPC_LIMIT: u8 = 6;

/// Smallest total of stack bytes that the platform supports per application.
pub const MK_MIN_STACKS_SUM_SUPPORTED: u16 = 24_000;

/// Smallest number of channel descriptors in a firmware.
pub const MK_MIN_APP_IPC: u8 = 0;

/// Smallest number of mailbox descriptors in a firmware.
pub const MK_MIN_APP_MAILBOXES: u8 = 0;

/// Smallest number of processes in an application.
pub const MK_MIN_APP_PROCESSS: u8 = 1;

/// Smallest size in bytes of the virtual memory.
pub const MK_MIN_VIRTUAL_MEMORY_SIZE: u16 = 1_000;

/// Smallest enumerated process identifier open to an execution domain.
pub const MK_PROCESS_DOMAIN_BASE_ID: u8 = 100;

/// Largest number of process descriptors per firmware.
pub const MK_PROCESS_LIMIT: u8 = 32;

/// Largest enumerated process identifier.
pub const MK_MAX_PROCESS_ID: u16 = 0x3FFF;

/// Smallest stack that a process can be given, in stack elements.
pub const MK_MIN_SUPPORTED_STACK: u16 = 512;

/// Tag of the application domain in the top two bits of an identifier.
pub const MK_DOMAIN_TAG_APP: u16 = 1;

/// Tag of the platform domain in the top two bits of an identifier.
pub const MK_DOMAIN_TAG_VPP: u16 = 2;

/// Identifier of the communication process.
pub const MK_PROCESS_COM_VPP_ID: MK_Process_ID_u = 0x8000;

/// Identifier of the management process.
pub const MK_PROCESS_MGT_VPP_ID: MK_Process_ID_u = 0x8001;

/// Identifier of the application's main process.
pub const MK_PROCESS_MAIN_APP_ID: MK_Process_ID_u = 0x4000;

/// Mailbox of the communication process; the main process sends.
pub const MK_MAILBOX_COM_MAIN_ID: MK_MAILBOX_ID_u = 0x8000;

/// Mailbox of the management process; the main process sends.
pub const MK_MAILBOX_MGT_MAIN_ID: MK_MAILBOX_ID_u = 0x8001;

/// Mailbox of the main process; the communication process sends.
pub const MK_MAILBOX_MAIN_COM_ID: MK_MAILBOX_ID_u = 0x4000;

/// Mailbox of the main process; the management process sends.
pub const MK_MAILBOX_MAIN_MGT_ID: MK_MAILBOX_ID_u = 0x4001;

/// Channel written by the main process and read by the communication process.
pub const MK_IPC_MAIN_COM_ID: MK_IPC_ID_u = 0x4000;

/// Channel written by the communication process and read by the main process.
pub const MK_IPC_COM_MAIN_ID: MK_IPC_ID_u = 0x8000;

/// Channel written by the main process and read by the management process.
pub const MK_IPC_MAIN_MGT_ID: MK_IPC_ID_u = 0x4001;

/// Channel written by the management process and read by the main process.
pub const MK_IPC_MGT_MAIN_ID: MK_IPC_ID_u = 0x8001;

/// Length in bytes of the channels between the main and the communication
/// process.
pub const MK_IPC_COM_LENGTH: u16 = 64;

/// Length in bytes of the channels between the main and the management
/// process.
pub const MK_IPC_MGT_LENGTH: u16 = 6144;

/// The channel was updated.
pub const MK_SIGNAL_IPC_UPDATED: MK_SIGNAL_e = MK_SIGNAL_e::MK_SIGNAL_DOMAIN_BASE_0;

/// The management process asks the main process to terminate.
pub const MK_SIGNAL_KILL_REQUESTED: MK_SIGNAL_e = MK_SIGNAL_e::MK_SIGNAL_DOMAIN_BASE_1;

/// The main process accepts the request to terminate.
pub const MK_SIGNAL_KILL_ACCEPTED: MK_SIGNAL_e = MK_SIGNAL_e::MK_SIGNAL_DOMAIN_BASE_1;

/// The main process asks for the application to be restarted.
pub const MK_SIGNAL_APP_RESTART: MK_SIGNAL_e = MK_SIGNAL_e::MK_SIGNAL_DOMAIN_BASE_2;

/// The main process terminated itself.
pub const MK_SIGNAL_KILL_ITSELF: MK_SIGNAL_e = MK_SIGNAL_e::MK_SIGNAL_DOMAIN_BASE_3;

/// The composite identifier made of a domain tag and an enumerated index:
/// the low two bits of the tag above the low fourteen bits of the index.
pub open spec fn composite(domain: u16, index: u16) -> u16 {
    ((domain as int % 4) * 0x4000 + index as int % 0x4000) as u16
}

/// The domain tag of a composite identifier: its top two bits.
pub open spec fn domain_of(id: u16) -> u16 {
    (id as int / 0x4000) as u16
}

/// The enumerated index of a composite identifier: its low fourteen bits.
pub open spec fn index_of(id: u16) -> u16 {
    (id as int % 0x4000) as u16
}

/// Packs a domain tag and an enumerated index into a composite identifier.
pub fn composite_id(domain: u16, index: u16) -> (id: u16)
    ensures
        id == composite(domain, index),
{
    assert(((index & 0x3FFF) | ((domain & 3) << 14)) == ((domain % 4) * 0x4000 + index % 0x4000))
        by (bit_vector);
    (index & 0x3FFF) | ((domain & 3) << 14)
}

/// The domain tag that a composite identifier carries.
pub fn domain_tag(id: u16) -> (tag: u16)
    ensures
        tag == domain_of(id),
{
    assert(id >> 14 == id / 0x4000) by (bit_vector);
    id >> 14
}

/// The enumerated index that a composite identifier carries.
pub fn enumerated_index(id: u16) -> (index: u16)
    ensures
        index == index_of(id),
{
    assert(id & 0x3FFF == id % 0x4000) by (bit_vector);
    id & 0x3FFF
}

/// A composite identifier made of a two-bit tag and a fourteen-bit index
/// gives both back.
pub proof fn lemma_composite_round_trip(domain: u16, index: u16)
    requires
        domain < 4,
        index <= 0x3FFF,
    ensures
        domain_of(composite(domain, index)) == domain,
        index_of(composite(domain, index)) == index,
{
}

/// The reserved identifiers are the composites of their domain and index.
pub proof fn lemma_reserved_identifiers()
    ensures
        MK_DOMAIN_TAG_APP == MK_EXECUTION_DOMAIN_TYPE_e::MK_EXECUTION_DOMAIN_TYPE_APP.code(),
        MK_DOMAIN_TAG_VPP == MK_EXECUTION_DOMAIN_TYPE_e::MK_EXECUTION_DOMAIN_TYPE_VPP.code(),
        MK_PROCESS_COM_VPP_ID == composite(MK_DOMAIN_TAG_VPP, 0),
        MK_PROCESS_MGT_VPP_ID == composite(MK_DOMAIN_TAG_VPP, 1),
        MK_PROCESS_MAIN_APP_ID == composite(MK_DOMAIN_TAG_APP, 0),
        MK_MAILBOX_COM_MAIN_ID == composite(MK_DOMAIN_TAG_VPP, 0),
        MK_MAILBOX_MGT_MAIN_ID == composite(MK_DOMAIN_TAG_VPP, 1),
        MK_MAILBOX_MAIN_COM_ID == composite(MK_DOMAIN_TAG_APP, 0),
        MK_MAILBOX_MAIN_MGT_ID == composite(MK_DOMAIN_TAG_APP, 1),
        MK_IPC_MAIN_COM_ID == composite(MK_DOMAIN_TAG_APP, 0),
        MK_IPC_COM_MAIN_ID == composite(MK_DOMAIN_TAG_VPP, 0),
        MK_IPC_MAIN_MGT_ID == composite(MK_DOMAIN_TAG_APP, 1),
        MK_IPC_MGT_MAIN_ID == composite(MK_DOMAIN_TAG_VPP, 1),
{
}

/// The handle that stands for a composite identifier: the identifier itself,
/// widened to 32 bits.
pub open spec fn handle_of(id: u16) -> u32 {
    id as u32
}

/// The composite identifier that a handle carries: its low 16 bits.
pub open spec fn id_of(handle: u32) -> u16 {
    (handle as int % 0x1_0000) as u16
}

fn low_half(handle: u32) -> (id: u16)
    ensures
        id == id_of(handle),
{
    assert(handle & 0xFFFF == handle % 0x1_0000) by (bit_vector);
    (handle & 0xFFFF) as u16
}

/// The handle of the channel with the given identifier.
pub fn convert_ipcID_to_handle(_eIPCID: MK_IPC_ID_u) -> (handle: MK_HANDLE_t)
    ensures
        handle == handle_of(_eIPCID),
{
    _eIPCID as u32
}

/// The channel identifier that a handle carries.
pub fn convert_handle_to_ipcID(handle: MK_HANDLE_t) -> (id: MK_IPC_ID_u)
    ensures
        id == id_of(handle),
{
    low_half(handle)
}

/// The handle of the mailbox with the given identifier.
pub fn convert_mbid_to_handle(_eMailboxID: MK_MAILBOX_ID_u) -> (handle: MK_HANDLE_t)
    ensures
        handle == handle_of(_eMailboxID),
{
    _eMailboxID as u32
}

/// The mailbox identifier that a handle carries.
pub fn convert_handle_to_mbid(handle: MK_HANDLE_t) -> (id: MK_MAILBOX_ID_u)
    ensures
        id == id_of(handle),
{
    low_half(handle)
}

/// The handle of the process with the given identifier.
pub fn convert_to_handle(id: MK_Process_ID_u) -> (handle: MK_HANDLE_t)
    ensures
        handle == handle_of(id),
{
    id as u32
}

/// The process identifier that a handle carries.
pub fn convert_to_id(handle: MK_HANDLE_t) -> (id: MK_Process_ID_u)
    ensures
        id == id_of(handle),
{
    low_half(handle)
}

/// Every identifier comes back unchanged from its handle.
pub proof fn lemma_handle_round_trip(id: u16)
    ensures
        id_of(handle_of(id)) == id,
{
}

/// Two handles name the same object exactly when their low 16 bits agree; the
/// handle made from an identifier is the smallest that names it.
pub proof fn lemma_handle_of_id(handle: u32)
    ensures
        handle_of(id_of(handle)) == handle <==> handle <= 0xFFFF,
        handle_of(id_of(handle)) <= handle,
{
}

} // verus!
