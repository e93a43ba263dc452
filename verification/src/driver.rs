//! The dispatcher at the boundary to the applications: numbered commands,
//! the registration of shared buffers and the registration of
//! notifications, each mapped onto the kernel's operations. Every request
//! comes with the identity of the calling application and is answered at
//! once.
use vstd::prelude::*;
use crate::ipc::AppSlice;
use crate::mailbox::Callback;
use crate::mloi::{MK_ERROR_e, MK_HANDLE_t};
use crate::process::AppId;
use crate::vppkernel::{KernelView, VppKernel};

verus! {

/// Answer to a request from an application.
#[derive(Clone, Copy, Debug, PartialEq, Eq, Structural)]
pub enum ReturnCode {
    /// Done, with a value for the caller.
    SuccessWithValue { value: usize },
    /// Done.
    SUCCESS,
    /// Not done.
    FAIL,
    /// The caller's region could not be entered.
    EBUSY,
    /// No such command.
    ENOSUPPORT,
}

/// Command: is the dispatcher there?
pub const COMMAND_PING: usize = 0;

/// Command: the handle of the process with an identifier.
pub const COMMAND_GET_PROCESS_HANDLE: usize = 1;

/// Command: the handle of the mailbox with an identifier.
pub const COMMAND_GET_MAILBOX_HANDLE: usize = 5;

/// Command: send a bitmap of signals to a mailbox.
pub const COMMAND_SEND_SIGNAL: usize = 6;

/// Command: read a bitmap of signals from a mailbox.
pub const COMMAND_GET_SIGNAL: usize = 7;

/// Command: the address of the buffer shared through a channel.
pub const COMMAND_GET_IPC_BUFFER: usize = 15;

/// Command: the length of a channel.
pub const COMMAND_GET_IPC_LENGTH: usize = 20;

/// Command: the handle of the channel with an identifier.
pub const COMMAND_GET_IPC_HANDLE: usize = 21;

/// Command: set memory aside for the application image.
pub const COMMAND_RESERVE_IMAGE: usize = 30;

/// Command: the last error of a process.
pub const COMMAND_GET_ERROR: usize = 100;

/// Value handed back to an application whose notification was recorded.
pub const SUBSCRIBED: usize = 0x007;

/// The 16-bit identifier in an argument of a command: its low 16 bits.
pub open spec fn id_in(data: usize) -> u16 {
    (data as int % 0x1_0000) as u16
}

/// The handle in an argument of a command: its low 32 bits.
pub open spec fn word_in(data: usize) -> u32 {
    (data as int % 0x1_0000_0000) as u32
}

/// The answer that carries a handle: the handle, or 0 where there is none.
pub open spec fn handle_answer(handle: Option<MK_HANDLE_t>) -> ReturnCode {
    match handle {
        Some(found) => ReturnCode::SuccessWithValue { value: found as usize },
        None => ReturnCode::SuccessWithValue { value: 0 },
    }
}

/// The answer that carries an error code.
pub open spec fn error_answer(error: MK_ERROR_e) -> ReturnCode {
    ReturnCode::SuccessWithValue { value: error.code() }
}

impl KernelView {
    /// Whether the application is the one that sends to the mailbox.
    pub open spec fn is_sender(self, handle: MK_HANDLE_t, appid: AppId) -> bool {
        match self.mailbox(handle) {
            Some(mailbox) => appid.index == mailbox.sender_process_index,
            None => false,
        }
    }

    /// Whether the application is the one that receives from the mailbox.
    pub open spec fn is_owner(self, handle: MK_HANDLE_t, appid: AppId) -> bool {
        match self.mailbox(handle) {
            Some(mailbox) => appid.index == mailbox.owner_process_index,
            None => false,
        }
    }

    /// The answer to a request to send a signal: the outcome of the
    /// sending, or a denial for a caller that is not the sender of the
    /// mailbox.
    pub open spec fn send_answer(self, handle: MK_HANDLE_t, appid: AppId) -> ReturnCode {
        if self.mailbox(handle) is Some && !self.is_sender(handle, appid) {
            error_answer(MK_ERROR_e::MK_ERROR_ACCESS_DENIED)
        } else {
            error_answer(self.send_outcome(handle))
        }
    }

    /// The answer to a request to read a signal: the bitmap, or a failure
    /// for a handle that names no mailbox and for a caller that is not the
    /// owner of the mailbox.
    pub open spec fn signal_answer(self, handle: MK_HANDLE_t, appid: AppId) -> ReturnCode {
        if self.is_owner(handle, appid) {
            ReturnCode::SuccessWithValue { value: self.mailbox(handle)->Some_0.oldest() as usize }
        } else {
            ReturnCode::FAIL
        }
    }

    /// The answer to a request for the address of a channel's buffer: the
    /// address of what the writer registered. A failure where the handle
    /// names no channel, no process is loaded for the writer, or nothing is
    /// registered; busy where the writer has no region in the channel.
    pub open spec fn buffer_answer(self, handle: MK_HANDLE_t) -> ReturnCode {
        match self.ipc(handle) {
            Some(channel) => match self.app_of_index(channel.writer_process_index) {
                Some(writer) => if !channel.has_region(writer) {
                    ReturnCode::EBUSY
                } else {
                    match channel.buffer_of(writer) {
                        Some(slice) => ReturnCode::SuccessWithValue { value: slice.ptr },
                        None => ReturnCode::FAIL,
                    }
                },
                None => ReturnCode::FAIL,
            },
            None => ReturnCode::FAIL,
        }
    }

    /// The answer to a request for the length of a channel.
    pub open spec fn length_answer(self, handle: MK_HANDLE_t) -> ReturnCode {
        match self.ipc(handle) {
            Some(channel) => ReturnCode::SuccessWithValue {
                value: channel.m_uLength_IPC as usize,
            },
            None => ReturnCode::FAIL,
        }
    }

    /// The answer to a command.
    pub open spec fn command_answer(
        self,
        command_num: usize,
        data: usize,
        data2: usize,
        appid: AppId,
    ) -> ReturnCode {
        if command_num == COMMAND_PING {
            ReturnCode::SUCCESS
        } else if command_num == COMMAND_GET_PROCESS_HANDLE {
            handle_answer(self.process_handle(id_in(data)))
        } else if command_num == COMMAND_GET_MAILBOX_HANDLE {
            handle_answer(self.mailbox_handle(id_in(data)))
        } else if command_num == COMMAND_SEND_SIGNAL {
            self.send_answer(word_in(data), appid)
        } else if command_num == COMMAND_GET_SIGNAL {
            self.signal_answer(word_in(data), appid)
        } else if command_num == COMMAND_GET_IPC_BUFFER {
            self.buffer_answer(word_in(data))
        } else if command_num == COMMAND_GET_IPC_LENGTH {
            self.length_answer(word_in(data))
        } else if command_num == COMMAND_GET_IPC_HANDLE {
            handle_answer(self.ipc_handle(id_in(data)))
        } else if command_num == COMMAND_RESERVE_IMAGE {
            ReturnCode::SUCCESS
        } else if command_num == COMMAND_GET_ERROR {
            error_answer(self.last_error(word_in(data)))
        } else {
            ReturnCode::ENOSUPPORT
        }
    }

    /// The kernel after a command.
    pub open spec fn commanded(self, command_num: usize, data: usize, data2: usize, appid: AppId)
        -> KernelView {
        if command_num == COMMAND_GET_PROCESS_HANDLE {
            self.resolved(crate::mloi::handle_of(id_in(data)))
        } else if command_num == COMMAND_SEND_SIGNAL && self.is_sender(word_in(data), appid) {
            self.sent(word_in(data), word_in(data2))
        } else if command_num == COMMAND_GET_SIGNAL && self.is_owner(word_in(data), appid) {
            self.received(word_in(data))
        } else {
            self
        }
    }

    /// The answer to the registration of a shared buffer: done where the
    /// application writes a channel.
    pub open spec fn allow_answer(self, appid: AppId) -> ReturnCode {
        if self.ipc_of_writer(appid) is Some {
            ReturnCode::SUCCESS
        } else {
            ReturnCode::FAIL
        }
    }

    /// The answer to the registration of a notification: a failure where
    /// the handle names no mailbox or the application is not the sender of
    /// the mailbox, busy where the application has no region in it.
    pub open spec fn subscribe_answer(self, handle: usize, app_id: AppId) -> ReturnCode {
        if !self.is_sender(word_in(handle), app_id) {
            ReturnCode::FAIL
        } else if !self.mailbox(word_in(handle))->Some_0.has_region(app_id) {
            ReturnCode::EBUSY
        } else {
            ReturnCode::SuccessWithValue { value: SUBSCRIBED }
        }
    }

    /// The kernel after the registration of a notification.
    pub open spec fn subscribe_done(
        self,
        handle: usize,
        callback: Option<Callback>,
        app_id: AppId,
    ) -> KernelView {
        if self.is_sender(word_in(handle), app_id) {
            self.subscribed(word_in(handle), app_id, callback)
        } else {
            self
        }
    }
}

/// The 16-bit identifier in an argument of a command.
pub fn id_of_argument(data: usize) -> (id: u16)
    ensures
        id == id_in(data),
{
    (data % 0x1_0000) as u16
}

/// The handle in an argument of a command.
pub fn word_of_argument(data: usize) -> (word: u32)
    ensures
        word == word_in(data),
{
    (data as u64 % 0x1_0000_0000) as u32
}

/// The dispatcher.
#[derive(Debug)]
pub struct vpp_kernel_driver {
    /// The kernel that the requests go to.
    pub vpp_kernel: VppKernel,
}

impl View for vpp_kernel_driver {
    type V = KernelView;

    open spec fn view(&self) -> KernelView {
        self.vpp_kernel@
    }
}

impl vpp_kernel_driver {
    /// A dispatcher in front of the given kernel.
    pub fn new(vpp_kernel: VppKernel) -> (driver: vpp_kernel_driver)
        ensures
            driver.vpp_kernel == vpp_kernel,
    {
        vpp_kernel_driver { vpp_kernel }
    }

    fn answer_handle(handle: Option<MK_HANDLE_t>) -> (answer: ReturnCode)
        ensures
            answer == handle_answer(handle),
    {
        match handle {
            Some(found) => ReturnCode::SuccessWithValue { value: found as usize },
            None => ReturnCode::SuccessWithValue { value: 0 },
        }
    }

    fn answer_error(error: MK_ERROR_e) -> (answer: ReturnCode)
        ensures
            answer == error_answer(error),
    {
        ReturnCode::SuccessWithValue { value: usize::from(error) }
    }

    fn send_signal(&mut self, handle: MK_HANDLE_t, bitmap: u32, appid: AppId) -> (answer:
        ReturnCode)
        ensures
            answer == old(self)@.send_answer(handle, appid),
            final(self)@ == if old(self)@.is_sender(handle, appid) {
                old(self)@.sent(handle, bitmap)
            } else {
                old(self)@
            },
    {
        let denied = match self.vpp_kernel.Get_Mailbox_ref_internal(handle) {
            Some(mailbox) => mailbox.get_sender_proc_i() as usize != appid.index(),
            None => false,
        };
        if denied {
            Self::answer_error(MK_ERROR_e::MK_ERROR_ACCESS_DENIED)
        } else {
            let error = self.vpp_kernel._mk_Send_Signal(handle, bitmap);
            Self::answer_error(error)
        }
    }

    fn get_signal(&mut self, handle: MK_HANDLE_t, appid: AppId) -> (answer: ReturnCode)
        ensures
            answer == old(self)@.signal_answer(handle, appid),
            final(self)@ == if old(self)@.is_owner(handle, appid) {
                old(self)@.received(handle)
            } else {
                old(self)@
            },
    {
        let allowed = match self.vpp_kernel.Get_Mailbox_ref_internal(handle) {
            Some(mailbox) => mailbox.get_owner_proc_i() as usize == appid.index(),
            None => false,
        };
        if allowed {
            match self.vpp_kernel._mk_Get_Signal(handle) {
                Some(bitmap) => ReturnCode::SuccessWithValue { value: bitmap as usize },
                None => ReturnCode::FAIL,
            }
        } else {
            ReturnCode::FAIL
        }
    }

    fn ipc_buffer(&self, handle: MK_HANDLE_t) -> (answer: ReturnCode)
        ensures
            answer == self@.buffer_answer(handle),
    {
        match self.vpp_kernel.Get_IPC_ref_internal(handle) {
            Some(channel) => {
                match self.vpp_kernel.Convert_Index_to_Appid(channel.get_writer_proc_i()) {
                    Some(writer) => {
                        if writer.index() >= channel.data.len() {
                            ReturnCode::EBUSY
                        } else {
                            match channel.shared_memory(writer) {
                                Some(slice) => ReturnCode::SuccessWithValue { value: slice.ptr() },
                                None => ReturnCode::FAIL,
                            }
                        }
                    },
                    None => ReturnCode::FAIL,
                }
            },
            None => ReturnCode::FAIL,
        }
    }

    fn ipc_length(&self, handle: MK_HANDLE_t) -> (answer: ReturnCode)
        ensures
            answer == self@.length_answer(handle),
    {
        match self.vpp_kernel.Get_IPC_ref_internal(handle) {
            Some(channel) => ReturnCode::SuccessWithValue { value: channel.get_ipc_len() as usize },
            None => ReturnCode::FAIL,
        }
    }

    /// Carries out a numbered command for the calling application and
    /// answers at once. A number that stands for no command is answered as
    /// unsupported and changes nothing. Only the sender of a mailbox may
    /// send to it and only its owner may read from it.
    pub fn command(&mut self, command_num: usize, data: usize, data2: usize, _appid: AppId) -> (answer:
        ReturnCode)
        ensures
            answer == old(self)@.command_answer(command_num, data, data2, _appid),
            final(self)@ == old(self)@.commanded(command_num, data, data2, _appid),
    {
        match command_num {
            0 => ReturnCode::SUCCESS,
            1 => {
                let handle = self.vpp_kernel._mk_Get_Process_Handle(id_of_argument(data));
                Self::answer_handle(handle)
            },
            5 => {
                let mb_handle = self.vpp_kernel._mk_Get_Mailbox_Handle(id_of_argument(data));
                Self::answer_handle(mb_handle)
            },
            6 => self.send_signal(word_of_argument(data), word_of_argument(data2), _appid),
            7 => self.get_signal(word_of_argument(data), _appid),
            15 => self.ipc_buffer(word_of_argument(data)),
            20 => self.ipc_length(word_of_argument(data)),
            21 => {
                let ipc_handle = self.vpp_kernel._mk_Get_IPC_Handle(id_of_argument(data));
                Self::answer_handle(ipc_handle)
            },
            30 => ReturnCode::SUCCESS,
            100 => {
                let error = self.vpp_kernel._mk_Get_Error(word_of_argument(data));
                Self::answer_error(error)
            },
            _ => ReturnCode::ENOSUPPORT,
        }
    }

    /// Registers the buffer that the calling application shares as writer
    /// of a channel, or withdraws it where `shared_mem` is `None`. An
    /// application that writes no channel is answered with a failure.
    pub fn allow(&mut self, appid: AppId, _data: usize, shared_mem: Option<AppSlice>) -> (answer:
        ReturnCode)
        ensures
            answer == old(self)@.allow_answer(appid),
            final(self)@ == old(self)@.allowed(appid, shared_mem),
    {
        if self.vpp_kernel.expose(appid, shared_mem) {
            ReturnCode::SUCCESS
        } else {
            ReturnCode::FAIL
        }
    }

    /// Registers the notification of the calling application for the
    /// mailbox that the handle names, or drops it where `callback` is
    /// `None`. Only the sender of the mailbox may register one.
    pub fn subscribe(&mut self, handle: usize, callback: Option<Callback>, app_id: AppId) -> (answer:
        ReturnCode)
        ensures
            answer == old(self)@.subscribe_answer(handle, app_id),
            final(self)@ == old(self)@.subscribe_done(handle, callback, app_id),
    {
        let mailbox_handle = word_of_argument(handle);
        let is_sender = match self.vpp_kernel.Get_Mailbox_ref_internal(mailbox_handle) {
            Some(mailbox) => mailbox.get_sender_proc_i() as usize == app_id.index(),
            None => false,
        };
        if !is_sender {
            ReturnCode::FAIL
        } else if self.vpp_kernel.register_mailbox_notification(mailbox_handle, app_id, callback) {
            ReturnCode::SuccessWithValue { value: SUBSCRIBED }
        } else {
            assert(self@.mailboxes =~= old(self)@.mailboxes);
            ReturnCode::EBUSY
        }
    }
}

} // verus!
