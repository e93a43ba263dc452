//! Shared-memory channels: one writing and one reading process per channel,
//! the buffer that the writer registered, and the accesses handed out.
use vstd::prelude::*;
use crate::mailbox::Callback;
use crate::mloi::{
    MK_IPC_ID_u, MK_Index_t, MK_IPC_COM_LENGTH, MK_IPC_COM_MAIN_ID, MK_IPC_LIMIT,
    MK_IPC_MAIN_COM_ID, MK_IPC_MAIN_MGT_ID, MK_IPC_MGT_LENGTH, MK_IPC_MGT_MAIN_ID,
};
use crate::process::{AppId, COM_PROCESS_INDEX, MAIN_PROCESS_INDEX, MGT_PROCESS_INDEX, NUM_PROCS};

verus! {

/// A buffer in the memory of one application that it shares through the
/// kernel. The kernel never copies the bytes: it records where they are and
/// who else may see them.
#[derive(Clone, Copy, Debug, PartialEq, Eq, Structural)]
pub struct AppSlice {
    /// The application that owns the memory.
    pub owner: AppId,
    /// Address of the first byte.
    pub ptr: usize,
    /// Number of bytes.
    pub len: usize,
    /// The application to which the buffer is exposed for reading.
    pub exposed_to: Option<AppId>,
}

impl AppSlice {
    /// A buffer of an application that nobody else sees yet.
    pub fn new(owner: AppId, ptr: usize, len: usize) -> (slice: AppSlice)
        ensures
            slice == (AppSlice { owner, ptr, len, exposed_to: None }),
    {
        AppSlice { owner, ptr, len, exposed_to: None }
    }

    /// Address of the first byte.
    pub fn ptr(&self) -> (ptr: usize)
        ensures
            ptr == self.ptr,
    {
        self.ptr
    }

    /// Number of bytes.
    pub fn len(&self) -> (len: usize)
        ensures
            len == self.len,
    {
        self.len
    }

    /// Lets one more application read the buffer.
    pub fn expose_to(&mut self, app: AppId)
        ensures
            *final(self) == (AppSlice { exposed_to: Some(app), ..*old(self) }),
    {
        self.exposed_to = Some(app);
    }
}

/// What one application keeps in a channel: the buffer that it shares,
/// and the notification to give when it shares a new one.
#[derive(Clone, Copy, Debug, PartialEq, Eq, Structural)]
pub struct ipcData {
    /// The shared buffer.
    pub shared_memory: Option<AppSlice>,
    /// The notification for new data.
    pub callback: Option<Callback>,
}

impl Default for ipcData {
    fn default() -> (data: ipcData)
        ensures
            data == (ipcData { shared_memory: None, callback: None }),
    {
        ipcData { shared_memory: None, callback: None }
    }
}

/// What a process may do with the buffer of a channel.
#[derive(Clone, Copy, Debug, PartialEq, Eq, Structural)]
pub enum IpcAccess {
    /// Read and write: the writer's access.
    ReadWrite,
    /// Read only: the reader's access.
    ReadOnly,
}

/// A shared-memory channel.
#[derive(Debug)]
pub struct ipc {
    /// Composite identifier.
    pub ipc_id: MK_IPC_ID_u,
    /// Length of the shared memory in bytes.
    pub m_uLength_IPC: u16,
    /// Index of the process that writes.
    pub writer_process_index: MK_Index_t,
    /// Index of the process that reads.
    pub reader_process_index: MK_Index_t,
    /// One region per application, by application index.
    pub data: Vec<ipcData>,
    /// Number of accesses handed out and not yet released.
    pub accesses: usize,
}

/// A channel as the contracts see it.
pub struct IpcView {
    /// Composite identifier.
    pub ipc_id: MK_IPC_ID_u,
    /// Length of the shared memory in bytes.
    pub m_uLength_IPC: u16,
    /// Index of the process that writes.
    pub writer_process_index: MK_Index_t,
    /// Index of the process that reads.
    pub reader_process_index: MK_Index_t,
    /// The region of each application, by application index.
    pub data: Seq<ipcData>,
    /// Number of accesses handed out and not yet released.
    pub accesses: usize,
}

impl IpcView {
    /// A channel as it is right after creation: nothing shared, no access
    /// handed out.
    pub open spec fn created(
        ipc_id: MK_IPC_ID_u,
        length: u16,
        writer_proc: MK_Index_t,
        reader_proc: MK_Index_t,
    ) -> IpcView {
        IpcView {
            ipc_id,
            m_uLength_IPC: length,
            writer_process_index: writer_proc,
            reader_process_index: reader_proc,
            data: nothing_shared(),
            accesses: 0,
        }
    }

    /// What the application may do with the buffer: the writer reads and
    /// writes, the reader reads, anyone else is denied.
    pub open spec fn access_of(self, caller: AppId) -> Option<IpcAccess> {
        if caller.index == self.writer_process_index {
            Some(IpcAccess::ReadWrite)
        } else if caller.index == self.reader_process_index {
            Some(IpcAccess::ReadOnly)
        } else {
            None
        }
    }

    /// Whether as many accesses are out as a channel may hand out.
    pub open spec fn is_exhausted(self) -> bool {
        self.accesses >= MK_IPC_LIMIT
    }

    /// The access that the application is given when it asks now.
    pub open spec fn granted(self, caller: AppId) -> Option<IpcAccess> {
        if self.is_exhausted() {
            None
        } else {
            self.access_of(caller)
        }
    }

    /// The channel after the application asked for access.
    pub open spec fn with_access(self, caller: AppId) -> IpcView {
        if self.granted(caller).is_some() {
            IpcView { accesses: (self.accesses + 1) as usize, ..self }
        } else {
            self
        }
    }

    /// The channel after one access was given back; with none out it stays
    /// as it is.
    pub open spec fn released(self) -> IpcView {
        if self.accesses > 0 {
            IpcView { accesses: (self.accesses - 1) as usize, ..self }
        } else {
            self
        }
    }

    /// Whether the application has a region in this channel.
    pub open spec fn has_region(self, app_id: AppId) -> bool {
        app_id.index < self.data.len()
    }

    /// The buffer that the application shares in this channel.
    pub open spec fn buffer_of(self, app_id: AppId) -> Option<AppSlice> {
        if self.has_region(app_id) {
            self.data[app_id.index as int].shared_memory
        } else {
            None
        }
    }

    /// The channel after the buffer that `exposer_id` shares was exposed to
    /// `caller_id`; without such a buffer it stays as it is.
    pub open spec fn with_exposure(self, caller_id: AppId, exposer_id: AppId) -> IpcView {
        match self.buffer_of(exposer_id) {
            Some(slice) => IpcView {
                data: self.data.update(
                    exposer_id.index as int,
                    ipcData {
                        shared_memory: Some(AppSlice { exposed_to: Some(caller_id), ..slice }),
                        ..self.data[exposer_id.index as int]
                    },
                ),
                ..self
            },
            None => self,
        }
    }

    /// The buffer as a writer's region records it: exposed to the reader
    /// where the platform knows one.
    pub open spec fn registered(shared_mem: Option<AppSlice>, reader: Option<AppId>) -> Option<
        AppSlice,
    > {
        match (shared_mem, reader) {
            (Some(slice), Some(app)) => Some(AppSlice { exposed_to: Some(app), ..slice }),
            _ => shared_mem,
        }
    }

    /// The channel after the application registered a buffer, or withdrew
    /// it; an application without a region changes nothing.
    pub open spec fn with_buffer(
        self,
        appid: AppId,
        shared_mem: Option<AppSlice>,
        reader: Option<AppId>,
    ) -> IpcView {
        if self.has_region(appid) {
            IpcView {
                data: self.data.update(
                    appid.index as int,
                    ipcData {
                        shared_memory: IpcView::registered(shared_mem, reader),
                        ..self.data[appid.index as int]
                    },
                ),
                ..self
            }
        } else {
            self
        }
    }

    /// The application that owns the channel: its writer.
    pub open spec fn owner(self) -> AppId {
        AppId { index: self.writer_process_index as usize }
    }

    /// Whether a notification of the application is recorded: it is for
    /// the writer and for the reader, if the owner has a region in the
    /// channel.
    pub open spec fn records_for(self, caller: AppId) -> bool {
        self.access_of(caller).is_some() && self.has_region(self.owner())
    }

    /// The channel after the application registered a notification for new
    /// data, or dropped it. The notification is kept in the owner's region;
    /// an application that is neither writer nor reader changes nothing.
    pub open spec fn with_notification(self, caller: AppId, callback: Option<Callback>) -> IpcView {
        if self.records_for(caller) {
            IpcView {
                data: self.data.update(
                    self.writer_process_index as int,
                    ipcData { callback, ..self.data[self.writer_process_index as int] },
                ),
                ..self
            }
        } else {
            self
        }
    }

    /// The notification for new data that the channel holds.
    pub open spec fn notification(self) -> Option<Callback> {
        if self.has_region(self.owner()) {
            self.data[self.writer_process_index as int].callback
        } else {
            None
        }
    }
}

impl View for ipc {
    type V = IpcView;

    open spec fn view(&self) -> IpcView {
        IpcView {
            ipc_id: self.ipc_id,
            m_uLength_IPC: self.m_uLength_IPC,
            writer_process_index: self.writer_process_index,
            reader_process_index: self.reader_process_index,
            data: self.data@,
            accesses: self.accesses,
        }
    }
}

/// The regions of a channel in which nothing is shared.
pub open spec fn nothing_shared() -> Seq<ipcData> {
    Seq::new(NUM_PROCS as nat, |i: int| ipcData { shared_memory: None, callback: None })
}

fn empty_regions() -> (data: Vec<ipcData>)
    ensures
        data@ == nothing_shared(),
{
    let mut data: Vec<ipcData> = Vec::new();
    let mut i: usize = 0;
    while i < NUM_PROCS
        invariant
            i <= NUM_PROCS,
            data@.len() == i,
            forall|j: int|
                0 <= j < i ==> data@[j] == (ipcData { shared_memory: None, callback: None }),
        decreases NUM_PROCS - i,
    {
        data.push(ipcData { shared_memory: None, callback: None });
        i += 1;
    }
    assert(data@ =~= nothing_shared());
    data
}

impl ipc {
    /// A channel with the given identifier, length, writer and reader.
    pub fn new(ipc_id: MK_IPC_ID_u, length: u16, writer_proc: MK_Index_t, reader_proc: MK_Index_t)
        -> (channel: ipc)
        ensures
            channel@ == IpcView::created(ipc_id, length, writer_proc, reader_proc),
    {
        ipc {
            ipc_id,
            m_uLength_IPC: length,
            writer_process_index: writer_proc,
            reader_process_index: reader_proc,
            data: empty_regions(),
            accesses: 0,
        }
    }

    /// The channel from the management process to the main process.
    pub fn create_mgt_main_ipc() -> (channel: ipc)
        ensures
            channel@ == IpcView::created(
                MK_IPC_MGT_MAIN_ID,
                MK_IPC_MGT_LENGTH,
                MGT_PROCESS_INDEX,
                MAIN_PROCESS_INDEX,
            ),
    {
        ipc::new(MK_IPC_MGT_MAIN_ID, MK_IPC_MGT_LENGTH, MGT_PROCESS_INDEX, MAIN_PROCESS_INDEX)
    }

    /// The channel from the communication process to the main process.
    pub fn create_com_main_ipc() -> (channel: ipc)
        ensures
            channel@ == IpcView::created(
                MK_IPC_COM_MAIN_ID,
                MK_IPC_COM_LENGTH,
                COM_PROCESS_INDEX,
                MAIN_PROCESS_INDEX,
            ),
    {
        ipc::new(MK_IPC_COM_MAIN_ID, MK_IPC_COM_LENGTH, COM_PROCESS_INDEX, MAIN_PROCESS_INDEX)
    }

    /// The channel from the main process to the management process.
    pub fn create_main_mgt_ipc() -> (channel: ipc)
        ensures
            channel@ == IpcView::created(
                MK_IPC_MAIN_MGT_ID,
                MK_IPC_MGT_LENGTH,
                MAIN_PROCESS_INDEX,
                MGT_PROCESS_INDEX,
            ),
    {
        ipc::new(MK_IPC_MAIN_MGT_ID, MK_IPC_MGT_LENGTH, MAIN_PROCESS_INDEX, MGT_PROCESS_INDEX)
    }

    /// The channel from the main process to the communication process.
    pub fn create_main_com_ipc() -> (channel: ipc)
        ensures
            channel@ == IpcView::created(
                MK_IPC_MAIN_COM_ID,
                MK_IPC_COM_LENGTH,
                MAIN_PROCESS_INDEX,
                COM_PROCESS_INDEX,
            ),
    {
        ipc::new(MK_IPC_MAIN_COM_ID, MK_IPC_COM_LENGTH, MAIN_PROCESS_INDEX, COM_PROCESS_INDEX)
    }

    /// The composite identifier.
    pub fn get_ipc_id(&self) -> (id: MK_IPC_ID_u)
        ensures
            id == self@.ipc_id,
    {
        self.ipc_id
    }

    /// The length of the shared memory in bytes.
    pub fn get_ipc_len(&self) -> (length: u16)
        ensures
            length == self@.m_uLength_IPC,
    {
        self.m_uLength_IPC
    }

    /// The index of the process that writes.
    pub fn get_writer_proc_i(&self) -> (index: MK_Index_t)
        ensures
            index == self@.writer_process_index,
    {
        self.writer_process_index
    }

    /// The index of the process that reads.
    pub fn get_reader_proc_i(&self) -> (index: MK_Index_t)
        ensures
            index == self@.reader_process_index,
    {
        self.reader_process_index
    }

    /// The buffer that the application shares in this channel.
    pub fn shared_memory(&self, app_id: AppId) -> (buffer: Option<AppSlice>)
        ensures
            buffer == self@.buffer_of(app_id),
    {
        if app_id.index < self.data.len() {
            self.data[app_id.index].shared_memory
        } else {
            None
        }
    }

    /// Exposes the buffer that `exposer_id` shares in this channel to
    /// `caller_id`. The result says whether there was a buffer to expose; if
    /// not, nothing changes.
    pub fn expose_slice_to_app(&mut self, caller_id: AppId, exposer_id: AppId) -> (exposed: bool)
        ensures
            exposed == old(self)@.buffer_of(exposer_id).is_some(),
            final(self)@ == old(self)@.with_exposure(caller_id, exposer_id),
    {
        if exposer_id.index < self.data.len() {
            match self.data[exposer_id.index].shared_memory {
                Some(mut slice) => {
                    slice.expose_to(caller_id);
                    let callback = self.data[exposer_id.index].callback;
                    self.data.set(
                        exposer_id.index,
                        ipcData { shared_memory: Some(slice), callback },
                    );
                    true
                },
                None => false,
            }
        } else {
            false
        }
    }

    /// Registers the buffer that the application shares in this channel, or
    /// withdraws it where `shared_mem` is `None`, and exposes it to the
    /// reading application where the platform knows one. The bytes stay
    /// where they are. An application without a region in this channel is
    /// turned away and nothing changes; the result says whether the buffer
    /// was registered.
    pub fn expose(&mut self, appid: AppId, shared_mem: Option<AppSlice>, reader: Option<AppId>)
        -> (registered: bool)
        ensures
            registered == old(self)@.has_region(appid),
            final(self)@ == old(self)@.with_buffer(appid, shared_mem, reader),
    {
        if appid.index < self.data.len() {
            let shared_memory = match (shared_mem, reader) {
                (Some(mut slice), Some(app)) => {
                    slice.expose_to(app);
                    Some(slice)
                },
                _ => shared_mem,
            };
            let callback = self.data[appid.index].callback;
            self.data.set(appid.index, ipcData { shared_memory, callback });
            true
        } else {
            false
        }
    }

    /// Records the notification that an application wants when new data is
    /// there, or drops it where `callback` is `None`. Only the writer and
    /// the reader may register one; it is kept in the owner's region. The
    /// result says whether it was recorded; if not, nothing changes.
    pub fn register_notification(&mut self, caller: AppId, callback: Option<Callback>) -> (recorded:
        bool)
        ensures
            recorded == old(self)@.records_for(caller),
            final(self)@ == old(self)@.with_notification(caller, callback),
    {
        let writer = self.writer_process_index as usize;
        let known = caller.index == writer || caller.index == self.reader_process_index as usize;
        if known && writer < self.data.len() {
            let shared_memory = self.data[writer].shared_memory;
            self.data.set(writer, ipcData { shared_memory, callback });
            true
        } else {
            false
        }
    }

    /// The notification for new data that the channel holds.
    pub fn fired(&self) -> (callback: Option<Callback>)
        ensures
            callback == self@.notification(),
    {
        let writer = self.writer_process_index as usize;
        if writer < self.data.len() {
            self.data[writer].callback
        } else {
            None
        }
    }

    /// Hands out one access to the buffer: to the writer for reading and
    /// writing, to the reader for reading. Any other application is denied,
    /// and so is everyone while as many accesses are out as a channel may
    /// hand out; a denial changes nothing.
    pub fn get_access(&mut self, caller: AppId) -> (access: Option<IpcAccess>)
        ensures
            access == old(self)@.granted(caller),
            final(self)@ == old(self)@.with_access(caller),
    {
        if self.accesses >= MK_IPC_LIMIT {
            return None;
        }
        let access = if caller.index == self.writer_process_index as usize {
            Some(IpcAccess::ReadWrite)
        } else if caller.index == self.reader_process_index as usize {
            Some(IpcAccess::ReadOnly)
        } else {
            None
        };
        if access.is_some() {
            self.accesses = self.accesses + 1;
        }
        access
    }

    /// Takes back one access. The result says whether one was out; if none
    /// was, nothing changes.
    pub fn release_access(&mut self) -> (released: bool)
        ensures
            released == (old(self)@.accesses > 0),
            final(self)@ == old(self)@.released(),
    {
        if self.accesses > 0 {
            self.accesses = self.accesses - 1;
            true
        } else {
            false
        }
    }
}

/// A channel gives access to its writer and to its reader and to nobody
/// else, whatever was shared or handed out before; writer and reader never
/// change.
pub proof fn lemma_access_is_for_writer_and_reader(channel: IpcView, caller: AppId)
    ensures
        channel.granted(caller).is_some() ==> caller.index == channel.writer_process_index
            || caller.index == channel.reader_process_index,
        caller.index != channel.writer_process_index && caller.index
            != channel.reader_process_index ==> channel.granted(caller).is_none()
            && channel.with_access(caller) == channel,
        !channel.is_exhausted() && caller.index == channel.writer_process_index
            ==> channel.granted(caller) == Some(IpcAccess::ReadWrite),
        !channel.is_exhausted() && caller.index == channel.reader_process_index && caller.index
            != channel.writer_process_index ==> channel.granted(caller) == Some(
            IpcAccess::ReadOnly,
        ),
        channel.with_access(caller).writer_process_index == channel.writer_process_index,
        channel.with_access(caller).reader_process_index == channel.reader_process_index,
        channel.released().writer_process_index == channel.writer_process_index,
        channel.released().reader_process_index == channel.reader_process_index,
{
}

/// Accesses never outnumber the limit, and giving one back undoes taking
/// it.
pub proof fn lemma_accesses_stay_bounded(channel: IpcView, caller: AppId)
    requires
        channel.accesses <= MK_IPC_LIMIT,
    ensures
        channel.with_access(caller).accesses <= MK_IPC_LIMIT,
        channel.released().accesses <= MK_IPC_LIMIT,
        channel.granted(caller).is_some() ==> channel.with_access(caller).released() == channel,
{
}

} // verus!
