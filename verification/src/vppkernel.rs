//! The kernel: the tables of processes, mailboxes and channels, every
//! operation on them by handle, and the dispatcher that maps numbered
//! commands onto those operations.
use vstd::prelude::*;
pub use crate::driver::vpp_kernel_driver;
pub use crate::process::NUM_PROCS;
use crate::ipc::{ipc, AppSlice, IpcAccess, IpcView};
use crate::mailbox::{mbox, Callback, MailboxView};
use crate::mloi::{
    handle_of, id_of, convert_handle_to_ipcID, convert_handle_to_mbid, convert_ipcID_to_handle,
    convert_mbid_to_handle, convert_to_handle, convert_to_id, MK_BITMAP_t, MK_ERROR_e, MK_HANDLE_t,
    MK_IPC_ID_u, MK_Index_t, MK_MAILBOX_ID_u, MK_PROCESS_PRIORITY_e, MK_Process_ID_u, MK_TIME_t,
    VppState,
};
use crate::process::{AppId, KernelProcess, VppProcess};
use crate::registry::{
    first_hit, hits, lemma_first_hit_found, lemma_first_hit_is_first, lemma_first_hit_missing,
};

verus! {

/// Matches the process with the given identifier.
pub open spec fn has_process_id(id: MK_Process_ID_u) -> spec_fn(VppProcess) -> bool {
    |process: VppProcess| process.vppid == id
}

/// Matches the mailbox with the given identifier.
pub open spec fn has_mailbox_id(id: MK_MAILBOX_ID_u) -> spec_fn(MailboxView) -> bool {
    |mailbox: MailboxView| mailbox.mailbox_id == id
}

/// Matches the channel with the given identifier.
pub open spec fn has_ipc_id(id: MK_IPC_ID_u) -> spec_fn(IpcView) -> bool {
    |channel: IpcView| channel.ipc_id == id
}

/// Matches the channels that the application writes.
pub open spec fn has_writer(app: AppId) -> spec_fn(IpcView) -> bool {
    |channel: IpcView| channel.writer_process_index == app.index
}

/// Matches the channels that the application reads.
pub open spec fn has_reader(app: AppId) -> spec_fn(IpcView) -> bool {
    |channel: IpcView| channel.reader_process_index == app.index
}

/// The kernel as the contracts see it.
pub struct KernelView {
    /// The process table.
    pub processes: Seq<Option<VppProcess>>,
    /// The mailbox table.
    pub mailboxes: Seq<Option<MailboxView>>,
    /// The channel table.
    pub ipcs: Seq<Option<IpcView>>,
    /// Notifications that signals triggered and that the platform has not
    /// delivered yet, oldest first.
    pub scheduled: Seq<Callback>,
    /// Ticks since start-up, as the platform last reported them.
    pub time: MK_TIME_t,
}

impl KernelView {
    /// The slot of the first record with the identifier that the handle
    /// carries, dead or not.
    pub open spec fn process_slot(self, handle: MK_HANDLE_t) -> Option<int> {
        first_hit(self.processes, has_process_id(id_of(handle)))
    }

    /// The slot that the handle resolves to: that of the first record with
    /// its identifier, unless that record is dead. The search never goes on
    /// past a dead record.
    pub open spec fn live_process_slot(self, handle: MK_HANDLE_t) -> Option<int> {
        match self.process_slot(handle) {
            Some(i) => if self.processes[i]->Some_0.is_live() {
                Some(i)
            } else {
                None
            },
            None => None,
        }
    }

    /// The kernel after it tried to resolve a process handle: the record
    /// with the handle's identifier notes the outcome, no error if it is
    /// alive, an unknown identifier if it is dead. No other record changes.
    pub open spec fn resolved(self, handle: MK_HANDLE_t) -> KernelView {
        match self.process_slot(handle) {
            Some(i) => {
                let process = self.processes[i]->Some_0;
                let error = if process.is_live() {
                    MK_ERROR_e::MK_ERROR_NONE
                } else {
                    MK_ERROR_e::MK_ERROR_UNKNOWN_ID
                };
                KernelView {
                    processes: self.processes.update(i, Some(VppProcess { error, ..process })),
                    ..self
                }
            },
            None => self,
        }
    }

    /// The kernel after an operation on a process by handle: the handle is
    /// resolved, and the record that it resolves to is replaced by what the
    /// operation makes of it.
    pub open spec fn with_process(
        self,
        handle: MK_HANDLE_t,
        change: spec_fn(VppProcess) -> VppProcess,
    ) -> KernelView {
        let resolved = self.resolved(handle);
        match self.live_process_slot(handle) {
            Some(i) => KernelView {
                processes: resolved.processes.update(
                    i,
                    Some(change(resolved.processes[i]->Some_0)),
                ),
                ..resolved
            },
            None => resolved,
        }
    }

    /// What an operation on a process by handle answers where nothing but
    /// the handle can be wrong.
    pub open spec fn process_outcome(self, handle: MK_HANDLE_t) -> MK_ERROR_e {
        if self.live_process_slot(handle) is Some {
            MK_ERROR_e::MK_ERROR_NONE
        } else {
            MK_ERROR_e::MK_ERROR_UNKNOWN_HANDLE
        }
    }

    /// The last error of the process that the handle names: what the record
    /// holds if it is alive, an unknown identifier if it is dead, an unknown
    /// handle if there is no such record.
    pub open spec fn last_error(self, handle: MK_HANDLE_t) -> MK_ERROR_e {
        match self.process_slot(handle) {
            Some(i) => if self.processes[i]->Some_0.is_live() {
                self.processes[i]->Some_0.error
            } else {
                MK_ERROR_e::MK_ERROR_UNKNOWN_ID
            },
            None => MK_ERROR_e::MK_ERROR_UNKNOWN_HANDLE,
        }
    }

    /// The handle of the process with the given identifier, if it resolves.
    pub open spec fn process_handle(self, id: MK_Process_ID_u) -> Option<MK_HANDLE_t> {
        if self.live_process_slot(handle_of(id)) is Some {
            Some(handle_of(id))
        } else {
            None
        }
    }

    /// The priority of the process that the handle names, or the marker of
    /// a failure where the handle does not resolve.
    pub open spec fn priority(self, handle: MK_HANDLE_t) -> MK_PROCESS_PRIORITY_e {
        match self.live_process_slot(handle) {
            Some(i) => self.processes[i]->Some_0.vpppriority,
            None => MK_PROCESS_PRIORITY_e::MK_PROCESS_PRIORITY_ERROR,
        }
    }

    /// What a request to set a priority answers: an unknown handle where
    /// the handle does not resolve, an unknown priority where the priority
    /// is the marker of a failure.
    pub open spec fn set_priority_outcome(
        self,
        handle: MK_HANDLE_t,
        priority: MK_PROCESS_PRIORITY_e,
    ) -> MK_ERROR_e {
        if self.live_process_slot(handle) is None {
            MK_ERROR_e::MK_ERROR_UNKNOWN_HANDLE
        } else if priority == MK_PROCESS_PRIORITY_e::MK_PROCESS_PRIORITY_ERROR {
            MK_ERROR_e::MK_ERROR_UNKNOWN_PRIORITY
        } else {
            MK_ERROR_e::MK_ERROR_NONE
        }
    }

    /// The kernel after a request to set a priority: the process has the
    /// priority unless it was turned down, and notes the outcome.
    pub open spec fn with_priority(self, handle: MK_HANDLE_t, priority: MK_PROCESS_PRIORITY_e)
        -> KernelView {
        self.with_process(
            handle,
            |process: VppProcess|
                if priority == MK_PROCESS_PRIORITY_e::MK_PROCESS_PRIORITY_ERROR {
                    VppProcess { error: MK_ERROR_e::MK_ERROR_UNKNOWN_PRIORITY, ..process }
                } else {
                    VppProcess { vpppriority: priority, ..process }
                },
        )
    }

    /// The kernel after a request to suspend: the lifecycle state goes
    /// through its transition and the loaded process underneath is stopped.
    pub open spec fn suspended(self, handle: MK_HANDLE_t) -> KernelView {
        self.with_process(
            handle,
            |process: VppProcess|
                VppProcess {
                    vppstate: process.vppstate.suspended(),
                    tockprocess: match process.tockprocess {
                        Some(loaded) => Some(
                            KernelProcess { state: loaded.state.stopped(), ..loaded },
                        ),
                        None => None,
                    },
                    ..process
                },
        )
    }

    /// The kernel after a request to resume: the lifecycle state goes
    /// through its transition and the loaded process underneath is resumed.
    pub open spec fn resumed(self, handle: MK_HANDLE_t) -> KernelView {
        self.with_process(
            handle,
            |process: VppProcess|
                VppProcess {
                    vppstate: process.vppstate.resumed(),
                    tockprocess: match process.tockprocess {
                        Some(loaded) => Some(
                            KernelProcess { state: loaded.state.resumed(), ..loaded },
                        ),
                        None => None,
                    },
                    ..process
                },
        )
    }

    /// The kernel after a yield: a running process becomes ready and the
    /// loaded process underneath is told; a process in any other state is
    /// left alone, and so is the loaded process underneath it.
    pub open spec fn yielded(self, handle: MK_HANDLE_t) -> KernelView {
        self.with_process(
            handle,
            |process: VppProcess|
                if process.vppstate == VppState::RUNNING {
                    VppProcess {
                        vppstate: VppState::READY,
                        tockprocess: match process.tockprocess {
                            Some(loaded) => Some(
                                KernelProcess { state: loaded.state.yielded(), ..loaded },
                            ),
                            None => None,
                        },
                        ..process
                    }
                } else {
                    process
                },
        )
    }

    /// Whether the slot holds a record with a loaded process underneath.
    pub open spec fn is_loaded(self, index: int) -> bool {
        &&& 0 <= index < self.processes.len()
        &&& self.processes[index] is Some
        &&& self.processes[index]->Some_0.tockprocess is Some
    }

    /// The identity towards the platform of the process in the given slot,
    /// if a process is loaded there.
    pub open spec fn app_of_index(self, index: MK_Index_t) -> Option<AppId> {
        if self.is_loaded(index as int) {
            Some(AppId { index: index as usize })
        } else {
            None
        }
    }

    /// The slot of the application's process, if a process is loaded there.
    pub open spec fn index_of_app(self, appid: AppId) -> Option<MK_Index_t> {
        if self.is_loaded(appid.index as int) && appid.index <= MK_Index_t::MAX {
            Some(appid.index as MK_Index_t)
        } else {
            None
        }
    }

    /// The slot of the first mailbox with the identifier that the handle
    /// carries.
    pub open spec fn mailbox_slot(self, handle: MK_HANDLE_t) -> Option<int> {
        first_hit(self.mailboxes, has_mailbox_id(id_of(handle)))
    }

    /// The mailbox that the handle names.
    pub open spec fn mailbox(self, handle: MK_HANDLE_t) -> Option<MailboxView> {
        match self.mailbox_slot(handle) {
            Some(i) => self.mailboxes[i],
            None => None,
        }
    }

    /// The handle of the mailbox with the given identifier, if there is
    /// one.
    pub open spec fn mailbox_handle(self, id: MK_MAILBOX_ID_u) -> Option<MK_HANDLE_t> {
        if self.mailbox_slot(handle_of(id)) is Some {
            Some(handle_of(id))
        } else {
            None
        }
    }

    /// What sending a signal answers: an unknown handle where the handle
    /// names no mailbox, a severe error where the mailbox is full.
    pub open spec fn send_outcome(self, handle: MK_HANDLE_t) -> MK_ERROR_e {
        match self.mailbox(handle) {
            Some(mailbox) => if mailbox.is_full() {
                MK_ERROR_e::MK_ERROR_SEVERE
            } else {
                MK_ERROR_e::MK_ERROR_NONE
            },
            None => MK_ERROR_e::MK_ERROR_UNKNOWN_HANDLE,
        }
    }

    /// The notifications scheduled after a signal went into the mailbox:
    /// one more where the sending application registered one.
    pub open spec fn notified(self, mailbox: MailboxView) -> Seq<Callback> {
        match mailbox.notification(self.app_of_index(mailbox.sender_process_index)) {
            Some(callback) => self.scheduled.push(callback),
            None => self.scheduled,
        }
    }

    /// The kernel after a signal was sent: the bitmap is behind whatever
    /// was pending in the mailbox, and the sender's notification is
    /// scheduled. Where the answer is an error, nothing has changed.
    pub open spec fn sent(self, handle: MK_HANDLE_t, bitmap: MK_BITMAP_t) -> KernelView {
        match self.mailbox_slot(handle) {
            Some(i) => {
                let mailbox = self.mailboxes[i]->Some_0;
                if mailbox.is_full() {
                    self
                } else {
                    KernelView {
                        mailboxes: self.mailboxes.update(i, Some(mailbox.with_signal(bitmap))),
                        scheduled: self.notified(mailbox),
                        ..self
                    }
                }
            },
            None => self,
        }
    }

    /// What reading a signal gives: the oldest pending bitmap of the
    /// mailbox, 0 where nothing is pending, nothing where the handle names
    /// no mailbox.
    pub open spec fn signal(self, handle: MK_HANDLE_t) -> Option<MK_BITMAP_t> {
        match self.mailbox(handle) {
            Some(mailbox) => Some(mailbox.oldest()),
            None => None,
        }
    }

    /// The kernel after a signal was read: the oldest pending bitmap has
    /// left the mailbox.
    pub open spec fn received(self, handle: MK_HANDLE_t) -> KernelView {
        match self.mailbox_slot(handle) {
            Some(i) => KernelView {
                mailboxes: self.mailboxes.update(
                    i,
                    Some(self.mailboxes[i]->Some_0.without_oldest()),
                ),
                ..self
            },
            None => self,
        }
    }

    /// The slot of the process that waits when a wait on the mailbox
    /// begins: that of the mailbox's owner, if the time limit is not zero
    /// and the slot holds a record.
    pub open spec fn waiter(self, handle: MK_HANDLE_t, time: u32) -> Option<int> {
        match self.mailbox(handle) {
            Some(mailbox) => if time != 0 && mailbox.owner_process_index < self.processes.len()
                && self.processes[mailbox.owner_process_index as int] is Some {
                Some(mailbox.owner_process_index as int)
            } else {
                None
            },
            None => None,
        }
    }

    /// What the start of a wait answers: an unknown handle where the handle
    /// names no mailbox, an internal error where the mailbox's owner is
    /// missing from the process table.
    pub open spec fn wait_outcome(self, handle: MK_HANDLE_t, time: u32) -> MK_ERROR_e {
        if self.mailbox(handle) is None {
            MK_ERROR_e::MK_ERROR_UNKNOWN_HANDLE
        } else if time == 0 || self.waiter(handle, time) is Some {
            MK_ERROR_e::MK_ERROR_NONE
        } else {
            MK_ERROR_e::MK_ERROR_INTERNAL
        }
    }

    /// The kernel after the start of a wait: the owner of the mailbox waits
    /// if it was running. With a time limit of zero nothing changes.
    pub open spec fn waiting(self, handle: MK_HANDLE_t, time: u32) -> KernelView {
        match self.waiter(handle, time) {
            Some(owner) => {
                let process = self.processes[owner]->Some_0;
                KernelView {
                    processes: self.processes.update(
                        owner,
                        Some(VppProcess { vppstate: process.vppstate.awaiting(), ..process }),
                    ),
                    ..self
                }
            },
            None => self,
        }
    }

    /// The kernel after an application registered or dropped its
    /// notification in a mailbox.
    pub open spec fn subscribed(
        self,
        handle: MK_HANDLE_t,
        app_id: AppId,
        callback: Option<Callback>,
    ) -> KernelView {
        match self.mailbox_slot(handle) {
            Some(i) => KernelView {
                mailboxes: self.mailboxes.update(
                    i,
                    Some(self.mailboxes[i]->Some_0.with_callback(app_id, callback)),
                ),
                ..self
            },
            None => self,
        }
    }

    /// The slot of the first channel with the identifier that the handle
    /// carries.
    pub open spec fn ipc_slot(self, handle: MK_HANDLE_t) -> Option<int> {
        first_hit(self.ipcs, has_ipc_id(id_of(handle)))
    }

    /// The channel that the handle names.
    pub open spec fn ipc(self, handle: MK_HANDLE_t) -> Option<IpcView> {
        match self.ipc_slot(handle) {
            Some(i) => self.ipcs[i],
            None => None,
        }
    }

    /// The handle of the channel with the given identifier, if there is
    /// one.
    pub open spec fn ipc_handle(self, id: MK_IPC_ID_u) -> Option<MK_HANDLE_t> {
        if self.ipc_slot(handle_of(id)) is Some {
            Some(handle_of(id))
        } else {
            None
        }
    }

    /// The first channel that the application writes.
    pub open spec fn ipc_of_writer(self, appid: AppId) -> Option<IpcView> {
        match first_hit(self.ipcs, has_writer(appid)) {
            Some(i) => self.ipcs[i],
            None => None,
        }
    }

    /// The first channel that the application reads.
    pub open spec fn ipc_of_reader(self, appid: AppId) -> Option<IpcView> {
        match first_hit(self.ipcs, has_reader(appid)) {
            Some(i) => self.ipcs[i],
            None => None,
        }
    }

    /// The access that the application is given to the channel that the
    /// handle names: the writer's or the reader's, and none for anyone
    /// else, for a handle that names no channel, or while the channel has
    /// no access left to hand out.
    pub open spec fn access(self, handle: MK_HANDLE_t, caller: AppId) -> Option<IpcAccess> {
        match self.ipc(handle) {
            Some(channel) => channel.granted(caller),
            None => None,
        }
    }

    /// The kernel after the application asked for access to a channel.
    pub open spec fn accessed(self, handle: MK_HANDLE_t, caller: AppId) -> KernelView {
        match self.ipc_slot(handle) {
            Some(i) => KernelView {
                ipcs: self.ipcs.update(i, Some(self.ipcs[i]->Some_0.with_access(caller))),
                ..self
            },
            None => self,
        }
    }

    /// What giving back an access answers: an unknown handle where the
    /// handle names no channel, an illegal parameter where the channel has
    /// no access out.
    pub open spec fn release_outcome(self, handle: MK_HANDLE_t) -> MK_ERROR_e {
        match self.ipc(handle) {
            Some(channel) => if channel.accesses > 0 {
                MK_ERROR_e::MK_ERROR_NONE
            } else {
                MK_ERROR_e::MK_ERROR_ILLEGAL_PARAMETER
            },
            None => MK_ERROR_e::MK_ERROR_UNKNOWN_HANDLE,
        }
    }

    /// The kernel after an access to a channel was given back.
    pub open spec fn released(self, handle: MK_HANDLE_t) -> KernelView {
        match self.ipc_slot(handle) {
            Some(i) => KernelView {
                ipcs: self.ipcs.update(i, Some(self.ipcs[i]->Some_0.released())),
                ..self
            },
            None => self,
        }
    }

    /// The notifications scheduled after a writer registered a buffer in
    /// the channel: one more where a buffer was recorded and a
    /// notification for new data is registered.
    pub open spec fn announced(
        self,
        channel: IpcView,
        appid: AppId,
        shared_mem: Option<AppSlice>,
    ) -> Seq<Callback> {
        match channel.notification() {
            Some(callback) => if shared_mem is Some && channel.has_region(appid) {
                self.scheduled.push(callback)
            } else {
                self.scheduled
            },
            None => self.scheduled,
        }
    }

    /// The kernel after an application registered a buffer as writer: the
    /// first channel that it writes records the buffer, exposed to the
    /// channel's reader where a process is loaded for it, and the
    /// notification for new data is scheduled.
    pub open spec fn allowed(self, appid: AppId, shared_mem: Option<AppSlice>) -> KernelView {
        match first_hit(self.ipcs, has_writer(appid)) {
            Some(i) => {
                let channel = self.ipcs[i]->Some_0;
                KernelView {
                    ipcs: self.ipcs.update(
                        i,
                        Some(
                            channel.with_buffer(
                                appid,
                                shared_mem,
                                self.app_of_index(channel.reader_process_index),
                            ),
                        ),
                    ),
                    scheduled: self.announced(channel, appid, shared_mem),
                    ..self
                }
            },
            None => self,
        }
    }

    /// The kernel after an application registered or dropped its
    /// notification for new data in a channel.
    pub open spec fn listening(
        self,
        handle: MK_HANDLE_t,
        caller: AppId,
        callback: Option<Callback>,
    ) -> KernelView {
        match self.ipc_slot(handle) {
            Some(i) => KernelView {
                ipcs: self.ipcs.update(
                    i,
                    Some(self.ipcs[i]->Some_0.with_notification(caller, callback)),
                ),
                ..self
            },
            None => self,
        }
    }
}

/// The kernel.
#[derive(Debug)]
pub struct VppKernel {
    /// The process table.
    pub vpp_processes: Vec<Option<VppProcess>>,
    /// The mailbox table.
    pub mailboxes: Vec<Option<mbox>>,
    /// The channel table.
    pub ipcs: Vec<Option<ipc>>,
    /// Notifications that signals triggered and that the platform has not
    /// delivered yet, oldest first.
    pub scheduled: Vec<Callback>,
    /// Ticks since start-up, as the platform last reported them.
    pub time: MK_TIME_t,
}

/// The mailbox table as the contracts see it.
pub open spec fn mailbox_views(mailboxes: Seq<Option<mbox>>) -> Seq<Option<MailboxView>> {
    Seq::new(
        mailboxes.len(),
        |i: int|
            match mailboxes[i] {
                Some(mailbox) => Some(mailbox@),
                None => None,
            },
    )
}

/// The channel table as the contracts see it.
pub open spec fn ipc_views(ipcs: Seq<Option<ipc>>) -> Seq<Option<IpcView>> {
    Seq::new(
        ipcs.len(),
        |i: int|
            match ipcs[i] {
                Some(channel) => Some(channel@),
                None => None,
            },
    )
}

impl View for VppKernel {
    type V = KernelView;

    open spec fn view(&self) -> KernelView {
        KernelView {
            processes: self.vpp_processes@,
            mailboxes: mailbox_views(self.mailboxes@),
            ipcs: ipc_views(self.ipcs@),
            scheduled: self.scheduled@,
            time: self.time,
        }
    }
}

impl VppKernel {
    /// A kernel over the given tables, with no notification scheduled and
    /// the clock at zero.
    pub fn new(procs: Vec<Option<VppProcess>>, mbs: Vec<Option<mbox>>, ipcs: Vec<Option<ipc>>) -> (kernel:
        VppKernel)
        ensures
            kernel@ == (KernelView {
                processes: procs@,
                mailboxes: mailbox_views(mbs@),
                ipcs: ipc_views(ipcs@),
                scheduled: Seq::empty(),
                time: 0,
            }),
    {
        VppKernel { vpp_processes: procs, mailboxes: mbs, ipcs, scheduled: Vec::new(), time: 0 }
    }

    /// The slot of the first record with the identifier that the handle
    /// carries, dead or not.
    pub fn find_process(&self, handle: MK_HANDLE_t) -> (slot: Option<usize>)
        ensures
            match slot {
                Some(i) => self@.process_slot(handle) == Some(i as int) && i
                    < self.vpp_processes@.len() && self.vpp_processes@[i as int] is Some,
                None => self@.process_slot(handle) is None,
            },
    {
        let id = convert_to_id(handle);
        let mut i: usize = 0;
        while i < self.vpp_processes.len()
            invariant
                i <= self.vpp_processes@.len(),
                id == id_of(handle),
                forall|j: int| 0 <= j < i ==> !hits(self@.processes, has_process_id(id), j),
            decreases self.vpp_processes@.len() - i,
        {
            match &self.vpp_processes[i] {
                Some(process) => {
                    if process.get_vpp_id() == id {
                        proof {
                            assert(hits(self@.processes, has_process_id(id), i as int));
                            lemma_first_hit_found(self@.processes, has_process_id(id), i as int);
                        }
                        return Some(i);
                    }
                },
                None => {},
            }
            i += 1;
        }
        proof {
            lemma_first_hit_missing(self@.processes, has_process_id(id));
        }
        None
    }

    /// Resolves a process handle: gives the slot of the first record with
    /// the handle's identifier unless that record is dead, and has the
    /// record note the outcome.
    pub fn get_process_ref_handle(&mut self, handle: MK_HANDLE_t) -> (slot: Option<usize>)
        ensures
            match slot {
                Some(i) => old(self)@.live_process_slot(handle) == Some(i as int),
                None => old(self)@.live_process_slot(handle) is None,
            },
            final(self)@ == old(self)@.resolved(handle),
    {
        match self.find_process(handle) {
            Some(i) => {
                proof {
                    lemma_first_hit_is_first(self@.processes, has_process_id(id_of(handle)));
                }
                let slot = &mut self.vpp_processes[i];
                match slot {
                    Some(process) => {
                        if process.vppstate == VppState::DEAD {
                            process.error = MK_ERROR_e::MK_ERROR_UNKNOWN_ID;
                            None
                        } else {
                            process.error = MK_ERROR_e::MK_ERROR_NONE;
                            Some(i)
                        }
                    },
                    None => None,
                }
            },
            None => None,
        }
    }

    /// The record in the given slot of the process table, if the slot
    /// exists and is occupied.
    pub fn get_process_ref_index(&self, index: MK_Index_t) -> (process: Option<&VppProcess>)
        ensures
            match process {
                Some(found) => index < self@.processes.len() && self@.processes[index as int]
                    == Some(*found),
                None => index >= self@.processes.len() || self@.processes[index as int] is None,
            },
    {
        if (index as usize) < self.vpp_processes.len() {
            self.vpp_processes[index as usize].as_ref()
        } else {
            None
        }
    }

    /// The last error of the process that the handle names, whatever state
    /// the process is in. Nothing changes, the stored error included.
    pub fn _mk_Get_Error(&self, _hProcess: MK_HANDLE_t) -> (error: MK_ERROR_e)
        ensures
            error == self@.last_error(_hProcess),
    {
        match self.find_process(_hProcess) {
            Some(i) => {
                proof {
                    lemma_first_hit_is_first(self@.processes, has_process_id(id_of(_hProcess)));
                }
                match &self.vpp_processes[i] {
                    Some(process) => {
                        if process.get_vpp_state() == VppState::DEAD {
                            MK_ERROR_e::MK_ERROR_UNKNOWN_ID
                        } else {
                            process.get_last_generated_error()
                        }
                    },
                    None => MK_ERROR_e::MK_ERROR_UNKNOWN_HANDLE,
                }
            },
            None => MK_ERROR_e::MK_ERROR_UNKNOWN_HANDLE,
        }
    }

    /// Ticks since start-up, as the platform last reported them.
    pub fn _mk_Get_Time(&self) -> (ticks: MK_TIME_t)
        ensures
            ticks == self@.time,
    {
        self.time
    }

    /// Takes the platform's report of the ticks since start-up.
    pub fn set_time(&mut self, ticks: MK_TIME_t)
        ensures
            final(self)@ == (KernelView { time: ticks, ..old(self)@ }),
    {
        self.time = ticks;
    }

    /// The handle of the process with the given identifier: `Some` exactly
    /// when a record with that identifier exists and the first such record
    /// is not dead.
    pub fn _mk_Get_Process_Handle(&mut self, _eProcess_ID: MK_Process_ID_u) -> (handle: Option<
        MK_HANDLE_t,
    >)
        ensures
            handle == old(self)@.process_handle(_eProcess_ID),
            final(self)@ == old(self)@.resolved(handle_of(_eProcess_ID)),
    {
        let handle = convert_to_handle(_eProcess_ID);
        match self.get_process_ref_handle(handle) {
            Some(_) => Some(handle),
            None => None,
        }
    }

    /// The priority of the process that the handle names, or the marker of
    /// a failure where the handle does not resolve.
    pub fn _mk_get_process_priority(&mut self, _hProcess: MK_HANDLE_t) -> (priority:
        MK_PROCESS_PRIORITY_e)
        ensures
            priority == old(self)@.priority(_hProcess),
            final(self)@ == old(self)@.resolved(_hProcess),
    {
        match self.get_process_ref_handle(_hProcess) {
            Some(i) => {
                match &self.vpp_processes[i] {
                    Some(process) => process.get_vpp_priority(),
                    None => MK_PROCESS_PRIORITY_e::MK_PROCESS_PRIORITY_ERROR,
                }
            },
            None => MK_PROCESS_PRIORITY_e::MK_PROCESS_PRIORITY_ERROR,
        }
    }

    /// Gives the process that the handle names another priority. The marker
    /// of a failure is no priority: it is turned down, and the process
    /// notes that.
    pub fn _mk_set_process_priority(
        &mut self,
        _hProcess: MK_HANDLE_t,
        _xPriority: MK_PROCESS_PRIORITY_e,
    ) -> (error: MK_ERROR_e)
        ensures
            error == old(self)@.set_priority_outcome(_hProcess, _xPriority),
            final(self)@ == old(self)@.with_priority(_hProcess, _xPriority),
    {
        match self.get_process_ref_handle(_hProcess) {
            Some(i) => {
                let slot = &mut self.vpp_processes[i];
                match slot {
                    Some(process) => {
                        if _xPriority == MK_PROCESS_PRIORITY_e::MK_PROCESS_PRIORITY_ERROR {
                            process.error = MK_ERROR_e::MK_ERROR_UNKNOWN_PRIORITY;
                            MK_ERROR_e::MK_ERROR_UNKNOWN_PRIORITY
                        } else {
                            process.set_vpp_priority(_xPriority);
                            MK_ERROR_e::MK_ERROR_NONE
                        }
                    },
                    None => MK_ERROR_e::MK_ERROR_UNKNOWN_HANDLE,
                }
            },
            None => MK_ERROR_e::MK_ERROR_UNKNOWN_HANDLE,
        }
    }

    /// Suspends the process that the handle names: its lifecycle state goes
    /// through the transition of a suspension, and the loaded process
    /// underneath is stopped. A state without such a transition stays.
    pub fn _mk_suspend_process(&mut self, _hProcess: MK_HANDLE_t) -> (error: MK_ERROR_e)
        ensures
            error == old(self)@.process_outcome(_hProcess),
            final(self)@ == old(self)@.suspended(_hProcess),
    {
        match self.get_process_ref_handle(_hProcess) {
            Some(i) => {
                let slot = &mut self.vpp_processes[i];
                match slot {
                    Some(process) => {
                        process.suspend_vpp_process();
                        process.stop_tock_process();
                        MK_ERROR_e::MK_ERROR_NONE
                    },
                    None => MK_ERROR_e::MK_ERROR_UNKNOWN_HANDLE,
                }
            },
            None => MK_ERROR_e::MK_ERROR_UNKNOWN_HANDLE,
        }
    }

    /// Resumes the process that the handle names: its lifecycle state goes
    /// through the transition of a resumption, and the loaded process
    /// underneath is resumed. A state without such a transition stays.
    pub fn _mk_resume_process(&mut self, _hProcess: MK_HANDLE_t) -> (error: MK_ERROR_e)
        ensures
            error == old(self)@.process_outcome(_hProcess),
            final(self)@ == old(self)@.resumed(_hProcess),
    {
        match self.get_process_ref_handle(_hProcess) {
            Some(i) => {
                let slot = &mut self.vpp_processes[i];
                match slot {
                    Some(process) => {
                        process.resume_vpp_process();
                        process.resume_tock_process();
                        MK_ERROR_e::MK_ERROR_NONE
                    },
                    None => MK_ERROR_e::MK_ERROR_UNKNOWN_HANDLE,
                }
            },
            None => MK_ERROR_e::MK_ERROR_UNKNOWN_HANDLE,
        }
    }

    /// Has the process that the handle names give up the processor: a
    /// running process becomes ready, and the loaded process underneath is
    /// told. A handle that does not resolve is passed over in silence.
    pub fn _mk_yield(&mut self, _hProcess: MK_HANDLE_t)
        ensures
            final(self)@ == old(self)@.yielded(_hProcess),
    {
        match self.get_process_ref_handle(_hProcess) {
            Some(i) => {
                let slot = &mut self.vpp_processes[i];
                match slot {
                    Some(process) => {
                        if process.get_vpp_state() == VppState::RUNNING {
                            process.yield_vpp_process();
                            process.yield_tock_process();
                        }
                    },
                    None => {},
                }
            },
            None => {},
        }
    }

    /// The identity towards the platform of the process in the given slot:
    /// `Some` exactly when a process is loaded there.
    pub fn Convert_Index_to_Appid(&self, index: MK_Index_t) -> (appid: Option<AppId>)
        ensures
            appid == self@.app_of_index(index),
    {
        if (index as usize) < self.vpp_processes.len() {
            match &self.vpp_processes[index as usize] {
                Some(process) => {
                    if process.tockprocess.is_some() {
                        Some(AppId::new(index as usize))
                    } else {
                        None
                    }
                },
                None => None,
            }
        } else {
            None
        }
    }

    /// The slot of the application's process: `Some` exactly when a process
    /// is loaded there.
    pub fn Convert_Appid_to_Index(&self, appid: AppId) -> (index: Option<MK_Index_t>)
        ensures
            index == self@.index_of_app(appid),
    {
        if appid.index() < self.vpp_processes.len() && appid.index() <= 0xFFFF {
            match &self.vpp_processes[appid.index()] {
                Some(process) => {
                    if process.tockprocess.is_some() {
                        Some(appid.index() as MK_Index_t)
                    } else {
                        None
                    }
                },
                None => None,
            }
        } else {
            None
        }
    }

    /// The slot of the first mailbox with the identifier that the handle
    /// carries.
    pub fn find_mailbox(&self, handle: MK_HANDLE_t) -> (slot: Option<usize>)
        ensures
            match slot {
                Some(i) => self@.mailbox_slot(handle) == Some(i as int) && i
                    < self.mailboxes@.len() && self.mailboxes@[i as int] is Some,
                None => self@.mailbox_slot(handle) is None,
            },
    {
        let id = convert_handle_to_mbid(handle);
        let mut i: usize = 0;
        while i < self.mailboxes.len()
            invariant
                i <= self.mailboxes@.len(),
                id == id_of(handle),
                forall|j: int| 0 <= j < i ==> !hits(self@.mailboxes, has_mailbox_id(id), j),
            decreases self.mailboxes@.len() - i,
        {
            match &self.mailboxes[i] {
                Some(mailbox) => {
                    if mailbox.get_mb_id() == id {
                        proof {
                            assert(hits(self@.mailboxes, has_mailbox_id(id), i as int));
                            lemma_first_hit_found(self@.mailboxes, has_mailbox_id(id), i as int);
                        }
                        return Some(i);
                    }
                },
                None => {},
            }
            i += 1;
        }
        proof {
            lemma_first_hit_missing(self@.mailboxes, has_mailbox_id(id));
        }
        None
    }

    /// The mailbox that the handle names.
    pub fn Get_Mailbox_ref_internal(&self, handle: MK_HANDLE_t) -> (mailbox: Option<&mbox>)
        ensures
            match mailbox {
                Some(found) => self@.mailbox(handle) == Some(found@),
                None => self@.mailbox(handle) is None,
            },
    {
        match self.find_mailbox(handle) {
            Some(i) => self.mailboxes[i].as_ref(),
            None => None,
        }
    }

    /// The handle of the mailbox with the given identifier: `Some` exactly
    /// when the table holds such a mailbox.
    pub fn _mk_Get_Mailbox_Handle(&self, _eMailboxID: MK_MAILBOX_ID_u) -> (handle: Option<
        MK_HANDLE_t,
    >)
        ensures
            handle == self@.mailbox_handle(_eMailboxID),
    {
        let handle = convert_mbid_to_handle(_eMailboxID);
        match self.find_mailbox(handle) {
            Some(_) => Some(handle),
            None => None,
        }
    }

    /// Sends a bitmap of signals to the mailbox that the handle names. The
    /// bitmap goes behind whatever is pending, as it is, and the
    /// notification that the sending application registered is scheduled.
    /// A full mailbox answers with a severe error and a handle that names
    /// no mailbox with an unknown handle; either way nothing changes.
    pub fn _mk_Send_Signal(&mut self, _hMailbox: MK_HANDLE_t, _eSignal: MK_BITMAP_t) -> (error:
        MK_ERROR_e)
        ensures
            error == old(self)@.send_outcome(_hMailbox),
            final(self)@ == old(self)@.sent(_hMailbox, _eSignal),
    {
        match self.find_mailbox(_hMailbox) {
            Some(i) => {
                let callback = match &self.mailboxes[i] {
                    Some(mailbox) => {
                        let sender = self.Convert_Index_to_Appid(mailbox.get_sender_proc_i());
                        mailbox.fired(sender)
                    },
                    None => None,
                };
                let slot = &mut self.mailboxes[i];
                let taken = match slot {
                    Some(mailbox) => mailbox.add_sig(_eSignal),
                    None => false,
                };
                if taken {
                    match callback {
                        Some(notification) => self.scheduled.push(notification),
                        None => {},
                    }
                    assert(self@.mailboxes =~= old(self)@.sent(_hMailbox, _eSignal).mailboxes);
                    MK_ERROR_e::MK_ERROR_NONE
                } else {
                    assert(self@.mailboxes =~= old(self)@.mailboxes);
                    MK_ERROR_e::MK_ERROR_SEVERE
                }
            },
            None => MK_ERROR_e::MK_ERROR_UNKNOWN_HANDLE,
        }
    }

    /// Reads a signal from the mailbox that the handle names: the oldest
    /// pending bitmap, which leaves the mailbox, or 0 where nothing is
    /// pending. `None` only for a handle that names no mailbox.
    pub fn _mk_Get_Signal(&mut self, _hMailbox: MK_HANDLE_t) -> (bitmap: Option<MK_BITMAP_t>)
        ensures
            bitmap == old(self)@.signal(_hMailbox),
            final(self)@ == old(self)@.received(_hMailbox),
    {
        match self.find_mailbox(_hMailbox) {
            Some(i) => {
                let slot = &mut self.mailboxes[i];
                let retrieved_sig = match slot {
                    Some(mailbox) => mailbox.get_sig(),
                    None => 0,
                };
                assert(self@.mailboxes =~= old(self)@.received(_hMailbox).mailboxes);
                Some(retrieved_sig)
            },
            None => None,
        }
    }

    /// Begins a wait for a signal on the mailbox that the handle names: the
    /// owner of the mailbox waits if it was running. Holding the process
    /// back until a signal arrives or the time is up is the scheduler's
    /// part. A time limit of zero means no wait at all.
    pub fn _mk_Wait_Signal(&mut self, _hMailbox: MK_HANDLE_t, _uTime: u32) -> (error: MK_ERROR_e)
        ensures
            error == old(self)@.wait_outcome(_hMailbox, _uTime),
            final(self)@ == old(self)@.waiting(_hMailbox, _uTime),
    {
        match self.find_mailbox(_hMailbox) {
            Some(i) => {
                if _uTime == 0 {
                    return MK_ERROR_e::MK_ERROR_NONE;
                }
                let owner = match &self.mailboxes[i] {
                    Some(mailbox) => mailbox.get_owner_proc_i() as usize,
                    None => 0,
                };
                assert(self@.mailboxes[i as int] == Some(self.mailboxes@[i as int]->Some_0@));
                if owner < self.vpp_processes.len() {
                    let slot = &mut self.vpp_processes[owner];
                    match slot {
                        Some(process) => {
                            process.waiting_vpp_process();
                            assert(self@.processes =~= old(self)@.waiting(
                                _hMailbox,
                                _uTime,
                            ).processes);
                            MK_ERROR_e::MK_ERROR_NONE
                        },
                        None => {
                            assert(self@.processes =~= old(self)@.processes);
                            MK_ERROR_e::MK_ERROR_INTERNAL
                        },
                    }
                } else {
                    MK_ERROR_e::MK_ERROR_INTERNAL
                }
            },
            None => MK_ERROR_e::MK_ERROR_UNKNOWN_HANDLE,
        }
    }

    /// Records the notification of one application in the mailbox that the
    /// handle names, or drops it where `callback` is `None`. The result
    /// says whether it was recorded: not for a handle that names no
    /// mailbox, nor for an application without a region in the mailbox.
    pub fn register_mailbox_notification(
        &mut self,
        handle: MK_HANDLE_t,
        app_id: AppId,
        callback: Option<Callback>,
    ) -> (recorded: bool)
        ensures
            recorded == match old(self)@.mailbox(handle) {
                Some(mailbox) => mailbox.has_region(app_id),
                None => false,
            },
            final(self)@ == old(self)@.subscribed(handle, app_id, callback),
    {
        match self.find_mailbox(handle) {
            Some(i) => {
                let slot = &mut self.mailboxes[i];
                let recorded = match slot {
                    Some(mailbox) => mailbox.register(app_id, callback),
                    None => false,
                };
                assert(self@.mailboxes =~= old(self)@.subscribed(
                    handle,
                    app_id,
                    callback,
                ).mailboxes);
                recorded
            },
            None => false,
        }
    }

    /// Hands the scheduled notifications over for delivery, oldest first,
    /// and forgets them.
    pub fn take_scheduled(&mut self) -> (callbacks: Vec<Callback>)
        ensures
            callbacks@ == old(self)@.scheduled,
            final(self)@ == (KernelView { scheduled: Seq::empty(), ..old(self)@ }),
    {
        let mut callbacks: Vec<Callback> = Vec::new();
        std::mem::swap(&mut callbacks, &mut self.scheduled);
        callbacks
    }

    /// The slot of the first channel with the identifier that the handle
    /// carries.
    pub fn find_ipc(&self, handle: MK_HANDLE_t) -> (slot: Option<usize>)
        ensures
            match slot {
                Some(i) => self@.ipc_slot(handle) == Some(i as int) && i < self.ipcs@.len()
                    && self.ipcs@[i as int] is Some,
                None => self@.ipc_slot(handle) is None,
            },
    {
        let id = convert_handle_to_ipcID(handle);
        let mut i: usize = 0;
        while i < self.ipcs.len()
            invariant
                i <= self.ipcs@.len(),
                id == id_of(handle),
                forall|j: int| 0 <= j < i ==> !hits(self@.ipcs, has_ipc_id(id), j),
            decreases self.ipcs@.len() - i,
        {
            match &self.ipcs[i] {
                Some(channel) => {
                    if channel.get_ipc_id() == id {
                        proof {
                            assert(hits(self@.ipcs, has_ipc_id(id), i as int));
                            lemma_first_hit_found(self@.ipcs, has_ipc_id(id), i as int);
                        }
                        return Some(i);
                    }
                },
                None => {},
            }
            i += 1;
        }
        proof {
            lemma_first_hit_missing(self@.ipcs, has_ipc_id(id));
        }
        None
    }

    /// The slot of the first channel that the application writes.
    pub fn find_ipc_of_writer(&self, writer_appid: AppId) -> (slot: Option<usize>)
        ensures
            match slot {
                Some(i) => first_hit(self@.ipcs, has_writer(writer_appid)) == Some(i as int) && i
                    < self.ipcs@.len() && self.ipcs@[i as int] is Some,
                None => first_hit(self@.ipcs, has_writer(writer_appid)) is None,
            },
    {
        let mut i: usize = 0;
        while i < self.ipcs.len()
            invariant
                i <= self.ipcs@.len(),
                forall|j: int| 0 <= j < i ==> !hits(self@.ipcs, has_writer(writer_appid), j),
            decreases self.ipcs@.len() - i,
        {
            match &self.ipcs[i] {
                Some(channel) => {
                    if channel.get_writer_proc_i() as usize == writer_appid.index() {
                        proof {
                            assert(hits(self@.ipcs, has_writer(writer_appid), i as int));
                            lemma_first_hit_found(self@.ipcs, has_writer(writer_appid), i as int);
                        }
                        return Some(i);
                    }
                },
                None => {},
            }
            i += 1;
        }
        proof {
            lemma_first_hit_missing(self@.ipcs, has_writer(writer_appid));
        }
        None
    }

    /// The channel that the handle names.
    pub fn Get_IPC_ref_internal(&self, handle: MK_HANDLE_t) -> (channel: Option<&ipc>)
        ensures
            match channel {
                Some(found) => self@.ipc(handle) == Some(found@),
                None => self@.ipc(handle) is None,
            },
    {
        match self.find_ipc(handle) {
            Some(i) => self.ipcs[i].as_ref(),
            None => None,
        }
    }

    /// The first channel that the application reads.
    pub fn Get_IPC_from_reader_appid(&self, reader_appid: AppId) -> (channel: Option<&ipc>)
        ensures
            match channel {
                Some(found) => self@.ipc_of_reader(reader_appid) == Some(found@),
                None => self@.ipc_of_reader(reader_appid) is None,
            },
    {
        let mut i: usize = 0;
        while i < self.ipcs.len()
            invariant
                i <= self.ipcs@.len(),
                forall|j: int| 0 <= j < i ==> !hits(self@.ipcs, has_reader(reader_appid), j),
            decreases self.ipcs@.len() - i,
        {
            match &self.ipcs[i] {
                Some(channel) => {
                    if channel.get_reader_proc_i() as usize == reader_appid.index() {
                        proof {
                            assert(hits(self@.ipcs, has_reader(reader_appid), i as int));
                            lemma_first_hit_found(self@.ipcs, has_reader(reader_appid), i as int);
                        }
                        return Some(channel);
                    }
                },
                None => {},
            }
            i += 1;
        }
        proof {
            lemma_first_hit_missing(self@.ipcs, has_reader(reader_appid));
        }
        None
    }

    /// The first channel that the application writes.
    pub fn Get_IPC_from_writer_appid(&self, writer_appid: AppId) -> (channel: Option<&ipc>)
        ensures
            match channel {
                Some(found) => self@.ipc_of_writer(writer_appid) == Some(found@),
                None => self@.ipc_of_writer(writer_appid) is None,
            },
    {
        match self.find_ipc_of_writer(writer_appid) {
            Some(i) => self.ipcs[i].as_ref(),
            None => None,
        }
    }

    /// The handle of the channel with the given identifier: `Some` exactly
    /// when the table holds such a channel.
    pub fn _mk_Get_IPC_Handle(&self, _eIPC_ID: MK_IPC_ID_u) -> (handle: Option<MK_HANDLE_t>)
        ensures
            handle == self@.ipc_handle(_eIPC_ID),
    {
        let handle = convert_ipcID_to_handle(_eIPC_ID);
        match self.find_ipc(handle) {
            Some(_) => Some(handle),
            None => None,
        }
    }

    /// Hands the application one access to the shared memory of the channel
    /// that the handle names: to the writer for reading and writing, to the
    /// reader for reading. Any other application is denied, and so is
    /// everyone for a handle that names no channel or while the channel has
    /// no access left to hand out; a denial changes nothing.
    pub fn _mk_Get_Access_IPC(&mut self, _hIPC: MK_HANDLE_t, _appid_caller: AppId) -> (access:
        Option<IpcAccess>)
        ensures
            access == old(self)@.access(_hIPC, _appid_caller),
            final(self)@ == old(self)@.accessed(_hIPC, _appid_caller),
    {
        match self.find_ipc(_hIPC) {
            Some(i) => {
                let slot = &mut self.ipcs[i];
                let access = match slot {
                    Some(channel) => channel.get_access(_appid_caller),
                    None => None,
                };
                assert(self@.ipcs =~= old(self)@.accessed(_hIPC, _appid_caller).ipcs);
                access
            },
            None => None,
        }
    }

    /// Gives back one access to the channel that the handle names. A
    /// channel with no access out answers with an illegal parameter, a
    /// handle that names no channel with an unknown handle; either way
    /// nothing changes.
    pub fn _mk_Release_Access_IPC(&mut self, _hIPC: MK_HANDLE_t) -> (error: MK_ERROR_e)
        ensures
            error == old(self)@.release_outcome(_hIPC),
            final(self)@ == old(self)@.released(_hIPC),
    {
        match self.find_ipc(_hIPC) {
            Some(i) => {
                let slot = &mut self.ipcs[i];
                let released = match slot {
                    Some(channel) => channel.release_access(),
                    None => false,
                };
                assert(self@.ipcs =~= old(self)@.released(_hIPC).ipcs);
                if released {
                    MK_ERROR_e::MK_ERROR_NONE
                } else {
                    MK_ERROR_e::MK_ERROR_ILLEGAL_PARAMETER
                }
            },
            None => MK_ERROR_e::MK_ERROR_UNKNOWN_HANDLE,
        }
    }

    /// Records the notification that an application wants when new data is
    /// there in the channel that the handle names, or drops it where
    /// `callback` is `None`. Only the writer and the reader of the channel
    /// may register one. The result says whether it was recorded: not for a
    /// handle that names no channel, nor for any other application.
    pub fn register_notification(
        &mut self,
        handle: MK_HANDLE_t,
        caller: AppId,
        callback: Option<Callback>,
    ) -> (recorded: bool)
        ensures
            recorded == match old(self)@.ipc(handle) {
                Some(channel) => channel.records_for(caller),
                None => false,
            },
            final(self)@ == old(self)@.listening(handle, caller, callback),
    {
        match self.find_ipc(handle) {
            Some(i) => {
                let slot = &mut self.ipcs[i];
                let recorded = match slot {
                    Some(channel) => channel.register_notification(caller, callback),
                    None => false,
                };
                assert(self@.ipcs =~= old(self)@.listening(handle, caller, callback).ipcs);
                recorded
            },
            None => false,
        }
    }

    /// Registers the buffer that an application shares as writer, or
    /// withdraws it where `shared_mem` is `None`: the first channel that the
    /// application writes records the buffer and exposes it, for reading,
    /// to the channel's reader, and the notification for new data is
    /// scheduled. The bytes are never copied. The result says whether the
    /// application writes any channel.
    pub fn expose(&mut self, writer_appid: AppId, shared_mem: Option<AppSlice>) -> (found: bool)
        ensures
            found == old(self)@.ipc_of_writer(writer_appid).is_some(),
            final(self)@ == old(self)@.allowed(writer_appid, shared_mem),
    {
        match self.find_ipc_of_writer(writer_appid) {
            Some(i) => {
                let (reader, callback) = match &self.ipcs[i] {
                    Some(channel) => (
                        self.Convert_Index_to_Appid(channel.get_reader_proc_i()),
                        channel.fired(),
                    ),
                    None => (None, None),
                };
                let slot = &mut self.ipcs[i];
                let registered = match slot {
                    Some(channel) => channel.expose(writer_appid, shared_mem, reader),
                    None => false,
                };
                if registered && shared_mem.is_some() {
                    match callback {
                        Some(notification) => self.scheduled.push(notification),
                        None => {},
                    }
                }
                assert(self@.ipcs =~= old(self)@.allowed(writer_appid, shared_mem).ipcs);
                true
            },
            None => false,
        }
    }
}

} // verus!
