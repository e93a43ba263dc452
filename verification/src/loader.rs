//! Start-up: the tables as they stand before the first request, with the
//! three fixed processes and the mailboxes and channels between them.
use vstd::prelude::*;
use crate::ipc::{ipc, IpcView};
use crate::mailbox::{mbox, MailboxView};
use crate::mloi::{
    MK_IPC_COM_LENGTH, MK_IPC_COM_MAIN_ID, MK_IPC_LIMIT, MK_IPC_MAIN_COM_ID, MK_IPC_MAIN_MGT_ID,
    MK_IPC_MGT_LENGTH, MK_IPC_MGT_MAIN_ID, MK_MAILBOX_COM_MAIN_ID, MK_MAILBOX_LIMIT,
    MK_MAILBOX_MAIN_COM_ID, MK_MAILBOX_MAIN_MGT_ID, MK_MAILBOX_MGT_MAIN_ID, MK_PROCESS_COM_VPP_ID,
    MK_PROCESS_MAIN_APP_ID, MK_PROCESS_MGT_VPP_ID, VppState,
};
use crate::process::{
    KernelProcess, VppProcess, COM_PROCESS_INDEX, MAIN_PROCESS_INDEX, MGT_PROCESS_INDEX, NUM_PROCS,
};
use crate::vppkernel::{ipc_views, mailbox_views, KernelView, VppKernel};

verus! {

/// The loaded process in a slot, if the platform loaded one there.
pub open spec fn loaded_in(tock_procs: Seq<Option<KernelProcess>>, slot: int) -> Option<
    KernelProcess,
> {
    if 0 <= slot < tock_procs.len() {
        tock_procs[slot]
    } else {
        None
    }
}

/// The main process as it is held back at start-up: it has yielded and is
/// stopped until it is resumed.
pub open spec fn held_back(loaded: Option<KernelProcess>) -> Option<KernelProcess> {
    match loaded {
        Some(process) => Some(
            KernelProcess { state: process.state.yielded().stopped(), ..process },
        ),
        None => None,
    }
}

/// The process table at start-up: the management process, the
/// communication process and the main process in the first three slots,
/// each ready, and every other slot empty.
pub open spec fn processes_at_start(tock_procs: Seq<Option<KernelProcess>>) -> Seq<
    Option<VppProcess>,
> {
    Seq::new(
        NUM_PROCS as nat,
        |i: int|
            if i == MGT_PROCESS_INDEX {
                Some(
                    VppProcess::fresh(
                        loaded_in(tock_procs, i),
                        VppState::READY,
                        MK_PROCESS_MGT_VPP_ID,
                    ),
                )
            } else if i == COM_PROCESS_INDEX {
                Some(
                    VppProcess::fresh(
                        loaded_in(tock_procs, i),
                        VppState::READY,
                        MK_PROCESS_COM_VPP_ID,
                    ),
                )
            } else if i == MAIN_PROCESS_INDEX {
                Some(
                    VppProcess::fresh(
                        held_back(loaded_in(tock_procs, i)),
                        VppState::READY,
                        MK_PROCESS_MAIN_APP_ID,
                    ),
                )
            } else {
                None
            },
    )
}

/// The mailbox table at start-up: the four mailboxes between the main
/// process and the two processes of the platform in the first four slots,
/// and every other slot empty.
pub open spec fn mailboxes_at_start() -> Seq<Option<MailboxView>> {
    Seq::new(
        MK_MAILBOX_LIMIT as nat,
        |i: int|
            if i == 0 {
                Some(
                    MailboxView::created(
                        MK_MAILBOX_MGT_MAIN_ID,
                        MGT_PROCESS_INDEX,
                        MAIN_PROCESS_INDEX,
                    ),
                )
            } else if i == 1 {
                Some(
                    MailboxView::created(
                        MK_MAILBOX_COM_MAIN_ID,
                        COM_PROCESS_INDEX,
                        MAIN_PROCESS_INDEX,
                    ),
                )
            } else if i == 2 {
                Some(
                    MailboxView::created(
                        MK_MAILBOX_MAIN_MGT_ID,
                        MAIN_PROCESS_INDEX,
                        MGT_PROCESS_INDEX,
                    ),
                )
            } else if i == 3 {
                Some(
                    MailboxView::created(
                        MK_MAILBOX_MAIN_COM_ID,
                        MAIN_PROCESS_INDEX,
                        COM_PROCESS_INDEX,
                    ),
                )
            } else {
                None
            },
    )
}

/// The channel table at start-up: the four channels between the main
/// process and the two processes of the platform in the first four slots,
/// and every other slot empty.
pub open spec fn ipcs_at_start() -> Seq<Option<IpcView>> {
    Seq::new(
        MK_IPC_LIMIT as nat,
        |i: int|
            if i == 0 {
                Some(
                    IpcView::created(
                        MK_IPC_MAIN_COM_ID,
                        MK_IPC_COM_LENGTH,
                        MAIN_PROCESS_INDEX,
                        COM_PROCESS_INDEX,
                    ),
                )
            } else if i == 1 {
                Some(
                    IpcView::created(
                        MK_IPC_COM_MAIN_ID,
                        MK_IPC_COM_LENGTH,
                        COM_PROCESS_INDEX,
                        MAIN_PROCESS_INDEX,
                    ),
                )
            } else if i == 2 {
                Some(
                    IpcView::created(
                        MK_IPC_MAIN_MGT_ID,
                        MK_IPC_MGT_LENGTH,
                        MAIN_PROCESS_INDEX,
                        MGT_PROCESS_INDEX,
                    ),
                )
            } else if i == 3 {
                Some(
                    IpcView::created(
                        MK_IPC_MGT_MAIN_ID,
                        MK_IPC_MGT_LENGTH,
                        MGT_PROCESS_INDEX,
                        MAIN_PROCESS_INDEX,
                    ),
                )
            } else {
                None
            },
    )
}

/// The kernel at start-up.
pub open spec fn kernel_at_start(tock_procs: Seq<Option<KernelProcess>>) -> KernelView {
    KernelView {
        processes: processes_at_start(tock_procs),
        mailboxes: mailboxes_at_start(),
        ipcs: ipcs_at_start(),
        scheduled: Seq::empty(),
        time: 0,
    }
}

fn loaded(tock_procs: &Vec<Option<KernelProcess>>, slot: usize) -> (process: Option<KernelProcess>)
    ensures
        process == loaded_in(tock_procs@, slot as int),
{
    if slot < tock_procs.len() {
        tock_procs[slot]
    } else {
        None
    }
}

fn mailbox_table() -> (mbs: Vec<Option<mbox>>)
    ensures
        mailbox_views(mbs@) == mailboxes_at_start(),
{
    let mut mbs: Vec<Option<mbox>> = Vec::new();
    mbs.push(Some(mbox::create_mgt_mb()));
    mbs.push(Some(mbox::create_com_mb()));
    mbs.push(Some(mbox::create_main_mgt_mb()));
    mbs.push(Some(mbox::create_main_com_mb()));
    while mbs.len() < MK_MAILBOX_LIMIT
        invariant
            4 <= mbs@.len() <= MK_MAILBOX_LIMIT,
            forall|i: int| 0 <= i < 4 ==> mailbox_views(mbs@)[i] == mailboxes_at_start()[i],
            forall|i: int| 4 <= i < mbs@.len() ==> mbs@[i] is None,
        decreases MK_MAILBOX_LIMIT - mbs@.len(),
    {
        mbs.push(None);
    }
    assert(mailbox_views(mbs@) =~= mailboxes_at_start());
    mbs
}

fn ipc_table() -> (ipcs: Vec<Option<ipc>>)
    ensures
        ipc_views(ipcs@) == ipcs_at_start(),
{
    let mut ipcs: Vec<Option<ipc>> = Vec::new();
    ipcs.push(Some(ipc::create_main_com_ipc()));
    ipcs.push(Some(ipc::create_com_main_ipc()));
    ipcs.push(Some(ipc::create_main_mgt_ipc()));
    ipcs.push(Some(ipc::create_mgt_main_ipc()));
    while ipcs.len() < MK_IPC_LIMIT
        invariant
            4 <= ipcs@.len() <= MK_IPC_LIMIT,
            forall|i: int| 0 <= i < 4 ==> ipc_views(ipcs@)[i] == ipcs_at_start()[i],
            forall|i: int| 4 <= i < ipcs@.len() ==> ipcs@[i] is None,
        decreases MK_IPC_LIMIT - ipcs@.len(),
    {
        ipcs.push(None);
    }
    assert(ipc_views(ipcs@) =~= ipcs_at_start());
    ipcs
}

/// Makes the kernel for the processes that the platform loaded, given by
/// slot: the first is the management process, the second the
/// communication process, the third the main process of the application,
/// which is held back until it is resumed. A slot that the platform left
/// empty gives a record without a loaded process underneath.
pub fn load_vpp_processes(tock_procs: &Vec<Option<KernelProcess>>) -> (kernel: VppKernel)
    ensures
        kernel@ == kernel_at_start(tock_procs@),
{
    let mgt_process = VppProcess::create_mgt_process(loaded(tock_procs, 0));
    let com_process = VppProcess::create_com_process(loaded(tock_procs, 1));
    let mut main_process = VppProcess::create_main_process(loaded(tock_procs, 2));
    main_process.yield_tock_process();
    main_process.stop_tock_process();
    let mut vpp_procs: Vec<Option<VppProcess>> = Vec::new();
    vpp_procs.push(Some(mgt_process));
    vpp_procs.push(Some(com_process));
    vpp_procs.push(Some(main_process));
    while vpp_procs.len() < NUM_PROCS
        invariant
            3 <= vpp_procs@.len() <= NUM_PROCS,
            forall|i: int| 0 <= i < 3 ==> vpp_procs@[i] == processes_at_start(tock_procs@)[i],
            forall|i: int| 3 <= i < vpp_procs@.len() ==> vpp_procs@[i] is None,
        decreases NUM_PROCS - vpp_procs@.len(),
    {
        vpp_procs.push(None);
    }
    assert(vpp_procs@ =~= processes_at_start(tock_procs@));
    VppKernel::new(vpp_procs, mailbox_table(), ipc_table())
}

} // verus!
