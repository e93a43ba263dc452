//! What holds of the kernel whatever its tables contain.
use vstd::prelude::*;
use crate::ipc::IpcAccess;
use crate::mailbox::lemma_mailbox_is_fifo;
use crate::mloi::{handle_of, id_of, MK_BITMAP_t, MK_ERROR_e, MK_HANDLE_t, MK_PROCESS_PRIORITY_e, VppState};
use crate::process::{AppId, KernelProcess, VppProcess};
use crate::registry::{lemma_first_hit_is_first, lemma_first_hit_update};
use crate::vppkernel::{has_mailbox_id, has_process_id, KernelView};

verus! {

/// An operation on a process by handle never moves the record to another
/// slot or gives it another identifier: the handle names the same slot
/// afterwards.
pub proof fn lemma_process_keeps_its_slot(
    kernel: KernelView,
    handle: MK_HANDLE_t,
    change: spec_fn(VppProcess) -> VppProcess,
    other: MK_HANDLE_t,
)
    requires
        forall|process: VppProcess| (#[trigger] change(process)).vppid == process.vppid,
    ensures
        kernel.resolved(handle).process_slot(other) == kernel.process_slot(other),
        kernel.with_process(handle, change).process_slot(other) == kernel.process_slot(other),
        kernel.with_process(handle, change).processes.len() == kernel.processes.len(),
{
    lemma_first_hit_is_first(kernel.processes, has_process_id(id_of(handle)));
    match kernel.process_slot(handle) {
        Some(i) => {
            let resolved = kernel.resolved(handle);
            lemma_first_hit_update(
                kernel.processes,
                has_process_id(id_of(other)),
                i,
                resolved.processes[i]->Some_0,
            );
            assert(resolved.processes =~= kernel.processes.update(
                i,
                Some(resolved.processes[i]->Some_0),
            ));
            if kernel.live_process_slot(handle) is Some {
                lemma_first_hit_update(
                    resolved.processes,
                    has_process_id(id_of(other)),
                    i,
                    change(resolved.processes[i]->Some_0),
                );
            }
        },
        None => {},
    }
}

/// Suspending a process and then resuming it brings a ready, waiting or
/// synchronising process back to the state it was in. A running process
/// comes back ready, not running. The handle resolves throughout, and no
/// other record changes.
pub proof fn lemma_suspend_resume_round_trip(kernel: KernelView, handle: MK_HANDLE_t)
    requires
        kernel.live_process_slot(handle) is Some,
    ensures
        ({
            let i = kernel.live_process_slot(handle)->Some_0;
            let before = kernel.processes[i]->Some_0.vppstate;
            let between = kernel.suspended(handle);
            let after = between.resumed(handle);
            &&& kernel.process_outcome(handle) == MK_ERROR_e::MK_ERROR_NONE
            &&& between.process_outcome(handle) == MK_ERROR_e::MK_ERROR_NONE
            &&& between.processes[i]->Some_0.vppstate == before.suspended()
            &&& after.processes[i]->Some_0.vppstate == before.suspended().resumed()
            &&& before == VppState::READY || before == VppState::WAITING || before
                == VppState::SYNC ==> after.processes[i]->Some_0.vppstate == before
            &&& before == VppState::RUNNING ==> between.processes[i]->Some_0.vppstate
                == VppState::SUSPENDED_R && after.processes[i]->Some_0.vppstate
                == VppState::READY
            &&& forall|j: int|
                0 <= j < kernel.processes.len() && j != i ==> after.processes[j]
                    == kernel.processes[j]
        }),
{
    lemma_first_hit_is_first(kernel.processes, has_process_id(id_of(handle)));
    let between = kernel.suspended(handle);
    lemma_process_keeps_its_slot(
        kernel,
        handle,
        |process: VppProcess|
            VppProcess {
                vppstate: process.vppstate.suspended(),
                tockprocess: match process.tockprocess {
                    Some(loaded) => Some(KernelProcess { state: loaded.state.stopped(), ..loaded }),
                    None => None,
                },
                ..process
            },
        handle,
    );
    lemma_first_hit_is_first(between.processes, has_process_id(id_of(handle)));
}

/// A dead process stays out of reach: its identifier gives no handle, its
/// last error reads as an unknown identifier, every operation by its
/// handle answers that the handle is unknown, and none of them brings it
/// back to life, so that the same holds however often one asks. The
/// search never goes on to a later record with the same identifier.
pub proof fn lemma_dead_process_is_excluded(kernel: KernelView, handle: MK_HANDLE_t)
    requires
        kernel.process_slot(handle) is Some,
        !kernel.processes[kernel.process_slot(handle)->Some_0]->Some_0.is_live(),
    ensures
        kernel.live_process_slot(handle) is None,
        kernel.process_handle(id_of(handle)) is None,
        kernel.last_error(handle) == MK_ERROR_e::MK_ERROR_UNKNOWN_ID,
        kernel.process_outcome(handle) == MK_ERROR_e::MK_ERROR_UNKNOWN_HANDLE,
        kernel.priority(handle) == MK_PROCESS_PRIORITY_e::MK_PROCESS_PRIORITY_ERROR,
        forall|priority: MK_PROCESS_PRIORITY_e|
            kernel.set_priority_outcome(handle, priority) == MK_ERROR_e::MK_ERROR_UNKNOWN_HANDLE
                && #[trigger] kernel.with_priority(handle, priority) == kernel.resolved(handle),
        kernel.suspended(handle) == kernel.resolved(handle),
        kernel.resumed(handle) == kernel.resolved(handle),
        kernel.yielded(handle) == kernel.resolved(handle),
        kernel.resolved(handle).process_slot(handle) == kernel.process_slot(handle),
        !kernel.resolved(handle).processes[kernel.process_slot(handle)->Some_0]->Some_0.is_live(),
        kernel.resolved(handle).resolved(handle) == kernel.resolved(handle),
{
    let i = kernel.process_slot(handle)->Some_0;
    lemma_first_hit_is_first(kernel.processes, has_process_id(id_of(handle)));
    assert(id_of(handle_of(id_of(handle))) == id_of(handle));
    let resolved = kernel.resolved(handle);
    lemma_first_hit_update(
        kernel.processes,
        has_process_id(id_of(handle)),
        i,
        resolved.processes[i]->Some_0,
    );
    assert(resolved.processes =~= kernel.processes.update(i, Some(resolved.processes[i]->Some_0)));
    assert(resolved.resolved(handle).processes =~= resolved.processes);
}

/// No request for a process brings a dead process back: whatever the
/// handles, a record that is dead before a suspension, a resumption, a
/// yield, a change of priority or the start of a wait is dead after it.
pub proof fn lemma_death_is_final(
    kernel: KernelView,
    handle: MK_HANDLE_t,
    priority: MK_PROCESS_PRIORITY_e,
    time: u32,
    j: int,
)
    requires
        0 <= j < kernel.processes.len(),
        kernel.processes[j] is Some,
        !kernel.processes[j]->Some_0.is_live(),
    ensures
        kernel.resolved(handle).processes[j] is Some && !kernel.resolved(
            handle,
        ).processes[j]->Some_0.is_live(),
        kernel.suspended(handle).processes[j] is Some && !kernel.suspended(
            handle,
        ).processes[j]->Some_0.is_live(),
        kernel.resumed(handle).processes[j] is Some && !kernel.resumed(
            handle,
        ).processes[j]->Some_0.is_live(),
        kernel.yielded(handle).processes[j] is Some && !kernel.yielded(
            handle,
        ).processes[j]->Some_0.is_live(),
        kernel.with_priority(handle, priority).processes[j] is Some && !kernel.with_priority(
            handle,
            priority,
        ).processes[j]->Some_0.is_live(),
        kernel.waiting(handle, time).processes[j] is Some && !kernel.waiting(
            handle,
            time,
        ).processes[j]->Some_0.is_live(),
{
    lemma_first_hit_is_first(kernel.processes, has_process_id(id_of(handle)));
}

/// Sending to a mailbox or reading from it never moves the mailbox to
/// another slot or gives it another identifier: every handle names the
/// same slot afterwards.
pub proof fn lemma_mailbox_keeps_its_slot(
    kernel: KernelView,
    handle: MK_HANDLE_t,
    bitmap: MK_BITMAP_t,
    other: MK_HANDLE_t,
)
    ensures
        kernel.sent(handle, bitmap).mailbox_slot(other) == kernel.mailbox_slot(other),
        kernel.received(handle).mailbox_slot(other) == kernel.mailbox_slot(other),
        other != handle && kernel.mailbox_slot(other) != kernel.mailbox_slot(handle)
            ==> kernel.sent(handle, bitmap).mailbox(other) == kernel.mailbox(other)
            && kernel.received(handle).mailbox(other) == kernel.mailbox(other),
{
    lemma_first_hit_is_first(kernel.mailboxes, has_mailbox_id(id_of(handle)));
    lemma_first_hit_is_first(kernel.mailboxes, has_mailbox_id(id_of(other)));
    match kernel.mailbox_slot(handle) {
        Some(i) => {
            let mailbox = kernel.mailboxes[i]->Some_0;
            lemma_first_hit_update(
                kernel.mailboxes,
                has_mailbox_id(id_of(other)),
                i,
                mailbox.with_signal(bitmap),
            );
            lemma_first_hit_update(
                kernel.mailboxes,
                has_mailbox_id(id_of(other)),
                i,
                mailbox.without_oldest(),
            );
            if mailbox.is_full() {
            } else {
                assert(kernel.sent(handle, bitmap).mailboxes =~= kernel.mailboxes.update(
                    i,
                    Some(mailbox.with_signal(bitmap)),
                ));
            }
        },
        None => {},
    }
}

/// What a mailbox holds after a signal was sent to it or read from it.
pub proof fn lemma_mailbox_after(kernel: KernelView, handle: MK_HANDLE_t, bitmap: MK_BITMAP_t)
    requires
        kernel.mailbox(handle) is Some,
    ensures
        kernel.sent(handle, bitmap).mailbox(handle) == Some(
            kernel.mailbox(handle)->Some_0.with_signal(bitmap),
        ),
        kernel.received(handle).mailbox(handle) == Some(
            kernel.mailbox(handle)->Some_0.without_oldest(),
        ),
{
    lemma_first_hit_is_first(kernel.mailboxes, has_mailbox_id(id_of(handle)));
    lemma_mailbox_keeps_its_slot(kernel, handle, bitmap, handle);
}

/// Signals leave a mailbox in the order in which they were sent, each as
/// it was sent: after three are sent to a mailbox with nothing pending and
/// room for three, each sending succeeds, and four reads give the first,
/// the second, the third and then 0.
pub proof fn lemma_signals_are_first_in_first_out(
    kernel: KernelView,
    handle: MK_HANDLE_t,
    b1: MK_BITMAP_t,
    b2: MK_BITMAP_t,
    b3: MK_BITMAP_t,
)
    requires
        kernel.mailbox(handle) is Some,
        kernel.mailbox(handle)->Some_0.pending.len() == 0,
        kernel.mailbox(handle)->Some_0.capacity >= 3,
    ensures
        ({
            let sent1 = kernel.sent(handle, b1);
            let sent2 = sent1.sent(handle, b2);
            let sent3 = sent2.sent(handle, b3);
            let read1 = sent3.received(handle);
            let read2 = read1.received(handle);
            let read3 = read2.received(handle);
            &&& kernel.send_outcome(handle) == MK_ERROR_e::MK_ERROR_NONE
            &&& sent1.send_outcome(handle) == MK_ERROR_e::MK_ERROR_NONE
            &&& sent2.send_outcome(handle) == MK_ERROR_e::MK_ERROR_NONE
            &&& sent3.signal(handle) == Some(b1)
            &&& read1.signal(handle) == Some(b2)
            &&& read2.signal(handle) == Some(b3)
            &&& read3.signal(handle) == Some(0u32)
            &&& read3.mailbox(handle) == kernel.mailbox(handle)
        }),
{
    let mailbox = kernel.mailbox(handle)->Some_0;
    let sent1 = kernel.sent(handle, b1);
    let sent2 = sent1.sent(handle, b2);
    let sent3 = sent2.sent(handle, b3);
    let read1 = sent3.received(handle);
    let read2 = read1.received(handle);
    let read3 = read2.received(handle);
    lemma_mailbox_is_fifo(mailbox, b1, b2, b3);
    lemma_mailbox_after(kernel, handle, b1);
    lemma_mailbox_after(sent1, handle, b2);
    lemma_mailbox_after(sent2, handle, b3);
    lemma_mailbox_after(sent3, handle, 0);
    lemma_mailbox_after(read1, handle, 0);
    lemma_mailbox_after(read2, handle, 0);
    assert(sent1.mailbox(handle)->Some_0.pending =~= seq![b1]);
    assert(sent2.mailbox(handle)->Some_0.pending =~= seq![b1, b2]);
}

/// Reading from a mailbox with nothing pending gives 0 and never nothing,
/// and leaves the kernel as it was; reading by a handle that names no
/// mailbox gives nothing and leaves the kernel as it was.
pub proof fn lemma_reading_an_empty_mailbox(kernel: KernelView, handle: MK_HANDLE_t)
    ensures
        kernel.mailbox(handle) is Some && kernel.mailbox(handle)->Some_0.pending.len() == 0
            ==> kernel.signal(handle) == Some(0u32) && kernel.received(handle) == kernel,
        kernel.mailbox(handle) is None <==> kernel.signal(handle) is None,
        kernel.mailbox(handle) is None ==> kernel.received(handle) == kernel,
{
    lemma_first_hit_is_first(kernel.mailboxes, has_mailbox_id(id_of(handle)));
    if kernel.mailbox(handle) is Some && kernel.mailbox(handle)->Some_0.pending.len() == 0 {
        assert(kernel.received(handle).mailboxes =~= kernel.mailboxes);
    }
}

/// Sending by a handle that names no mailbox answers with an unknown
/// handle and leaves every mailbox, and the rest of the kernel, as it was.
pub proof fn lemma_sending_to_an_unknown_handle(
    kernel: KernelView,
    handle: MK_HANDLE_t,
    bitmap: MK_BITMAP_t,
)
    requires
        kernel.mailbox(handle) is None,
    ensures
        kernel.send_outcome(handle) == MK_ERROR_e::MK_ERROR_UNKNOWN_HANDLE,
        kernel.sent(handle, bitmap) == kernel,
{
    lemma_first_hit_is_first(kernel.mailboxes, has_mailbox_id(id_of(handle)));
}

/// Access to a channel goes to its writer and to its reader and to nobody
/// else: whoever is given access is the writer, and may read and write, or
/// is the reader, and may read; for any third application the answer is a
/// denial that changes nothing.
pub proof fn lemma_access_only_for_writer_and_reader(
    kernel: KernelView,
    handle: MK_HANDLE_t,
    caller: AppId,
)
    ensures
        kernel.access(handle, caller) is Some ==> kernel.ipc(handle) is Some && (caller.index
            == kernel.ipc(handle)->Some_0.writer_process_index || caller.index == kernel.ipc(
            handle,
        )->Some_0.reader_process_index),
        kernel.access(handle, caller) == Some(IpcAccess::ReadWrite) ==> caller.index
            == kernel.ipc(handle)->Some_0.writer_process_index,
        kernel.access(handle, caller) == Some(IpcAccess::ReadOnly) ==> caller.index == kernel.ipc(
            handle,
        )->Some_0.reader_process_index,
        kernel.ipc(handle) is Some && !kernel.ipc(handle)->Some_0.is_exhausted() && (caller.index
            == kernel.ipc(handle)->Some_0.writer_process_index || caller.index == kernel.ipc(
            handle,
        )->Some_0.reader_process_index) ==> kernel.access(handle, caller) is Some,
        kernel.access(handle, caller) is None ==> kernel.accessed(handle, caller) == kernel,
{
    lemma_first_hit_is_first(kernel.ipcs, crate::vppkernel::has_ipc_id(id_of(handle)));
    if kernel.access(handle, caller) is None {
        assert(kernel.accessed(handle, caller).ipcs =~= kernel.ipcs);
    }
}

/// The slot of a process and its identity towards the platform convert
/// into each other and back, exactly where a process is loaded in the slot.
pub proof fn lemma_slot_and_application_agree(kernel: KernelView, index: u16, appid: AppId)
    ensures
        kernel.app_of_index(index) is Some <==> kernel.is_loaded(index as int),
        kernel.app_of_index(index) is Some ==> kernel.index_of_app(
            kernel.app_of_index(index)->Some_0,
        ) == Some(index),
        kernel.index_of_app(appid) is Some ==> kernel.app_of_index(
            kernel.index_of_app(appid)->Some_0,
        ) == Some(appid),
{
}

/// Of two records with one identifier only the first is ever reached, and
/// where the first is dead none is: a handle never resolves to a slot that
/// has a record with the same identifier before it.
pub proof fn lemma_first_record_wins(kernel: KernelView, handle: MK_HANDLE_t, j: int)
    requires
        0 <= j < kernel.processes.len(),
        kernel.processes[j] is Some,
        kernel.processes[j]->Some_0.vppid == id_of(handle),
    ensures
        kernel.process_slot(handle) is Some,
        kernel.process_slot(handle)->Some_0 <= j,
        kernel.live_process_slot(handle) is Some ==> kernel.live_process_slot(handle)->Some_0
            <= j,
        kernel.live_process_slot(handle) == Some(j) ==> forall|k: int|
            0 <= k < j ==> !(kernel.processes[k] is Some && kernel.processes[k]->Some_0.vppid
                == id_of(handle)),
{
    lemma_first_hit_is_first(kernel.processes, has_process_id(id_of(handle)));
    assert(crate::registry::hits(kernel.processes, has_process_id(id_of(handle)), j));
    if kernel.live_process_slot(handle) == Some(j) {
        assert forall|k: int| 0 <= k < j implies !(kernel.processes[k] is Some
            && kernel.processes[k]->Some_0.vppid == id_of(handle)) by {
            assert(!crate::registry::hits(kernel.processes, has_process_id(id_of(handle)), k));
        }
    }
}

} // verus!
