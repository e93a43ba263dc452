use vpp::ipc::{ipc, AppSlice, IpcAccess};
use vpp::loader::load_vpp_processes;
use vpp::mailbox::{mbox, Callback};
use vpp::mloi::{
    MK_ERROR_e, MK_PROCESS_PRIORITY_e, VppState, MK_IPC_LIMIT, MK_MAILBOX_LIMIT,
    MK_MAILBOX_SIGNAL_LIMIT,
};
use vpp::process::{AppId, KernelProcess, State, VppProcess, NUM_PROCS};
use vpp::vppkernel::VppKernel;

fn loaded(name: &'static str, state: State) -> Option<KernelProcess> {
    let mut process = KernelProcess::new(name);
    process.state = state;
    Some(process)
}

fn booted() -> VppKernel {
    load_vpp_processes(&vec![
        loaded("mgt", State::Yielded),
        loaded("com", State::Yielded),
        loaded("main", State::Yielded),
        None,
    ])
}

fn state_of(kernel: &VppKernel, slot: u16) -> VppState {
    kernel.get_process_ref_index(slot).unwrap().get_vpp_state()
}

fn scheduling_of(kernel: &VppKernel, slot: u16) -> State {
    kernel.get_process_ref_index(slot).unwrap().tockprocess.unwrap().get_state()
}

fn set_state(kernel: &mut VppKernel, slot: usize, state: VppState) {
    kernel.vpp_processes[slot].as_mut().unwrap().vppstate = state;
}

fn callback_of(app: usize) -> Callback {
    Callback { app_id: AppId::new(app), appdata: 7, fn_ptr: 0x4000_0100 }
}

#[test]
fn boot_fills_the_fixed_slots() {
    let kernel = booted();
    assert_eq!(kernel.vpp_processes.len(), NUM_PROCS);
    assert_eq!(kernel.mailboxes.len(), MK_MAILBOX_LIMIT);
    assert_eq!(kernel.ipcs.len(), MK_IPC_LIMIT);
    assert_eq!(kernel.get_process_ref_index(0).unwrap().get_vpp_id(), 0x8001);
    assert_eq!(kernel.get_process_ref_index(1).unwrap().get_vpp_id(), 0x8000);
    assert_eq!(kernel.get_process_ref_index(2).unwrap().get_vpp_id(), 0x4000);
    assert!(kernel.get_process_ref_index(3).is_none());
    assert!(kernel.get_process_ref_index(4).is_none());
    assert!(kernel.get_process_ref_index(u16::MAX).is_none());
    for slot in 0..3 {
        assert_eq!(state_of(&kernel, slot), VppState::READY);
    }
    assert_eq!(scheduling_of(&kernel, 0), State::Yielded);
    assert_eq!(scheduling_of(&kernel, 1), State::Yielded);
    assert_eq!(scheduling_of(&kernel, 2), State::StoppedYielded);
    assert_eq!(kernel.mailboxes.iter().filter(|slot| slot.is_some()).count(), 4);
    assert_eq!(kernel.ipcs.iter().filter(|slot| slot.is_some()).count(), 4);
    let ids: Vec<u16> = kernel.mailboxes.iter().flatten().map(|m| m.get_mb_id()).collect();
    assert_eq!(ids, vec![0x8001, 0x8000, 0x4001, 0x4000]);
    let ids: Vec<u16> = kernel.ipcs.iter().flatten().map(|c| c.get_ipc_id()).collect();
    assert_eq!(ids, vec![0x4000, 0x8000, 0x4001, 0x8001]);
    assert!(kernel.scheduled.is_empty());
    assert_eq!(kernel._mk_Get_Time(), 0);
}

#[test]
fn boot_without_loaded_processes_keeps_the_records() {
    let mut kernel = load_vpp_processes(&vec![]);
    assert_eq!(kernel._mk_Get_Process_Handle(0x4000), Some(0x4000));
    assert!(kernel.get_process_ref_index(2).unwrap().tockprocess.is_none());
    assert_eq!(kernel._mk_suspend_process(0x4000), MK_ERROR_e::MK_ERROR_NONE);
    assert_eq!(state_of(&kernel, 2), VppState::SUSPENDED_R);
    assert_eq!(kernel.Convert_Index_to_Appid(2), None);
}

#[test]
fn scenario_suspend_main_after_boot() {
    let mut kernel = load_vpp_processes(&vec![
        loaded("mgt", State::Yielded),
        loaded("com", State::Yielded),
        loaded("main", State::Running),
    ]);
    kernel.vpp_processes[2].as_mut().unwrap().resume_tock_process();
    assert_eq!(scheduling_of(&kernel, 2), State::Yielded);
    let handle = kernel._mk_Get_Process_Handle(0x4000);
    assert_eq!(handle, Some(0x0000_4000));
    assert_eq!(state_of(&kernel, 2), VppState::READY);
    assert_eq!(kernel._mk_suspend_process(handle.unwrap()), MK_ERROR_e::MK_ERROR_NONE);
    assert_eq!(state_of(&kernel, 2), VppState::SUSPENDED_R);
    assert_eq!(scheduling_of(&kernel, 2), State::StoppedYielded);
    assert!(kernel.get_process_ref_index(2).unwrap().tockprocess.unwrap().is_stopped());
    assert_eq!(state_of(&kernel, 0), VppState::READY);
    assert_eq!(state_of(&kernel, 1), VppState::READY);
    assert_eq!(scheduling_of(&kernel, 0), State::Yielded);
    assert_eq!(kernel._mk_Get_Process_Handle(0x8001), Some(0x8001));
    assert_eq!(kernel._mk_Get_Process_Handle(0x8000), Some(0x8000));
}

#[test]
fn suspend_then_resume_by_handle() {
    for (before, between, after) in [
        (VppState::READY, VppState::SUSPENDED_R, VppState::READY),
        (VppState::WAITING, VppState::SUSPENDED_W, VppState::WAITING),
        (VppState::SYNC, VppState::SUSPENDED_S, VppState::SYNC),
        (VppState::RUNNING, VppState::SUSPENDED_R, VppState::READY),
    ] {
        let mut kernel = booted();
        set_state(&mut kernel, 1, before);
        assert_eq!(kernel._mk_suspend_process(0x8000), MK_ERROR_e::MK_ERROR_NONE);
        assert_eq!(state_of(&kernel, 1), between);
        assert_eq!(scheduling_of(&kernel, 1), State::StoppedYielded);
        assert_eq!(kernel._mk_resume_process(0x8000), MK_ERROR_e::MK_ERROR_NONE);
        assert_eq!(state_of(&kernel, 1), after);
        assert_eq!(scheduling_of(&kernel, 1), State::Yielded);
        assert_eq!(state_of(&kernel, 0), VppState::READY);
        assert_eq!(state_of(&kernel, 2), VppState::READY);
    }
}

#[test]
fn requests_without_a_transition_change_nothing() {
    let mut kernel = booted();
    assert_eq!(kernel._mk_resume_process(0x8001), MK_ERROR_e::MK_ERROR_NONE);
    assert_eq!(state_of(&kernel, 0), VppState::READY);
    assert_eq!(kernel._mk_suspend_process(0x8001), MK_ERROR_e::MK_ERROR_NONE);
    assert_eq!(kernel._mk_suspend_process(0x8001), MK_ERROR_e::MK_ERROR_NONE);
    assert_eq!(state_of(&kernel, 0), VppState::SUSPENDED_R);
    kernel._mk_yield(0x8001);
    assert_eq!(state_of(&kernel, 0), VppState::SUSPENDED_R);
    assert_eq!(scheduling_of(&kernel, 0), State::StoppedYielded);
}

#[test]
fn yield_moves_a_running_process_to_ready() {
    let mut kernel = load_vpp_processes(&vec![loaded("mgt", State::Running)]);
    set_state(&mut kernel, 0, VppState::RUNNING);
    kernel._mk_yield(0x8001);
    assert_eq!(state_of(&kernel, 0), VppState::READY);
    assert_eq!(scheduling_of(&kernel, 0), State::Yielded);
    kernel._mk_yield(0x8001);
    assert_eq!(state_of(&kernel, 0), VppState::READY);
    kernel._mk_yield(0xFFFF_FFFF);
    kernel._mk_yield(0x4064);
    assert_eq!(state_of(&kernel, 0), VppState::READY);
    assert_eq!(state_of(&kernel, 1), VppState::READY);
}

#[test]
fn yield_leaves_a_process_that_is_not_running_alone() {
    let mut kernel = load_vpp_processes(&vec![loaded("mgt", State::Running)]);
    kernel._mk_yield(0x8001);
    assert_eq!(state_of(&kernel, 0), VppState::READY);
    assert_eq!(scheduling_of(&kernel, 0), State::Running);
}

#[test]
fn unknown_handles_are_reported() {
    let mut kernel = booted();
    for handle in [0xFFFF_FFFFu32, 0x4064, 0, 0x0001_0000] {
        assert_eq!(kernel._mk_suspend_process(handle), MK_ERROR_e::MK_ERROR_UNKNOWN_HANDLE);
        assert_eq!(kernel._mk_resume_process(handle), MK_ERROR_e::MK_ERROR_UNKNOWN_HANDLE);
        assert_eq!(
            kernel._mk_set_process_priority(handle, MK_PROCESS_PRIORITY_e::MK_PROCESS_PRIORITY_LOW),
            MK_ERROR_e::MK_ERROR_UNKNOWN_HANDLE
        );
        assert_eq!(
            kernel._mk_get_process_priority(handle),
            MK_PROCESS_PRIORITY_e::MK_PROCESS_PRIORITY_ERROR
        );
        assert_eq!(kernel._mk_Get_Error(handle), MK_ERROR_e::MK_ERROR_UNKNOWN_HANDLE);
    }
    assert_eq!(kernel._mk_Get_Process_Handle(0x4064), None);
    assert_eq!(kernel._mk_Get_Process_Handle(0), None);
    for slot in 0..3 {
        assert_eq!(state_of(&kernel, slot), VppState::READY);
        assert_eq!(
            kernel.get_process_ref_index(slot).unwrap().get_last_generated_error(),
            MK_ERROR_e::MK_ERROR_NONE
        );
    }
}

#[test]
fn only_the_low_half_of_a_handle_counts() {
    let mut kernel = booted();
    assert_eq!(kernel._mk_suspend_process(0xABCD_4000), MK_ERROR_e::MK_ERROR_NONE);
    assert_eq!(state_of(&kernel, 2), VppState::SUSPENDED_R);
    assert_eq!(kernel._mk_Send_Signal(0x0001_8001, 4), MK_ERROR_e::MK_ERROR_NONE);
    assert_eq!(kernel._mk_Get_Signal(0x8001), Some(4));
}

#[test]
fn priorities_are_kept_per_process() {
    let mut kernel = booted();
    assert_eq!(
        kernel._mk_get_process_priority(0x4000),
        MK_PROCESS_PRIORITY_e::MK_PROCESS_PRIORITY_NORMAL
    );
    assert_eq!(
        kernel._mk_set_process_priority(0x4000, MK_PROCESS_PRIORITY_e::MK_PROCESS_PRIORITY_HIGH),
        MK_ERROR_e::MK_ERROR_NONE
    );
    assert_eq!(
        kernel._mk_set_process_priority(0x8000, MK_PROCESS_PRIORITY_e::MK_PROCESS_PRIORITY_LOW),
        MK_ERROR_e::MK_ERROR_NONE
    );
    assert_eq!(
        kernel._mk_get_process_priority(0x4000),
        MK_PROCESS_PRIORITY_e::MK_PROCESS_PRIORITY_HIGH
    );
    assert_eq!(
        kernel._mk_get_process_priority(0x8000),
        MK_PROCESS_PRIORITY_e::MK_PROCESS_PRIORITY_LOW
    );
    assert_eq!(
        kernel._mk_get_process_priority(0x8001),
        MK_PROCESS_PRIORITY_e::MK_PROCESS_PRIORITY_NORMAL
    );
}

#[test]
fn the_failure_marker_is_no_priority() {
    let mut kernel = booted();
    kernel._mk_set_process_priority(0x4000, MK_PROCESS_PRIORITY_e::MK_PROCESS_PRIORITY_HIGH);
    assert_eq!(
        kernel._mk_set_process_priority(0x4000, MK_PROCESS_PRIORITY_e::MK_PROCESS_PRIORITY_ERROR),
        MK_ERROR_e::MK_ERROR_UNKNOWN_PRIORITY
    );
    assert_eq!(kernel._mk_Get_Error(0x4000), MK_ERROR_e::MK_ERROR_UNKNOWN_PRIORITY);
    assert_eq!(kernel._mk_Get_Error(0x4000), MK_ERROR_e::MK_ERROR_UNKNOWN_PRIORITY);
    assert_eq!(kernel._mk_Get_Error(0x8001), MK_ERROR_e::MK_ERROR_NONE);
    assert_eq!(kernel._mk_Get_Error(0x8000), MK_ERROR_e::MK_ERROR_NONE);
    assert_eq!(
        kernel._mk_get_process_priority(0x4000),
        MK_PROCESS_PRIORITY_e::MK_PROCESS_PRIORITY_HIGH
    );
    assert_eq!(kernel._mk_Get_Error(0x4000), MK_ERROR_e::MK_ERROR_NONE);
}

#[test]
fn the_last_error_survives_state_changes() {
    let mut kernel = booted();
    kernel._mk_set_process_priority(0x8000, MK_PROCESS_PRIORITY_e::MK_PROCESS_PRIORITY_ERROR);
    for state in [VppState::WAITING, VppState::SUSPENDED_W, VppState::SYNC, VppState::RUNNING] {
        set_state(&mut kernel, 1, state);
        assert_eq!(kernel._mk_Get_Error(0x8000), MK_ERROR_e::MK_ERROR_UNKNOWN_PRIORITY);
    }
}

#[test]
fn a_dead_process_stays_out_of_reach() {
    let mut kernel = booted();
    set_state(&mut kernel, 2, VppState::DEAD);
    for _ in 0..5 {
        assert_eq!(kernel._mk_Get_Process_Handle(0x4000), None);
        assert_eq!(kernel._mk_Get_Error(0x4000), MK_ERROR_e::MK_ERROR_UNKNOWN_ID);
        assert_eq!(kernel._mk_suspend_process(0x4000), MK_ERROR_e::MK_ERROR_UNKNOWN_HANDLE);
        assert_eq!(kernel._mk_resume_process(0x4000), MK_ERROR_e::MK_ERROR_UNKNOWN_HANDLE);
        kernel._mk_yield(0x4000);
        assert_eq!(
            kernel._mk_set_process_priority(0x4000, MK_PROCESS_PRIORITY_e::MK_PROCESS_PRIORITY_LOW),
            MK_ERROR_e::MK_ERROR_UNKNOWN_HANDLE
        );
        assert_eq!(
            kernel._mk_get_process_priority(0x4000),
            MK_PROCESS_PRIORITY_e::MK_PROCESS_PRIORITY_ERROR
        );
        assert_eq!(state_of(&kernel, 2), VppState::DEAD);
        assert_eq!(scheduling_of(&kernel, 2), State::StoppedYielded);
    }
    assert_eq!(
        kernel.get_process_ref_index(2).unwrap().get_last_generated_error(),
        MK_ERROR_e::MK_ERROR_UNKNOWN_ID
    );
    assert_eq!(
        kernel.get_process_ref_index(2).unwrap().get_vpp_priority(),
        MK_PROCESS_PRIORITY_e::MK_PROCESS_PRIORITY_NORMAL
    );
    assert_eq!(kernel._mk_Get_Process_Handle(0x8001), Some(0x8001));
}

#[test]
fn a_dead_record_hides_a_later_record_with_its_identifier() {
    let mut dead = VppProcess::create_vpp_process(None, 0x4064);
    dead.vppstate = VppState::DEAD;
    let alive = VppProcess::create_vpp_process(None, 0x4064);
    let mut kernel = VppKernel::new(vec![None, Some(dead), Some(alive)], vec![], vec![]);
    assert_eq!(kernel._mk_Get_Process_Handle(0x4064), None);
    assert_eq!(kernel._mk_Get_Error(0x4064), MK_ERROR_e::MK_ERROR_UNKNOWN_ID);
    assert_eq!(kernel._mk_resume_process(0x4064), MK_ERROR_e::MK_ERROR_UNKNOWN_HANDLE);
    assert_eq!(state_of(&kernel, 2), VppState::SUSPENDED_R);
    assert_eq!(kernel.find_process(0x4064), Some(1));
    assert_eq!(kernel.get_process_ref_handle(0x4064), None);
}

#[test]
fn the_first_of_two_records_with_one_identifier_wins() {
    let first = VppProcess::create_vpp_process(None, 0x4064);
    let second = VppProcess::create_vpp_process(None, 0x4064);
    let mut kernel = VppKernel::new(vec![Some(first), None, Some(second)], vec![], vec![]);
    assert_eq!(kernel.get_process_ref_handle(0x4064), Some(0));
    assert_eq!(kernel._mk_resume_process(0x4064), MK_ERROR_e::MK_ERROR_NONE);
    assert_eq!(state_of(&kernel, 0), VppState::READY);
    assert_eq!(state_of(&kernel, 2), VppState::SUSPENDED_R);
}

#[test]
fn scenario_two_equal_signals() {
    let mut kernel = booted();
    let handle = kernel._mk_Get_Mailbox_Handle(0x8001).unwrap();
    assert_eq!(handle, 0x0000_8001);
    assert_eq!(kernel._mk_Send_Signal(handle, 0x08), MK_ERROR_e::MK_ERROR_NONE);
    assert_eq!(kernel._mk_Send_Signal(handle, 0x08), MK_ERROR_e::MK_ERROR_NONE);
    assert_eq!(kernel._mk_Get_Signal(handle), Some(0x08));
    assert_eq!(kernel._mk_Get_Signal(handle), Some(0x08));
    assert_eq!(kernel._mk_Get_Signal(handle), Some(0));
}

#[test]
fn scenario_signal_to_an_unknown_handle() {
    let mut kernel = booted();
    kernel._mk_Send_Signal(0x8001, 0x10);
    let before: Vec<Vec<u32>> = kernel.mailboxes.iter().flatten().map(|m| m.signals.clone()).collect();
    assert_eq!(kernel._mk_Send_Signal(0xFFFF_FFFF, 0x08), MK_ERROR_e::MK_ERROR_UNKNOWN_HANDLE);
    let after: Vec<Vec<u32>> = kernel.mailboxes.iter().flatten().map(|m| m.signals.clone()).collect();
    assert_eq!(before, after);
    assert_eq!(after, vec![vec![0x10], vec![], vec![], vec![]]);
    assert!(kernel.scheduled.is_empty());
}

#[test]
fn signals_are_first_in_first_out() {
    let mut kernel = booted();
    for (b1, b2, b3) in [(1u32, 2u32, 4u32), (0x8000_0000, 0x08, 0x08), (0xFFFF_FFFF, 1, 0xFFFF_FFFF)] {
        assert_eq!(kernel._mk_Send_Signal(0x4001, b1), MK_ERROR_e::MK_ERROR_NONE);
        assert_eq!(kernel._mk_Send_Signal(0x4001, b2), MK_ERROR_e::MK_ERROR_NONE);
        assert_eq!(kernel._mk_Send_Signal(0x4001, b3), MK_ERROR_e::MK_ERROR_NONE);
        assert_eq!(kernel._mk_Get_Signal(0x4001), Some(b1));
        assert_eq!(kernel._mk_Get_Signal(0x4001), Some(b2));
        assert_eq!(kernel._mk_Get_Signal(0x4001), Some(b3));
        assert_eq!(kernel._mk_Get_Signal(0x4001), Some(0));
    }
}

#[test]
fn mailboxes_do_not_mix() {
    let mut kernel = booted();
    kernel._mk_Send_Signal(0x8001, 1);
    kernel._mk_Send_Signal(0x8000, 2);
    kernel._mk_Send_Signal(0x8001, 4);
    assert_eq!(kernel._mk_Get_Signal(0x8000), Some(2));
    assert_eq!(kernel._mk_Get_Signal(0x8000), Some(0));
    assert_eq!(kernel._mk_Get_Signal(0x4000), Some(0));
    assert_eq!(kernel._mk_Get_Signal(0x8001), Some(1));
    assert_eq!(kernel._mk_Get_Signal(0x8001), Some(4));
}

#[test]
fn an_empty_mailbox_reads_zero_and_an_unknown_one_nothing() {
    let mut kernel = booted();
    for _ in 0..3 {
        assert_eq!(kernel._mk_Get_Signal(0x8001), Some(0));
        assert_eq!(kernel._mk_Get_Signal(0xFFFF_FFFF), None);
        assert_eq!(kernel._mk_Get_Signal(0x4064), None);
    }
    assert_eq!(kernel._mk_Get_Mailbox_Handle(0x4064), None);
    assert_eq!(kernel._mk_Get_Mailbox_Handle(0x4001), Some(0x4001));
    assert!(kernel.Get_Mailbox_ref_internal(0x4064).is_none());
    assert_eq!(kernel.Get_Mailbox_ref_internal(0x4001).unwrap().get_owner_proc_i(), 2);
}

#[test]
fn a_full_mailbox_answers_with_a_severe_error() {
    let mut kernel = booted();
    for i in 0..MK_MAILBOX_SIGNAL_LIMIT {
        assert_eq!(kernel._mk_Send_Signal(0x8000, 1 + i as u32), MK_ERROR_e::MK_ERROR_NONE);
    }
    assert_eq!(kernel._mk_Send_Signal(0x8000, 0x55), MK_ERROR_e::MK_ERROR_SEVERE);
    assert_eq!(kernel._mk_Send_Signal(0x8001, 0x55), MK_ERROR_e::MK_ERROR_NONE);
    assert_eq!(kernel.Get_Mailbox_ref_internal(0x8000).unwrap().signals.len(), MK_MAILBOX_SIGNAL_LIMIT);
    assert_eq!(kernel._mk_Get_Signal(0x8000), Some(1));
    assert_eq!(kernel._mk_Send_Signal(0x8000, 0x55), MK_ERROR_e::MK_ERROR_NONE);
}

#[test]
fn a_signal_schedules_the_sender_s_notification() {
    let mut kernel = booted();
    assert!(kernel.register_mailbox_notification(0x8001, AppId::new(2), Some(callback_of(2))));
    assert!(kernel.register_mailbox_notification(0x8001, AppId::new(0), Some(callback_of(0))));
    assert_eq!(kernel._mk_Send_Signal(0x8001, 0x08), MK_ERROR_e::MK_ERROR_NONE);
    assert_eq!(kernel.scheduled, vec![callback_of(2)]);
    assert_eq!(kernel._mk_Send_Signal(0x8000, 0x08), MK_ERROR_e::MK_ERROR_NONE);
    assert_eq!(kernel.scheduled, vec![callback_of(2)]);
    assert_eq!(kernel._mk_Send_Signal(0x8001, 0x10), MK_ERROR_e::MK_ERROR_NONE);
    assert_eq!(kernel.take_scheduled(), vec![callback_of(2), callback_of(2)]);
    assert!(kernel.scheduled.is_empty());
    assert!(kernel.take_scheduled().is_empty());
    assert_eq!(kernel._mk_Get_Signal(0x8001), Some(0x08));
}

#[test]
fn nothing_is_scheduled_for_a_signal_that_was_not_taken() {
    let mut kernel = booted();
    kernel.register_mailbox_notification(0x8001, AppId::new(2), Some(callback_of(2)));
    kernel.mailboxes[0].as_mut().unwrap().capacity = 1;
    assert_eq!(kernel._mk_Send_Signal(0x8001, 1), MK_ERROR_e::MK_ERROR_NONE);
    assert_eq!(kernel._mk_Send_Signal(0x8001, 2), MK_ERROR_e::MK_ERROR_SEVERE);
    assert_eq!(kernel._mk_Send_Signal(0x4064, 2), MK_ERROR_e::MK_ERROR_UNKNOWN_HANDLE);
    assert_eq!(kernel.scheduled.len(), 1);
}

#[test]
fn nothing_is_scheduled_without_a_loaded_sender() {
    let mut kernel = load_vpp_processes(&vec![loaded("mgt", State::Yielded)]);
    kernel.register_mailbox_notification(0x8001, AppId::new(2), Some(callback_of(2)));
    assert_eq!(kernel._mk_Send_Signal(0x8001, 1), MK_ERROR_e::MK_ERROR_NONE);
    assert!(kernel.scheduled.is_empty());
    assert!(!kernel.register_mailbox_notification(0x4064, AppId::new(2), Some(callback_of(2))));
    assert!(!kernel.register_mailbox_notification(0x8001, AppId::new(NUM_PROCS), Some(callback_of(2))));
}

#[test]
fn a_wait_puts_the_running_owner_into_waiting() {
    let mut kernel = booted();
    set_state(&mut kernel, 0, VppState::RUNNING);
    assert_eq!(kernel._mk_Wait_Signal(0x8001, 0), MK_ERROR_e::MK_ERROR_NONE);
    assert_eq!(state_of(&kernel, 0), VppState::RUNNING);
    assert_eq!(kernel._mk_Wait_Signal(0x8001, 100), MK_ERROR_e::MK_ERROR_NONE);
    assert_eq!(state_of(&kernel, 0), VppState::WAITING);
    assert_eq!(state_of(&kernel, 2), VppState::READY);
    assert_eq!(kernel._mk_Wait_Signal(0x4000, 100), MK_ERROR_e::MK_ERROR_NONE);
    assert_eq!(state_of(&kernel, 2), VppState::READY);
    assert_eq!(kernel._mk_Wait_Signal(0x4064, 100), MK_ERROR_e::MK_ERROR_UNKNOWN_HANDLE);
    assert_eq!(kernel._mk_Wait_Signal(0x4064, 0), MK_ERROR_e::MK_ERROR_UNKNOWN_HANDLE);
}

#[test]
fn a_wait_on_a_mailbox_without_owner_is_an_internal_error() {
    let mut kernel = VppKernel::new(
        vec![Some(VppProcess::create_mgt_process(None)), None],
        vec![Some(mbox::new(0x4064, 1, 0)), Some(mbox::new(0x4065, 7, 0))],
        vec![],
    );
    assert_eq!(kernel._mk_Wait_Signal(0x4064, 5), MK_ERROR_e::MK_ERROR_INTERNAL);
    assert_eq!(kernel._mk_Wait_Signal(0x4065, 5), MK_ERROR_e::MK_ERROR_INTERNAL);
    assert_eq!(kernel._mk_Wait_Signal(0x4065, 0), MK_ERROR_e::MK_ERROR_NONE);
    assert_eq!(state_of(&kernel, 0), VppState::READY);
}

#[test]
fn scenario_access_for_the_writer_and_not_for_a_stranger() {
    let mut kernel = VppKernel::new(
        vec![
            Some(VppProcess::create_mgt_process(loaded("mgt", State::Yielded))),
            Some(VppProcess::create_com_process(loaded("com", State::Yielded))),
            Some(VppProcess::create_main_process(loaded("main", State::Yielded))),
        ],
        vec![],
        vec![Some(ipc::new(0x4064, 64, 1, 2))],
    );
    let handle = kernel._mk_Get_IPC_Handle(0x4064).unwrap();
    assert_eq!(kernel.Get_IPC_ref_internal(handle).unwrap().get_ipc_len(), 64);
    let writer = kernel.Convert_Index_to_Appid(1).unwrap();
    let stranger = kernel.Convert_Index_to_Appid(0).unwrap();
    assert_eq!(kernel._mk_Get_Access_IPC(handle, writer), Some(IpcAccess::ReadWrite));
    assert_eq!(kernel._mk_Get_Access_IPC(handle, stranger), None);
    assert_eq!(kernel._mk_Get_Access_IPC(handle, AppId::new(2)), Some(IpcAccess::ReadOnly));
    assert_eq!(kernel._mk_Get_Access_IPC(handle, AppId::new(3)), None);
    assert_eq!(kernel.Get_IPC_ref_internal(handle).unwrap().accesses, 2);
}

#[test]
fn access_to_each_fixed_channel() {
    let mut kernel = booted();
    for (id, writer, reader, stranger) in
        [(0x4000u16, 2usize, 1usize, 0usize), (0x8000, 1, 2, 0), (0x4001, 2, 0, 1), (0x8001, 0, 2, 1)]
    {
        let handle = kernel._mk_Get_IPC_Handle(id).unwrap();
        assert_eq!(kernel._mk_Get_Access_IPC(handle, AppId::new(writer)), Some(IpcAccess::ReadWrite));
        assert_eq!(kernel._mk_Get_Access_IPC(handle, AppId::new(reader)), Some(IpcAccess::ReadOnly));
        assert_eq!(kernel._mk_Get_Access_IPC(handle, AppId::new(stranger)), None);
        assert_eq!(kernel._mk_Get_Access_IPC(handle, AppId::new(3)), None);
    }
    assert_eq!(kernel._mk_Get_Access_IPC(0x4064, AppId::new(2)), None);
    assert_eq!(kernel._mk_Get_IPC_Handle(0x4064), None);
}

#[test]
fn accesses_are_released_one_by_one() {
    let mut kernel = booted();
    assert_eq!(kernel._mk_Release_Access_IPC(0x4000), MK_ERROR_e::MK_ERROR_ILLEGAL_PARAMETER);
    assert_eq!(kernel._mk_Release_Access_IPC(0x4064), MK_ERROR_e::MK_ERROR_UNKNOWN_HANDLE);
    for _ in 0..MK_IPC_LIMIT {
        assert!(kernel._mk_Get_Access_IPC(0x4000, AppId::new(2)).is_some());
    }
    assert_eq!(kernel._mk_Get_Access_IPC(0x4000, AppId::new(2)), None);
    assert_eq!(kernel._mk_Get_Access_IPC(0x4000, AppId::new(1)), None);
    assert_eq!(kernel._mk_Get_Access_IPC(0x8000, AppId::new(1)), Some(IpcAccess::ReadWrite));
    assert_eq!(kernel._mk_Release_Access_IPC(0x4000), MK_ERROR_e::MK_ERROR_NONE);
    assert_eq!(kernel._mk_Get_Access_IPC(0x4000, AppId::new(1)), Some(IpcAccess::ReadOnly));
    for _ in 0..MK_IPC_LIMIT {
        assert_eq!(kernel._mk_Release_Access_IPC(0x4000), MK_ERROR_e::MK_ERROR_NONE);
    }
    assert_eq!(kernel._mk_Release_Access_IPC(0x4000), MK_ERROR_e::MK_ERROR_ILLEGAL_PARAMETER);
    assert_eq!(kernel.Get_IPC_ref_internal(0x8000).unwrap().accesses, 1);
}

#[test]
fn channels_are_found_by_writer_and_reader() {
    let kernel = booted();
    assert_eq!(kernel.Get_IPC_from_writer_appid(AppId::new(2)).unwrap().get_ipc_id(), 0x4000);
    assert_eq!(kernel.Get_IPC_from_writer_appid(AppId::new(1)).unwrap().get_ipc_id(), 0x8000);
    assert_eq!(kernel.Get_IPC_from_writer_appid(AppId::new(0)).unwrap().get_ipc_id(), 0x8001);
    assert!(kernel.Get_IPC_from_writer_appid(AppId::new(3)).is_none());
    assert!(kernel.Get_IPC_from_writer_appid(AppId::new(0x1_0002)).is_none());
    assert_eq!(kernel.Get_IPC_from_reader_appid(AppId::new(1)).unwrap().get_ipc_id(), 0x4000);
    assert_eq!(kernel.Get_IPC_from_reader_appid(AppId::new(2)).unwrap().get_ipc_id(), 0x8000);
    assert_eq!(kernel.Get_IPC_from_reader_appid(AppId::new(0)).unwrap().get_ipc_id(), 0x4001);
    assert!(kernel.Get_IPC_from_reader_appid(AppId::new(3)).is_none());
    assert_eq!(kernel.find_ipc(0x4001), Some(2));
    assert_eq!(kernel.find_ipc_of_writer(AppId::new(0)), Some(3));
    assert_eq!(kernel.find_mailbox(0x4000), Some(3));
    assert_eq!(kernel.find_mailbox(0x4002), None);
}

#[test]
fn a_buffer_goes_to_the_writer_s_first_channel() {
    let mut kernel = booted();
    let buffer = AppSlice::new(AppId::new(1), 0x1000_0000, 64);
    assert!(kernel.expose(AppId::new(1), Some(buffer)));
    let channel = kernel.Get_IPC_ref_internal(0x8000).unwrap();
    let shared = channel.shared_memory(AppId::new(1)).unwrap();
    assert_eq!(shared.ptr(), 0x1000_0000);
    assert_eq!(shared.exposed_to, Some(AppId::new(2)));
    assert!(!kernel.expose(AppId::new(3), Some(buffer)));
    assert!(kernel.expose(AppId::new(1), None));
    assert_eq!(kernel.Get_IPC_ref_internal(0x8000).unwrap().shared_memory(AppId::new(1)), None);
}

#[test]
fn a_buffer_stays_unexposed_without_a_loaded_reader() {
    let mut kernel = load_vpp_processes(&vec![None, loaded("com", State::Yielded)]);
    let buffer = AppSlice::new(AppId::new(1), 0x1000_0000, 64);
    assert!(kernel.expose(AppId::new(1), Some(buffer)));
    let shared = kernel.Get_IPC_ref_internal(0x8000).unwrap().shared_memory(AppId::new(1));
    assert_eq!(shared, Some(buffer));
}

#[test]
fn slots_and_applications_convert_both_ways() {
    let kernel = load_vpp_processes(&vec![loaded("mgt", State::Yielded), None, loaded("main", State::Yielded)]);
    assert_eq!(kernel.Convert_Index_to_Appid(0), Some(AppId::new(0)));
    assert_eq!(kernel.Convert_Index_to_Appid(1), None);
    assert_eq!(kernel.Convert_Index_to_Appid(2), Some(AppId::new(2)));
    assert_eq!(kernel.Convert_Index_to_Appid(3), None);
    assert_eq!(kernel.Convert_Index_to_Appid(4), None);
    assert_eq!(kernel.Convert_Appid_to_Index(AppId::new(0)), Some(0));
    assert_eq!(kernel.Convert_Appid_to_Index(AppId::new(1)), None);
    assert_eq!(kernel.Convert_Appid_to_Index(AppId::new(2)), Some(2));
    assert_eq!(kernel.Convert_Appid_to_Index(AppId::new(3)), None);
    assert_eq!(kernel.Convert_Appid_to_Index(AppId::new(0x1_0000)), None);
    assert_eq!(kernel.Convert_Appid_to_Index(AppId::new(usize::MAX)), None);
}

#[test]
fn the_clock_is_what_the_platform_reported() {
    let mut kernel = booted();
    kernel.set_time(0x1_0000_0001);
    assert_eq!(kernel._mk_Get_Time(), 0x1_0000_0001);
    kernel.set_time(5);
    assert_eq!(kernel._mk_Get_Time(), 5);
    assert_eq!(state_of(&kernel, 0), VppState::READY);
}

#[test]
fn new_data_schedules_the_channel_s_notification() {
    let mut kernel = booted();
    assert!(kernel.register_notification(0x8000, AppId::new(2), Some(callback_of(2))));
    assert!(!kernel.register_notification(0x8000, AppId::new(0), Some(callback_of(0))));
    assert!(!kernel.register_notification(0x4064, AppId::new(2), Some(callback_of(2))));
    let buffer = AppSlice::new(AppId::new(1), 0x1000_0000, 64);
    assert!(kernel.expose(AppId::new(1), Some(buffer)));
    assert_eq!(kernel.scheduled, vec![callback_of(2)]);
    assert!(kernel.expose(AppId::new(1), None));
    assert_eq!(kernel.scheduled, vec![callback_of(2)]);
    assert!(kernel.expose(AppId::new(2), Some(buffer)));
    assert_eq!(kernel.take_scheduled(), vec![callback_of(2)]);
    assert!(kernel.register_notification(0x8000, AppId::new(1), None));
    assert!(kernel.expose(AppId::new(1), Some(buffer)));
    assert!(kernel.scheduled.is_empty());
}
