//! Processes: what the platform reports of a loaded process, and the record
//! that the kernel keeps of each with its lifecycle state.
use vstd::prelude::*;
use crate::mloi::{
    handle_of, MK_ERROR_e, MK_HANDLE_t, MK_Index_t, MK_PROCESS_PRIORITY_e, MK_Process_ID_u, VppState,
    MK_PROCESS_COM_VPP_ID, MK_PROCESS_MAIN_APP_ID, MK_PROCESS_MGT_VPP_ID,
};

verus! {

/// Number of slots in the process table.
pub const NUM_PROCS: usize = 4;

/// Slot of the management process.
pub const MGT_PROCESS_INDEX: MK_Index_t = 0;

/// Slot of the communication process.
pub const COM_PROCESS_INDEX: MK_Index_t = 1;

/// Slot of the application's main process.
pub const MAIN_PROCESS_INDEX: MK_Index_t = 2;

/// Identity of an application towards the platform: the slot of its process.
#[derive(Clone, Copy, Debug, PartialEq, Eq, Structural)]
pub struct AppId {
    /// Slot of the process.
    pub index: usize,
}

impl AppId {
    /// The identity of the application in the given slot.
    pub fn new(index: usize) -> (app: AppId)
        ensures
            app == (AppId { index }),
    {
        AppId { index }
    }

    /// The slot of the process.
    pub fn index(&self) -> (index: usize)
        ensures
            index == self.index,
    {
        self.index
    }
}

/// Scheduling state of a loaded process, as the platform's scheduler sees it.
#[derive(Clone, Copy, Debug, PartialEq, Eq, Structural)]
pub enum State {
    /// Loaded and never run.
    Unstarted,
    /// Gave up the processor and waits for work.
    Yielded,
    /// Running, or ready to run.
    Running,
    /// Stopped while yielded.
    StoppedYielded,
    /// Stopped while running.
    StoppedRunning,
    /// Stopped after a fault.
    StoppedFaulted,
    /// Faulted.
    Fault,
}

impl State {
    /// The state after a request to stop: a running or yielded process is
    /// stopped, any other stays as it is.
    pub open spec fn stopped(self) -> State {
        match self {
            State::Running => State::StoppedRunning,
            State::Yielded => State::StoppedYielded,
            _ => self,
        }
    }

    /// The state after a request to resume: a stopped process goes back to
    /// where it was stopped, any other stays as it is.
    pub open spec fn resumed(self) -> State {
        match self {
            State::StoppedRunning => State::Running,
            State::StoppedYielded => State::Yielded,
            _ => self,
        }
    }

    /// The state after the process gave up the processor.
    pub open spec fn yielded(self) -> State {
        match self {
            State::Running => State::Yielded,
            _ => self,
        }
    }

    /// Whether the scheduler passes the process over.
    pub open spec fn is_stopped(self) -> bool {
        self == State::StoppedYielded || self == State::StoppedRunning || self
            == State::StoppedFaulted
    }

    /// The lifecycle state that corresponds to this scheduling state.
    pub open spec fn lifecycle(self) -> VppState {
        match self {
            State::Unstarted => VppState::READY,
            State::Yielded => VppState::READY,
            State::Running => VppState::RUNNING,
            State::StoppedYielded => VppState::SUSPENDED_R,
            State::StoppedRunning => VppState::SUSPENDED_R,
            State::StoppedFaulted => VppState::DEAD,
            State::Fault => VppState::DEAD,
        }
    }
}

/// A loaded process of the platform underneath: its name and its scheduling
/// state. The kernel never makes or drops one; it only asks it to stop,
/// resume or yield.
#[derive(Clone, Copy, Debug)]
pub struct KernelProcess {
    /// Name of the process image.
    pub name: &'static str,
    /// Scheduling state.
    pub state: State,
}

impl KernelProcess {
    /// A process that was loaded and has not run yet.
    pub fn new(name: &'static str) -> (process: KernelProcess)
        ensures
            process == (KernelProcess { name, state: State::Unstarted }),
    {
        KernelProcess { name, state: State::Unstarted }
    }

    /// Asks the scheduler to pass the process over.
    pub fn stop(&mut self)
        ensures
            *final(self) == (KernelProcess { state: old(self).state.stopped(), ..*old(self) }),
    {
        match self.state {
            State::Running => self.state = State::StoppedRunning,
            State::Yielded => self.state = State::StoppedYielded,
            _ => {},
        }
    }

    /// Asks the scheduler to consider the process again.
    pub fn resume(&mut self)
        ensures
            *final(self) == (KernelProcess { state: old(self).state.resumed(), ..*old(self) }),
    {
        match self.state {
            State::StoppedRunning => self.state = State::Running,
            State::StoppedYielded => self.state = State::Yielded,
            _ => {},
        }
    }

    /// Records that the process gave up the processor.
    pub fn set_yielded_state(&mut self)
        ensures
            *final(self) == (KernelProcess { state: old(self).state.yielded(), ..*old(self) }),
    {
        if self.state == State::Running {
            self.state = State::Yielded;
        }
    }

    /// The scheduling state.
    pub fn get_state(&self) -> (state: State)
        ensures
            state == self.state,
    {
        self.state
    }

    /// The name of the process image.
    pub fn get_process_name(&self) -> (name: &'static str)
        ensures
            name == self.name,
    {
        self.name
    }

    /// Whether the scheduler passes the process over.
    pub fn is_stopped(&self) -> (stopped: bool)
        ensures
            stopped == self.state.is_stopped(),
    {
        self.state == State::StoppedYielded || self.state == State::StoppedRunning || self.state
            == State::StoppedFaulted
    }
}

impl VppState {
    /// The state after a request to suspend: a ready or running process is
    /// suspended as ready, a waiting one as waiting, a synchronising one as
    /// synchronising; any other stays as it is.
    pub open spec fn suspended(self) -> VppState {
        match self {
            VppState::READY => VppState::SUSPENDED_R,
            VppState::RUNNING => VppState::SUSPENDED_R,
            VppState::WAITING => VppState::SUSPENDED_W,
            VppState::SYNC => VppState::SUSPENDED_S,
            _ => self,
        }
    }

    /// The state after a request to resume: a suspended process goes back to
    /// ready, waiting or synchronising; any other stays as it is.
    pub open spec fn resumed(self) -> VppState {
        match self {
            VppState::SUSPENDED_R => VppState::READY,
            VppState::SUSPENDED_W => VppState::WAITING,
            VppState::SUSPENDED_S => VppState::SYNC,
            _ => self,
        }
    }

    /// The state after the process gave up the processor: a running process
    /// is ready; any other stays as it is.
    pub open spec fn yielded(self) -> VppState {
        match self {
            VppState::RUNNING => VppState::READY,
            _ => self,
        }
    }

    /// The state after the process began to wait for a signal: a running
    /// process waits; any other stays as it is.
    pub open spec fn awaiting(self) -> VppState {
        match self {
            VppState::RUNNING => VppState::WAITING,
            _ => self,
        }
    }

    /// Whether a process can be in this state: every state but the wildcard.
    pub open spec fn is_stored(self) -> bool {
        self != VppState::ANY_STATE
    }
}

/// Suspending and then resuming brings a ready, waiting or synchronising
/// process back to where it was. A running process comes back ready, not
/// running: the suspension forgets that it held the processor.
pub proof fn lemma_suspend_then_resume(state: VppState)
    ensures
        state == VppState::READY || state == VppState::WAITING || state == VppState::SYNC
            ==> state.suspended().resumed() == state,
        state == VppState::RUNNING ==> state.suspended() == VppState::SUSPENDED_R
            && state.suspended().resumed() == VppState::READY,
        state.is_stored() ==> state.suspended().is_stored() && state.resumed().is_stored(),
{
}

/// Resuming and then suspending brings every suspended process back to where
/// it was.
pub proof fn lemma_resume_then_suspend(state: VppState)
    ensures
        state == VppState::SUSPENDED_R || state == VppState::SUSPENDED_W || state
            == VppState::SUSPENDED_S ==> state.resumed().suspended() == state,
{
}

/// A request that meets a process in a state it has no transition from
/// leaves the state alone, so that each request can be repeated freely; no
/// request moves a dead process.
pub proof fn lemma_requests_are_idempotent(state: VppState)
    ensures
        state.suspended().suspended() == state.suspended(),
        state.resumed().resumed() == state.resumed(),
        state.yielded().yielded() == state.yielded(),
        state.awaiting().awaiting() == state.awaiting(),
        state == VppState::DEAD ==> state.suspended() == state && state.resumed() == state
            && state.yielded() == state && state.awaiting() == state,
        state.suspended() == VppState::DEAD || state.resumed() == VppState::DEAD
            || state.yielded() == VppState::DEAD || state.awaiting() == VppState::DEAD
            ==> state == VppState::DEAD,
{
}

/// The kernel's record of a process: the loaded process underneath, where
/// the slot has one, and the lifecycle state, priority, identifier and last
/// error that the kernel keeps for it.
#[derive(Clone, Copy, Debug)]
pub struct VppProcess {
    /// The loaded process underneath, if the slot has one.
    pub tockprocess: Option<KernelProcess>,
    /// Lifecycle state.
    pub vppstate: VppState,
    /// Priority.
    pub vpppriority: MK_PROCESS_PRIORITY_e,
    /// Composite identifier.
    pub vppid: MK_Process_ID_u,
    /// Outcome of the latest operation on this process.
    pub error: MK_ERROR_e,
}

impl VppProcess {
    /// A record as every role starts out: normal priority and no error.
    pub open spec fn fresh(
        tockprocess: Option<KernelProcess>,
        state: VppState,
        pid: MK_Process_ID_u,
    ) -> VppProcess {
        VppProcess {
            tockprocess,
            vppstate: state,
            vpppriority: MK_PROCESS_PRIORITY_e::MK_PROCESS_PRIORITY_NORMAL,
            vppid: pid,
            error: MK_ERROR_e::MK_ERROR_NONE,
        }
    }

    /// Whether the record can be resolved: a dead process never is.
    pub open spec fn is_live(self) -> bool {
        self.vppstate != VppState::DEAD
    }

    /// The record of a generic process: suspended until it is resumed.
    pub fn create_vpp_process(tockprocess: Option<KernelProcess>, pid: MK_Process_ID_u) -> (process:
        VppProcess)
        ensures
            process == VppProcess::fresh(tockprocess, VppState::SUSPENDED_R, pid),
    {
        VppProcess {
            tockprocess,
            vppstate: VppState::SUSPENDED_R,
            vpppriority: MK_PROCESS_PRIORITY_e::MK_PROCESS_PRIORITY_NORMAL,
            vppid: pid,
            error: MK_ERROR_e::MK_ERROR_NONE,
        }
    }

    /// The record of the management process: ready.
    pub fn create_mgt_process(tockprocess: Option<KernelProcess>) -> (process: VppProcess)
        ensures
            process == VppProcess::fresh(tockprocess, VppState::READY, MK_PROCESS_MGT_VPP_ID),
    {
        VppProcess {
            tockprocess,
            vppstate: VppState::READY,
            vpppriority: MK_PROCESS_PRIORITY_e::MK_PROCESS_PRIORITY_NORMAL,
            vppid: MK_PROCESS_MGT_VPP_ID,
            error: MK_ERROR_e::MK_ERROR_NONE,
        }
    }

    /// The record of the communication process: ready.
    pub fn create_com_process(tockprocess: Option<KernelProcess>) -> (process: VppProcess)
        ensures
            process == VppProcess::fresh(tockprocess, VppState::READY, MK_PROCESS_COM_VPP_ID),
    {
        VppProcess {
            tockprocess,
            vppstate: VppState::READY,
            vpppriority: MK_PROCESS_PRIORITY_e::MK_PROCESS_PRIORITY_NORMAL,
            vppid: MK_PROCESS_COM_VPP_ID,
            error: MK_ERROR_e::MK_ERROR_NONE,
        }
    }

    /// The record of the application's main process: ready.
    pub fn create_main_process(tockprocess: Option<KernelProcess>) -> (process: VppProcess)
        ensures
            process == VppProcess::fresh(tockprocess, VppState::READY, MK_PROCESS_MAIN_APP_ID),
    {
        VppProcess {
            tockprocess,
            vppstate: VppState::READY,
            vpppriority: MK_PROCESS_PRIORITY_e::MK_PROCESS_PRIORITY_NORMAL,
            vppid: MK_PROCESS_MAIN_APP_ID,
            error: MK_ERROR_e::MK_ERROR_NONE,
        }
    }

    /// The outcome of the latest operation on this process.
    pub fn get_last_generated_error(&self) -> (error: MK_ERROR_e)
        ensures
            error == self.error,
    {
        self.error
    }

    /// The composite identifier.
    pub fn get_vpp_id(&self) -> (id: MK_Process_ID_u)
        ensures
            id == self.vppid,
    {
        self.vppid
    }

    /// The handle that names this process.
    pub fn get_vpp_handle(&self) -> (handle: MK_HANDLE_t)
        ensures
            handle == handle_of(self.vppid),
    {
        self.vppid as u32
    }

    /// The lifecycle state.
    pub fn get_vpp_state(&self) -> (state: VppState)
        ensures
            state == self.vppstate,
    {
        self.vppstate
    }

    /// The priority.
    pub fn get_vpp_priority(&self) -> (priority: MK_PROCESS_PRIORITY_e)
        ensures
            priority == self.vpppriority,
    {
        self.vpppriority
    }

    /// Gives the process another priority.
    pub fn set_vpp_priority(&mut self, prio: MK_PROCESS_PRIORITY_e)
        ensures
            *final(self) == (VppProcess { vpppriority: prio, ..*old(self) }),
    {
        self.vpppriority = prio;
    }

    /// Takes the lifecycle state through a request to suspend.
    pub fn suspend_vpp_process(&mut self)
        ensures
            *final(self) == (VppProcess { vppstate: old(self).vppstate.suspended(), ..*old(self) }),
    {
        match self.vppstate {
            VppState::READY => self.vppstate = VppState::SUSPENDED_R,
            VppState::RUNNING => self.vppstate = VppState::SUSPENDED_R,
            VppState::WAITING => self.vppstate = VppState::SUSPENDED_W,
            VppState::SYNC => self.vppstate = VppState::SUSPENDED_S,
            _ => {},
        }
    }

    /// Takes the lifecycle state through a request to resume.
    pub fn resume_vpp_process(&mut self)
        ensures
            *final(self) == (VppProcess { vppstate: old(self).vppstate.resumed(), ..*old(self) }),
    {
        match self.vppstate {
            VppState::SUSPENDED_R => self.vppstate = VppState::READY,
            VppState::SUSPENDED_W => self.vppstate = VppState::WAITING,
            VppState::SUSPENDED_S => self.vppstate = VppState::SYNC,
            _ => {},
        }
    }

    /// Takes the lifecycle state through a yield.
    pub fn yield_vpp_process(&mut self)
        ensures
            *final(self) == (VppProcess { vppstate: old(self).vppstate.yielded(), ..*old(self) }),
    {
        match self.vppstate {
            VppState::RUNNING => self.vppstate = VppState::READY,
            _ => {},
        }
    }

    /// Takes the lifecycle state into a wait for a signal.
    pub fn waiting_vpp_process(&mut self)
        ensures
            *final(self) == (VppProcess { vppstate: old(self).vppstate.awaiting(), ..*old(self) }),
    {
        match self.vppstate {
            VppState::RUNNING => self.vppstate = VppState::WAITING,
            _ => {},
        }
    }

    /// Gives the process another identifier.
    pub fn set_vpp_id(&mut self, id: MK_Process_ID_u)
        ensures
            *final(self) == (VppProcess { vppid: id, ..*old(self) }),
    {
        self.vppid = id;
    }

    /// The name of the loaded process underneath.
    pub fn get_process_name(&self) -> (name: &'static str)
        requires
            self.tockprocess is Some,
        ensures
            name == self.tockprocess->Some_0.name,
    {
        match &self.tockprocess {
            Some(process) => process.get_process_name(),
            None => "",
        }
    }

    /// Asks the scheduler underneath to pass the process over; a slot
    /// without a loaded process has nothing to stop.
    pub fn stop_tock_process(&mut self)
        ensures
            *final(self) == (VppProcess {
                tockprocess: match old(self).tockprocess {
                    Some(process) => Some(
                        KernelProcess { state: process.state.stopped(), ..process },
                    ),
                    None => None,
                },
                ..*old(self)
            }),
    {
        match self.tockprocess {
            Some(mut process) => {
                process.stop();
                self.tockprocess = Some(process);
            },
            None => {},
        }
    }

    /// Asks the scheduler underneath to consider the process again.
    pub fn resume_tock_process(&mut self)
        ensures
            *final(self) == (VppProcess {
                tockprocess: match old(self).tockprocess {
                    Some(process) => Some(
                        KernelProcess { state: process.state.resumed(), ..process },
                    ),
                    None => None,
                },
                ..*old(self)
            }),
    {
        match self.tockprocess {
            Some(mut process) => {
                process.resume();
                self.tockprocess = Some(process);
            },
            None => {},
        }
    }

    /// Tells the scheduler underneath that the process gave up the processor.
    pub fn yield_tock_process(&mut self)
        ensures
            *final(self) == (VppProcess {
                tockprocess: match old(self).tockprocess {
                    Some(process) => Some(
                        KernelProcess { state: process.state.yielded(), ..process },
                    ),
                    None => None,
                },
                ..*old(self)
            }),
    {
        match self.tockprocess {
            Some(mut process) => {
                process.set_yielded_state();
                self.tockprocess = Some(process);
            },
            None => {},
        }
    }

    /// The lifecycle state that follows from the scheduling state of the
    /// loaded process underneath. A slot without a loaded process keeps its
    /// state, and a dead process stays dead whatever the scheduler says.
    pub open spec fn synced_state(self) -> VppState {
        match self.tockprocess {
            Some(process) => if self.is_live() {
                process.state.lifecycle()
            } else {
                self.vppstate
            },
            None => self.vppstate,
        }
    }

    /// Brings the lifecycle state in line with the scheduling state of the
    /// loaded process underneath.
    pub fn sync_tock_vpp_states(&mut self)
        ensures
            *final(self) == (VppProcess { vppstate: old(self).synced_state(), ..*old(self) }),
    {
        if self.vppstate == VppState::DEAD {
            return ;
        }
        match &self.tockprocess {
            Some(process) => {
                self.vppstate =
                match process.get_state() {
                    State::Unstarted => VppState::READY,
                    State::Yielded => VppState::READY,
                    State::Running => VppState::RUNNING,
                    State::StoppedYielded => VppState::SUSPENDED_R,
                    State::StoppedRunning => VppState::SUSPENDED_R,
                    State::StoppedFaulted => VppState::DEAD,
                    State::Fault => VppState::DEAD,
                };
            },
            None => {},
        }
    }
}

} // verus!
