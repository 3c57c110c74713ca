//! The task loop: what the processor is asked to do between interrupts, one action
//! at a time. The shared state is touched only while interrupts are off, and the
//! disk and the display only while they are on.

use vstd::prelude::*;
use crate::input::{after_keys, returns_in, law_signal_survives, ConsoleModel};
use crate::kernel::{prompt, shown, Kernel, KernelModel};
use crate::screen::printed;
use crate::shell::{
    advance, begin, mode_after, DiskReply, DiskRequest, Report, ReplyModel, ReportModel,
    RequestModel, Step, StepModel, Transaction, TransactionModel,
};

verus! {

/// Where the task loop stands.
#[derive(Debug, PartialEq, Eq)]
pub enum Task {
    /// Nothing under way; the ready signal is to be tested next.
    Idle,
    /// Interrupts are off for the test of the ready signal.
    Testing,
    /// A command is under way and this is its next step.
    Running(Step),
    /// A disk transfer is under way and this is what follows it.
    Waiting(Transaction),
    /// The medium is given a moment after the write of a format.
    Paused(Step),
    /// Interrupts are off for the end of a command.
    Finishing(Report),
    /// The screen is to be copied to video memory.
    Refreshing,
    /// The machine is being restarted.
    Stopped,
}

/// What the processor is asked to do.
#[derive(Debug, PartialEq, Eq)]
pub enum Action {
    DisableInterrupts,
    EnableInterrupts,
    /// Switch interrupts on and halt, as one step that no interrupt can split.
    EnableInterruptsAndHalt,
    Transfer(DiskRequest),
    Pause,
    Refresh,
    Reset,
}

/// The task loop's state as plain values.
pub enum TaskModel {
    Idle,
    Testing,
    Running(StepModel),
    Waiting(TransactionModel),
    Paused(StepModel),
    Finishing(ReportModel),
    Refreshing,
    Stopped,
}

/// An action as plain values.
pub enum ActionModel {
    DisableInterrupts,
    EnableInterrupts,
    EnableInterruptsAndHalt,
    Transfer(RequestModel),
    Pause,
    Refresh,
    Reset,
}

impl View for Task {
    type V = TaskModel;

    open spec fn view(&self) -> TaskModel {
        match *self {
            Task::Idle => TaskModel::Idle,
            Task::Testing => TaskModel::Testing,
            Task::Running(step) => TaskModel::Running(step@),
            Task::Waiting(then) => TaskModel::Waiting(then@),
            Task::Paused(step) => TaskModel::Paused(step@),
            Task::Finishing(report) => TaskModel::Finishing(report@),
            Task::Refreshing => TaskModel::Refreshing,
            Task::Stopped => TaskModel::Stopped,
        }
    }
}

impl View for Action {
    type V = ActionModel;

    open spec fn view(&self) -> ActionModel {
        match *self {
            Action::DisableInterrupts => ActionModel::DisableInterrupts,
            Action::EnableInterrupts => ActionModel::EnableInterrupts,
            Action::EnableInterruptsAndHalt => ActionModel::EnableInterruptsAndHalt,
            Action::Transfer(request) => ActionModel::Transfer(request@),
            Action::Pause => ActionModel::Pause,
            Action::Refresh => ActionModel::Refresh,
            Action::Reset => ActionModel::Reset,
        }
    }
}

/// What one turn of the task loop comes to: the kernel's state, where the loop
/// stands, and what the processor is to do.
pub struct Turn {
    pub kernel: KernelModel,
    pub task: TaskModel,
    pub action: ActionModel,
}

/// Whether interrupts are on while the loop stands at `task`.
pub open spec fn interrupts_on(task: TaskModel) -> bool {
    !(task is Testing || task is Finishing)
}

/// How a command goes on from its next step: a transfer is handed out, a restart
/// is carried out at once, and any other report is shown with interrupts off.
pub open spec fn carried_on(kernel: KernelModel, step: StepModel) -> Turn {
    match step {
        StepModel::Disk { request, then } => Turn {
            kernel,
            task: TaskModel::Waiting(then),
            action: ActionModel::Transfer(request),
        },
        StepModel::Done(report) => if report is Reboot {
            Turn { kernel, task: TaskModel::Stopped, action: ActionModel::Reset }
        } else {
            Turn {
                kernel,
                task: TaskModel::Finishing(report),
                action: ActionModel::DisableInterrupts,
            }
        },
    }
}

/// One turn of the task loop. `reply` is what the disk driver returned where the
/// last action was a transfer; a transfer without a reply counts as failed.
pub open spec fn turn(kernel: KernelModel, task: TaskModel, reply: Option<ReplyModel>) -> Turn {
    match task {
        TaskModel::Idle => Turn {
            kernel,
            task: TaskModel::Testing,
            action: ActionModel::DisableInterrupts,
        },
        TaskModel::Testing => if kernel.console.ready {
            Turn {
                kernel: KernelModel {
                    mode: mode_after(kernel.mode, kernel.console.line),
                    ..kernel
                },
                task: TaskModel::Running(begin(kernel.mode, kernel.console.line)),
                action: ActionModel::EnableInterrupts,
            }
        } else {
            Turn { kernel, task: TaskModel::Idle, action: ActionModel::EnableInterruptsAndHalt }
        },
        TaskModel::Running(step) => carried_on(kernel, step),
        TaskModel::Waiting(then) => {
            let next = advance(
                then,
                match reply {
                    Some(r) => r,
                    None => ReplyModel::Failed,
                },
            );
            if then is FormatWrite {
                Turn { kernel, task: TaskModel::Paused(next), action: ActionModel::Pause }
            } else {
                carried_on(kernel, next)
            }
        },
        TaskModel::Paused(step) => carried_on(kernel, step),
        TaskModel::Finishing(report) => Turn {
            kernel: KernelModel {
                console: ConsoleModel { line: Seq::<u8>::empty(), ready: false },
                screen: printed(shown(kernel.screen, report, kernel.ticks), prompt()),
                ..kernel
            },
            task: TaskModel::Refreshing,
            action: ActionModel::EnableInterrupts,
        },
        TaskModel::Refreshing => Turn {
            kernel,
            task: TaskModel::Idle,
            action: ActionModel::Refresh,
        },
        TaskModel::Stopped => Turn { kernel, task: TaskModel::Stopped, action: ActionModel::Reset },
    }
}

/// The discipline of the task loop, for every state and every reply:
/// the kernel's state changes only in a turn that starts with interrupts off;
/// the disk, the pause and the display are used only in a turn that starts with
/// interrupts on; interrupts are switched off only to be switched on again by the
/// very next turn; and the ready signal is tested only with interrupts off.
pub proof fn law_interrupt_discipline(
    kernel: KernelModel,
    task: TaskModel,
    reply: Option<ReplyModel>,
)
    ensures
        ({
            let t = turn(kernel, task, reply);
            let after = turn(t.kernel, t.task, None);
            &&& interrupts_on(task) ==> t.kernel == kernel
            &&& (t.action is Transfer || t.action is Pause || t.action is Refresh) ==> interrupts_on(
                task,
            ) && interrupts_on(t.task)
            &&& t.action is DisableInterrupts ==> interrupts_on(task) && !interrupts_on(t.task)
            &&& !interrupts_on(task) ==> (t.action is EnableInterrupts
                || t.action is EnableInterruptsAndHalt) && interrupts_on(t.task)
            &&& t.action is EnableInterruptsAndHalt ==> task is Testing && !kernel.console.ready
                && t.task is Idle
            &&& t.action is DisableInterrupts ==> (after.action is EnableInterrupts
                || after.action is EnableInterruptsAndHalt)
        }),
{
}

/// No return key is lost to the halt. When the test finds the signal down, the
/// loop halts in the same indivisible action that switches interrupts on; whatever
/// keys arrive from then on, if one of them is a return, the next test finds the
/// signal up and hands the line to the shell.
pub proof fn law_return_after_test_is_served(kernel: KernelModel, scancodes: Seq<u8>)
    requires
        !kernel.console.ready,
        returns_in(scancodes) > 0,
    ensures
        ({
            let halted = turn(kernel, TaskModel::Testing, None);
            let woken = KernelModel {
                console: after_keys(halted.kernel.console, scancodes),
                ..halted.kernel
            };
            let retest = turn(woken, halted.task, None);
            let served = turn(retest.kernel, retest.task, None);
            &&& halted.action is EnableInterruptsAndHalt
            &&& retest.action is DisableInterrupts
            &&& served.action is EnableInterrupts
            &&& served.task == TaskModel::Running(begin(woken.mode, woken.console.line))
        }),
{
    law_signal_survives(kernel.console, scancodes);
}

/// Goes on with a command from its next step.
fn carry_on(step: Step) -> (out: (Task, Action))
    ensures
        forall|kernel: KernelModel|
            carried_on(kernel, step@) == (Turn { kernel, task: out.0@, action: out.1@ }),
{
    match step {
        Step::Disk { request, then } => (Task::Waiting(then), Action::Transfer(request)),
        Step::Done(report) => match report {
            Report::Reboot => (Task::Stopped, Action::Reset),
            _ => (Task::Finishing(report), Action::DisableInterrupts),
        },
    }
}

impl Kernel {
    /// Takes one turn of the task loop: says what the processor is to do now and
    /// where the loop stands afterwards. `reply` carries the disk driver's answer
    /// into the turn that follows a transfer.
    pub fn step(&mut self, task: Task, reply: Option<DiskReply>) -> (out: (Task, Action))
        ensures
            (Turn { kernel: final(self)@, task: out.0@, action: out.1@ }) == turn(
                old(self)@,
                task@,
                match reply {
                    Some(r) => Some(r@),
                    None => None,
                },
            ),
    {
        match task {
            Task::Idle => (Task::Testing, Action::DisableInterrupts),
            Task::Testing => match self.dispatch() {
                Some(step) => (Task::Running(step), Action::EnableInterrupts),
                None => (Task::Idle, Action::EnableInterruptsAndHalt),
            },
            Task::Running(step) => carry_on(step),
            Task::Waiting(then) => {
                let pause = match then {
                    Transaction::FormatWrite => true,
                    _ => false,
                };
                let answer = match reply {
                    Some(r) => r,
                    None => DiskReply::Failed,
                };
                let next = then.resume(answer);
                if pause {
                    (Task::Paused(next), Action::Pause)
                } else {
                    carry_on(next)
                }
            },
            Task::Paused(step) => carry_on(step),
            Task::Finishing(report) => {
                self.finish(&report);
                (Task::Refreshing, Action::EnableInterrupts)
            },
            Task::Refreshing => (Task::Idle, Action::Refresh),
            Task::Stopped => (Task::Stopped, Action::Reset),
        }
    }
}

} // verus!
