use king_os::kernel::Kernel;
use king_os::shell::{DiskReply, DiskRequest, Report, Step, Transaction};
use king_os::task::{Action, Task};
use std::collections::HashMap;

struct Bench {
    kernel: Kernel,
    task: Task,
    reply: Option<DiskReply>,
    sectors: HashMap<u32, [u8; 512]>,
    interrupts: bool,
    halted: bool,
    transfers: usize,
    refreshes: usize,
    pauses: usize,
    reset: bool,
}

fn bench() -> Bench {
    Bench {
        kernel: Kernel::boot(),
        task: Task::Idle,
        reply: None,
        sectors: HashMap::new(),
        interrupts: true,
        halted: false,
        transfers: 0,
        refreshes: 0,
        pauses: 0,
        reset: false,
    }
}

fn press(b: &mut Bench, scancode: u8) {
    assert!(b.interrupts, "a key interrupt was delivered with interrupts off");
    b.kernel.key(scancode);
    b.halted = false;
}

fn type_line(b: &mut Bench, line: &[u8]) {
    for &ch in line {
        let code = (0..0x80u8).find(|c| king_os::keymap::scancode_to_ascii(*c) == ch).unwrap();
        press(b, code);
    }
    press(b, 0x1C);
}

fn turn(b: &mut Bench) -> Action {
    assert!(!b.halted, "the task ran while the processor was halted");
    let task = std::mem::replace(&mut b.task, Task::Idle);
    let (next, action) = b.kernel.step(task, b.reply.take());
    b.task = next;
    match &action {
        Action::DisableInterrupts => {
            assert!(b.interrupts);
            b.interrupts = false;
        }
        Action::EnableInterrupts => {
            assert!(!b.interrupts);
            b.interrupts = true;
        }
        Action::EnableInterruptsAndHalt => {
            assert!(!b.interrupts);
            b.interrupts = true;
            b.halted = true;
        }
        Action::Transfer(request) => {
            assert!(b.interrupts, "a disk transfer was asked for with interrupts off");
            b.transfers += 1;
            b.reply = Some(match request {
                DiskRequest::Read { lba } => {
                    DiskReply::Data(*b.sectors.get(lba).unwrap_or(&[0u8; 512]))
                }
                DiskRequest::Write { lba, data } => {
                    b.sectors.insert(*lba, *data);
                    DiskReply::Written
                }
            });
        }
        Action::Pause => {
            assert!(b.interrupts);
            b.pauses += 1;
        }
        Action::Refresh => {
            assert!(b.interrupts);
            b.refreshes += 1;
        }
        Action::Reset => b.reset = true,
    }
    action
}

fn run_until_halt(b: &mut Bench) {
    for _ in 0..100 {
        if turn(b) == Action::EnableInterruptsAndHalt {
            return;
        }
        assert!(!b.reset);
    }
    panic!("the task loop did not come to rest");
}

fn last_line(b: &Bench) -> String {
    let (_, y) = b.kernel.screen.cursor();
    let cells = b.kernel.screen.cells();
    let text: String = (0..80).map(|x| (cells[(y - 1) * 80 + x] & 0xFF) as u8 as char).collect();
    text.trim_end().to_string()
}

#[test]
fn an_idle_loop_tests_and_halts() {
    let mut b = bench();
    assert_eq!(turn(&mut b), Action::DisableInterrupts);
    assert_eq!(b.task, Task::Testing);
    assert_eq!(turn(&mut b), Action::EnableInterruptsAndHalt);
    assert_eq!(b.task, Task::Idle);
    assert!(b.interrupts && b.halted);
}

#[test]
fn a_command_runs_with_interrupts_on_and_ends_with_them_off_for_an_instant() {
    let mut b = bench();
    type_line(&mut b, b"LS");
    assert_eq!(turn(&mut b), Action::DisableInterrupts);
    assert_eq!(turn(&mut b), Action::EnableInterrupts);
    assert_eq!(turn(&mut b), Action::Transfer(DiskRequest::Read { lba: 2048 }));
    assert_eq!(b.task, Task::Waiting(Transaction::ListRead));
    assert_eq!(turn(&mut b), Action::DisableInterrupts);
    assert_eq!(b.task, Task::Finishing(Report::DirectoryEmpty));
    assert_eq!(turn(&mut b), Action::EnableInterrupts);
    assert_eq!(turn(&mut b), Action::Refresh);
    assert_eq!(b.task, Task::Idle);
    assert_eq!(last_line(&b), "DIR EMPTY");
    assert!(!b.kernel.console.is_ready());
}

#[test]
fn a_return_that_arrives_right_after_the_test_is_not_lost() {
    let mut b = bench();
    for &code in &[0x23u8, 0x12, 0x26, 0x19] {
        press(&mut b, code);
    }
    assert_eq!(turn(&mut b), Action::DisableInterrupts);
    assert_eq!(turn(&mut b), Action::EnableInterruptsAndHalt);
    // The interrupt lands on the halt itself and wakes the processor.
    press(&mut b, 0x1C);
    assert_eq!(turn(&mut b), Action::DisableInterrupts);
    assert_eq!(turn(&mut b), Action::EnableInterrupts);
    assert_eq!(b.task, Task::Running(Step::Done(Report::Help)));
    run_until_halt(&mut b);
    assert_eq!(last_line(&b), "FETCH, LS, TOUCH, CAT, KWRITE, FORMAT, CLEAR, REBOOT");
}

#[test]
fn keys_typed_during_a_transfer_are_taken() {
    let mut b = bench();
    type_line(&mut b, b"LS");
    assert_eq!(turn(&mut b), Action::DisableInterrupts);
    assert_eq!(turn(&mut b), Action::EnableInterrupts);
    assert!(matches!(turn(&mut b), Action::Transfer(_)));
    press(&mut b, 0x1E);
    assert_eq!(b.kernel.console.poll(), Some(b"LSA".to_vec()));
}

#[test]
fn format_pauses_between_write_and_read_back() {
    let mut b = bench();
    type_line(&mut b, b"FORMAT");
    let mut actions: Vec<Action> = Vec::new();
    for _ in 0..9 {
        actions.push(turn(&mut b));
    }
    assert_eq!(actions[0], Action::DisableInterrupts);
    assert_eq!(actions[1], Action::EnableInterrupts);
    assert!(matches!(actions[2], Action::Transfer(DiskRequest::Write { lba: 2048, .. })));
    assert_eq!(actions[3], Action::Pause);
    assert_eq!(actions[4], Action::Transfer(DiskRequest::Read { lba: 2048 }));
    assert_eq!(actions[5], Action::DisableInterrupts);
    assert_eq!(actions[6], Action::EnableInterrupts);
    assert_eq!(actions[7], Action::Refresh);
    assert_eq!(actions[8], Action::DisableInterrupts);
    assert_eq!(last_line(&b), "WIPING LBA 2048... SUCCESS");
}

#[test]
fn reboot_resets_without_finishing() {
    let mut b = bench();
    type_line(&mut b, b"REBOOT");
    assert_eq!(turn(&mut b), Action::DisableInterrupts);
    assert_eq!(turn(&mut b), Action::EnableInterrupts);
    assert_eq!(turn(&mut b), Action::Reset);
    assert_eq!(b.task, Task::Stopped);
    assert_eq!(turn(&mut b), Action::Reset);
}

#[test]
fn a_transfer_without_a_reply_counts_as_failed() {
    let mut kernel = Kernel::boot();
    let (task, action) = kernel.step(Task::Waiting(Transaction::ListRead), None);
    assert_eq!(action, Action::DisableInterrupts);
    assert_eq!(task, Task::Finishing(Report::DiskError));
}

#[test]
fn a_whole_session_through_the_task_loop() {
    let mut b = bench();
    for line in [&b"FORMAT"[..], b"TOUCH", b"KWRITE", b"HELLO", b"CAT"] {
        type_line(&mut b, line);
        run_until_halt(&mut b);
    }
    let (_, y) = b.kernel.screen.cursor();
    let cells = b.kernel.screen.cells();
    let row = |r: usize| -> String {
        let text: String = (0..80).map(|x| (cells[r * 80 + x] & 0xFF) as u8 as char).collect();
        text.trim_end().to_string()
    };
    assert_eq!(row(y - 3), "--- CONTENT ---");
    assert_eq!(row(y - 2), "HELLO");
    assert_eq!(row(y - 1), "--- END ---");
    assert_eq!(b.pauses, 1);
    assert_eq!(b.refreshes, 5);
    assert_eq!(b.transfers, 2 + 2 + 0 + 3 + 2);
}
