use king_os::ata::{PortAction, Transfer};
use king_os::kernel::Kernel;
use king_os::routing::ProbeStep;
use king_os::shell::{DiskReply, DiskRequest, Mode, Report, Step};
use std::collections::HashMap;

struct Machine {
    sectors: HashMap<u32, [u8; 512]>,
    port_accesses: usize,
}

fn scancode(ch: u8) -> u8 {
    for code in 0..0x80u8 {
        if king_os::keymap::scancode_to_ascii(code) == ch {
            return code;
        }
    }
    panic!("no key for {}", ch);
}

fn type_line(kernel: &mut Kernel, line: &[u8]) {
    for &ch in line {
        kernel.key(scancode(ch));
        kernel.key(scancode(ch) | 0x80);
    }
    kernel.key(0x1C);
}

fn transfer(machine: &mut Machine, request: &DiskRequest) -> DiskReply {
    let mut t = Transfer::start(request);
    let mut words: Vec<u16> = Vec::new();
    let source = match request {
        DiskRequest::Read { lba } => *machine.sectors.get(lba).unwrap_or(&[0u8; 512]),
        DiskRequest::Write { .. } => [0u8; 512],
    };
    let mut next = 0usize;
    loop {
        let input = match t.action() {
            PortAction::Finished => break,
            PortAction::In8 { port: 0x1F7 } => 0x48,
            PortAction::In8 { .. } => 0,
            PortAction::In16 { .. } => {
                let w = source[2 * next] as u16 | (source[2 * next + 1] as u16) << 8;
                next += 1;
                w
            }
            PortAction::Out16 { word, .. } => {
                words.push(word);
                0
            }
            PortAction::Out8 { .. } => 0,
        };
        machine.port_accesses += 1;
        t.feed(input);
    }
    let reply = t.reply().unwrap();
    if let DiskRequest::Write { lba, .. } = request {
        let mut data = [0u8; 512];
        for (i, w) in words.iter().enumerate() {
            data[2 * i] = (w & 0xFF) as u8;
            data[2 * i + 1] = (w >> 8) as u8;
        }
        machine.sectors.insert(*lba, data);
    }
    reply
}

fn run_pending(kernel: &mut Kernel, machine: &mut Machine) -> Option<Report> {
    let mut step = kernel.dispatch()?;
    let report = loop {
        match step {
            Step::Done(report) => break report,
            Step::Disk { request, then } => {
                let reply = transfer(machine, &request);
                step = then.resume(reply);
            }
        }
    };
    kernel.finish(&report);
    Some(report)
}

fn row(kernel: &Kernel, y: usize) -> String {
    let cells = kernel.screen.cells();
    let text: String = (0..80).map(|x| (cells[y * 80 + x] & 0xFF) as u8 as char).collect();
    text.trim_end().to_string()
}

#[test]
fn nothing_to_dispatch_until_return_is_typed() {
    let mut kernel = Kernel::boot();
    let mut machine = Machine { sectors: HashMap::new(), port_accesses: 0 };
    assert!(kernel.dispatch().is_none());
    kernel.key(scancode(b'L'));
    kernel.key(scancode(b'S'));
    assert!(kernel.dispatch().is_none());
    kernel.key(0x1C);
    assert_eq!(run_pending(&mut kernel, &mut machine), Some(Report::DirectoryEmpty));
    assert!(kernel.dispatch().is_none());
}

#[test]
fn a_return_typed_after_the_test_is_seen_by_the_next_test() {
    let mut kernel = Kernel::boot();
    let mut machine = Machine { sectors: HashMap::new(), port_accesses: 0 };
    for &ch in b"HELP" {
        kernel.key(scancode(ch));
    }
    // The task tests the flag and finds it down; the return arrives before it halts.
    assert!(kernel.dispatch().is_none());
    kernel.key(0x1C);
    // Whatever wakes the task next, its test finds the line.
    kernel.tick();
    assert_eq!(run_pending(&mut kernel, &mut machine), Some(Report::Help));
}

#[test]
fn a_session_on_the_screen() {
    let mut kernel = Kernel::boot();
    let mut machine = Machine { sectors: HashMap::new(), port_accesses: 0 };
    kernel.announce(ProbeStep::Unformatted);
    assert_eq!(row(&kernel, 0), "--- KING OS v0.0.1 (STABLE) ---");
    assert_eq!(row(&kernel, 2), "FS: READY (RUN FORMAT)");
    assert_eq!(row(&kernel, 3), ">");
    type_line(&mut kernel, b"FORMAT");
    assert_eq!(row(&kernel, 3), "> FORMAT");
    assert_eq!(run_pending(&mut kernel, &mut machine), Some(Report::Formatted));
    assert_eq!(row(&kernel, 4), "WIPING LBA 2048... SUCCESS");
    type_line(&mut kernel, b"TOUCH");
    assert_eq!(run_pending(&mut kernel, &mut machine), Some(Report::Created { slot: 0 }));
    type_line(&mut kernel, b"KWRITE");
    assert_eq!(run_pending(&mut kernel, &mut machine), Some(Report::WritePrompt));
    assert_eq!(kernel.shell.mode, Mode::AwaitingWriteContent);
    type_line(&mut kernel, b"HELLO");
    assert_eq!(run_pending(&mut kernel, &mut machine), Some(Report::Synced));
    assert_eq!(kernel.shell.mode, Mode::Normal);
    type_line(&mut kernel, b"CAT");
    assert_eq!(run_pending(&mut kernel, &mut machine), Some(Report::Content(b"HELLO".to_vec())));
    let (_, y) = kernel.screen.cursor();
    assert_eq!(row(&kernel, y - 3), "--- CONTENT ---");
    assert_eq!(row(&kernel, y - 2), "HELLO");
    assert_eq!(row(&kernel, y - 1), "--- END ---");
    assert_eq!(row(&kernel, y), ">");
    type_line(&mut kernel, b"LS");
    match run_pending(&mut kernel, &mut machine) {
        Some(Report::Listing(records)) => assert_eq!(records[0].size, 5),
        other => panic!("unexpected report {:?}", other),
    }
    let (_, y) = kernel.screen.cursor();
    assert_eq!(row(&kernel, y - 1), "MAIN.RS  [5 bytes]");
    assert!(machine.port_accesses > 0);
}

#[test]
fn clear_wipes_the_screen_and_prompts_on_the_second_row() {
    let mut kernel = Kernel::boot();
    let mut machine = Machine { sectors: HashMap::new(), port_accesses: 0 };
    kernel.announce(ProbeStep::Detected);
    type_line(&mut kernel, b"HELP");
    run_pending(&mut kernel, &mut machine);
    type_line(&mut kernel, b"CLEAR");
    assert_eq!(run_pending(&mut kernel, &mut machine), Some(Report::Cleared));
    assert_eq!(row(&kernel, 0), "--- KING OS v0.0.1 (STABLE) ---");
    assert_eq!(row(&kernel, 1), ">");
    assert_eq!(kernel.screen.cursor(), (2, 1));
    for y in 2..25 {
        assert_eq!(row(&kernel, y), "");
    }
}

#[test]
fn finishing_a_command_empties_the_line_and_lowers_the_signal() {
    let mut kernel = Kernel::boot();
    let mut machine = Machine { sectors: HashMap::new(), port_accesses: 0 };
    type_line(&mut kernel, b"NONSENSE");
    assert!(kernel.console.is_ready());
    assert_eq!(run_pending(&mut kernel, &mut machine), Some(Report::UnknownCommand));
    assert!(!kernel.console.is_ready());
    kernel.key(0x1C);
    assert_eq!(kernel.console.poll(), Some(Vec::new()));
    assert_eq!(run_pending(&mut kernel, &mut machine), Some(Report::Nothing));
}

#[test]
fn ticks_are_counted_and_shown_as_uptime() {
    let mut kernel = Kernel::boot();
    for _ in 0..250 {
        kernel.tick();
    }
    assert_eq!(kernel.ticks, 250);
    let mut machine = Machine { sectors: HashMap::new(), port_accesses: 0 };
    type_line(&mut kernel, b"FETCH");
    assert_eq!(run_pending(&mut kernel, &mut machine), Some(Report::SystemInfo));
    let (_, y) = kernel.screen.cursor();
    assert!(row(&kernel, y - 5).ends_with("UPTIME: 2s"));
}
