//! The kernel's state in one place, handed by reference to the interrupt handlers
//! and to the task loop.

use vstd::prelude::*;
use vstd::string::StringSliceAdditionalSpecFns;
use crate::display::{
    probe_message, print_text, render, render_probe, rendered, styled, Glyph, DEFAULT_COLOR,
    TEXT_NEWLINE, TEXT_PROMPT,
};
use crate::input::{after_key, effect_of, keyboard_handler, Console, ConsoleModel, KeyEffect};
use crate::routing::{ticked, timer_handler, ProbeStep};
use crate::screen::{booted, cleared, printed, written, Screen, ScreenModel};
use crate::shell::{begin, mode_after, Mode, Report, ReportModel, Shell, Step};

verus! {

/// Everything the kernel keeps between interrupts.
#[derive(Clone, Copy, Debug)]
pub struct Kernel {
    pub console: Console,
    pub shell: Shell,
    pub screen: Screen,
    pub ticks: u32,
}

/// The kernel's state as plain values.
pub struct KernelModel {
    pub console: ConsoleModel,
    pub mode: Mode,
    pub screen: ScreenModel,
    pub ticks: u32,
}

impl View for Kernel {
    type V = KernelModel;

    open spec fn view(&self) -> KernelModel {
        KernelModel {
            console: self.console@,
            mode: self.shell.mode,
            screen: self.screen@,
            ticks: self.ticks,
        }
    }
}

/// The prompt that invites the next line.
pub open spec fn prompt() -> Seq<Glyph> {
    styled(TEXT_PROMPT.spec_bytes(), DEFAULT_COLOR)
}

/// The screen after a report was shown: cleared for `Cleared`, the report's text
/// printed for every other.
pub open spec fn shown(screen: ScreenModel, report: ReportModel, ticks: u32) -> ScreenModel {
    if report is Cleared {
        cleared(screen)
    } else {
        printed(screen, rendered(report, ticks))
    }
}

impl Kernel {
    /// The state at start-up: the title drawn, the line empty, the signal down, the
    /// shell in `Normal` mode, no tick counted.
    pub fn boot() -> (kernel: Kernel)
        ensures
            kernel@ == (KernelModel {
                console: ConsoleModel { line: Seq::<u8>::empty(), ready: false },
                mode: Mode::Normal,
                screen: booted(),
                ticks: 0,
            }),
    {
        Kernel { console: Console::new(), shell: Shell::new(), screen: Screen::boot(), ticks: 0 }
    }

    /// Shows what the start-up probe found, then the first prompt on a line of its own.
    pub fn announce(&mut self, verdict: ProbeStep)
        ensures
            final(self)@ == (KernelModel {
                screen: printed(
                    printed(
                        printed(old(self)@.screen, probe_message(verdict)),
                        styled(TEXT_NEWLINE.spec_bytes(), DEFAULT_COLOR),
                    ),
                    prompt(),
                ),
                ..old(self)@
            }),
    {
        let message = render_probe(verdict);
        self.screen.print(&message);
        let mut newline: Vec<Glyph> = Vec::new();
        print_text(&mut newline, TEXT_NEWLINE, DEFAULT_COLOR);
        assert(newline@ =~= styled(TEXT_NEWLINE.spec_bytes(), DEFAULT_COLOR));
        self.screen.print(&newline);
        let mut text: Vec<Glyph> = Vec::new();
        print_text(&mut text, TEXT_PROMPT, DEFAULT_COLOR);
        assert(text@ =~= prompt());
        self.screen.print(&text);
    }

    /// Counts one timer interrupt.
    pub fn tick(&mut self)
        ensures
            final(self)@ == (KernelModel { ticks: ticked(old(self)@.ticks), ..old(self)@ }),
    {
        self.ticks = timer_handler(self.ticks);
    }

    /// Takes one scancode in interrupt context: the line and the signal change as
    /// the keyboard handler says, and what it echoes is written to the screen.
    pub fn key(&mut self, scancode: u8) -> (effect: KeyEffect)
        ensures
            effect == effect_of(old(self)@.console, scancode),
            final(self)@ == (KernelModel {
                console: after_key(old(self)@.console, scancode),
                screen: match effect.echo {
                    Some(ch) => written(old(self)@.screen, ch, DEFAULT_COLOR),
                    None => old(self)@.screen,
                },
                ..old(self)@
            }),
    {
        let effect = keyboard_handler(&mut self.console, scancode);
        match effect.echo {
            Some(ch) => {
                self.screen.putchar(ch);
            },
            None => {},
        }
        effect
    }

    /// The task loop's test, made with interrupts off. With the signal down there
    /// is nothing to do but halt until the next interrupt, and nothing changes.
    /// With the signal up the submitted line goes to the shell, whose first step
    /// comes back; the line, the signal and the screen are left alone until
    /// `finish`, so interrupts can be switched on again before the step is run.
    pub fn dispatch(&mut self) -> (step: Option<Step>)
        ensures
            match step {
                Some(s) => {
                    &&& old(self)@.console.ready
                    &&& s@ == begin(old(self)@.mode, old(self)@.console.line)
                    &&& final(self)@ == (KernelModel {
                        mode: mode_after(old(self)@.mode, old(self)@.console.line),
                        ..old(self)@
                    })
                },
                None => !old(self)@.console.ready && final(self)@ == old(self)@,
            },
    {
        match self.console.poll() {
            Some(line) => Some(self.shell.execute_command(line.as_slice())),
            None => None,
        }
    }

    /// Ends a command: shows its report, then the prompt, empties the line and
    /// lowers the signal.
    pub fn finish(&mut self, report: &Report)
        ensures
            final(self)@ == (KernelModel {
                console: ConsoleModel { line: Seq::<u8>::empty(), ready: false },
                screen: printed(shown(old(self)@.screen, report@, old(self)@.ticks), prompt()),
                ..old(self)@
            }),
    {
        match report {
            Report::Cleared => {
                self.screen.clear();
            },
            _ => {
                let text = render(report, self.ticks);
                self.screen.print(&text);
            },
        }
        let mut text: Vec<Glyph> = Vec::new();
        print_text(&mut text, TEXT_PROMPT, DEFAULT_COLOR);
        assert(text@ =~= prompt());
        self.screen.print(&text);
        self.console.consume();
    }
}

} // verus!
