//! Input capture: the line buffer that the keyboard interrupt fills and the ready
//! signal it raises for the dispatcher.

use vstd::prelude::*;
use crate::keymap::{key_char, scancode_to_ascii};

verus! {

/// Bytes the line buffer can hold.
pub const LINE_CAPACITY: usize = 64;

/// Character of the return key.
pub const NEWLINE: u8 = 0x0A;

/// Character of the backspace key.
pub const BACKSPACE: u8 = 0x08;

/// A bounded line of typed characters. Only the first `len` bytes count; what lies
/// behind them is stale.
#[derive(Clone, Copy, Debug)]
pub struct LineBuffer {
    bytes: [u8; 64],
    len: usize,
}

impl View for LineBuffer {
    type V = Seq<u8>;

    closed spec fn view(&self) -> Seq<u8> {
        self.bytes@.subrange(0, self.len as int)
    }
}

impl LineBuffer {
    #[verifier::type_invariant]
    spec fn bounded(self) -> bool {
        self.len <= 64
    }

    /// An empty line.
    pub fn new() -> (line: LineBuffer)
        ensures
            line@ == Seq::<u8>::empty(),
    {
        let line = LineBuffer { bytes: [0u8; 64], len: 0 };
        assert(line@ =~= Seq::<u8>::empty());
        line
    }

    /// Number of characters typed so far.
    pub fn len(&self) -> (n: usize)
        ensures
            n == self@.len(),
            n <= 64,
    {
        proof {
            use_type_invariant(self);
        }
        self.len
    }

    /// Appends a character; a full buffer drops it and says so.
    pub fn push(&mut self, ch: u8) -> (kept: bool)
        ensures
            kept == (old(self)@.len() < 64),
            final(self)@ == if kept { old(self)@.push(ch) } else { old(self)@ },
    {
        proof {
            use_type_invariant(&*self);
        }
        if self.len < LINE_CAPACITY {
            self.bytes[self.len] = ch;
            self.len += 1;
            assert(self@ =~= old(self)@.push(ch));
            true
        } else {
            false
        }
    }

    /// Removes the last character; an empty buffer stays empty and says so.
    pub fn pop(&mut self) -> (removed: bool)
        ensures
            removed == (old(self)@.len() > 0),
            final(self)@ == if removed { old(self)@.drop_last() } else { old(self)@ },
    {
        proof {
            use_type_invariant(&*self);
        }
        if self.len > 0 {
            self.len -= 1;
            assert(self@ =~= old(self)@.drop_last());
            true
        } else {
            false
        }
    }

    /// Empties the line and wipes the stale bytes.
    pub fn clear(&mut self)
        ensures
            final(self)@ == Seq::<u8>::empty(),
    {
        self.len = 0;
        self.bytes = [0u8; 64];
        assert(self@ =~= Seq::<u8>::empty());
    }

    /// A copy of the typed characters.
    pub fn contents(&self) -> (line: Vec<u8>)
        ensures
            line@ == self@,
    {
        proof {
            use_type_invariant(self);
        }
        let mut line: Vec<u8> = Vec::new();
        let mut i: usize = 0;
        while i < self.len
            invariant
                i <= self.len <= 64,
                line@ =~= self.bytes@.subrange(0, i as int),
            decreases self.len - i,
        {
            line.push(self.bytes[i]);
            i += 1;
        }
        line
    }
}

/// What the keyboard handler and the dispatcher share.
#[derive(Clone, Copy, Debug)]
pub struct Console {
    line: LineBuffer,
    ready: bool,
}

/// The shared state as plain values.
pub struct ConsoleModel {
    pub line: Seq<u8>,
    pub ready: bool,
}

/// What one keystroke asks of the display, and whether it raised the ready signal.
#[derive(Clone, Copy, Debug, PartialEq, Eq)]
pub struct KeyEffect {
    pub echo: Option<u8>,
    pub raised: bool,
}

impl View for Console {
    type V = ConsoleModel;

    closed spec fn view(&self) -> ConsoleModel {
        ConsoleModel { line: self.line@, ready: self.ready }
    }
}

/// The shared state after one scancode arrived.
pub open spec fn after_key(console: ConsoleModel, scancode: u8) -> ConsoleModel {
    let ch = key_char(scancode);
    if scancode >= 0x80 {
        console
    } else if ch == NEWLINE {
        ConsoleModel { ready: true, ..console }
    } else if ch == BACKSPACE {
        if console.line.len() > 0 {
            ConsoleModel { line: console.line.drop_last(), ..console }
        } else {
            console
        }
    } else if ch != 0 && console.line.len() < 64 {
        ConsoleModel { line: console.line.push(ch), ..console }
    } else {
        console
    }
}

/// What one scancode puts on the display and whether it raises the ready signal.
/// Key releases, unmapped keys, a backspace on an empty line and a character that
/// finds the line full do neither.
pub open spec fn effect_of(console: ConsoleModel, scancode: u8) -> KeyEffect {
    let ch = key_char(scancode);
    if scancode >= 0x80 {
        KeyEffect { echo: None, raised: false }
    } else if ch == NEWLINE {
        KeyEffect { echo: Some(NEWLINE), raised: true }
    } else if ch == BACKSPACE {
        KeyEffect { echo: if console.line.len() > 0 { Some(BACKSPACE) } else { None }, raised: false }
    } else if ch != 0 && console.line.len() < 64 {
        KeyEffect { echo: Some(ch), raised: false }
    } else {
        KeyEffect { echo: None, raised: false }
    }
}

/// The shared state after a run of scancodes, first to last.
pub open spec fn after_keys(console: ConsoleModel, scancodes: Seq<u8>) -> ConsoleModel
    decreases scancodes.len(),
{
    if scancodes.len() == 0 {
        console
    } else {
        after_key(after_keys(console, scancodes.drop_last()), scancodes.last())
    }
}

/// How often a run of scancodes raises the ready signal.
pub open spec fn signals_raised(console: ConsoleModel, scancodes: Seq<u8>) -> nat
    decreases scancodes.len(),
{
    if scancodes.len() == 0 {
        0
    } else {
        signals_raised(console, scancodes.drop_last()) + if effect_of(
            after_keys(console, scancodes.drop_last()),
            scancodes.last(),
        ).raised { 1nat } else { 0nat }
    }
}

/// Whether a scancode is the return key going down.
pub open spec fn is_return(scancode: u8) -> bool {
    scancode == 0x1C
}

/// How many times the return key goes down in a run of scancodes.
pub open spec fn returns_in(scancodes: Seq<u8>) -> nat
    decreases scancodes.len(),
{
    if scancodes.len() == 0 {
        0
    } else {
        returns_in(scancodes.drop_last()) + if is_return(scancodes.last()) { 1nat } else { 0nat }
    }
}

/// The return key is the only key that raises the signal, no key lowers it, and no
/// key makes the line outgrow the buffer.
pub proof fn lemma_return_raises(console: ConsoleModel, scancode: u8)
    ensures
        effect_of(console, scancode).raised == is_return(scancode),
        after_key(console, scancode).ready == (console.ready || is_return(scancode)),
        console.line.len() <= 64 ==> after_key(console, scancode).line.len() <= 64,
{
}

/// Every return raises the ready signal exactly once, whatever state the line is
/// in and whatever keys, backspaces included, come between the returns.
pub proof fn law_one_signal_per_return(console: ConsoleModel, scancodes: Seq<u8>)
    ensures
        signals_raised(console, scancodes) == returns_in(scancodes),
    decreases scancodes.len(),
{
    if scancodes.len() > 0 {
        law_one_signal_per_return(console, scancodes.drop_last());
        lemma_return_raises(after_keys(console, scancodes.drop_last()), scancodes.last());
    }
}

/// No keystroke lowers the ready signal: once a return was typed, or the signal was
/// up before, it is up after any further keys, so the dispatcher's next test of the
/// flag finds it however the keys fell between its tests.
pub proof fn law_signal_survives(console: ConsoleModel, scancodes: Seq<u8>)
    ensures
        after_keys(console, scancodes).ready == (console.ready || returns_in(scancodes) > 0),
    decreases scancodes.len(),
{
    if scancodes.len() > 0 {
        law_signal_survives(console, scancodes.drop_last());
        lemma_return_raises(after_keys(console, scancodes.drop_last()), scancodes.last());
    }
}

impl Console {
    /// An empty line with the signal down.
    pub fn new() -> (console: Console)
        ensures
            console@ == (ConsoleModel { line: Seq::<u8>::empty(), ready: false }),
    {
        Console { line: LineBuffer::new(), ready: false }
    }

    /// Tests the ready signal.
    pub fn is_ready(&self) -> (ready: bool)
        ensures
            ready == self@.ready,
    {
        self.ready
    }

    /// The dispatcher's test, made with interrupts off: the submitted line where the
    /// signal is up, nothing where it is down. The state is left as it is, so that
    /// interrupts can be switched on again before anything slow is done.
    pub fn poll(&self) -> (submitted: Option<Vec<u8>>)
        ensures
            match submitted {
                Some(line) => self@.ready && line@ == self@.line,
                None => !self@.ready,
            },
    {
        if self.ready {
            Some(self.line.contents())
        } else {
            None
        }
    }

    /// Ends a command: empties the line and lowers the signal.
    pub fn consume(&mut self)
        ensures
            final(self)@ == (ConsoleModel { line: Seq::<u8>::empty(), ready: false }),
    {
        self.line.clear();
        self.ready = false;
    }
}

/// Handles one scancode from the keyboard, in interrupt context. It changes the line
/// and the signal and says what to echo; it never asks for the disk.
pub fn keyboard_handler(console: &mut Console, scancode: u8) -> (effect: KeyEffect)
    ensures
        final(console)@ == after_key(old(console)@, scancode),
        effect == effect_of(old(console)@, scancode),
{
    if scancode >= 0x80 {
        return KeyEffect { echo: None, raised: false };
    }
    let ch: u8 = scancode_to_ascii(scancode);
    if ch == NEWLINE {
        console.ready = true;
        KeyEffect { echo: Some(NEWLINE), raised: true }
    } else if ch == BACKSPACE {
        if console.line.pop() {
            KeyEffect { echo: Some(BACKSPACE), raised: false }
        } else {
            KeyEffect { echo: None, raised: false }
        }
    } else if ch != 0 && console.line.push(ch) {
        KeyEffect { echo: Some(ch), raised: false }
    } else {
        KeyEffect { echo: None, raised: false }
    }
}

} // verus!
