use vstd::prelude::*;

verus! {

/// Line feed and carriage return end the line.
pub open spec fn ends_line(b: u8) -> bool {
    b == 0x0a || b == 0x0d
}

/// DEL and backspace erase the last byte typed.
pub open spec fn erases(b: u8) -> bool {
    b == 0x7f || b == 0x08
}

/// Ctrl-C and Ctrl-D abandon the read.
pub open spec fn cancels(b: u8) -> bool {
    b == 0x03 || b == 0x04
}

/// A byte that the line treats specially rather than storing.
pub open spec fn is_control(b: u8) -> bool {
    ends_line(b) || erases(b) || cancels(b)
}

/// The line after one byte that neither ends nor cancels it.
pub open spec fn edit(line: Seq<u8>, b: u8) -> Seq<u8> {
    if erases(b) {
        if line.len() > 0 {
            line.drop_last()
        } else {
            line
        }
    } else {
        line.push(b)
    }
}

/// The line after typing `bytes`, none of which ends or cancels it.
pub open spec fn typed(bytes: Seq<u8>) -> Seq<u8>
    decreases bytes.len(),
{
    if bytes.len() == 0 {
        Seq::empty()
    } else {
        edit(typed(bytes.drop_last()), bytes.last())
    }
}

/// What happened at the terminal while a password was being read.
#[derive(Debug, Clone, Copy, PartialEq, Eq)]
pub enum TtyEvent {
    /// Another sub-service settled the outcome; the read is no longer wanted.
    Interrupted,
    /// The terminal could not be read any more (end of input or an error).
    Closed,
    /// One byte was typed.
    Byte(u8),
}

/// What one wait on the terminal and the notification socket came to.
#[derive(Debug, Clone, Copy, PartialEq, Eq)]
pub enum PollOutcome {
    /// An event for the line, without reading the terminal.
    Event(TtyEvent),
    /// A byte is ready on the terminal: read it.
    ReadByte,
    /// Nothing is ready yet: wait again.
    Idle,
}

/// Makes sense of one wait: a failed wait closes the read; a signal from
/// another sub-service wins over a byte typed at the same time; otherwise a
/// ready terminal is read.
pub fn poll_outcome(poll_ok: bool, notify_ready: bool, tty_ready: bool) -> (o: PollOutcome)
    ensures
        o == (if !poll_ok {
            PollOutcome::Event(TtyEvent::Closed)
        } else if notify_ready {
            PollOutcome::Event(TtyEvent::Interrupted)
        } else if tty_ready {
            PollOutcome::ReadByte
        } else {
            PollOutcome::Idle
        }),
{
    if !poll_ok {
        PollOutcome::Event(TtyEvent::Closed)
    } else if notify_ready {
        PollOutcome::Event(TtyEvent::Interrupted)
    } else if tty_ready {
        PollOutcome::ReadByte
    } else {
        PollOutcome::Idle
    }
}

/// The event that a read of one byte gives: the byte, or a closed terminal
/// when nothing could be read.
pub fn read_event(byte: Option<u8>) -> (e: TtyEvent)
    ensures
        e == (match byte {
            Some(b) => TtyEvent::Byte(b),
            None => TtyEvent::Closed,
        }),
{
    match byte {
        Some(b) => TtyEvent::Byte(b),
        None => TtyEvent::Closed,
    }
}

/// What the reader has to do next.
#[derive(Debug, PartialEq, Eq)]
pub enum LineAction {
    /// Wait for the next event.
    Continue,
    /// Erase the prompt line on the terminal, and give up without a password.
    EraseAndAbort,
    /// Echo a newline; the password typed, or `None` when it holds a NUL byte
    /// and so cannot be handed over as a C string.
    Submit(Option<Vec<u8>>),
    /// Give up without a password.
    Abort,
}

/// A password being typed on a terminal with echo off, one byte at a time.
pub struct PasswordLine {
    buffer: Vec<u8>,
    keys: Ghost<Seq<u8>>,
}

impl PasswordLine {
    /// The bytes typed so far, after erasures.
    pub closed spec fn line(&self) -> Seq<u8> {
        self.buffer@
    }

    /// The bytes typed since the line was started or last submitted,
    /// erasures included.
    pub closed spec fn keys(&self) -> Seq<u8> {
        self.keys@
    }

    #[verifier::type_invariant]
    closed spec fn well_formed(&self) -> bool {
        &&& self.buffer@ == typed(self.keys@)
        &&& forall|i: int| 0 <= i < self.buffer@.len() ==> !is_control(#[trigger] self.buffer@[i])
    }

    /// An empty line.
    pub fn new() -> (l: PasswordLine)
        ensures
            l.line() == Seq::<u8>::empty(),
            l.keys() == Seq::<u8>::empty(),
            l.line() == typed(l.keys()),
    {
        PasswordLine { buffer: Vec::new(), keys: Ghost(Seq::empty()) }
    }

    /// Takes one terminal event: an interruption, a closed terminal, Ctrl-C
    /// or Ctrl-D give up; line feed or carriage return submit the line;
    /// DEL or backspace erase the last byte, if any; any other byte is added.
    /// A submitted line is handed out and the line starts again empty. The
    /// line is always what the keys typed since its start make of it.
    pub fn feed(&mut self, event: TtyEvent) -> (action: LineAction)
        ensures
            match event {
                TtyEvent::Interrupted => action == LineAction::EraseAndAbort && final(self).keys()
                    == old(self).keys(),
                TtyEvent::Closed => action == LineAction::Abort && final(self).keys() == old(
                    self,
                ).keys(),
                TtyEvent::Byte(b) => if ends_line(b) {
                    &&& final(self).keys() == Seq::<u8>::empty()
                    &&& action matches LineAction::Submit(p)
                    &&& (p matches Some(v) ==> v@ == old(self).line())
                    &&& (p is None <==> old(self).line().contains(0u8))
                } else if cancels(b) {
                    action == LineAction::Abort && final(self).keys() == old(self).keys()
                } else {
                    &&& action == LineAction::Continue
                    &&& final(self).keys() == old(self).keys().push(b)
                    &&& final(self).line() == edit(old(self).line(), b)
                },
            },
            old(self).line() == typed(old(self).keys()),
            final(self).line() == typed(final(self).keys()),
            event matches TtyEvent::Byte(b) ==> ((b == 0x0au8 || b == 0x0du8) ==> action is Submit),
            event matches TtyEvent::Byte(b) ==> (b != 0x0au8 && b != 0x0du8 && b != 0x7fu8 && b
                != 0x08u8 && b != 0x03u8 && b != 0x04u8 ==> action == LineAction::Continue
                && final(self).line() == old(self).line().push(b)),
            event matches TtyEvent::Byte(b) ==> ((b == 0x7fu8 || b == 0x08u8) ==> action
                == LineAction::Continue && final(self).line() == (if old(self).line().len() > 0 {
                old(self).line().drop_last()
            } else {
                old(self).line()
            })),
            forall|i: int|
                0 <= i < final(self).line().len() ==> !is_control(#[trigger] final(self).line()[i]),
    {
        proof {
            use_type_invariant(&*self);
        }
        match event {
            TtyEvent::Interrupted => LineAction::EraseAndAbort,
            TtyEvent::Closed => LineAction::Abort,
            TtyEvent::Byte(b) => {
                if b == 0x03 || b == 0x04 {
                    return LineAction::Abort;
                }
                let mut taken = PasswordLine::new();
                std::mem::swap(&mut taken, self);
                proof {
                    use_type_invariant(&taken);
                }
                let PasswordLine { buffer: mut buffer, keys: Ghost(keys) } = taken;
                if b == 0x0a || b == 0x0d {
                    if contains_nul(&buffer) {
                        LineAction::Submit(None)
                    } else {
                        LineAction::Submit(Some(buffer))
                    }
                } else {
                    let ghost before = buffer@;
                    let ghost pressed = keys.push(b);
                    assert(pressed.drop_last() =~= keys);
                    assert(pressed.last() == b);
                    if b == 0x7f || b == 0x08 {
                        if buffer.len() > 0 {
                            buffer.pop();
                            assert(buffer@ =~= before.drop_last());
                        }
                    } else {
                        buffer.push(b);
                    }
                    assert(buffer@ == typed(pressed));
                    *self = PasswordLine { buffer, keys: Ghost(pressed) };
                    LineAction::Continue
                }
            },
        }
    }
}

/// Whether the bytes hold a NUL byte.
fn contains_nul(bytes: &Vec<u8>) -> (res: bool)
    ensures
        res == bytes@.contains(0u8),
{
    let mut i: usize = 0;
    while i < bytes.len()
        invariant
            i <= bytes.len(),
            forall|j: int| 0 <= j < i ==> bytes@[j] != 0u8,
        decreases bytes.len() - i,
    {
        if bytes[i] == 0 {
            assert(bytes@[i as int] == 0u8);
            return true;
        }
        i = i + 1;
    }
    false
}

/// Exactly line feed and carriage return end the line, exactly DEL and
/// backspace erase, exactly Ctrl-C and Ctrl-D cancel.
pub proof fn lemma_control_bytes(b: u8)
    ensures
        ends_line(b) <==> (b == 0x0au8 || b == 0x0du8),
        erases(b) <==> (b == 0x7fu8 || b == 0x08u8),
        cancels(b) <==> (b == 0x03u8 || b == 0x04u8),
{
}

/// Any other byte, a space included, is simply added at the end of the line.
pub proof fn lemma_ordinary_byte_appends(line: Seq<u8>, b: u8)
    requires
        b != 0x0au8 && b != 0x0du8 && b != 0x7fu8 && b != 0x08u8 && b != 0x03u8 && b != 0x04u8,
    ensures
        !is_control(b),
        edit(line, b) == line.push(b),
        edit(line, b).len() == line.len() + 1,
{
}

/// Typing ordinary bytes only gives a line made of exactly those bytes.
pub proof fn lemma_typed_ordinary(bytes: Seq<u8>)
    requires
        forall|i: int| 0 <= i < bytes.len() ==> !is_control(#[trigger] bytes[i]),
    ensures
        typed(bytes) == bytes,
    decreases bytes.len(),
{
    if bytes.len() > 0 {
        lemma_typed_ordinary(bytes.drop_last());
        assert(bytes.drop_last().push(bytes.last()) =~= bytes);
    }
}

/// Erasing right after typing a byte undoes it: the line is as before.
pub proof fn lemma_erase_undoes_typing(bytes: Seq<u8>, b: u8, e: u8)
    requires
        !is_control(b),
        erases(e),
    ensures
        typed(bytes.push(b).push(e)) == typed(bytes),
{
    let s1 = bytes.push(b);
    let s2 = s1.push(e);
    assert(s2.drop_last() =~= s1);
    assert(s1.drop_last() =~= bytes);
    assert(typed(s1) == typed(bytes).push(b));
    assert(typed(bytes).push(b).drop_last() =~= typed(bytes));
}

/// Erasing an empty line leaves it empty.
pub proof fn lemma_erase_on_empty(e: u8)
    requires
        erases(e),
    ensures
        typed(seq![e]) == Seq::<u8>::empty(),
{
    assert(seq![e].drop_last() =~= Seq::<u8>::empty());
    assert(typed(Seq::<u8>::empty()) == Seq::<u8>::empty());
    assert(seq![e].last() == e);
}

} // verus!
