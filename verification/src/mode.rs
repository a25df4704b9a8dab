use vstd::prelude::*;
use vstd::string::*;

verus! {

/// How the results of the sub-services are combined.
#[derive(Debug, Clone, Copy, PartialEq, Eq)]
pub enum Mode {
    /// Any one sub-service that succeeds is enough.
    One,
    /// Every sub-service has to succeed, in any order.
    All,
}

/// The mode that a configuration word names: `"one"` or `"all"`.
pub open spec fn mode_named(name: Seq<char>) -> Option<Mode> {
    if name == seq!['o', 'n', 'e'] {
        Some(Mode::One)
    } else if name == seq!['a', 'l', 'l'] {
        Some(Mode::All)
    } else {
        None
    }
}

/// Whether a single result, on its own, settles the outcome in this mode:
/// a success settles mode `One`, a failure settles mode `All`.
pub open spec fn settles_alone(mode: Mode, ok: bool) -> bool {
    match mode {
        Mode::One => ok,
        Mode::All => !ok,
    }
}

impl Mode {
    /// Reads a mode from its lower-case name; any other text is refused.
    pub fn from_str(str: &str) -> (res: Result<Mode, ()>)
        ensures
            match res {
                Ok(m) => mode_named(str@) == Some(m),
                Err(_) => mode_named(str@) is None,
            },
    {
        let n = str.unicode_len();
        if n != 3 {
            assert(str@ != seq!['o', 'n', 'e']) by {
                if str@ == seq!['o', 'n', 'e'] {
                    assert(str@.len() == 3);
                }
            }
            assert(str@ != seq!['a', 'l', 'l']) by {
                if str@ == seq!['a', 'l', 'l'] {
                    assert(str@.len() == 3);
                }
            }
            return Err(());
        }
        let c0 = str.get_char(0);
        let c1 = str.get_char(1);
        let c2 = str.get_char(2);
        if c0 == 'o' && c1 == 'n' && c2 == 'e' {
            assert(str@ =~= seq!['o', 'n', 'e']);
            Ok(Mode::One)
        } else if c0 == 'a' && c1 == 'l' && c2 == 'l' {
            assert(str@ =~= seq!['a', 'l', 'l']);
            assert(str@ != seq!['o', 'n', 'e']) by {
                if str@ == seq!['o', 'n', 'e'] {
                    assert(str@[0] == 'o');
                }
            }
            Ok(Mode::All)
        } else {
            assert(str@ != seq!['o', 'n', 'e']) by {
                if str@ == seq!['o', 'n', 'e'] {
                    assert(str@[0] == 'o' && str@[1] == 'n' && str@[2] == 'e');
                }
            }
            assert(str@ != seq!['a', 'l', 'l']) by {
                if str@ == seq!['a', 'l', 'l'] {
                    assert(str@[0] == 'a' && str@[1] == 'l' && str@[2] == 'l');
                }
            }
            Err(())
        }
    }

    /// Whether a sub-service that finished with `ok` should wake up a
    /// password read in progress: only when its result settles the outcome
    /// on its own, so that a fast failure cannot cancel another service's
    /// prompt in mode `One`.
    pub fn should_signal(&self, ok: bool) -> (res: bool)
        ensures
            res == settles_alone(*self, ok),
    {
        match self {
            Mode::One => ok,
            Mode::All => !ok,
        }
    }
}

} // verus!
