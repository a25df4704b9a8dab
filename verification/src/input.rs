use vstd::prelude::*;

use crate::mode::Mode;
use crate::text::{combined_prompt, joined, or_word, prompt_end, texts};

verus! {

/// The module's configuration, read from the JSON text that follows it in a
/// PAM file.
pub struct Input {
    /// How the results of the sub-services are combined.
    pub mode: Mode,
    /// The sub-services: the PAM service name (a file in `/etc/pam.d`) and the
    /// name shown to the user, one entry per service.
    pub modules: Vec<(String, String)>,
    /// Whether the messages of the sub-services are dropped instead of shown.
    pub silence_messages: bool,
}

/// No two entries name the same PAM service: each service is run once.
pub open spec fn distinct_services(modules: Seq<(String, String)>) -> bool {
    forall|i: int, j: int|
        0 <= i < j < modules.len() ==> (#[trigger] modules[i]).0@ != (#[trigger] modules[j]).0@
}

/// The display names of the sub-services, in the order of the entries.
pub open spec fn display_texts(modules: Seq<(String, String)>) -> Seq<Seq<char>> {
    modules.map_values(|m: (String, String)| m.1@)
}

impl Input {
    /// Whether no two entries name the same PAM service, as in the map that
    /// the configuration is read into.
    pub fn has_distinct_services(&self) -> (yes: bool)
        ensures
            yes == distinct_services(self.modules@),
    {
        let n = self.modules.len();
        let mut i: usize = 0;
        while i < n
            invariant
                n == self.modules@.len(),
                i <= n,
                forall|a: int, b: int|
                    0 <= a < i && a < b < n ==> (#[trigger] self.modules@[a]).0@ != (
                    #[trigger] self.modules@[b]).0@,
            decreases n - i,
        {
            let mut j: usize = i + 1;
            while j < n
                invariant
                    n == self.modules@.len(),
                    i < n,
                    i + 1 <= j <= n,
                    forall|a: int, b: int|
                        0 <= a < i && a < b < n ==> (#[trigger] self.modules@[a]).0@ != (
                        #[trigger] self.modules@[b]).0@,
                    forall|b: int| i < b < j ==> self.modules@[i as int].0@ != (
                    #[trigger] self.modules@[b]).0@,
                decreases n - j,
            {
                if self.modules[i].0 == self.modules[j].0 {
                    return false;
                }
                j = j + 1;
            }
            i = i + 1;
        }
        true
    }

    /// The display names of the sub-services, in order.
    pub fn display_names(&self) -> (names: Vec<String>)
        ensures
            texts(names@) == display_texts(self.modules@),
    {
        let mut names: Vec<String> = Vec::new();
        let mut i: usize = 0;
        while i < self.modules.len()
            invariant
                i <= self.modules@.len(),
                names@.len() == i,
                forall|j: int| 0 <= j < i ==> #[trigger] names@[j]@ == self.modules@[j].1@,
            decreases self.modules@.len() - i,
        {
            names.push(self.modules[i].1.clone());
            i = i + 1;
        }
        assert(texts(names@) =~= display_texts(self.modules@));
        names
    }

    /// The prompt that asks for a password on behalf of every sub-service:
    /// the display names separated by ` or `, then `: `.
    pub fn combined_prompt(&self) -> (prompt: String)
        ensures
            prompt@ == joined(display_texts(self.modules@), or_word()) + prompt_end(),
    {
        let names = self.display_names();
        combined_prompt(&names)
    }
}

} // verus!
