//! The terminal page's state: the container it was opened for, the picked
//! terminal, and the enter command shown for copying.
use vstd::prelude::*;
use crate::model::Terminal;
use crate::msg::Msg;

verus! {

/// Terminal page state.
#[derive(Clone, Debug, PartialEq, Eq)]
pub struct TerminalState {
    /// The container the page was opened for.
    pub container: Option<String>,
    /// The picked terminal's full command id.
    pub terminal_id: Option<String>,
    /// The enter command, once loaded.
    pub enter_argv: Option<Vec<String>>,
    pub loading_command: bool,
    pub command_error: Option<Msg>,
}

/// The closed page: nothing open, nothing picked.
pub open spec fn terminal_closed(s: TerminalState) -> bool {
    &&& s.container is None
    &&& s.terminal_id is None
    &&& s.enter_argv is None
    &&& !s.loading_command
    &&& s.command_error is None
}

impl Default for TerminalState {
    fn default() -> (r: Self)
        ensures
            terminal_closed(r),
    {
        TerminalState {
            container: None,
            terminal_id: None,
            enter_argv: None,
            loading_command: false,
            command_error: None,
        }
    }
}

/// The first position in `terminals` whose id is `id`, if any.
pub open spec fn first_with_id(terminals: Seq<Terminal>, id: Seq<char>) -> Option<int>
    decreases terminals.len(),
{
    if terminals.len() == 0 {
        None
    } else {
        match first_with_id(terminals.drop_last(), id) {
            Some(i) => Some(i),
            None => if terminals.last().id@ == id {
                Some(terminals.len() - 1)
            } else {
                None
            },
        }
    }
}

/// Where the picker stands: the terminal with the picked id, else the first
/// listed one; `None` only for an empty list.
pub open spec fn selected_position(terminal_id: Option<String>, terminals: Seq<Terminal>) -> Option<
    int,
> {
    if terminals.len() == 0 {
        None
    } else {
        match terminal_id {
            Some(id) => match first_with_id(terminals, id@) {
                Some(i) => Some(i),
                None => Some(0),
            },
            None => Some(0),
        }
    }
}

/// `first_with_id` finds the first terminal with the id, and fails only
/// when none has it.
pub proof fn lemma_first_with_id(terminals: Seq<Terminal>, id: Seq<char>)
    ensures
        match first_with_id(terminals, id) {
            Some(i) => 0 <= i < terminals.len() && terminals[i].id@ == id && forall|j: int|
                0 <= j < i ==> terminals[j].id@ != id,
            None => forall|j: int| 0 <= j < terminals.len() ==> terminals[j].id@ != id,
        },
    decreases terminals.len(),
{
    if terminals.len() > 0 {
        let d = terminals.drop_last();
        lemma_first_with_id(d, id);
        assert forall|j: int| 0 <= j < d.len() implies d[j] == terminals[j] by {}
    }
}

impl TerminalState {
    /// The terminal to launch: the picked one, falling back to the first
    /// listed when the pick no longer resolves or nothing is picked.
    pub fn selected<'a>(&self, terminals: &'a [Terminal]) -> (r: Option<&'a Terminal>)
        ensures
            match selected_position(self.terminal_id, terminals@) {
                Some(i) => r == Some(&terminals@[i]),
                None => r is None,
            },
    {
        if terminals.len() == 0 {
            return None;
        }
        match &self.terminal_id {
            Some(id) => {
                let mut i: usize = 0;
                while i < terminals.len()
                    invariant
                        i <= terminals@.len(),
                        self.terminal_id == Some(*id),
                        forall|j: int| 0 <= j < i ==> terminals@[j].id@ != id@,
                    decreases terminals@.len() - i,
                {
                    if terminals[i].id == *id {
                        proof {
                            lemma_first_with_id(terminals@, id@);
                            let k = first_with_id(terminals@, id@);
                            if k is Some {
                                let kk = k->0;
                                if kk < i {
                                    assert(terminals@[kk].id@ != id@);
                                } else if kk > i {
                                    assert(terminals@[i as int].id@ != id@);
                                }
                            }
                            assert(first_with_id(terminals@, id@) == Some(i as int));
                        }
                        return Some(&terminals[i]);
                    }
                    i += 1;
                }
                proof {
                    lemma_first_with_id(terminals@, id@);
                }
                Some(&terminals[0])
            },
            None => Some(&terminals[0]),
        }
    }
}

} // verus!
