//! The life cycle of a command list: prepared and submitted while `Init`, in
//! flight while `Busy`, waiting for every command's completion while `Mapping`,
//! finished when `Done`.
use vstd::prelude::*;

verus! {

/// State a command list can be in.
#[derive(Debug, Clone, Copy, PartialEq, Eq, Structural, Default)]
pub enum CommandListState {
    /// The command list is ready to be run.
    #[default]
    Init,
    /// The command list is currently being processed.
    Busy,
    /// The command list has buffers that are being mapped.
    Mapping,
    /// The command list is done.
    Done,
}

/// State tag of a command list together with the number of commands whose
/// completion is still outstanding.
#[derive(Debug, Clone, Copy, PartialEq, Eq, Structural)]
pub struct ListProgress {
    pub state: CommandListState,
    pub pending: usize,
}

/// The commands of a list in this state may be changed.
pub open spec fn commands_mutable_spec(p: ListProgress) -> bool {
    p.state == CommandListState::Init || p.state == CommandListState::Done
}

/// "Run again": only a finished list goes back to `Init`.
pub open spec fn run_again_spec(p: ListProgress) -> (bool, ListProgress) {
    if p.state == CommandListState::Done {
        (true, ListProgress { state: CommandListState::Init, pending: 0 })
    } else {
        (false, p)
    }
}

/// Submission: a list in `Init` becomes `Busy`; any other is skipped.
pub open spec fn submit_spec(p: ListProgress) -> (bool, ListProgress) {
    if p.state == CommandListState::Init {
        (true, ListProgress { state: CommandListState::Busy, pending: 0 })
    } else {
        (false, p)
    }
}

/// A `Busy` list of `n` commands starts waiting for `n` completions; with no
/// commands it is done at once. Any other list is skipped.
pub open spec fn begin_mapping_spec(p: ListProgress, n: usize) -> (bool, ListProgress) {
    if p.state == CommandListState::Busy {
        if n == 0 {
            (true, ListProgress { state: CommandListState::Done, pending: 0 })
        } else {
            (true, ListProgress { state: CommandListState::Mapping, pending: n })
        }
    } else {
        (false, p)
    }
}

/// One command completed: the count goes down, and the completion that brings
/// it to zero finishes the list, which that completion alone reports.
pub open spec fn complete_one_spec(p: ListProgress) -> (bool, ListProgress) {
    if p.state == CommandListState::Mapping && p.pending > 0 {
        if p.pending == 1 {
            (true, ListProgress { state: CommandListState::Done, pending: 0 })
        } else {
            (false, ListProgress { state: CommandListState::Mapping, pending: (p.pending - 1) as usize })
        }
    } else {
        (false, p)
    }
}

/// The progress after `k` completions.
pub open spec fn after_completions(p: ListProgress, k: nat) -> ListProgress
    decreases k,
{
    if k == 0 {
        p
    } else {
        complete_one_spec(after_completions(p, (k - 1) as nat)).1
    }
}

impl ListProgress {
    /// A fresh list, ready to be run.
    pub fn new() -> (r: ListProgress)
        ensures
            r == (ListProgress { state: CommandListState::Init, pending: 0 }),
    {
        ListProgress { state: CommandListState::Init, pending: 0 }
    }

    /// The current state.
    pub fn state(&self) -> (r: CommandListState)
        ensures
            r == self.state,
    {
        self.state
    }

    /// Whether the commands may be changed now: only in `Init` or `Done`.
    pub fn commands_mutable(&self) -> (r: bool)
        ensures
            r == commands_mutable_spec(*self),
    {
        match self.state {
            CommandListState::Init | CommandListState::Done => true,
            _ => false,
        }
    }

    /// Switches a finished list back to `Init` and returns true; refuses, with
    /// no change, in every other state.
    pub fn run_again(&mut self) -> (r: bool)
        ensures
            (r, *final(self)) == run_again_spec(*old(self)),
    {
        if self.state == CommandListState::Done {
            self.state = CommandListState::Init;
            self.pending = 0;
            true
        } else {
            false
        }
    }

    /// Marks a list in `Init` as submitted; returns false, with no change, otherwise.
    pub fn submit(&mut self) -> (r: bool)
        ensures
            (r, *final(self)) == submit_spec(*old(self)),
    {
        if self.state == CommandListState::Init {
            self.state = CommandListState::Busy;
            self.pending = 0;
            true
        } else {
            false
        }
    }

    /// Moves a `Busy` list of `num_commands` commands to `Mapping`, before any
    /// completion is requested; returns false, with no change, otherwise.
    pub fn begin_mapping(&mut self, num_commands: usize) -> (r: bool)
        ensures
            (r, *final(self)) == begin_mapping_spec(*old(self), num_commands),
    {
        if self.state == CommandListState::Busy {
            if num_commands == 0 {
                self.state = CommandListState::Done;
                self.pending = 0;
            } else {
                self.state = CommandListState::Mapping;
                self.pending = num_commands;
            }
            true
        } else {
            false
        }
    }

    /// Records one command's completion; returns true exactly when this one
    /// finished the list.
    pub fn complete_one(&mut self) -> (r: bool)
        ensures
            (r, *final(self)) == complete_one_spec(*old(self)),
    {
        if self.state == CommandListState::Mapping && self.pending > 0 {
            if self.pending == 1 {
                self.state = CommandListState::Done;
                self.pending = 0;
                true
            } else {
                self.pending = self.pending - 1;
                false
            }
        } else {
            false
        }
    }
}

/// The life cycle of a list: its commands may be changed in `Init`; once
/// submitted they may not, nor while mapping; once done they may again. Asking
/// to run again while busy or mapping fails and changes nothing; once done it
/// succeeds and leaves the list in `Init`.
pub proof fn lemma_list_lifecycle(p: ListProgress, n: usize)
    requires
        p.state == CommandListState::Init,
    ensures
        commands_mutable_spec(p),
        submit_spec(p).0,
        !commands_mutable_spec(submit_spec(p).1),
        run_again_spec(submit_spec(p).1) == (false, submit_spec(p).1),
        begin_mapping_spec(submit_spec(p).1, n).0,
        n > 0 ==> !commands_mutable_spec(begin_mapping_spec(submit_spec(p).1, n).1),
        n > 0 ==> run_again_spec(begin_mapping_spec(submit_spec(p).1, n).1) == (
        false,
        begin_mapping_spec(submit_spec(p).1, n).1,
        ),
        commands_mutable_spec(after_completions(begin_mapping_spec(submit_spec(p).1, n).1, n as nat)),
        run_again_spec(after_completions(begin_mapping_spec(submit_spec(p).1, n).1, n as nat)) == (
        true,
        ListProgress { state: CommandListState::Init, pending: 0 },
        ),
{
    lemma_completion_count(submit_spec(p).1, n);
    if n == 0 {
        assert(after_completions(begin_mapping_spec(submit_spec(p).1, n).1, 0) == begin_mapping_spec(
            submit_spec(p).1,
            n,
        ).1);
    }
}

/// A busy list of `n` commands is done after exactly `n` completions: after
/// fewer it is still mapping, and only the `n`-th completion reports that it
/// finished the list. The completions are alike, so the order in which the
/// commands report does not matter.
pub proof fn lemma_completion_count(p: ListProgress, n: usize)
    requires
        p.state == CommandListState::Busy,
    ensures
        after_completions(begin_mapping_spec(p, n).1, n as nat).state == CommandListState::Done,
        forall|k: nat|
            k < n ==> #[trigger] after_completions(begin_mapping_spec(p, n).1, k).state
                == CommandListState::Mapping && complete_one_spec(
                after_completions(begin_mapping_spec(p, n).1, k),
            ).0 == (k + 1 == n),
{
    let m = begin_mapping_spec(p, n).1;
    if n > 0 {
        lemma_mapping_progress(m, n, n as nat);
    }
}

proof fn lemma_mapping_progress(m: ListProgress, n: usize, k: nat)
    requires
        m == (ListProgress { state: CommandListState::Mapping, pending: n }),
        n > 0,
        k <= n,
    ensures
        k < n ==> after_completions(m, k) == (ListProgress {
            state: CommandListState::Mapping,
            pending: (n - k) as usize,
        }),
        k == n ==> after_completions(m, k) == (ListProgress { state: CommandListState::Done, pending: 0 }),
        forall|j: nat|
            j < k ==> #[trigger] after_completions(m, j).state == CommandListState::Mapping
                && complete_one_spec(after_completions(m, j)).0 == (j + 1 == n),
    decreases k,
{
    if k > 0 {
        lemma_mapping_progress(m, n, (k - 1) as nat);
        assert(after_completions(m, k) == complete_one_spec(after_completions(m, (k - 1) as nat)).1);
    }
}

} // verus!
