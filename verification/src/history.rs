//! Bounded undo/redo of parameter edits.
//!
//! The manager holds two sequences of commands. `push` appends to the undo
//! sequence, evicting the oldest entry beyond a depth of 50 and clearing
//! the redo sequence; `undo` and `redo` move one command between the two
//! sequences while replaying its old or new value onto the parameter list.
use std::collections::VecDeque;
use vstd::prelude::*;
use crate::parameter::Parameter;
use crate::parameter::ParameterValue;
use crate::parameter::with_value;

verus! {

/// One recorded parameter edit: enough to replay it in either direction.
#[derive(Debug, PartialEq)]
pub enum Command {
    SetParameter { param_id: String, old_value: ParameterValue, new_value: ParameterValue },
}

impl Command {
    pub open spec fn param_id_spec(&self) -> Seq<char> {
        match self {
            Command::SetParameter { param_id, .. } => param_id@,
        }
    }

    pub open spec fn old_value_spec(&self) -> ParameterValue {
        match self {
            Command::SetParameter { old_value, .. } => *old_value,
        }
    }

    pub open spec fn new_value_spec(&self) -> ParameterValue {
        match self {
            Command::SetParameter { new_value, .. } => *new_value,
        }
    }
}

/// The depth bound on the undo sequence.
pub const MAX_HISTORY: usize = 50;

/// Two bounded sequences of commands; see the module description.
#[derive(Debug)]
pub struct HistoryManager {
    undo_stack: VecDeque<Command>,
    redo_stack: VecDeque<Command>,
    max_history: usize,
}

impl HistoryManager {
    /// The depth bound is fixed and the undo sequence never exceeds it.
    pub closed spec fn wf(&self) -> bool {
        &&& self.max_history == MAX_HISTORY
        &&& self.undo_stack@.len() + self.redo_stack@.len() <= MAX_HISTORY
    }

    pub closed spec fn undo_seq(&self) -> Seq<Command> {
        self.undo_stack@
    }

    pub closed spec fn redo_seq(&self) -> Seq<Command> {
        self.redo_stack@
    }

    /// How many commands can currently be undone.
    pub fn undo_len(&self) -> (n: usize)
        ensures
            n == self.undo_seq().len(),
    {
        self.undo_stack.len()
    }

    /// How many commands can currently be redone.
    pub fn redo_len(&self) -> (n: usize)
        ensures
            n == self.redo_seq().len(),
    {
        self.redo_stack.len()
    }

    /// Record a new edit: append it to the undo sequence, dropping the
    /// oldest entry if the depth bound is exceeded, and clear the redo
    /// sequence entirely.
    pub fn push(&mut self, command: Command)
        requires
            old(self).wf(),
        ensures
            final(self).wf(),
            final(self).redo_seq().len() == 0,
            old(self).undo_seq().len() < MAX_HISTORY ==> final(self).undo_seq() == old(
                self,
            ).undo_seq().push(command),
            old(self).undo_seq().len() == MAX_HISTORY ==> final(self).undo_seq() == old(
                self,
            ).undo_seq().push(command).subrange(1, MAX_HISTORY + 1),
    {
        self.undo_stack.push_back(command);
        if self.undo_stack.len() > self.max_history {
            let _ = self.undo_stack.pop_front();
        }
        self.redo_stack.clear();
        proof {
            if old(self).undo_seq().len() == MAX_HISTORY {
                assert(self.undo_seq() =~= old(self).undo_seq().push(command).subrange(
                    1,
                    MAX_HISTORY + 1,
                ));
            }
        }
    }

    /// Replay the most recent command backwards: restore its old value on
    /// the matching parameter and move the command to the redo sequence.
    /// `None` when there is nothing to undo, and then a complete no-op.
    pub fn undo(&mut self, params: &mut Vec<Parameter>) -> (r: Option<()>)
        requires
            old(self).wf(),
        ensures
            final(self).wf(),
            old(self).undo_seq().len() == 0 ==> {
                &&& r is None
                &&& final(self).undo_seq() == old(self).undo_seq()
                &&& final(self).redo_seq() == old(self).redo_seq()
                &&& *final(params) == *old(params)
            },
            old(self).undo_seq().len() > 0 ==> {
                let cmd = old(self).undo_seq().last();
                &&& r is Some
                &&& final(self).undo_seq() == old(self).undo_seq().drop_last()
                &&& final(self).redo_seq() == old(self).redo_seq().push(cmd)
                &&& final(params)@ == with_value(
                    old(params)@,
                    cmd.param_id_spec(),
                    cmd.old_value_spec(),
                )
            },
    {
        let command = match self.undo_stack.pop_back() {
            Some(c) => c,
            None => {
                return None;
            },
        };
        match &command {
            Command::SetParameter { param_id, old_value, .. } => {
                crate::parameter::set_parameter(params, param_id, old_value.clone());
            },
        }
        self.redo_stack.push_back(command);
        Some(())
    }

    /// Replay the most recently undone command forwards: restore its new
    /// value on the matching parameter and move the command back to the
    /// undo sequence. `None` when there is nothing to redo, and then a
    /// complete no-op.
    pub fn redo(&mut self, params: &mut Vec<Parameter>) -> (r: Option<()>)
        requires
            old(self).wf(),
        ensures
            final(self).wf(),
            old(self).redo_seq().len() == 0 ==> {
                &&& r is None
                &&& final(self).undo_seq() == old(self).undo_seq()
                &&& final(self).redo_seq() == old(self).redo_seq()
                &&& *final(params) == *old(params)
            },
            old(self).redo_seq().len() > 0 ==> {
                let cmd = old(self).redo_seq().last();
                &&& r is Some
                &&& final(self).redo_seq() == old(self).redo_seq().drop_last()
                &&& final(self).undo_seq() == old(self).undo_seq().push(cmd)
                &&& final(params)@ == with_value(
                    old(params)@,
                    cmd.param_id_spec(),
                    cmd.new_value_spec(),
                )
            },
    {
        let command = match self.redo_stack.pop_back() {
            Some(c) => c,
            None => {
                return None;
            },
        };
        match &command {
            Command::SetParameter { param_id, new_value, .. } => {
                crate::parameter::set_parameter(params, param_id, new_value.clone());
            },
        }
        self.undo_stack.push_back(command);
        Some(())
    }
}

/// The depth bound, made usable outside this module: a well-formed
/// manager never holds more than 50 commands across its two sequences.
pub proof fn lemma_history_depth(h: &HistoryManager)
    requires
        h.wf(),
    ensures
        h.undo_seq().len() + h.redo_seq().len() <= MAX_HISTORY,
{
}

impl Default for HistoryManager {
    /// Both sequences start empty, with the fixed depth bound.
    fn default() -> (r: Self)
        ensures
            r.wf(),
            r.undo_seq().len() == 0,
            r.redo_seq().len() == 0,
    {
        HistoryManager {
            undo_stack: VecDeque::new(),
            redo_stack: VecDeque::new(),
            max_history: MAX_HISTORY,
        }
    }
}

} // verus!
