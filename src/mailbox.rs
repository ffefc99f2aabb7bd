use vstd::prelude::*;

use crate::command::{command_of, first_missing, parse_command, CommandError, CommandFields, RemoteCommand};

verus! {

/// A single-slot store for the most recent pending command.
///
/// A deposit replaces whatever is pending; a take returns it and empties the
/// slot. Callers that share a mailbox serialise access to it (for instance
/// behind one lock), so each operation is applied whole.
pub struct Mailbox {
    slot: Option<RemoteCommand>,
}

/// The slot after depositing `c`: the last write wins.
pub open spec fn after_deposit(slot: Option<RemoteCommand>, c: RemoteCommand) -> Option<RemoteCommand> {
    Some(c)
}

/// The slot after a take: always empty.
pub open spec fn after_take(slot: Option<RemoteCommand>) -> Option<RemoteCommand> {
    None
}

/// The slot after depositing each of `ds` in order, with no take between.
pub open spec fn after_deposits(slot: Option<RemoteCommand>, ds: Seq<RemoteCommand>) -> Option<
    RemoteCommand,
>
    decreases ds.len(),
{
    if ds.len() == 0 {
        slot
    } else {
        after_deposit(after_deposits(slot, ds.drop_last()), ds.last())
    }
}

/// Runs a sequence of operations on a slot: `Some(c)` deposits `c`, `None`
/// takes. Gives the final slot and, for each operation, what it returned
/// (a deposit returns nothing).
pub open spec fn run_ops(slot: Option<RemoteCommand>, ops: Seq<Option<RemoteCommand>>) -> (
    Option<RemoteCommand>,
    Seq<Option<RemoteCommand>>,
)
    decreases ops.len(),
{
    if ops.len() == 0 {
        (slot, Seq::empty())
    } else {
        let (s, outs) = run_ops(slot, ops.drop_last());
        match ops.last() {
            Some(c) => (after_deposit(s, c), outs.push(None)),
            None => (after_take(s), outs.push(s)),
        }
    }
}

impl Mailbox {
    /// What is pending, if anything.
    pub closed spec fn pending(&self) -> Option<RemoteCommand> {
        self.slot
    }

    /// A mailbox with nothing pending.
    pub fn new() -> (r: Mailbox)
        ensures
            r.pending() is None,
    {
        Mailbox { slot: None }
    }

    /// Stores `cmd`, replacing any command not yet taken.
    pub fn deposit(&mut self, cmd: RemoteCommand)
        ensures
            final(self).pending() == after_deposit(old(self).pending(), cmd),
    {
        self.slot = Some(cmd);
    }

    /// Returns the pending command, if any, and empties the slot.
    pub fn take(&mut self) -> (r: Option<RemoteCommand>)
        ensures
            r == old(self).pending(),
            final(self).pending() == after_take(old(self).pending()),
    {
        self.slot.take()
    }

    /// Accepts a command payload: a complete one is deposited, an incomplete
    /// one is rejected and leaves the mailbox as it was.
    pub fn receive_command(&mut self, fields: CommandFields) -> (r: Result<(), CommandError>)
        ensures
            r is Ok <==> first_missing(fields) is None,
            r is Ok ==> final(self).pending() == after_deposit(
                old(self).pending(),
                command_of(fields),
            ),
            r is Err ==> r->Err_0 == CommandError::MissingField(first_missing(fields)->0),
            r is Err ==> final(self).pending() == old(self).pending(),
    {
        match parse_command(fields) {
            Ok(cmd) => {
                self.deposit(cmd);
                Ok(())
            },
            Err(e) => Err(e),
        }
    }

    /// Answers a poll: the pending command, or `None` when nothing waits.
    /// The command handed out is removed, so no later poll sees it again.
    pub fn get_command(&mut self) -> (r: Option<RemoteCommand>)
        ensures
            r == old(self).pending(),
            final(self).pending() == after_take(old(self).pending()),
    {
        self.take()
    }
}

/// After any run of deposits with no take between, a take returns the last
/// command deposited.
pub proof fn lemma_last_deposit_wins(slot: Option<RemoteCommand>, ds: Seq<RemoteCommand>)
    requires
        ds.len() > 0,
    ensures
        after_deposits(slot, ds) == Some(ds.last()),
{
}

/// A take right after a deposit returns that command; a second take right
/// after returns nothing.
pub proof fn lemma_taken_once(slot: Option<RemoteCommand>, c: RemoteCommand)
    ensures
        after_deposit(slot, c) == Some(c),
        after_take(after_deposit(slot, c)) is None,
{
}

/// Whatever order deposits and takes come in, every command a take returns
/// is, whole, either the one pending at the start or one that an earlier
/// operation deposited; the same holds of what is left pending at the end.
pub proof fn lemma_takes_return_deposits(slot: Option<RemoteCommand>, ops: Seq<Option<RemoteCommand>>)
    ensures
        run_ops(slot, ops).1.len() == ops.len(),
        forall|i: int|
            0 <= i < ops.len() && (#[trigger] run_ops(slot, ops).1[i]) is Some ==> {
                &&& ops[i] is None
                &&& run_ops(slot, ops).1[i] == slot || exists|j: int|
                    0 <= j < i && ops[j] == run_ops(slot, ops).1[i]
            },
        run_ops(slot, ops).0 is Some ==> run_ops(slot, ops).0 == slot || exists|j: int|
            0 <= j < ops.len() && ops[j] == run_ops(slot, ops).0,
    decreases ops.len(),
{
    if ops.len() > 0 {
        let prev = ops.drop_last();
        lemma_takes_return_deposits(slot, prev);
        let (s, outs) = run_ops(slot, prev);
        let n = prev.len() as int;
        assert forall|i: int|
            0 <= i < ops.len() && (#[trigger] run_ops(slot, ops).1[i]) is Some implies {
                &&& ops[i] is None
                &&& run_ops(slot, ops).1[i] == slot || exists|j: int|
                    0 <= j < i && ops[j] == run_ops(slot, ops).1[i]
            } by {
            if i < n {
                assert(run_ops(slot, ops).1[i] == outs[i]);
                assert(outs[i] is Some);
                if outs[i] != slot {
                    let j = choose|j: int| 0 <= j < i && prev[j] == outs[i];
                    assert(ops[j] == prev[j]);
                }
            } else {
                assert(run_ops(slot, ops).1[i] == s);
                if s != slot {
                    let j = choose|j: int| 0 <= j < n && prev[j] == s;
                    assert(ops[j] == prev[j]);
                }
            }
        }
        if run_ops(slot, ops).0 is Some {
            match ops.last() {
                Some(c) => {
                    assert(ops[n] == run_ops(slot, ops).0);
                },
                None => {},
            }
        }
    }
}

} // verus!
