//! The command surface a client presents: one argument record per
//! operation, and the small rules a client enforces before calling the
//! daemon. The presentation layer itself (argument parsing, table
//! rendering, transport) lives outside the library and hands values in as
//! these plain records.

use vstd::prelude::*;

use crate::listing::ListRow;

verus! {

/// Arguments of a start request.
#[derive(Clone, Debug, PartialEq)]
pub struct StartArgs {
    /// Automatically restart the process when it exits with a failure.
    pub auto_restart: bool,
    /// Process name.
    pub name: String,
    /// Command to run the process.
    pub command: String,
}

impl StartArgs {
    /// A start request must carry a non-empty process name.
    pub fn valid(&self) -> (r: bool)
        ensures
            r == (self.name@.len() > 0),
    {
        !self.name.as_str().is_empty()
    }
}

/// Arguments of a kill request.
#[derive(Clone, Debug, PartialEq)]
pub struct KillArgs {
    /// Process name.
    pub name: String,
}

/// Arguments of a delete request.
#[derive(Clone, Debug, PartialEq)]
pub struct DeleteArgs {
    pub name: String,
}

/// Arguments of a restart request.
#[derive(Clone, Debug, PartialEq)]
pub struct RestartArgs {
    pub name: String,
    /// Restart even if the process is running.
    pub force: bool,
}

/// Arguments of a list request.
#[derive(Clone, Copy, Debug, PartialEq, Eq, Structural)]
pub struct ListArgs {
    /// Leave dead processes out.
    pub only_active: bool,
}

/// Which rows a list request keeps: all of them, or the active ones only.
pub open spec fn spec_keeps_row(only_active: bool, row: ListRow) -> bool {
    !only_active || row.active
}

impl ListArgs {
    /// Keep the rows this request asks for, in their given order: all of
    /// them, or only those of active processes.
    pub fn filter_rows(&self, rows: Vec<ListRow>) -> (r: Vec<ListRow>)
        ensures
            r@ == rows@.filter((|row: ListRow| spec_keeps_row(self.only_active, row))),
    {
        let ghost all = rows@;
        let ghost pred = |row: ListRow| spec_keeps_row(self.only_active, row);
        let mut rest = rows;
        let mut out: Vec<ListRow> = Vec::new();
        proof {
            reveal(Seq::filter);
            assert(all.take(0) =~= Seq::<ListRow>::empty());
            assert(all.skip(0) =~= all);
        }
        while rest.len() > 0
            invariant
                rest@.len() <= all.len(),
                rest@ == all.skip(all.len() - rest@.len()),
                out@ == all.take(all.len() - rest@.len()).filter(pred),
                pred == (|row: ListRow| spec_keeps_row(self.only_active, row)),
            decreases rest@.len(),
        {
            let ghost k = all.len() - rest@.len();
            let row = rest.remove(0);
            proof {
                reveal(Seq::filter);
                assert(row == all[k as int]);
                assert(rest@ =~= all.skip(k as int + 1));
                let taken = all.take(k as int + 1);
                assert(taken.len() == k + 1);
                assert(taken.drop_last() =~= all.take(k as int));
                assert(taken.last() == all[k as int]);
                if pred(all[k as int]) {
                    assert(taken.filter(pred) == taken.drop_last().filter(pred).push(
                        taken.last(),
                    ));
                } else {
                    assert(taken.filter(pred) == taken.drop_last().filter(pred));
                }
            }
            if !self.only_active || row.active {
                out.push(row);
            }
            proof {
                reveal(Seq::filter);
                assert(out@ == all.take(k as int + 1).filter(pred));
            }
        }
        proof {
            assert(all.take(all.len() as int) =~= all);
        }
        out
    }
}

/// One client request: the operation and its arguments.
#[derive(Clone, Debug, PartialEq)]
pub enum Commands {
    /// Start a process by giving it a name and a command.
    Start(StartArgs),
    /// Kill a process.
    Kill(KillArgs),
    /// Permanently remove any state related to a process.
    Delete(DeleteArgs),
    /// List all processes.
    List(ListArgs),
    /// Restart a saved process.
    Restart(RestartArgs),
}

/// A full command-line invocation of the client.
#[derive(Clone, Debug, PartialEq)]
pub struct Cli {
    pub command: Commands,
}

} // verus!
