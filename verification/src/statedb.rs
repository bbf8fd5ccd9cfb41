//! The commands of the state database tool, which produces the account
//! state that validations read.

use vstd::prelude::*;

verus! {

/// The operations of the state database tool.
#[derive(Clone, Copy, Debug, PartialEq, Eq, Structural)]
pub enum StatedbCommand {
    /// Write the state out as a snapshot.
    Export,
    /// Read a snapshot into the state.
    Import,
    /// Build the initial state from unspent outputs.
    GenesisUTXO,
    /// Build the initial state.
    Genesis,
    /// Check that the initial state is intact.
    GenesisVerify,
}

/// One invocation of the state database tool.
#[derive(Clone, Copy, Debug)]
pub struct Statedb {
    cmd: StatedbCommand,
}

impl Statedb {
    /// The command of this invocation.
    pub closed spec fn spec_command(&self) -> StatedbCommand {
        self.cmd
    }

    /// An invocation of `cmd`.
    pub fn new(cmd: StatedbCommand) -> (statedb: Statedb)
        ensures
            statedb.spec_command() == cmd,
    {
        Statedb { cmd }
    }

    /// The command of this invocation.
    pub fn command(&self) -> (cmd: StatedbCommand)
        ensures
            cmd == self.spec_command(),
    {
        self.cmd
    }
}

} // verus!
