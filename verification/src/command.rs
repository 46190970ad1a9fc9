//! The closed set of subcommands.

use vstd::prelude::*;
use vstd::string::StringExecFns;

verus! {

/// A subcommand of the program. There is one.
#[derive(Clone, Copy, Debug, PartialEq, Eq, Structural)]
pub enum Subcommand {
    /// Load the source file into the warehouse table.
    Ingest,
}

impl Subcommand {
    /// The word that selects this subcommand.
    pub open spec fn name_text(self) -> Seq<char> {
        match self {
            Subcommand::Ingest => "ingest"@,
        }
    }

    /// The subcommand that `name` selects, if any.
    pub open spec fn selected_by(name: Seq<char>) -> Option<Subcommand> {
        if name == Subcommand::Ingest.name_text() {
            Some(Subcommand::Ingest)
        } else {
            None
        }
    }

    /// The word that selects this subcommand.
    pub fn name(self) -> (name: &'static str)
        ensures
            name@ == self.name_text(),
    {
        match self {
            Subcommand::Ingest => "ingest",
        }
    }

    /// Finds the subcommand that `name` selects. Any other word selects none.
    pub fn from_name(name: &str) -> (found: Option<Subcommand>)
        ensures
            found == Subcommand::selected_by(name@),
    {
        let given = String::from_str(name);
        let ingest = String::from_str(Subcommand::Ingest.name());
        if given == ingest {
            Some(Subcommand::Ingest)
        } else {
            None
        }
    }
}

} // verus!
