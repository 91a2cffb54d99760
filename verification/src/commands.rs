use vstd::prelude::*;

verus! {

/// A typed command, as produced from a request frame by the external parser.
/// Only the manifest commands are in scope here; record-level commands go to
/// the log storage layer.
pub enum Command {
    LogAdd { name: String },
    LogDel { name: String },
    ItrAdd { log: String, name: String, kind: String, func: String },
    ItrDel { log: String, name: String },
}

/// A command in mathematical form.
pub enum SpecCommand {
    LogAdd { name: Seq<char> },
    LogDel { name: Seq<char> },
    ItrAdd { log: Seq<char>, name: Seq<char>, kind: Seq<char>, func: Seq<char> },
    ItrDel { log: Seq<char>, name: Seq<char> },
}

impl View for Command {
    type V = SpecCommand;

    open spec fn view(&self) -> SpecCommand {
        match self {
            Command::LogAdd { name } => SpecCommand::LogAdd { name: name@ },
            Command::LogDel { name } => SpecCommand::LogDel { name: name@ },
            Command::ItrAdd { log, name, kind, func } => SpecCommand::ItrAdd {
                log: log@,
                name: name@,
                kind: kind@,
                func: func@,
            },
            Command::ItrDel { log, name } => SpecCommand::ItrDel { log: log@, name: name@ },
        }
    }
}

} // verus!
