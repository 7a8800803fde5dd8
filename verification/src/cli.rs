//! What the program was started to do.
use crate::omnixerror::InitError;
use vstd::prelude::*;
use vstd::string::StringExecFns;

verus! {

/// The argument that asks for the program's version.
pub const VERSION_FLAG: &'static str = "--version";

/// The line that answers [`VERSION_FLAG`].
pub const VERSION_LINE: &'static str = "xynpro version 0.0.7";

/// What the program is to do.
#[derive(Debug)]
pub enum Invocation {
    /// Print [`VERSION_LINE`].
    ShowVersion,
    /// Set up a project of this name below the current directory.
    CreateProject { project_name: String },
}

/// Reads the program's arguments, the program's own name being the first: the argument
/// after it is either the version flag or the name of the project to set up. Without
/// such an argument there is nothing to do.
pub fn interpret_arguments(args: &Vec<String>) -> (request: Result<Invocation, InitError>)
    ensures
        match request {
            Err(InitError::ArgumentCountError(count)) => args.len() < 2 && count == args.len(),
            Err(_) => false,
            Ok(Invocation::ShowVersion) => args.len() >= 2 && args[1]@ == VERSION_FLAG@,
            Ok(Invocation::CreateProject { project_name }) => args.len() >= 2 && args[1]@ != VERSION_FLAG@
                && project_name@ == args[1]@,
        },
{
    if args.len() < 2 {
        return Err(InitError::ArgumentCountError(args.len()));
    }
    let flag = String::from_str(VERSION_FLAG);
    if args[1] == flag {
        Ok(Invocation::ShowVersion)
    } else {
        Ok(Invocation::CreateProject { project_name: args[1].clone() })
    }
}

} // verus!
