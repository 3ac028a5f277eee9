//! The command line of the compiler driver.
use vstd::prelude::*;
use vstd::string::*;

verus! {

/// What the command line asks for: a subcommand and the paths it works on.
#[derive(Debug)]
pub struct CommandOpts {
    pub subcommand: String,
    pub path_specs: Vec<String>,
}

/// Whether a command line argument is a flag: it begins with a dash.
pub open spec fn is_flag(arg: Seq<char>) -> bool {
    arg.len() > 0 && arg[0] == '-'
}

/// The subcommands that there are, separated by spaces.
pub open spec fn subcommands_text() -> Seq<char> {
    "build"@
}

pub open spec fn missing_subcommand_message() -> Seq<char> {
    "no subcommand specified: please provide one of the following: "@ + subcommands_text()
}

pub open spec fn invalid_subcommand_message(subcommand: Seq<char>) -> Seq<char> {
    "invalid subcommand '"@ + subcommand
        + "' specified. please provide one of the following: "@ + subcommands_text()
}

impl CommandOpts {
    /// Reads the arguments of the process: the name of the program, the
    /// subcommand, and the paths. No flags are defined.
    pub fn from_args(args: Vec<String>) -> (r: Result<Self, String>)
        requires
            forall|i: int| 0 <= i < args@.len() ==> !is_flag(#[trigger] args@[i]@),
        ensures
            args@.len() < 2 ==> r is Err && r->Err_0@ == missing_subcommand_message(),
            args@.len() >= 2 && args@[1]@ != subcommands_text() ==> r is Err && r->Err_0@
                == invalid_subcommand_message(args@[1]@),
            args@.len() >= 2 && args@[1]@ == subcommands_text() ==> r is Ok
                && r->Ok_0.subcommand@ == args@[1]@ && r->Ok_0.path_specs@ == args@.skip(2),
    {
        if args.len() < 2 {
            let mut message = String::from_str(
                "no subcommand specified: please provide one of the following: ",
            );
            message.append("build");
            return Err(message);
        }
        let subcommand = args[1].clone();
        let valid = subcommand == String::from_str("build");
        if !valid {
            let mut message = String::from_str("invalid subcommand '");
            message.append(subcommand.as_str());
            message.append("' specified. please provide one of the following: ");
            message.append("build");
            return Err(message);
        }
        let mut path_specs: Vec<String> = Vec::new();
        let mut i: usize = 2;
        while i < args.len()
            invariant
                2 <= i <= args@.len(),
                path_specs@ == args@.subrange(2, i as int),
            decreases args@.len() - i,
        {
            path_specs.push(args[i].clone());
            i += 1;
            assert(path_specs@ =~= args@.subrange(2, i as int));
        }
        assert(path_specs@ =~= args@.skip(2));
        Ok(CommandOpts { subcommand, path_specs })
    }
}

} // verus!
