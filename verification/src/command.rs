//! Validation and preparation of a command specification.
//!
//! A command is an ordered, non-empty list of strings: the executable
//! name first, the arguments after it. Before any process is spawned,
//! everything that can be decided from the command alone is decided
//! here: the split into program and arguments, the path of the log
//! file that will capture the child's output, and the diagnostic
//! description kept for error reporting.

use vstd::prelude::*;
use vstd::string::StringExecFns;
use crate::errors::ProcessError;

verus! {

/// The arguments joined with single spaces: empty for no arguments,
/// otherwise the arguments in order with one space between neighbours.
pub open spec fn spec_join_spaces(args: Seq<Seq<char>>) -> Seq<char>
    decreases args.len(),
{
    if args.len() == 0 {
        Seq::empty()
    } else if args.len() == 1 {
        args[0]
    } else {
        spec_join_spaces(args.drop_last()) + " "@ + args.last()
    }
}

/// The diagnostic description of a command: the program name followed
/// directly by the arguments joined with single spaces.
pub open spec fn spec_command_description(command: Seq<Seq<char>>) -> Seq<char>
    recommends
        command.len() > 0,
{
    command[0] + spec_join_spaces(command.subrange(1, command.len() as int))
}

/// The log file path for a program: `<log_dir>/<program>.log`.
pub open spec fn spec_log_path(log_dir: Seq<char>, program: Seq<char>) -> Seq<char> {
    log_dir + "/"@ + program + ".log"@
}

/// Everything the start operation decides before touching the
/// operating system: which executable to spawn, with which arguments,
/// where its output goes, and how to describe the command.
pub struct StartPlan {
    /// The executable to spawn: the first element of the command list.
    pub program: String,
    /// The remaining elements of the command list, in order.
    pub args: Vec<String>,
    /// The file that will capture the child's merged standard output
    /// and standard error.
    pub log_path: String,
    /// The diagnostic description of the command, kept for error
    /// messages only.
    pub description: String,
}

/// Validates a command list and prepares the start of its process.
///
/// An empty command is rejected with `InvalidCommand` and nothing else
/// happens. A non-empty command always yields a plan: its first
/// element as the program, the rest as arguments, the log path
/// `<log_dir>/<program>.log`, and the diagnostic description.
pub fn plan_start(log_dir: &str, command: &Vec<String>) -> (r: Result<StartPlan, ProcessError>)
    ensures
        command@.len() == 0 ==> (r matches Err(e) && e matches ProcessError::InvalidCommand),
        command@.len() > 0 ==> (r matches Ok(p) && {
            &&& p.program@ == command.deep_view()[0]
            &&& p.args.deep_view() == command.deep_view().subrange(1, command@.len() as int)
            &&& p.log_path@ == spec_log_path(log_dir@, command.deep_view()[0])
            &&& p.description@ == spec_command_description(command.deep_view())
        }),
{
    if command.len() == 0 {
        return Err(ProcessError::InvalidCommand);
    }
    let program: String = command[0].clone();
    proof {
        assert(program@ == command.deep_view()[0]);
    }

    let mut args: Vec<String> = Vec::new();
    let mut idx: usize = 1;
    while idx < command.len()
        invariant
            1 <= idx <= command@.len(),
            args@ == command@.subrange(1, idx as int),
        decreases command@.len() - idx,
    {
        args.push(command[idx].clone());
        proof {
            assert(args@ =~= command@.subrange(1, idx + 1));
        }
        idx = idx + 1;
    }
    proof {
        assert(args.deep_view() =~= command.deep_view().subrange(1, command@.len() as int));
    }

    let mut log_path: String = String::new();
    log_path.append(log_dir);
    log_path.append("/");
    log_path.append(program.as_str());
    log_path.append(".log");
    proof {
        assert(log_path@ =~= spec_log_path(log_dir@, command.deep_view()[0]));
    }

    let mut description: String = String::new();
    description.append(program.as_str());
    let mut k: usize = 0;
    while k < args.len()
        invariant
            0 <= k <= args@.len(),
            command@.len() > 0,
            program@ == command.deep_view()[0],
            description@ == program@ + spec_join_spaces(args.deep_view().subrange(0, k as int)),
        decreases args@.len() - k,
    {
        if k > 0 {
            description.append(" ");
        }
        description.append(args[k].as_str());
        proof {
            let s = args.deep_view();
            assert(s.subrange(0, k + 1).drop_last() =~= s.subrange(0, k as int));
            assert(s.subrange(0, k + 1).last() == s[k as int]);
            if k == 0 {
                assert(spec_join_spaces(s.subrange(0, 1)) == s.subrange(0, 1)[0]);
                assert(description@ =~= program@ + spec_join_spaces(s.subrange(0, 1)));
            }
        }
        k = k + 1;
    }
    proof {
        let s = args.deep_view();
        assert(s.subrange(0, s.len() as int) =~= s);
        assert(description@ == spec_command_description(command.deep_view()));
    }

    Ok(StartPlan { program, args, log_path, description })
}

} // verus!
