//! What the command line asks for.

use vstd::prelude::*;

verus! {

/// What the program is to do.
#[derive(Clone, Copy, Debug, PartialEq, Eq, Structural)]
pub enum CliAction {
    /// Print the version and stop.
    Version,
    /// Print what the program is and stop.
    About,
    /// Generate a wallet.
    Run,
}

/// Some argument is `flag`.
pub open spec fn has_flag(args: Seq<String>, flag: Seq<char>) -> bool {
    exists|i: int| 0 <= i < args.len() && (#[trigger] args[i])@ == flag
}

/// The action that the arguments ask for: the version for `--version` or
/// `-V`; failing that, the description for `--about` or `--help`; failing
/// that, a run.
pub open spec fn action_of(args: Seq<String>) -> CliAction {
    if has_flag(args, "--version"@) || has_flag(args, "-V"@) {
        CliAction::Version
    } else if has_flag(args, "--about"@) || has_flag(args, "--help"@) {
        CliAction::About
    } else {
        CliAction::Run
    }
}

/// Tells whether some argument is `flag`.
pub fn contains_flag(args: &Vec<String>, flag: &str) -> (found: bool)
    ensures
        found == has_flag(args@, flag@),
{
    let wanted = String::from_str(flag);
    let mut i: usize = 0;
    while i < args.len()
        invariant
            i <= args.len(),
            wanted@ == flag@,
            forall|k: int| 0 <= k < i ==> (#[trigger] args@[k])@ != flag@,
        decreases args.len() - i,
    {
        if args[i] == wanted {
            return true;
        }
        i += 1;
    }
    false
}

/// Picks the action that the arguments ask for.
pub fn select_action(args: &Vec<String>) -> (action: CliAction)
    ensures
        action == action_of(args@),
{
    if contains_flag(args, "--version") || contains_flag(args, "-V") {
        CliAction::Version
    } else if contains_flag(args, "--about") || contains_flag(args, "--help") {
        CliAction::About
    } else {
        CliAction::Run
    }
}

} // verus!
