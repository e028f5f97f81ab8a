use vstd::prelude::*;

verus! {

/// The options of one deploy or undeploy run.
pub struct RunArgs {
    /// Path of the configuration file, possibly relative to the start
    /// directory.
    pub config: String,
    /// Show more information in execution.
    pub verbose: bool,
    /// Do not actually work, but show what would happen.
    pub dry_run: bool,
    /// Ask for confirmation when a link location is already occupied.
    pub interactive: bool,
    /// Remove whatever occupies a link location without asking.
    pub force: bool,
    /// Do not print any output.
    pub quiet: bool,
}

impl Default for RunArgs {
    fn default() -> (r: Self)
        ensures
            r.config@ == "xdotter.toml"@,
            r.verbose,
            !r.dry_run,
            !r.interactive,
            !r.force,
            !r.quiet,
    {
        RunArgs {
            config: String::from_str("xdotter.toml"),
            verbose: true,
            dry_run: false,
            interactive: false,
            force: false,
            quiet: false,
        }
    }
}

/// The flags that govern every resolver decision of a run, read once at the
/// start and never mutated mid-run.
#[derive(Clone, Copy, Debug, PartialEq, Eq, Structural)]
pub struct RunMode {
    pub dry_run: bool,
    pub interactive: bool,
    pub force: bool,
}

/// The mode that a run's arguments select.
pub open spec fn spec_run_mode(dry_run: bool, interactive: bool, force: bool) -> RunMode {
    RunMode { dry_run, interactive, force }
}

/// Reads the mode flags out of the run's arguments.  The mode is an explicit
/// value handed down through the walker, the resolver and the effector.
pub fn init_run_mode(args: &RunArgs) -> (m: RunMode)
    ensures
        m == spec_run_mode(args.dry_run, args.interactive, args.force),
{
    RunMode { dry_run: args.dry_run, interactive: args.interactive, force: args.force }
}

} // verus!
