use vstd::prelude::*;

verus! {

/// How much the underlying tool should say while it works.
///
/// `quiet` and a positive `verbosity` exclude one another: `new` refuses the
/// combination, so every mode it hands out satisfies `wf`.
#[derive(Clone, Copy, Debug, PartialEq, Eq, Structural)]
pub struct OperationMode {
    pub verbosity: u64,
    pub quiet: bool,
}

/// The ways a workflow can fail before or while launching external programs.
#[derive(Clone, Debug, PartialEq, Eq)]
pub enum ElpError {
    /// An external program could not be launched; carries the failed step's
    /// context message.
    Spawn(String),
    /// Captured output was not valid text; carries the step's context message.
    Decode(String),
    /// The quiet flag and a positive verbosity were both requested.
    Configuration,
}

impl OperationMode {
    /// A well-formed mode never asks for quiet and verbose output at once.
    pub open spec fn wf(self) -> bool {
        self.quiet ==> self.verbosity == 0
    }

    /// Validates the global flag combination read from the command surface.
    /// Quiet together with any verbosity is a configuration error; every
    /// other combination yields a well-formed mode with exactly the given
    /// fields.
    pub fn new(verbosity: u64, quiet: bool) -> (r: Result<OperationMode, ElpError>)
        ensures
            quiet && verbosity > 0 ==> (r matches Err(e) && e is Configuration),
            !(quiet && verbosity > 0) ==> (r matches Ok(m) && m.verbosity == verbosity
                && m.quiet == quiet && m.wf()),
    {
        if quiet && verbosity > 0 {
            Err(ElpError::Configuration)
        } else {
            Ok(OperationMode { verbosity, quiet })
        }
    }
}

/// The extra flags that the shared verbosity/quiet rule contributes to any
/// mode-sensitive invocation: quiet wins outright and suppresses verbosity;
/// otherwise no tier adds nothing, one tier adds `-v`, and two or more tiers
/// add the single intensified `-vv`.
pub open spec fn spec_mode_flags(m: OperationMode) -> Seq<Seq<char>> {
    if m.quiet {
        seq!["-q"@]
    } else if m.verbosity == 0 {
        Seq::empty()
    } else if m.verbosity == 1 {
        seq!["-v"@]
    } else {
        seq!["-vv"@]
    }
}

/// Builds the flag list that `spec_mode_flags` describes.
pub fn mode_flags(mode: &OperationMode) -> (r: Vec<String>)
    ensures
        r.deep_view() == spec_mode_flags(*mode),
{
    let mut v: Vec<String> = Vec::new();
    if mode.quiet {
        v.push("-q".to_owned());
    } else if mode.verbosity == 1 {
        v.push("-v".to_owned());
    } else if mode.verbosity >= 2 {
        v.push("-vv".to_owned());
    }
    proof {
        assert(v.deep_view() =~= spec_mode_flags(*mode));
    }
    v
}

/// Quiet always wins: whatever the verbosity field holds, a quiet mode's
/// flag list is exactly the quiet flag and carries no verbosity flag. Every
/// mode-sensitive step — stage, commit, remote registration, push, pull —
/// embeds `spec_mode_flags`, so this holds of each of them.
pub proof fn lemma_quiet_mode_overrides(m: OperationMode)
    requires
        m.quiet,
    ensures
        spec_mode_flags(m) == seq!["-q"@],
        spec_mode_flags(m).contains("-q"@),
        !spec_mode_flags(m).contains("-v"@),
        !spec_mode_flags(m).contains("-vv"@),
{
    reveal_strlit("-q");
    reveal_strlit("-v");
    reveal_strlit("-vv");
    assert(spec_mode_flags(m)[0] == "-q"@);
    assert("-q"@[1] != "-v"@[1]);
    assert("-q"@.len() != "-vv"@.len());
}

/// With quiet off and verbosity zero, the rule contributes nothing: a step's
/// argument list is exactly its base list.
pub proof fn lemma_default_mode_adds_nothing(m: OperationMode)
    requires
        !m.quiet,
        m.verbosity == 0,
    ensures
        spec_mode_flags(m) == Seq::<Seq<char>>::empty(),
{
}

/// One tier of verbosity appends exactly one `-v`; two or more tiers append
/// the single intensified `-vv` — one flag either way, never two separate
/// single flags.
pub proof fn lemma_verbose_mode_tiers(m: OperationMode)
    requires
        !m.quiet,
    ensures
        m.verbosity == 1 ==> spec_mode_flags(m) == seq!["-v"@],
        m.verbosity >= 2 ==> spec_mode_flags(m) == seq!["-vv"@],
        m.verbosity >= 1 ==> spec_mode_flags(m).len() == 1,
{
}

} // verus!
