use vstd::prelude::*;

verus! {

/// How an external invocation is to be executed.
#[derive(Clone, Copy, Debug, PartialEq, Eq, Structural)]
pub enum ExecKind {
    /// Spawn, inherit the terminal's output streams, and wait for the child.
    Wait,
    /// Spawn, capture standard output as text, and wait for the child.
    Capture,
    /// Spawn and do not wait (fire-and-forget).
    Detached,
}

/// One planned call of an external program: what to run, with which
/// arguments, how to run it, and the message to report if it cannot be
/// spawned.
#[derive(Clone, Debug, PartialEq)]
pub struct Invocation {
    pub program: String,
    pub args: Vec<String>,
    pub context: String,
    pub kind: ExecKind,
}

/// The mathematical image of an `Invocation`.
#[verifier::ext_equal]
pub ghost struct InvocationModel {
    pub program: Seq<char>,
    pub args: Seq<Seq<char>>,
    pub context: Seq<char>,
    pub kind: ExecKind,
}

impl View for Invocation {
    type V = InvocationModel;

    open spec fn view(&self) -> InvocationModel {
        InvocationModel {
            program: self.program@,
            args: self.args.deep_view(),
            context: self.context@,
            kind: self.kind,
        }
    }
}

impl DeepView for Invocation {
    type V = InvocationModel;

    open spec fn deep_view(&self) -> InvocationModel {
        self.view()
    }
}

/// The model of a blocking invocation of the version-control tool with the
/// given arguments and failure context.
pub open spec fn git_model(args: Seq<Seq<char>>, context: Seq<char>) -> InvocationModel {
    InvocationModel { program: "git"@, args, context, kind: ExecKind::Wait }
}

/// Builds a blocking invocation of the version-control tool.
pub fn git(args: Vec<String>, error: &str) -> (r: Invocation)
    ensures
        r@ == git_model(args.deep_view(), error@),
{
    let r = Invocation {
        program: "git".to_owned(),
        args,
        context: error.to_owned(),
        kind: ExecKind::Wait,
    };
    proof {
        assert(r@ =~= git_model(r.args.deep_view(), error@));
    }
    r
}

} // verus!
