//! The argument list handed to the compiler.

use crate::mode::LatexType;
use crate::platform::Platform;
use vstd::prelude::*;

verus! {

/// Name of the compiler executable, looked up on the search path.
pub const COMPILER: &'static str = "vesti";

/// The arguments of one compiler run: the subcommand, on a platform that
/// needs it the flag that suppresses prompts, the backend's flag, and the
/// file name last.
pub open spec fn vesti_argv(filename: Seq<char>, latex_type: LatexType, platform: Platform) -> Seq<
    Seq<char>,
> {
    let head = if platform.suppresses_prompts() {
        seq!["compile"@, "-N"@]
    } else {
        seq!["compile"@]
    };
    head + seq![latex_type.flag(), filename]
}

/// Whether `arg` is the flag of some backend.
pub open spec fn is_backend_flag(arg: Seq<char>) -> bool {
    exists|t: LatexType| arg == #[trigger] t.flag()
}

/// Builds the argument list for compiling `filename` with `latex_type`.
pub fn make_vesti_argv<'a>(filename: &'a str, latex_type: LatexType, platform: Platform) -> (argv:
    Vec<&'a str>)
    ensures
        argv.deep_view() == vesti_argv(filename@, latex_type, platform),
{
    let mut output: Vec<&'a str> = Vec::with_capacity(10);
    output.push("compile");
    if platform.needs_no_prompt_flag() {
        output.push("-N");
    }
    output.push(latex_type.flag_str());
    output.push(filename);
    assert(output.deep_view() =~= vesti_argv(filename@, latex_type, platform));
    output
}

/// One compiler run to make: the file to compile, the backend, and the
/// platform, which decides on the extra flag.
#[derive(Clone, Debug, PartialEq, Eq)]
pub struct InvocationRequest {
    pub filename: String,
    pub latex_type: LatexType,
    pub platform: Platform,
}

/// The mathematical content of an [`InvocationRequest`].
pub struct InvocationRequestView {
    pub filename: Seq<char>,
    pub latex_type: LatexType,
    pub platform: Platform,
}

impl InvocationRequestView {
    /// The arguments this request hands to the compiler.
    pub open spec fn argv(self) -> Seq<Seq<char>> {
        vesti_argv(self.filename, self.latex_type, self.platform)
    }
}

impl View for InvocationRequest {
    type V = InvocationRequestView;

    open spec fn view(&self) -> InvocationRequestView {
        InvocationRequestView {
            filename: self.filename@,
            latex_type: self.latex_type,
            platform: self.platform,
        }
    }
}

impl InvocationRequest {
    /// The arguments to hand to the compiler, in order.
    pub fn argv(&self) -> (argv: Vec<&str>)
        ensures
            argv.deep_view() == self@.argv(),
    {
        make_vesti_argv(self.filename.as_str(), self.latex_type, self.platform)
    }
}

/// The subcommand comes first and the file name last, and the flag of the
/// requested backend stands directly before the file name.
pub proof fn lemma_argv_tail(filename: Seq<char>, latex_type: LatexType, platform: Platform)
    ensures
        vesti_argv(filename, latex_type, platform).len() >= 3,
        vesti_argv(filename, latex_type, platform).last() == filename,
        vesti_argv(filename, latex_type, platform)[vesti_argv(filename, latex_type, platform).len()
            - 2] == latex_type.flag(),
        vesti_argv(filename, latex_type, platform)[0] == "compile"@,
{
}

/// The argument list depends on the file name, the backend and the
/// platform and on nothing else, and it tells them apart: two argument
/// lists are equal exactly when all three are.
pub proof fn lemma_argv_names_its_inputs(
    filename: Seq<char>,
    latex_type: LatexType,
    platform: Platform,
    other_filename: Seq<char>,
    other_type: LatexType,
    other_platform: Platform,
)
    ensures
        vesti_argv(filename, latex_type, platform) == vesti_argv(
            other_filename,
            other_type,
            other_platform,
        ) <==> filename == other_filename && latex_type == other_type && platform
            == other_platform,
{
    let argv = vesti_argv(filename, latex_type, platform);
    let other = vesti_argv(other_filename, other_type, other_platform);
    if argv == other {
        assert(argv.len() == other.len());
        assert(argv.last() == other.last());
        assert(argv[argv.len() - 2] == other[other.len() - 2]);
        crate::mode::lemma_flag_names_backend(latex_type, other_type);
    }
}

/// Before the file name exactly one argument is a backend flag: the one
/// that stands directly before it.
pub proof fn lemma_argv_one_backend_flag(
    filename: Seq<char>,
    latex_type: LatexType,
    platform: Platform,
)
    ensures
        forall|i: int|
            0 <= i < vesti_argv(filename, latex_type, platform).len() - 1 ==> (is_backend_flag(
                #[trigger] vesti_argv(filename, latex_type, platform)[i],
            ) <==> i == vesti_argv(filename, latex_type, platform).len() - 2),
{
    reveal_strlit("compile");
    reveal_strlit("-N");
    reveal_strlit("-L");
    reveal_strlit("-p");
    reveal_strlit("-x");
    reveal_strlit("-l");
    let argv = vesti_argv(filename, latex_type, platform);
    assert forall|i: int| 0 <= i < argv.len() - 1 implies (is_backend_flag(#[trigger] argv[i]) <==> i
        == argv.len() - 2) by {
        if i == argv.len() - 2 {
            assert(argv[i] == latex_type.flag());
        } else {
            assert(argv[i] == "compile"@ || argv[i] == "-N"@);
            assert forall|t: LatexType| argv[i] != #[trigger] t.flag() by {
                if argv[i] == "compile"@ {
                    assert(argv[i].len() != t.flag().len());
                } else {
                    assert(argv[i][1] != t.flag()[1]);
                }
            }
        }
    }
}

} // verus!
