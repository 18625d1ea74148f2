//! Backend selection: which LaTeX engine the compiler is asked to use.

use crate::commands::Command;
use vstd::prelude::*;

verus! {

/// The LaTeX engine that the compiler drives.
#[derive(Clone, Copy, Debug, PartialEq, Eq, Structural)]
pub enum LatexType {
    Plain,
    PdfLatex,
    XeLatex,
    LuaLatex,
}

impl LatexType {
    /// Position in the precedence order: of two selected backends the one
    /// with the smaller rank wins.
    pub open spec fn rank(self) -> nat {
        match self {
            LatexType::Plain => 0,
            LatexType::PdfLatex => 1,
            LatexType::XeLatex => 2,
            LatexType::LuaLatex => 3,
        }
    }

    /// The flag by which the compiler is told to use this backend.
    pub open spec fn flag(self) -> Seq<char> {
        match self {
            LatexType::Plain => "-L"@,
            LatexType::PdfLatex => "-p"@,
            LatexType::XeLatex => "-x"@,
            LatexType::LuaLatex => "-l"@,
        }
    }

    /// The compiler flag of this backend.
    pub fn flag_str(self) -> (s: &'static str)
        ensures
            s@ == self.flag(),
    {
        match self {
            LatexType::Plain => "-L",
            LatexType::PdfLatex => "-p",
            LatexType::XeLatex => "-x",
            LatexType::LuaLatex => "-l",
        }
    }
}

/// The backend used when the command line selects none.
pub open spec fn default_latex_type() -> LatexType {
    LatexType::PdfLatex
}

/// Whether the selection flags ask for backend `t`.
pub open spec fn selects(plain: bool, pdf: bool, xe: bool, lua: bool, t: LatexType) -> bool {
    match t {
        LatexType::Plain => plain,
        LatexType::PdfLatex => pdf,
        LatexType::XeLatex => xe,
        LatexType::LuaLatex => lua,
    }
}

/// The backend that a set of selection flags resolves to.
pub open spec fn resolve(plain: bool, pdf: bool, xe: bool, lua: bool) -> LatexType {
    if plain {
        LatexType::Plain
    } else if pdf {
        LatexType::PdfLatex
    } else if xe {
        LatexType::XeLatex
    } else if lua {
        LatexType::LuaLatex
    } else {
        default_latex_type()
    }
}

impl Command {
    /// The backend that this command line resolves to.
    pub open spec fn latex_type(&self) -> LatexType {
        resolve(self.is_plain, self.is_pdf, self.is_xe, self.is_lua)
    }
}

/// Resolves the selection flags of a command line to one backend.
pub fn get_latex_type(cmd: &Command) -> (t: LatexType)
    ensures
        t == cmd.latex_type(),
{
    if cmd.is_plain {
        LatexType::Plain
    } else if cmd.is_pdf {
        LatexType::PdfLatex
    } else if cmd.is_xe {
        LatexType::XeLatex
    } else if cmd.is_lua {
        LatexType::LuaLatex
    } else {
        LatexType::PdfLatex
    }
}

/// Resolution follows the precedence order: where some backend is selected,
/// the result is a selected backend and no selected backend precedes it;
/// where none is selected, the result is the default.
pub proof fn lemma_resolve_follows_precedence(plain: bool, pdf: bool, xe: bool, lua: bool)
    ensures
        (plain || pdf || xe || lua) ==> selects(plain, pdf, xe, lua, resolve(plain, pdf, xe, lua)),
        forall|u: LatexType| #[trigger]
            selects(plain, pdf, xe, lua, u) ==> resolve(plain, pdf, xe, lua).rank() <= u.rank(),
        !(plain || pdf || xe || lua) ==> resolve(plain, pdf, xe, lua) == default_latex_type(),
{
}

/// The flags of the backends differ pairwise, so the flag names the backend.
pub proof fn lemma_flag_names_backend(a: LatexType, b: LatexType)
    ensures
        a.flag() == b.flag() <==> a == b,
{
    reveal_strlit("-L");
    reveal_strlit("-p");
    reveal_strlit("-x");
    reveal_strlit("-l");
    if a != b {
        assert(a.flag()[1] != b.flag()[1]);
    }
}

} // verus!
