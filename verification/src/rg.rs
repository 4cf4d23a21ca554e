//! Options and invocation building for the external search tool.
//!
//! The adapter launches one of two interchangeable line-oriented search
//! binaries. The argument list it hands the process is deterministic:
//! three fixed flags, an explicit hidden-file flag (never omitted), the
//! caller's extra arguments verbatim, the search subject, and the working
//! directory as the final positional argument.

use vstd::prelude::*;

verus! {

/// Options for one search invocation, consumed once by the adapter.
///
/// `cwd` is the working directory the tool is rooted at, `rga` selects the
/// alternate tool binary, `hidden` chooses the hidden-file flag form,
/// `args` are tool-specific extra arguments passed through verbatim, and
/// `subject` is the search pattern.
pub struct RgOpt {
    pub cwd: String,
    pub rga: bool,
    pub hidden: bool,
    pub subject: String,
    pub args: Vec<String>,
}

/// Mathematical model of [`RgOpt`]: every text field as a character sequence.
pub struct RgOptView {
    pub cwd: Seq<char>,
    pub rga: bool,
    pub hidden: bool,
    pub subject: Seq<char>,
    pub args: Seq<Seq<char>>,
}

impl View for RgOpt {
    type V = RgOptView;

    open spec fn view(&self) -> RgOptView {
        RgOptView {
            cwd: self.cwd@,
            rga: self.rga,
            hidden: self.hidden,
            subject: self.subject@,
            args: self.args.deep_view(),
        }
    }
}

/// Name of the default search binary.
pub open spec fn default_binary() -> Seq<char> {
    "rg"@
}

/// Name of the alternate search binary.
pub open spec fn alternate_binary() -> Seq<char> {
    "rga"@
}

/// The binary the invocation selects for the given tool-variant flag.
pub open spec fn binary_of(rga: bool) -> Seq<char> {
    if rga {
        alternate_binary()
    } else {
        default_binary()
    }
}

/// Fixed flag: disable color output.
pub open spec fn color_flag() -> Seq<char> {
    "--color=never"@
}

/// Fixed flag: restrict matches to file names only.
pub open spec fn files_flag() -> Seq<char> {
    "--files-with-matches"@
}

/// Fixed flag: enable smart-case matching.
pub open spec fn smart_case_flag() -> Seq<char> {
    "--smart-case"@
}

/// The hidden-file flag in its "include" form.
pub open spec fn hidden_include_flag() -> Seq<char> {
    "--hidden"@
}

/// The hidden-file flag in its "exclude" form.
pub open spec fn hidden_exclude_flag() -> Seq<char> {
    "--no-hidden"@
}

/// The hidden-file flag the invocation emits for the given option.
pub open spec fn hidden_flag_of(hidden: bool) -> Seq<char> {
    if hidden {
        hidden_include_flag()
    } else {
        hidden_exclude_flag()
    }
}

/// The full argument list of the invocation, in order: the three fixed
/// flags, the hidden-file flag, the caller's extra arguments, the search
/// subject, and the working directory.
pub open spec fn invocation_args(opt: RgOptView) -> Seq<Seq<char>> {
    seq![color_flag(), files_flag(), smart_case_flag(), hidden_flag_of(opt.hidden)] + opt.args
        + seq![opt.subject, opt.cwd]
}

/// The hidden-file flag the adapter emits is always present in the
/// invocation, at its fixed position right after the three fixed flags:
/// it is exactly one of the "include" and "exclude" forms, the one chosen
/// by the option — never both, never neither — whatever the other options
/// hold.
pub proof fn lemma_hidden_flag_exactly_one(opt: RgOptView)
    ensures
        invocation_args(opt).len() >= 6,
        invocation_args(opt)[3] == hidden_flag_of(opt.hidden),
        opt.hidden <==> invocation_args(opt)[3] == hidden_include_flag(),
        !opt.hidden <==> invocation_args(opt)[3] == hidden_exclude_flag(),
        (invocation_args(opt)[3] == hidden_include_flag()) != (invocation_args(opt)[3]
            == hidden_exclude_flag()),
        forall|k: int|
            0 <= k < 3 ==> invocation_args(opt)[k] != hidden_include_flag() && invocation_args(
                opt,
            )[k] != hidden_exclude_flag(),
{
    reveal_strlit("--color=never");
    reveal_strlit("--files-with-matches");
    reveal_strlit("--smart-case");
    reveal_strlit("--hidden");
    reveal_strlit("--no-hidden");
    assert(color_flag().len() == 13);
    assert(files_flag().len() == 20);
    assert(smart_case_flag().len() == 12);
    assert(hidden_include_flag().len() == 8);
    assert(hidden_exclude_flag().len() == 11);
}

/// Selects the tool binary by the variant flag.
pub fn program_name(rga: bool) -> (r: String)
    ensures
        r@ == binary_of(rga),
{
    if rga {
        "rga".to_owned()
    } else {
        "rg".to_owned()
    }
}

/// Builds the argument list for the invocation of `opt`.
pub fn invocation(opt: &RgOpt) -> (r: Vec<String>)
    ensures
        r.deep_view() == invocation_args(opt@),
{
    let mut r: Vec<String> = Vec::new();
    r.push("--color=never".to_owned());
    r.push("--files-with-matches".to_owned());
    r.push("--smart-case".to_owned());
    if opt.hidden {
        r.push("--hidden".to_owned());
    } else {
        r.push("--no-hidden".to_owned());
    }
    let mut i: usize = 0;
    while i < opt.args.len()
        invariant
            i <= opt.args.len(),
            r@.len() == 4 + i,
            r@[0]@ == color_flag(),
            r@[1]@ == files_flag(),
            r@[2]@ == smart_case_flag(),
            r@[3]@ == hidden_flag_of(opt.hidden),
            forall|j: int| 0 <= j < i ==> r@[4 + j]@ == opt.args@[j]@,
        decreases opt.args.len() - i,
    {
        r.push(opt.args[i].clone());
        i += 1;
    }
    r.push(opt.subject.clone());
    r.push(opt.cwd.clone());
    proof {
        assert forall|j: int| 0 <= j < r.deep_view().len() implies r.deep_view()[j]
            == invocation_args(opt@)[j] by {
            assert(r.deep_view()[j] == r@[j]@);
        }
        assert(r.deep_view() =~= invocation_args(opt@));
    }
    r
}

} // verus!
