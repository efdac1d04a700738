//! The options of the compiler and the command line they stand for.

use crate::fspath::{join, joined};
use crate::sdk::SdkError;
use crate::text::{clone_opt_text, clone_opt_texts, clone_texts, decimal_text, list_contains};
use vstd::prelude::*;
use vstd::string::*;

verus! {

/// The options of one compiler run.
#[derive(Debug)]
pub struct CompilerArgs {
    /// Directories searched for include files; none occurs twice.
    pub includes: Vec<String>,
    /// Numbers of the warnings to switch off.
    pub warnings: Option<Vec<String>>,
    pub use_stderr: Option<bool>,
    pub show_stats: Option<bool>,
    pub macro_defs: Vec<String>,
    pub require_semicolons: Option<bool>,
    pub syntax_only: Option<bool>,
    pub skip_verify: Option<bool>,
    pub error_file: Option<String>,
    pub active_dir: Option<String>,
    pub warnings_as_error: Option<bool>,
    pub show_includes: Option<bool>,
    pub compress_level: Option<u8>,
    pub output: Option<String>,
    pub prefix: Option<String>,
    pub tabsize: Option<u8>,
    pub verbose: Option<u8>,
}

pub struct CompilerArgsView {
    pub includes: Seq<Seq<char>>,
    pub warnings: Option<Seq<Seq<char>>>,
    pub use_stderr: Option<bool>,
    pub show_stats: Option<bool>,
    pub macro_defs: Seq<Seq<char>>,
    pub require_semicolons: Option<bool>,
    pub syntax_only: Option<bool>,
    pub skip_verify: Option<bool>,
    pub error_file: Option<Seq<char>>,
    pub active_dir: Option<Seq<char>>,
    pub warnings_as_error: Option<bool>,
    pub show_includes: Option<bool>,
    pub compress_level: Option<u8>,
    pub output: Option<Seq<char>>,
    pub prefix: Option<Seq<char>>,
    pub tabsize: Option<u8>,
    pub verbose: Option<u8>,
}

impl DeepView for CompilerArgs {
    type V = CompilerArgsView;

    open spec fn deep_view(&self) -> CompilerArgsView {
        CompilerArgsView {
            includes: self.includes.deep_view(),
            warnings: self.warnings.deep_view(),
            use_stderr: self.use_stderr,
            show_stats: self.show_stats,
            macro_defs: self.macro_defs.deep_view(),
            require_semicolons: self.require_semicolons,
            syntax_only: self.syntax_only,
            skip_verify: self.skip_verify,
            error_file: self.error_file.deep_view(),
            active_dir: self.active_dir.deep_view(),
            warnings_as_error: self.warnings_as_error,
            show_includes: self.show_includes,
            compress_level: self.compress_level,
            output: self.output.deep_view(),
            prefix: self.prefix.deep_view(),
            tabsize: self.tabsize,
            verbose: self.verbose,
        }
    }
}

/// The include directory that comes with an SDK.
pub open spec fn sdk_include_dir(sdk_root: Seq<char>) -> Seq<char> {
    joined(
        joined(joined(joined(sdk_root, "addons"@), "sourcemod"@), "scripting"@),
        "include"@,
    )
}

impl CompilerArgsView {
    /// The options every run starts from: semicolons required, warnings
    /// treated as errors, best compression, a tab size of four, quiet.
    pub open spec fn defaults() -> CompilerArgsView {
        CompilerArgsView {
            includes: Seq::empty(),
            warnings: Some(Seq::empty()),
            use_stderr: Some(true),
            show_stats: Some(true),
            macro_defs: Seq::empty(),
            require_semicolons: Some(true),
            syntax_only: Some(false),
            skip_verify: Some(false),
            error_file: None,
            active_dir: None,
            warnings_as_error: Some(true),
            show_includes: Some(false),
            compress_level: Some(9),
            output: None,
            prefix: None,
            tabsize: Some(4),
            verbose: Some(0),
        }
    }

    /// The options with `path` among the include directories: appended where
    /// it is not yet one of them, unchanged where it is.
    pub open spec fn with_include(self, path: Seq<char>) -> CompilerArgsView {
        if self.includes.contains(path) {
            self
        } else {
            CompilerArgsView { includes: self.includes.push(path), ..self }
        }
    }

    /// The options with the output file set.
    pub open spec fn with_output(self, output: Seq<char>) -> CompilerArgsView {
        CompilerArgsView { output: Some(output), ..self }
    }

    /// The options with the active directory set.
    pub open spec fn with_active_dir(self, dir: Seq<char>) -> CompilerArgsView {
        CompilerArgsView { active_dir: Some(dir), ..self }
    }
}

/// The include directory of the SDK at `sdk_path`, given whether it exists.
pub fn default_include_path(sdk_path: &str, present: bool) -> (r: Result<String, SdkError>)
    ensures
        match r {
            Ok(path) => present && path@ == sdk_include_dir(sdk_path@),
            Err(e) => !present && e == SdkError::IncludeDirMissing,
        },
{
    if !present {
        return Err(SdkError::IncludeDirMissing);
    }
    Ok(include_dir_of(sdk_path))
}

/// The include directory that comes with the SDK at `sdk_root`.
pub fn include_dir_of(sdk_root: &str) -> (r: String)
    ensures
        r@ == sdk_include_dir(sdk_root@),
{
    let addons = join(sdk_root, "addons");
    let sourcemod = join(addons.as_str(), "sourcemod");
    let scripting = join(sourcemod.as_str(), "scripting");
    join(scripting.as_str(), "include")
}

impl Default for CompilerArgs {
    /// The default options, with no include directory.
    fn default() -> (r: Self)
        ensures
            r.deep_view() == CompilerArgsView::defaults(),
    {
        let r = CompilerArgs {
            includes: Vec::new(),
            warnings: Some(Vec::new()),
            use_stderr: Some(true),
            show_stats: Some(true),
            macro_defs: Vec::new(),
            require_semicolons: Some(true),
            syntax_only: Some(false),
            skip_verify: Some(false),
            error_file: None,
            active_dir: None,
            warnings_as_error: Some(true),
            show_includes: Some(false),
            compress_level: Some(9),
            output: None,
            prefix: None,
            tabsize: Some(4),
            verbose: Some(0),
        };
        assert(r.includes.deep_view() =~= Seq::<Seq<char>>::empty());
        assert(r.macro_defs.deep_view() =~= Seq::<Seq<char>>::empty());
        assert(r.warnings.deep_view() == Some(Seq::<Seq<char>>::empty())) by {
            assert(r.warnings->0.deep_view() =~= Seq::<Seq<char>>::empty());
        }
        r
    }
}

impl Clone for CompilerArgs {
    fn clone(&self) -> (r: Self)
        ensures
            r.deep_view() == self.deep_view(),
    {
        CompilerArgs {
            includes: clone_texts(&self.includes),
            warnings: clone_opt_texts(&self.warnings),
            use_stderr: self.use_stderr,
            show_stats: self.show_stats,
            macro_defs: clone_texts(&self.macro_defs),
            require_semicolons: self.require_semicolons,
            syntax_only: self.syntax_only,
            skip_verify: self.skip_verify,
            error_file: clone_opt_text(&self.error_file),
            active_dir: clone_opt_text(&self.active_dir),
            warnings_as_error: self.warnings_as_error,
            show_includes: self.show_includes,
            compress_level: self.compress_level,
            output: clone_opt_text(&self.output),
            prefix: clone_opt_text(&self.prefix),
            tabsize: self.tabsize,
            verbose: self.verbose,
        }
    }
}

impl CompilerArgs {
    /// The default options for the SDK at `sdk_root`. Its include directory
    /// is searched where the SDK has one.
    pub fn new(sdk_root: &str, has_include_dir: bool) -> (r: Self)
        ensures
            r.deep_view() == if has_include_dir {
                CompilerArgsView::defaults().with_include(sdk_include_dir(sdk_root@))
            } else {
                CompilerArgsView::defaults()
            },
    {
        let mut args = CompilerArgs::default();
        match default_include_path(sdk_root, has_include_dir) {
            Ok(path) => args.add_include(path),
            Err(_) => {},
        }
        args
    }

    /// Adds a directory to the include path, unless the same path is on it
    /// already.
    pub fn add_include(&mut self, path: String)
        ensures
            final(self).deep_view() == old(self).deep_view().with_include(path@),
    {
        if !list_contains(&self.includes, path.as_str()) {
            let ghost before = self.includes.deep_view();
            self.includes.push(path);
            assert(self.includes.deep_view() =~= before.push(path@));
        }
    }
}

/// A flag and its value, where there is a value.
pub open spec fn flag_with(flag: Seq<char>, value: Option<Seq<char>>) -> Seq<Seq<char>> {
    match value {
        Some(v) => seq![flag, v],
        None => Seq::empty(),
    }
}

/// A flag that is either given or left out.
pub open spec fn switch(flag: Seq<char>, on: bool) -> Seq<Seq<char>> {
    if on {
        seq![flag]
    } else {
        Seq::empty()
    }
}

/// A flag given once for each value, in the order of the values.
pub open spec fn flag_each(flag: Seq<char>, values: Seq<Seq<char>>) -> Seq<Seq<char>>
    decreases values.len(),
{
    if values.len() == 0 {
        Seq::empty()
    } else {
        flag_each(flag, values.drop_last()) + seq![flag, values.last()]
    }
}

/// The compression level as given to the compiler: only levels one to nine
/// are passed on.
pub open spec fn compress_value(level: Option<u8>) -> Option<Seq<char>> {
    match level {
        Some(l) => if 1 <= l <= 9 {
            Some(decimal_text(l as nat))
        } else {
            None
        },
        None => None,
    }
}

/// The tab size as given to the compiler.
pub open spec fn tabsize_value(tabsize: Option<u8>) -> Option<Seq<char>> {
    match tabsize {
        Some(t) => Some(decimal_text(t as nat)),
        None => None,
    }
}

/// The verbosity as given to the compiler: only levels one and two are
/// passed on; the compiler is quiet otherwise.
pub open spec fn verbose_value(verbose: Option<u8>) -> Option<Seq<char>> {
    match verbose {
        Some(v) => if v == 1 || v == 2 {
            Some(decimal_text(v as nat))
        } else {
            None
        },
        None => None,
    }
}

/// Whether a switch is on, given what it is when nothing is said.
pub open spec fn or_default(value: Option<bool>, default: bool) -> bool {
    match value {
        Some(b) => b,
        None => default,
    }
}

/// The values of an optional list.
pub open spec fn or_empty(values: Option<Seq<Seq<char>>>) -> Seq<Seq<char>> {
    match values {
        Some(v) => v,
        None => Seq::empty(),
    }
}

/// The arguments that precede the input file on the compiler's command line.
pub open spec fn command_line(a: CompilerArgsView) -> Seq<Seq<char>> {
    flag_with("-z"@, compress_value(a.compress_level))
        + flag_with("-t"@, tabsize_value(a.tabsize))
        + flag_with("-e"@, a.error_file)
        + flag_with("-v"@, verbose_value(a.verbose))
        + flag_with("-D"@, a.active_dir)
        + flag_with("-p"@, a.prefix)
        + flag_with("-o"@, a.output)
        + flag_each("-i"@, a.includes)
        + switch("-E"@, or_default(a.warnings_as_error, false))
        + flag_each("-w"@, or_empty(a.warnings))
        + switch("--require-semicolons"@, or_default(a.require_semicolons, true))
        + switch("--syntax-only"@, or_default(a.syntax_only, false))
        + switch("--use-stderr"@, or_default(a.use_stderr, false))
        + switch("--no-verify"@, or_default(a.skip_verify, false))
        + switch("--show-stats"@, or_default(a.show_stats, false))
        + switch("--show-includes"@, or_default(a.show_includes, false))
}

/// Whether a switch is on, given what it is when nothing is said.
pub(crate) fn flag_or(value: Option<bool>, default: bool) -> (r: bool)
    ensures
        r == or_default(value, default),
{
    match value {
        Some(b) => b,
        None => default,
    }
}

/// Appends a flag and its value, where there is one.
pub(crate) fn push_flag_with(command: &mut Vec<String>, flag: &str, value: &Option<String>)
    ensures
        final(command).deep_view() == old(command).deep_view() + flag_with(
            flag@,
            value.deep_view(),
        ),
{
    let ghost before = command.deep_view();
    match value {
        Some(v) => {
            command.push(String::from_str(flag));
            command.push(v.clone());
            assert(command.deep_view() =~= before + seq![flag@, v@]);
        },
        None => {
            assert(command.deep_view() =~= before + Seq::<Seq<char>>::empty());
        },
    }
}

/// Appends a flag where it is switched on.
pub(crate) fn push_switch(command: &mut Vec<String>, flag: &str, on: bool)
    ensures
        final(command).deep_view() == old(command).deep_view() + switch(flag@, on),
{
    let ghost before = command.deep_view();
    if on {
        command.push(String::from_str(flag));
        assert(command.deep_view() =~= before + seq![flag@]);
    } else {
        assert(command.deep_view() =~= before + Seq::<Seq<char>>::empty());
    }
}

/// Appends a flag once for each value.
pub(crate) fn push_flag_each(command: &mut Vec<String>, flag: &str, values: &Vec<String>)
    ensures
        final(command).deep_view() == old(command).deep_view() + flag_each(
            flag@,
            values.deep_view(),
        ),
{
    let ghost before = command.deep_view();
    let ghost all = values.deep_view();
    let mut i: usize = 0;
    assert(all.take(0) =~= Seq::<Seq<char>>::empty());
    assert(command.deep_view() =~= before + flag_each(flag@, all.take(0)));
    while i < values.len()
        invariant
            i <= values.len(),
            all == values.deep_view(),
            command.deep_view() == before + flag_each(flag@, all.take(i as int)),
        decreases values.len() - i,
    {
        let ghost so_far = command.deep_view();
        command.push(String::from_str(flag));
        command.push(values[i].clone());
        proof {
            assert(all.take(i + 1).drop_last() =~= all.take(i as int));
            assert(all.take(i + 1).last() == values@[i as int]@);
            assert(command.deep_view() =~= so_far + seq![flag@, values@[i as int]@]);
            assert(command.deep_view() =~= before + flag_each(flag@, all.take(i + 1)));
        }
        i += 1;
    }
    assert(all.take(i as int) =~= all);
}

/// Name of the compiler's program file on this machine: the 64-bit compiler
/// where pointers have 64 bits.
pub open spec fn compiler_bin_name() -> Seq<char> {
    if usize::BITS == 64 {
        "spcomp64"@
    } else {
        "spcomp"@
    }
}

/// Name of the compiler's program file on this machine.
pub fn compiler_bin() -> (r: &'static str)
    ensures
        r@ == compiler_bin_name(),
{
    if usize::BITS == 64 {
        "spcomp64"
    } else {
        "spcomp"
    }
}

} // verus!
