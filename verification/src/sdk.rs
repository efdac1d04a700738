//! The toolchain: which SDK serves a branch, where its archives come from,
//! and the command lines handed to its compiler.

pub mod args;

pub use crate::sdk::args::{
    compiler_bin, default_include_path, include_dir_of, CompilerArgs, CompilerArgsView,
};

use crate::fspath::{
    base_name, base_name_of, extension_replaced, join, joined, with_extension,
};
use crate::plugins::Definition;
use crate::sdk::args::{
    command_line, compiler_bin_name, flag_each, flag_or, or_empty, push_flag_each, push_flag_with,
    push_switch, sdk_include_dir,
};
use crate::text::{decimal, list_contains, starts_with_text};
use vstd::prelude::*;
use vstd::string::*;

verus! {

/// Directory below the application root that keeps downloaded archives.
pub const DL_CACHE: &'static str = "dl_cache";

/// The two runtime components a server needs.
#[derive(Debug, Clone, Copy, PartialEq, Eq, Structural)]
pub enum Runtime {
    Sourcemod,
    Metamod,
}

impl Default for Runtime {
    fn default() -> (r: Self)
        ensures
            r == Runtime::Sourcemod,
    {
        Runtime::Sourcemod
    }
}

/// The release line of the toolchain.
#[derive(Debug, Clone, Copy, PartialEq, Eq, Structural)]
pub enum Branch {
    Stable,
    Dev,
}

impl Default for Branch {
    fn default() -> (r: Self)
        ensures
            r == Branch::Stable,
    {
        Branch::Stable
    }
}

impl Branch {
    pub open spec fn text(self) -> Seq<char> {
        match self {
            Branch::Stable => "stable"@,
            Branch::Dev => "dev"@,
        }
    }

    pub fn to_string(&self) -> (r: String)
        ensures
            r@ == self.text(),
    {
        match self {
            Branch::Stable => String::from_str("stable"),
            Branch::Dev => String::from_str("dev"),
        }
    }
}

/// The version a runtime has on a branch.
pub open spec fn branch_version(runtime: Runtime, branch: Branch) -> Seq<char> {
    match (runtime, branch) {
        (Runtime::Sourcemod, Branch::Stable) => "1.12"@,
        (Runtime::Sourcemod, Branch::Dev) => "1.13"@,
        (Runtime::Metamod, Branch::Stable) => "1.12"@,
        (Runtime::Metamod, Branch::Dev) => "2.0"@,
    }
}

/// The server all builds of a runtime are dropped on, up to the version.
pub open spec fn drop_site(runtime: Runtime) -> Seq<char> {
    match runtime {
        Runtime::Sourcemod => "https://sm.alliedmods.net/smdrop/"@,
        Runtime::Metamod => "https://mms.alliedmods.net/mmsdrop/"@,
    }
}

/// The file that names the latest build of a runtime.
pub open spec fn latest_marker(runtime: Runtime) -> Seq<char> {
    match runtime {
        Runtime::Sourcemod => "/sourcemod-latest-linux"@,
        Runtime::Metamod => "/mmsource-latest-linux"@,
    }
}

/// Where the name of the latest build of a runtime is published.
pub open spec fn latest_build_address(runtime: Runtime, branch: Branch) -> Seq<char> {
    drop_site(runtime) + branch_version(runtime, branch) + latest_marker(runtime)
}

/// Where the archive of the build `build` is downloaded from.
pub open spec fn archive_address(runtime: Runtime, branch: Branch, build: Seq<char>) -> Seq<char> {
    drop_site(runtime) + branch_version(runtime, branch) + "/"@ + build
}

/// The name that the SDK of a version is installed under.
pub open spec fn sdk_name(version: Seq<char>) -> Seq<char> {
    "sourcemod-"@ + version
}

/// The directory of the SDK of a version: `<root>/sdks/sourcemod-<version>`.
pub open spec fn wanted_sdk_dir(root: Seq<char>, version: Seq<char>) -> Seq<char> {
    joined(joined(root, "sdks"@), sdk_name(version))
}

/// The installed SDKs among the entries of the SDK directory: those whose
/// name starts with `sourcemod-`, in the order given.
pub open spec fn installed_among(entries: Seq<Seq<char>>) -> Seq<Seq<char>> {
    entries.filter(|name: Seq<char>| "sourcemod-"@.is_prefix_of(name))
}

/// Why the toolchain could not be had.
#[derive(Debug, Clone, Copy, PartialEq, Eq, Structural)]
pub enum SdkError {
    /// No SDK is installed at all.
    NoSdksInstalled,
    /// SDKs are installed, but none for the branch asked for.
    NoSdkForBranch,
    /// The SDK has no include directory.
    IncludeDirMissing,
}

impl SdkError {
    pub open spec fn text(self) -> Seq<char> {
        match self {
            SdkError::NoSdksInstalled => "No SDKs installed, try: sourcemod install"@,
            SdkError::NoSdkForBranch => "No SDK found for branch"@,
            SdkError::IncludeDirMissing => "Include directory not found"@,
        }
    }

    /// The message shown for the error.
    pub fn message(&self) -> (r: String)
        ensures
            r@ == self.text(),
    {
        match self {
            SdkError::NoSdksInstalled => String::from_str(
                "No SDKs installed, try: sourcemod install",
            ),
            SdkError::NoSdkForBranch => String::from_str("No SDK found for branch"),
            SdkError::IncludeDirMissing => String::from_str("Include directory not found"),
        }
    }
}

/// One archive to fetch and unpack: from `url` into the cache as
/// `archive_path`, unless it is there already, then unpacked into
/// `target_dir`.
#[derive(Debug)]
pub struct Provision {
    pub url: String,
    pub archive_path: String,
    pub target_dir: String,
}

pub struct ProvisionView {
    pub url: Seq<char>,
    pub archive_path: Seq<char>,
    pub target_dir: Seq<char>,
}

impl DeepView for Provision {
    type V = ProvisionView;

    open spec fn deep_view(&self) -> ProvisionView {
        ProvisionView {
            url: self.url@,
            archive_path: self.archive_path@,
            target_dir: self.target_dir@,
        }
    }
}

/// Making an installed SDK the current one: `current_root` becomes a link
/// to `sdk_root`.
#[derive(Debug)]
pub struct Activation {
    pub sdk_root: String,
    pub current_root: String,
    /// The directory of the compiler and its tools, to be put on the path.
    pub scripting_dir: String,
}

/// Installing an SDK below the application root.
#[derive(Debug)]
pub struct SdkInstall {
    /// Created first where it is missing.
    pub cache_dir: String,
    pub provision: Provision,
    /// Whether the SDK is made the current one afterwards.
    pub activate: bool,
}

/// Installs and finds SDKs below an application root.
#[derive(Debug)]
pub struct Manager {
    app_root: String,
}

impl Manager {
    pub closed spec fn spec_root(&self) -> Seq<char> {
        self.app_root@
    }

    pub fn new(app_root: &str) -> (r: Self)
        ensures
            r.spec_root() == app_root@,
    {
        Manager { app_root: String::from_str(app_root) }
    }

    pub fn get_sdk_branch_version(&self, runtime: &Runtime, branch: &Branch) -> (r: &'static str)
        ensures
            r@ == branch_version(*runtime, *branch),
    {
        match runtime {
            Runtime::Sourcemod => match branch {
                Branch::Stable => "1.12",
                Branch::Dev => "1.13",
            },
            Runtime::Metamod => match branch {
                Branch::Stable => "1.12",
                Branch::Dev => "2.0",
            },
        }
    }

    /// The address that answers with the name of the latest build.
    pub fn latest_build_url(&self, runtime: &Runtime, branch: &Branch) -> (r: String)
        ensures
            r@ == latest_build_address(*runtime, *branch),
    {
        let mut url = match runtime {
            Runtime::Sourcemod => String::from_str("https://sm.alliedmods.net/smdrop/"),
            Runtime::Metamod => String::from_str("https://mms.alliedmods.net/mmsdrop/"),
        };
        url.append(self.get_sdk_branch_version(runtime, branch));
        match runtime {
            Runtime::Sourcemod => url.append("/sourcemod-latest-linux"),
            Runtime::Metamod => url.append("/mmsource-latest-linux"),
        }
        url
    }

    /// The address of the archive of the build `latest_version`.
    pub fn archive_url(&self, runtime: &Runtime, branch: &Branch, latest_version: &str) -> (r:
        String)
        ensures
            r@ == archive_address(*runtime, *branch, latest_version@),
    {
        let mut url = match runtime {
            Runtime::Sourcemod => String::from_str("https://sm.alliedmods.net/smdrop/"),
            Runtime::Metamod => String::from_str("https://mms.alliedmods.net/mmsdrop/"),
        };
        url.append(self.get_sdk_branch_version(runtime, branch));
        url.append("/");
        url.append(latest_version);
        url
    }

    /// The directory that keeps downloaded archives.
    pub fn cache_dir(&self) -> (r: String)
        ensures
            r@ == joined(self.spec_root(), DL_CACHE@),
    {
        join(self.app_root.as_str(), DL_CACHE)
    }

    /// The directory that holds the installed SDKs.
    pub fn sdks_dir(&self) -> (r: String)
        ensures
            r@ == joined(self.spec_root(), "sdks"@),
    {
        join(self.app_root.as_str(), "sdks")
    }

    /// The name that the SDK of a branch is installed under. An SDK goes by
    /// the version that sourcemod has on the branch, whichever runtimes it
    /// holds.
    pub fn sdk_name(&self, branch: &Branch) -> (r: String)
        ensures
            r@ == sdk_name(branch_version(Runtime::Sourcemod, *branch)),
    {
        let mut name = String::from_str("sourcemod-");
        name.append(self.get_sdk_branch_version(&Runtime::Sourcemod, branch));
        name
    }

    /// The directory of the SDK of a branch.
    pub fn sdk_dir(&self, branch: &Branch) -> (r: String)
        ensures
            r@ == wanted_sdk_dir(self.spec_root(), branch_version(Runtime::Sourcemod, *branch)),
    {
        let sdks = self.sdks_dir();
        let name = self.sdk_name(branch);
        join(sdks.as_str(), name.as_str())
    }

    /// What installing a runtime's build `latest_version` into `target_dir`
    /// takes.
    pub fn install_game_dir(
        &self,
        runtime: &Runtime,
        branch: &Branch,
        latest_version: &str,
        game_dir: &str,
    ) -> (r: Provision)
        ensures
            r.deep_view() == (ProvisionView {
                url: archive_address(*runtime, *branch, latest_version@),
                archive_path: joined(joined(self.spec_root(), DL_CACHE@), latest_version@),
                target_dir: game_dir@,
            }),
    {
        let cache = self.cache_dir();
        Provision {
            url: self.archive_url(runtime, branch, latest_version),
            archive_path: join(cache.as_str(), latest_version),
            target_dir: String::from_str(game_dir),
        }
    }

    /// What installing the build `latest_version` of sourcemod into
    /// `target_dir` takes.
    pub fn install_sourcemod(&self, branch: &Branch, latest_version: &str, target_dir: &str) -> (r:
        Provision)
        ensures
            r.deep_view() == (ProvisionView {
                url: archive_address(Runtime::Sourcemod, *branch, latest_version@),
                archive_path: joined(joined(self.spec_root(), DL_CACHE@), latest_version@),
                target_dir: target_dir@,
            }),
    {
        self.install_game_dir(&Runtime::Sourcemod, branch, latest_version, target_dir)
    }

    /// What installing the build `latest_version` of metamod into
    /// `target_dir` takes.
    pub fn install_metamod(&self, branch: &Branch, latest_version: &str, target_dir: &str) -> (r:
        Provision)
        ensures
            r.deep_view() == (ProvisionView {
                url: archive_address(Runtime::Metamod, *branch, latest_version@),
                archive_path: joined(joined(self.spec_root(), DL_CACHE@), latest_version@),
                target_dir: target_dir@,
            }),
    {
        self.install_game_dir(&Runtime::Metamod, branch, latest_version, target_dir)
    }

    /// What installing a runtime as an SDK below the application root takes:
    /// its archive is unpacked into the directory of the branch's SDK. Only
    /// sourcemod, which brings the compiler, is made current afterwards.
    pub fn install_sdk(&self, runtime: &Runtime, branch: &Branch, latest_version: &str) -> (r:
        SdkInstall)
        ensures
            r.cache_dir@ == joined(self.spec_root(), DL_CACHE@),
            r.provision.deep_view() == (ProvisionView {
                url: archive_address(*runtime, *branch, latest_version@),
                archive_path: joined(joined(self.spec_root(), DL_CACHE@), latest_version@),
                target_dir: wanted_sdk_dir(
                    self.spec_root(),
                    branch_version(Runtime::Sourcemod, *branch),
                ),
            }),
            r.activate == (*runtime == Runtime::Sourcemod),
    {
        let out_path = self.sdk_dir(branch);
        let activate = match runtime {
            Runtime::Sourcemod => true,
            Runtime::Metamod => false,
        };
        SdkInstall {
            cache_dir: self.cache_dir(),
            provision: self.install_game_dir(runtime, branch, latest_version, out_path.as_str()),
            activate,
        }
    }

    /// The installed SDKs among the entries of the SDK directory: those whose
    /// name starts with `sourcemod-`, in the order given.
    pub fn get_installed_sdks(&self, entries: &Vec<String>) -> (r: Vec<String>)
        ensures
            r.deep_view() == installed_among(entries.deep_view()),
    {
        let mut sdks: Vec<String> = Vec::new();
        let mut i: usize = 0;
        assert(entries.deep_view().take(0) =~= Seq::<Seq<char>>::empty());
        while i < entries.len()
            invariant
                i <= entries.len(),
                sdks.deep_view() == installed_among(entries.deep_view().take(i as int)),
            decreases entries.len() - i,
        {
            proof {
                let all = entries.deep_view();
                assert(all.take(i + 1).drop_last() =~= all.take(i as int));
                assert(all.take(i + 1).last() == entries@[i as int]@);
                reveal(Seq::filter);
            }
            if starts_with_text(entries[i].as_str(), "sourcemod-") {
                let ghost before = sdks.deep_view();
                sdks.push(entries[i].clone());
                assert(sdks.deep_view() =~= before.push(entries@[i as int]@));
            }
            i += 1;
        }
        assert(entries.deep_view().take(i as int) =~= entries.deep_view());
        sdks
    }

    /// The toolchain for `branch`, out of the installed SDKs `sdks`. It is
    /// found exactly where the SDK of the branch's version is among them, by
    /// its name, and is then the directory of that name below `sdks`.
    /// Otherwise the call fails: with `NoSdksInstalled` where `sdks` is empty,
    /// with `NoSdkForBranch` where it is not.
    pub fn get_sdk_env(&self, branch: &Branch, sdks: &Vec<String>) -> (r: Result<
        Environment,
        SdkError,
    >)
        ensures
            ({
                let version = branch_version(Runtime::Sourcemod, *branch);
                match r {
                    Ok(env) => sdks.deep_view().contains(sdk_name(version)) && env.spec_root()
                        == wanted_sdk_dir(self.spec_root(), version),
                    Err(e) => !sdks.deep_view().contains(sdk_name(version)) && e == if sdks.len()
                        == 0 {
                        SdkError::NoSdksInstalled
                    } else {
                        SdkError::NoSdkForBranch
                    },
                }
            }),
    {
        if sdks.len() == 0 {
            assert(!sdks.deep_view().contains(
                sdk_name(branch_version(Runtime::Sourcemod, *branch)),
            ));
            return Err(SdkError::NoSdksInstalled);
        }
        let wanted = self.sdk_name(branch);
        if list_contains(sdks, wanted.as_str()) {
            Ok(Environment::new(self.sdk_dir(branch)))
        } else {
            Err(SdkError::NoSdkForBranch)
        }
    }

    /// What making the SDK of `branch` the current one takes, out of the
    /// installed SDKs `sdks`: `sdks/current` becomes a link to the directory
    /// of the SDK. Succeeds and fails as `get_sdk_env` does.
    pub fn activate_sdk(&self, branch: &Branch, sdks: &Vec<String>) -> (r: Result<
        Activation,
        SdkError,
    >)
        ensures
            ({
                let version = branch_version(Runtime::Sourcemod, *branch);
                match r {
                    Ok(a) => {
                        &&& sdks.deep_view().contains(sdk_name(version))
                        &&& a.sdk_root@ == wanted_sdk_dir(self.spec_root(), version)
                        &&& a.current_root@ == joined(self.spec_root(), "sdks/current"@)
                        &&& a.scripting_dir@ == joined(
                            joined(self.spec_root(), "sdks/current"@),
                            "addons/sourcemod/scripting"@,
                        )
                    },
                    Err(e) => !sdks.deep_view().contains(sdk_name(version)) && e == if sdks.len()
                        == 0 {
                        SdkError::NoSdksInstalled
                    } else {
                        SdkError::NoSdkForBranch
                    },
                }
            }),
    {
        let env = match self.get_sdk_env(branch, sdks) {
            Ok(env) => env,
            Err(e) => {
                return Err(e);
            },
        };
        let current_root = join(self.app_root.as_str(), "sdks/current");
        let scripting_dir = join(current_root.as_str(), "addons/sourcemod/scripting");
        Ok(Activation { sdk_root: env.sdk_root, current_root, scripting_dir })
    }
}

/// One run of the compiler.
#[derive(Debug)]
pub struct CompilerCall {
    /// The compiler's program file.
    pub program: String,
    /// The arguments, the input file last.
    pub args: Vec<String>,
    /// The script that is compiled.
    pub input: String,
    /// The file the compiled plugin is written to.
    pub output: String,
    /// The directory of the output, to be created where it is missing; none
    /// where the options name no active directory.
    pub output_dir: Option<String>,
}

pub struct CompilerCallView {
    pub program: Seq<char>,
    pub args: Seq<Seq<char>>,
    pub input: Seq<char>,
    pub output: Seq<char>,
    pub output_dir: Option<Seq<char>>,
}

impl DeepView for CompilerCall {
    type V = CompilerCallView;

    open spec fn deep_view(&self) -> CompilerCallView {
        CompilerCallView {
            program: self.program@,
            args: self.args.deep_view(),
            input: self.input@,
            output: self.output@,
            output_dir: self.output_dir.deep_view(),
        }
    }
}

/// The compiler's program file inside the SDK at `sdk_root`.
pub open spec fn compiler_program(sdk_root: Seq<char>, bin: Seq<char>) -> Seq<char> {
    joined(joined(joined(joined(sdk_root, "addons"@), "sourcemod"@), "scripting"@), bin)
}

/// Where compiled plugins go: the `plugins` directory beside the active
/// directory.
pub open spec fn output_dir_of(active_dir: Seq<char>) -> Seq<char> {
    joined(joined(active_dir, ".."@), "plugins"@)
}

/// The output file for a compiled file named `compiled`.
pub open spec fn output_file(active_dir: Option<Seq<char>>, compiled: Seq<char>) -> Seq<char> {
    match active_dir {
        Some(dir) => joined(output_dir_of(dir), compiled),
        None => compiled,
    }
}

/// The run that compiles `input` into a file named `compiled`, with the
/// options `a`, whatever output they had named.
pub open spec fn call_with(
    program: Seq<char>,
    a: CompilerArgsView,
    input: Seq<char>,
    compiled: Seq<char>,
) -> CompilerCallView {
    CompilerCallView {
        program,
        args: command_line(a.with_output(output_file(a.active_dir, compiled))).push(input),
        input,
        output: output_file(a.active_dir, compiled),
        output_dir: match a.active_dir {
            Some(dir) => Some(output_dir_of(dir)),
            None => None,
        },
    }
}

/// The name of the file that `input` is compiled into: the base name of the
/// input with the extension `smx`. Without an active directory there is no
/// `plugins` directory to gather the outputs in, and the compiled file keeps
/// the place of its input.
pub open spec fn compiled_name(active_dir: Option<Seq<char>>, input: Seq<char>) -> Seq<char> {
    match active_dir {
        Some(_) => extension_replaced(base_name(input), "smx"@),
        None => extension_replaced(input, "smx"@),
    }
}

/// The run that compiles `input`.
pub open spec fn call_for(program: Seq<char>, a: CompilerArgsView, input: Seq<char>) -> CompilerCallView {
    call_with(program, a, input, compiled_name(a.active_dir, input))
}

/// One run for each input, in the order of the inputs.
pub open spec fn calls_for(
    program: Seq<char>,
    a: CompilerArgsView,
    inputs: Seq<Seq<char>>,
) -> Seq<CompilerCallView> {
    Seq::new(inputs.len(), |i: int| call_for(program, a, inputs[i]))
}

/// An installed SDK.
#[derive(Debug)]
pub struct Environment {
    sdk_root: String,
}

impl Environment {
    pub closed spec fn spec_root(&self) -> Seq<char> {
        self.sdk_root@
    }

    pub fn new(sdk_root: String) -> (r: Self)
        ensures
            r.spec_root() == sdk_root@,
    {
        Environment { sdk_root }
    }

    pub fn sdk_root(&self) -> (r: &str)
        ensures
            r@ == self.spec_root(),
    {
        self.sdk_root.as_str()
    }

    /// The options a build with this SDK starts from: the defaults, with the
    /// SDK's own include directory on the include path.
    pub fn args(&self) -> (r: CompilerArgs)
        ensures
            r.deep_view() == CompilerArgsView::defaults().with_include(
                sdk_include_dir(self.spec_root()),
            ),
    {
        let mut args = CompilerArgs::new(self.sdk_root.as_str(), false);
        args.add_include(include_dir_of(self.sdk_root.as_str()));
        args
    }

    /// The compiler's program file.
    pub fn compiler_path(&self) -> (r: String)
        ensures
            r@ == compiler_program(self.spec_root(), compiler_bin_name()),
    {
        let addons = join(self.sdk_root.as_str(), "addons");
        let sourcemod = join(addons.as_str(), "sourcemod");
        let scripting = join(sourcemod.as_str(), "scripting");
        join(scripting.as_str(), compiler_bin())
    }

    /// The arguments that the options stand for, in the order the compiler
    /// is given them; the input file follows them.
    pub fn build_command(&self, args: &CompilerArgs) -> (r: Vec<String>)
        ensures
            r.deep_view() == command_line(args.deep_view()),
    {
        let mut command: Vec<String> = Vec::new();
        assert(command.deep_view() =~= Seq::<Seq<char>>::empty());
        let compress = match args.compress_level {
            Some(level) => if level >= 1 && level <= 9 {
                Some(decimal(level as u64))
            } else {
                None
            },
            None => None,
        };
        push_flag_with(&mut command, "-z", &compress);
        let tabsize = match args.tabsize {
            Some(t) => Some(decimal(t as u64)),
            None => None,
        };
        push_flag_with(&mut command, "-t", &tabsize);
        push_flag_with(&mut command, "-e", &args.error_file);
        let verbose = match args.verbose {
            Some(v) => if v == 1 || v == 2 {
                Some(decimal(v as u64))
            } else {
                None
            },
            None => None,
        };
        push_flag_with(&mut command, "-v", &verbose);
        push_flag_with(&mut command, "-D", &args.active_dir);
        push_flag_with(&mut command, "-p", &args.prefix);
        push_flag_with(&mut command, "-o", &args.output);
        push_flag_each(&mut command, "-i", &args.includes);
        push_switch(&mut command, "-E", flag_or(args.warnings_as_error, false));
        match &args.warnings {
            Some(warnings) => push_flag_each(&mut command, "-w", warnings),
            None => {
                assert(command.deep_view() + flag_each("-w"@, Seq::<Seq<char>>::empty())
                    =~= command.deep_view());
            },
        }
        push_switch(&mut command, "--require-semicolons", flag_or(args.require_semicolons, true));
        push_switch(&mut command, "--syntax-only", flag_or(args.syntax_only, false));
        push_switch(&mut command, "--use-stderr", flag_or(args.use_stderr, false));
        push_switch(&mut command, "--no-verify", flag_or(args.skip_verify, false));
        push_switch(&mut command, "--show-stats", flag_or(args.show_stats, false));
        push_switch(&mut command, "--show-includes", flag_or(args.show_includes, false));
        assert(command.deep_view() =~= command_line(args.deep_view()));
        command
    }

    /// The run that compiles `input` into a file named `compiled`. The
    /// options are left naming that run's output.
    pub fn compile_one(&self, args: &mut CompilerArgs, input: &str, compiled: &str) -> (r:
        CompilerCall)
        ensures
            r.deep_view() == call_with(
                compiler_program(self.spec_root(), compiler_bin_name()),
                old(args).deep_view(),
                input@,
                compiled@,
            ),
            final(args).deep_view() == old(args).deep_view().with_output(
                output_file(old(args).deep_view().active_dir, compiled@),
            ),
    {
        let output_dir = match &args.active_dir {
            Some(dir) => {
                let up = join(dir.as_str(), "..");
                Some(join(up.as_str(), "plugins"))
            },
            None => None,
        };
        let output = match &output_dir {
            Some(dir) => join(dir.as_str(), compiled),
            None => String::from_str(compiled),
        };
        args.output = Some(output.clone());
        let mut command = self.build_command(args);
        let ghost before = command.deep_view();
        command.push(String::from_str(input));
        assert(command.deep_view() =~= before.push(input@));
        CompilerCall {
            program: self.compiler_path(),
            args: command,
            input: String::from_str(input),
            output,
            output_dir,
        }
    }

    /// The compiler runs that build a plugin: one for each of its inputs, in
    /// their order, none where it declares no inputs. Each output is the
    /// base name of its input with the extension `smx`, in the `plugins`
    /// directory beside the active directory. The options are left naming the
    /// last run's output.
    pub fn compile(&self, args: &mut CompilerArgs, plugin_def: &Definition) -> (r: Vec<
        CompilerCall,
    >)
        ensures
            r.deep_view() == calls_for(
                compiler_program(self.spec_root(), compiler_bin_name()),
                old(args).deep_view(),
                or_empty(plugin_def.deep_view().inputs),
            ),
            final(args).deep_view() == ({
                let inputs = or_empty(plugin_def.deep_view().inputs);
                if inputs.len() == 0 {
                    old(args).deep_view()
                } else {
                    old(args).deep_view().with_output(
                        output_file(
                            old(args).deep_view().active_dir,
                            compiled_name(old(args).deep_view().active_dir, inputs.last()),
                        ),
                    )
                }
            }),
    {
        let mut calls: Vec<CompilerCall> = Vec::new();
        let ghost program = compiler_program(self.spec_root(), compiler_bin_name());
        let ghost start = args.deep_view();
        match &plugin_def.inputs {
            Some(inputs) => {
                let ghost names = inputs.deep_view();
                let mut i: usize = 0;
                while i < inputs.len()
                    invariant
                        i <= inputs.len(),
                        names == inputs.deep_view(),
                        program == compiler_program(self.spec_root(), compiler_bin_name()),
                        calls.len() == i,
                        forall|k: int|
                            0 <= k < i ==> (#[trigger] calls@[k]).deep_view() == call_for(
                                program,
                                start,
                                names[k],
                            ),
                        args.deep_view() == if i == 0 {
                            start
                        } else {
                            start.with_output(
                                output_file(
                                    start.active_dir,
                                    compiled_name(start.active_dir, names[i - 1]),
                                ),
                            )
                        },
                    decreases inputs.len() - i,
                {
                    assert(names[i as int] == inputs@[i as int]@);
                    proof {
                        reveal_strlit("smx");
                        assert(!"smx"@.contains('/'));
                    }
                    let compiled = match &args.active_dir {
                        Some(_) => with_extension(base_name_of(inputs[i].as_str()), "smx"),
                        None => with_extension(inputs[i].as_str(), "smx"),
                    };
                    let ghost current = args.deep_view();
                    assert(current.active_dir == start.active_dir);
                    assert(compiled@ == compiled_name(start.active_dir, names[i as int]));
                    let call = self.compile_one(args, inputs[i].as_str(), compiled.as_str());
                    proof {
                        assert(current.active_dir == start.active_dir);
                        let out = output_file(start.active_dir, compiled@);
                        assert(current.with_output(out) == start.with_output(out));
                    }
                    calls.push(call);
                    i += 1;
                }
                assert(calls.deep_view() =~= calls_for(program, start, names));
            },
            None => {
                assert(calls.deep_view() =~= calls_for(program, start, Seq::empty()));
            },
        }
        calls
    }
}

} // verus!
