//! The command handlers: Push, Pull and PullVersion, each planned as a
//! pure decision from the observed state of the configuration and the
//! registry to the subprocess steps to run and the line to report.
//!
//! The caller resolves each plan: it runs the steps in order, stops at
//! the first failure, and shows the success message only when every step
//! succeeded.

use vstd::prelude::*;

use crate::config::{first_hook, get_post_install_script, Config, ScriptEntry};
use crate::fs_utils::{
    get_latest_file_from_directory, is_newest_of, parse_package_to_directory, regular_files,
    sorted_desc, FSError, File,
};
use crate::text::base_name;
use crate::text::file_name_of_path;
use crate::text::path_join;
use crate::{call_is, make_call1, make_call2, make_call3, run_script, script_call, ProcessCall};

verus! {

/// Why a command failed.
#[derive(Debug)]
pub enum CommandFailedError {
    /// A filesystem step failed.
    FSError(FSError),
    /// An external process could not be spawned or exited nonzero; holds
    /// the detail for diagnosis.
    ProcessFailed(String),
    /// The `registry` key is missing from the configuration.
    RegistryNotFound,
}

impl CommandFailedError {
    /// The line shown to the user for this failure.
    pub fn message(&self) -> (r: String)
        ensures
            match *self {
                CommandFailedError::FSError(_) => r@ == "Command failed due FS error"@,
                CommandFailedError::ProcessFailed(d) => r@ == "Process failed! "@ + d@,
                CommandFailedError::RegistryNotFound => r@
                    == "'registry' not found! Please add this value to .gocar.json"@,
            },
    {
        match self {
            CommandFailedError::FSError(_) => String::from_str("Command failed due FS error"),
            CommandFailedError::ProcessFailed(d) => String::from_str("Process failed! ").concat(
                d.as_str(),
            ),
            CommandFailedError::RegistryNotFound => String::from_str(
                "'registry' not found! Please add this value to .gocar.json",
            ),
        }
    }
}

/// The command the caller selected, with its parameters.
pub enum CommandType {
    /// Build, pack and push to the local registry.
    Push { skip_build: bool },
    /// Pull from the registry and install.
    Pull { package_name: String, no_copy: bool },
    /// Pull a particular version of a package by selecting from a list.
    PullVersion { package_name: String },
}

/// The command-line surface: one selected command.
pub struct Cli {
    pub command: CommandType,
}

/// Pulls the newest artifact of one package.
pub struct PullCommand {
    pub package_name: String,
    pub no_copy: bool,
}

/// Pulls an interactively chosen artifact of one package.
pub struct PullVersionCommand {
    pub package_name: String,
}

/// Packs the working directory's project and pushes it to the registry.
pub struct PushCommand {
    pub skip_build: bool,
}

/// A command converted to its handler.
pub enum ParsedCommand {
    Pull(PullCommand),
    Push(PushCommand),
    PullVersion(PullVersionCommand),
}

impl CommandType {
    /// Converts the selected command into its handler.
    pub fn parse(&self) -> (r: ParsedCommand)
        ensures
            match *self {
                CommandType::Pull { package_name, no_copy } => r matches ParsedCommand::Pull(c)
                    && c.package_name == package_name && c.no_copy == no_copy,
                CommandType::Push { skip_build } => r matches ParsedCommand::Push(c)
                    && c.skip_build == skip_build,
                CommandType::PullVersion { package_name } => r matches ParsedCommand::PullVersion(
                    c,
                ) && c.package_name == package_name,
            },
    {
        match self {
            CommandType::Pull { package_name, no_copy } => ParsedCommand::Pull(
                PullCommand { package_name: package_name.clone(), no_copy: *no_copy },
            ),
            CommandType::Push { skip_build } => ParsedCommand::Push(
                PushCommand { skip_build: *skip_build },
            ),
            CommandType::PullVersion { package_name } => ParsedCommand::PullVersion(
                PullVersionCommand { package_name: package_name.clone() },
            ),
        }
    }
}

/// The configured registry root, or the failure that reports it missing.
pub fn parse_registry_path<'a>(config: &'a Config) -> (r: Result<&'a String, CommandFailedError>)
    ensures
        config.registry matches Some(s) ==> r matches Ok(p) && *p == s,
        config.registry is None ==> r == Err::<&'a String, CommandFailedError>(
            CommandFailedError::RegistryNotFound,
        ),
{
    match &config.registry {
        Some(s) => Ok(s),
        None => Err(CommandFailedError::RegistryNotFound),
    }
}

/// The steps one push performs for registry root `reg`, package `dir` and
/// timestamp `ts`: an optional build, creating the package's directory,
/// and packing the archive to its timestamped destination.
pub open spec fn push_plan_shape(
    plan: PushPlan,
    skip_build: bool,
    reg: Seq<char>,
    dir: Seq<char>,
    ts: Seq<char>,
) -> bool {
    let folder = reg + seq!['/'] + dir;
    let dest = folder + seq!['/'] + dir + seq!['_'] + ts + ".tgz"@;
    &&& plan.success_message@ == "Pushed successfully!"@
    &&& if skip_build {
        &&& plan.steps@.len() == 2
        &&& call_is(plan.steps@[0], "mkdir"@, seq!["-p"@, folder])
        &&& call_is(plan.steps@[1], "yarn"@, seq!["pack"@, "-f"@, dest])
    } else {
        &&& plan.steps@.len() == 3
        &&& call_is(plan.steps@[0], "yarn"@, seq!["build"@])
        &&& call_is(plan.steps@[1], "mkdir"@, seq!["-p"@, folder])
        &&& call_is(plan.steps@[2], "yarn"@, seq!["pack"@, "-f"@, dest])
    }
}

/// What a push decided: the subprocess steps, in order, and the line to
/// report when all of them succeed.
pub struct PushPlan {
    pub steps: Vec<ProcessCall>,
    pub success_message: String,
}

/// What a pull decided: an optional copy out of the registry, the install
/// step, an optional post-install hook, and the line to report when all
/// of them succeed.
pub struct PullPlan {
    pub copy_step: Option<ProcessCall>,
    pub install_step: ProcessCall,
    pub post_install_step: Option<ProcessCall>,
    pub success_message: String,
}

/// What Pull decided to install: an optional copy to run first, and the
/// file the install step references.
pub struct AcquiredFile {
    pub copy_step: Option<ProcessCall>,
    pub file: String,
}

/// The acquisition Pull performs for the newest artifact at the full
/// registry path `latest`: taken in place, or copied out first.
pub open spec fn acquired_shape(a: AcquiredFile, no_copy: bool, latest: Seq<char>) -> bool {
    if no_copy {
        a.copy_step is None && a.file@ == latest
    } else {
        a.copy_step matches Some(c) && call_is(c, "cp"@, seq![latest, base_name(latest)])
            && a.file@ == base_name(latest)
    }
}

/// The steps a pull performs for the artifact at the full registry path
/// `latest`, given the hook lookup's result: an optional copy, the
/// install referencing the chosen file, and the hook when configured.
pub open spec fn pull_plan_shape(
    plan: PullPlan,
    no_copy: bool,
    latest: Seq<char>,
    hook: Option<ScriptEntry>,
) -> bool {
    let file = if no_copy {
        latest
    } else {
        base_name(latest)
    };
    &&& (if no_copy {
        plan.copy_step is None
    } else {
        plan.copy_step matches Some(c) && call_is(c, "cp"@, seq![latest, base_name(latest)])
    })
    &&& call_is(plan.install_step, "yarn"@, seq!["add"@, "file:"@ + file])
    &&& (match hook {
        None => plan.post_install_step is None && plan.success_message@ == "Installed "@
            + base_name(file),
        Some(e) => (plan.post_install_step matches Some(p) && script_call(p, e.command@))
            && plan.success_message@ == "Installed "@ + base_name(file)
            + "\nAnd ran postinstall"@,
    })
}

/// The copy of a registry artifact into the working directory, and the
/// local file name the install step will then reference.
fn copy_package_and_get_file(file_in_registry: String) -> (r: (ProcessCall, String))
    ensures
        call_is(r.0, "cp"@, seq![file_in_registry@, base_name(file_in_registry@)]),
        r.1@ == base_name(file_in_registry@),
{
    let file = file_name_of_path(file_in_registry.as_str());
    let step = make_call2("cp", file_in_registry, file.clone());
    (step, file)
}

/// The install step for one file, and the line reporting it.
fn install(file: String) -> (r: (ProcessCall, String))
    ensures
        call_is(r.0, "yarn"@, seq!["add"@, "file:"@ + file@]),
        r.1@ == "Installed "@ + base_name(file@),
{
    let base = file_name_of_path(file.as_str());
    let locator = String::from_str("file:").concat(file.as_str());
    let step = make_call2("yarn", String::from_str("add"), locator);
    let msg = String::from_str("Installed ").concat(base.as_str());
    (step, msg)
}

impl PushCommand {
    /// Plans one push: resolve the registry root, build unless skipped,
    /// then create the package's directory and pack the archive into it,
    /// named after the working directory and the timestamp.
    pub fn handle(
        &self,
        config: &Config,
        current_directory_name: Result<String, FSError>,
        timestamp: &String,
    ) -> (r: Result<PushPlan, CommandFailedError>)
        ensures
            config.registry is None ==> r == Err::<PushPlan, CommandFailedError>(
                CommandFailedError::RegistryNotFound,
            ),
            config.registry is Some ==> (current_directory_name matches Err(f) ==> r == Err::<
                PushPlan,
                CommandFailedError,
            >(CommandFailedError::FSError(f))),
            config.registry matches Some(reg) ==> (current_directory_name matches Ok(dir) ==> (r
                matches Ok(plan) && push_plan_shape(
                plan,
                self.skip_build,
                reg@,
                dir@,
                timestamp@,
            ))),
    {
        let registry_path = match parse_registry_path(config) {
            Ok(p) => p.clone(),
            Err(e) => {
                return Err(e);
            },
        };
        let dir = match current_directory_name {
            Ok(d) => d,
            Err(f) => {
                return Err(CommandFailedError::FSError(f));
            },
        };
        let mut steps: Vec<ProcessCall> = Vec::new();
        if !self.skip_build {
            steps.push(make_call1("yarn", String::from_str("build")));
        }
        let folder = path_join(registry_path.as_str(), dir.as_str());
        let mut file_name = dir.clone();
        file_name.append("_");
        file_name.append(timestamp.as_str());
        file_name.append(".tgz");
        let destination = path_join(folder.as_str(), file_name.as_str());
        proof {
            reveal_strlit("_");
            assert("_"@ =~= seq!['_']);
            assert(destination@ =~= config.registry->Some_0@ + seq!['/'] + dir@ + seq!['/'] + dir@
                + seq!['_'] + timestamp@ + ".tgz"@);
        }
        let mkdir_step = make_call2("mkdir", String::from_str("-p"), folder);
        let pack_step = make_call3(
            "yarn",
            String::from_str("pack"),
            String::from_str("-f"),
            destination,
        );
        steps.push(mkdir_step);
        steps.push(pack_step);
        Ok(PushPlan { steps, success_message: String::from_str("Pushed successfully!") })
    }
}

impl PullCommand {
    /// The package's directory under the configured registry root.
    pub fn package_directory(&self, config: &Config) -> (r: Result<String, CommandFailedError>)
        ensures
            match config.registry {
                Some(reg) => r matches Ok(p) && p@ == reg@ + seq!['/'] + self.package_name@,
                None => r == Err::<String, CommandFailedError>(
                    CommandFailedError::RegistryNotFound,
                ),
            },
    {
        match parse_registry_path(config) {
            Ok(reg) => Ok(path_join(reg.as_str(), self.package_name.as_str())),
            Err(e) => Err(e),
        }
    }

    /// Decides which file the install step references: the newest
    /// artifact of the scanned package directory, in place when `no_copy`
    /// is set, otherwise copied into the working directory first.
    pub fn acquire_file_to_install(&self, directory: &String, listing: Result<Vec<File>, String>) -> (r:
        Result<AcquiredFile, CommandFailedError>)
        ensures
            match listing {
                Err(m) => r == Err::<AcquiredFile, CommandFailedError>(
                    CommandFailedError::FSError(FSError::IOError(m)),
                ),
                Ok(entries) => {
                    let files = regular_files(entries@);
                    &&& (files.len() == 0 <==> r == Err::<AcquiredFile, CommandFailedError>(
                        CommandFailedError::FSError(FSError::EmptyDirectory),
                    ))
                    &&& (files.len() > 0 ==> match r {
                        Ok(a) => exists|f: File|
                            is_newest_of(f, files) && (f.name matches Some(nm) && acquired_shape(
                                a,
                                self.no_copy,
                                directory@ + seq!['/'] + nm@,
                            )),
                        Err(e) => {
                            &&& e == CommandFailedError::FSError(FSError::FailedToFetchFileName)
                            &&& exists|f: File| is_newest_of(f, files) && f.name is None
                        },
                    })
                    &&& ((files.len() > 0 && forall|j: int|
                        0 <= j < files.len() ==> #[trigger] files[j].name is Some) ==> r is Ok)
                },
            },
    {
        let ghost glisting = listing;
        let latest = match get_latest_file_from_directory(directory, listing) {
            Ok(p) => p,
            Err(e) => {
                return Err(CommandFailedError::FSError(e));
            },
        };
        if self.no_copy {
            return Ok(AcquiredFile { copy_step: None, file: latest });
        }
        let ghost glatest = latest@;
        let (step, local) = copy_package_and_get_file(latest);
        let a = AcquiredFile { copy_step: Some(step), file: local };
        proof {
            let files = regular_files(glisting->Ok_0@);
            let f = choose|f: File|
                is_newest_of(f, files) && (f.name matches Some(nm) && glatest == directory@
                    + seq!['/'] + nm@);
            assert(f.name matches Some(nm) && acquired_shape(
                a,
                self.no_copy,
                directory@ + seq!['/'] + nm@,
            ));
        }
        Ok(a)
    }

    /// Plans one pull: resolve the registry root and the package
    /// directory, acquire the newest artifact, install it, and append the
    /// configured post-install hook when there is one.
    pub fn handle(&self, config: &Config, directory_exists: bool, listing: Result<Vec<File>, String>) -> (r:
        Result<PullPlan, CommandFailedError>)
        ensures
            config.registry is None ==> r == Err::<PullPlan, CommandFailedError>(
                CommandFailedError::RegistryNotFound,
            ),
            config.registry is Some && !directory_exists ==> r == Err::<
                PullPlan,
                CommandFailedError,
            >(CommandFailedError::FSError(FSError::NoPackageFound)),
            config.registry is Some && directory_exists ==> match listing {
                Err(m) => r == Err::<PullPlan, CommandFailedError>(
                    CommandFailedError::FSError(FSError::IOError(m)),
                ),
                Ok(entries) => {
                    let files = regular_files(entries@);
                    let directory = config.registry->Some_0@ + seq!['/'] + self.package_name@;
                    let hook = first_hook(config.scripts@, "postinstall"@, self.package_name@);
                    &&& (files.len() == 0 <==> r == Err::<PullPlan, CommandFailedError>(
                        CommandFailedError::FSError(FSError::EmptyDirectory),
                    ))
                    &&& (files.len() > 0 ==> match r {
                        Ok(plan) => exists|f: File|
                            is_newest_of(f, files) && (f.name matches Some(nm) && pull_plan_shape(
                                plan,
                                self.no_copy,
                                directory + seq!['/'] + nm@,
                                hook,
                            )),
                        Err(e) => {
                            &&& e == CommandFailedError::FSError(FSError::FailedToFetchFileName)
                            &&& exists|f: File| is_newest_of(f, files) && f.name is None
                        },
                    })
                    &&& ((files.len() > 0 && forall|j: int|
                        0 <= j < files.len() ==> #[trigger] files[j].name is Some) ==> r is Ok)
                },
            },
    {
        let directory = match self.package_directory(config) {
            Ok(d) => d,
            Err(e) => {
                return Err(e);
            },
        };
        let directory = match parse_package_to_directory(&directory, directory_exists) {
            Ok(d) => d,
            Err(e) => {
                return Err(CommandFailedError::FSError(e));
            },
        };
        let ghost glisting = listing;
        let acquired = match self.acquire_file_to_install(&directory, listing) {
            Ok(a) => a,
            Err(e) => {
                return Err(e);
            },
        };
        let ghost gacquired = acquired;
        let AcquiredFile { copy_step, file } = acquired;
        let (install_step, base_msg) = install(file);
        let script = get_post_install_script(config, "postinstall", &self.package_name);
        let plan = match script {
            None => PullPlan {
                copy_step,
                install_step,
                post_install_step: None,
                success_message: base_msg,
            },
            Some(s) => {
                let step = run_script(&s);
                let msg = base_msg.concat("\nAnd ran postinstall");
                PullPlan {
                    copy_step,
                    install_step,
                    post_install_step: Some(step),
                    success_message: msg,
                }
            },
        };
        proof {
            let files = regular_files(glisting->Ok_0@);
            let gdirectory = config.registry->Some_0@ + seq!['/'] + self.package_name@;
            let hook = first_hook(config.scripts@, "postinstall"@, self.package_name@);
            let f = choose|f: File|
                is_newest_of(f, files) && (f.name matches Some(nm) && acquired_shape(
                    gacquired,
                    self.no_copy,
                    gdirectory + seq!['/'] + nm@,
                ));
            let nm = f.name->Some_0;
            let latest = gdirectory + seq!['/'] + nm@;
            assert(acquired_shape(gacquired, self.no_copy, latest));
            if hook is Some {
                assert(plan.success_message@ =~= "Installed "@ + base_name(
                    if self.no_copy {
                        latest
                    } else {
                        base_name(latest)
                    },
                ) + "\nAnd ran postinstall"@);
            }
            assert(pull_plan_shape(plan, self.no_copy, latest, hook));
        }
        Ok(plan)
    }
}

impl PullVersionCommand {
    /// The package's directory under the configured registry root.
    pub fn package_directory(&self, config: &Config) -> (r: Result<String, CommandFailedError>)
        ensures
            match config.registry {
                Some(reg) => r matches Ok(p) && p@ == reg@ + seq!['/'] + self.package_name@,
                None => r == Err::<String, CommandFailedError>(
                    CommandFailedError::RegistryNotFound,
                ),
            },
    {
        match parse_registry_path(config) {
            Ok(reg) => Ok(path_join(reg.as_str(), self.package_name.as_str())),
            Err(e) => Err(e),
        }
    }

    /// The artifact names offered for selection, newest first. A package
    /// directory holding no artifacts is an explicit failure, never an
    /// empty choice list.
    #[verifier::loop_isolation(false)]
    pub fn selection_items(&self, listing: Result<Vec<File>, String>) -> (r: Result<
        Vec<String>,
        CommandFailedError,
    >)
        ensures
            match listing {
                Err(m) => r == Err::<Vec<String>, CommandFailedError>(
                    CommandFailedError::FSError(FSError::IOError(m)),
                ),
                Ok(entries) => {
                    let files = regular_files(entries@);
                    &&& (files.len() == 0 <==> r == Err::<Vec<String>, CommandFailedError>(
                        CommandFailedError::FSError(FSError::EmptyDirectory),
                    ))
                    &&& (match r {
                        Ok(items) => exists|s: Seq<File>|
                            {
                                &&& sorted_desc(s)
                                &&& s.to_multiset() == files.to_multiset()
                                &&& items.deep_view().len() == s.len()
                                &&& forall|i: int|
                                    0 <= i < s.len() ==> (#[trigger] s[i].name matches Some(nm)
                                        && items.deep_view()[i] == nm@)
                            },
                        Err(e) => files.len() > 0 ==> {
                            &&& e == CommandFailedError::FSError(FSError::FailedToFetchFileName)
                            &&& exists|f: File| files.contains(f) && f.name is None
                        },
                    })
                    &&& ((files.len() > 0 && forall|j: int|
                        0 <= j < files.len() ==> #[trigger] files[j].name is Some) ==> r is Ok)
                },
            },
    {
        broadcast use vstd::seq_lib::group_to_multiset_ensures;

        let ghost glisting = listing;
        let files = match crate::fs_utils::get_files_from_directory(listing) {
            Ok(f) => f,
            Err(e) => {
                return Err(CommandFailedError::FSError(e));
            },
        };
        let ghost gfiltered = regular_files(glisting->Ok_0@);
        if files.len() == 0 {
            return Err(CommandFailedError::FSError(FSError::EmptyDirectory));
        }
        let n = files.len();
        let mut items: Vec<String> = Vec::new();
        let mut i: usize = 0;
        proof {
            assert(items.deep_view() =~= Seq::<Seq<char>>::empty());
        }
        while i < n
            invariant
                i <= n,
                n == files@.len(),
                items.deep_view().len() == i,
                forall|j: int|
                    0 <= j < i ==> (#[trigger] files@[j].name matches Some(nm)
                        && items.deep_view()[j] == nm@),
            decreases n - i,
        {
            let ghost prev = items.deep_view();
            match files[i].get_file_name() {
                Ok(nm) => {
                    let ghost gnm = nm@;
                    items.push(nm);
                    proof {
                        assert(items.deep_view() =~= prev.push(gnm));
                    }
                },
                Err(e) => {
                    proof {
                        assert(files@.contains(files@[i as int]));
                        vstd::seq_lib::to_multiset_contains(files@, files@[i as int]);
                        vstd::seq_lib::to_multiset_contains(gfiltered, files@[i as int]);
                        assert(files@.to_multiset().count(files@[i as int]) > 0);
                        assert(gfiltered.contains(files@[i as int]));
                        let k = choose|k: int|
                            0 <= k < gfiltered.len() && gfiltered[k] == files@[i as int];
                        assert(!(gfiltered[k].name is Some));
                    }
                    return Err(CommandFailedError::FSError(e));
                },
            }
            i += 1;
        }
        proof {
            assert(sorted_desc(files@) && files@.to_multiset() == gfiltered.to_multiset()
                && items.deep_view().len() == files@.len());
        }
        Ok(items)
    }

    /// Plans installing one selected artifact: the file is copied out of
    /// the registry into the working directory and installed from that
    /// local copy.
    pub fn handle(&self, config: &Config, directory_exists: bool, selected_file: String) -> (r:
        Result<PullPlan, CommandFailedError>)
        ensures
            config.registry is None ==> r == Err::<PullPlan, CommandFailedError>(
                CommandFailedError::RegistryNotFound,
            ),
            config.registry is Some && !directory_exists ==> r == Err::<
                PullPlan,
                CommandFailedError,
            >(CommandFailedError::FSError(FSError::NoPackageFound)),
            config.registry is Some && directory_exists ==> (r matches Ok(plan) && pull_plan_shape(
                plan,
                false,
                config.registry->Some_0@ + seq!['/'] + self.package_name@ + seq!['/']
                    + selected_file@,
                None,
            )),
    {
        let directory = match self.package_directory(config) {
            Ok(d) => d,
            Err(e) => {
                return Err(e);
            },
        };
        let directory = match parse_package_to_directory(&directory, directory_exists) {
            Ok(d) => d,
            Err(e) => {
                return Err(CommandFailedError::FSError(e));
            },
        };
        let full = path_join(directory.as_str(), selected_file.as_str());
        let (copy_step, local) = copy_package_and_get_file(full);
        let (install_step, msg) = install(local);
        Ok(
            PullPlan {
                copy_step: Some(copy_step),
                install_step,
                post_install_step: None,
                success_message: msg,
            },
        )
    }
}

} // verus!
