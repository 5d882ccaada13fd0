use vstd::prelude::*;
use vstd::string::StringExecFns;

use crate::layout::copy_path;
use crate::layout::plan;
use crate::layout::planned_dirs;
use crate::layout::planned_files;
use crate::layout::PathPlan;
use crate::layout::PathView;
use crate::names::strings_view;
use crate::sources::artifact_text;
use crate::sources::Artifact;
use crate::sources::Sources;

verus! {

/// The version reported by the version flag.
pub const VERSION: &'static str = "0.1.0";

/// Flags and subcommand recognised on the command line.
pub const HELP_SHORT: &'static str = "-h";
pub const HELP_LONG: &'static str = "--help";
pub const VERSION_SHORT: &'static str = "-V";
pub const VERSION_LONG: &'static str = "--version";
pub const CREATE: &'static str = "create";

/// Opens bold red emphasis on a terminal.
pub const COLOR_RED_BOLD: &'static str = "\x1b[1;31m";
/// Ends any terminal emphasis.
pub const COLOR_RESET: &'static str = "\x1b[0m";

/// Warning for a `create` without both of its arguments.
pub const MISSING_CREATE_ARGS_MESSAGE: &'static str =
    "\x1b[1;31minsufficient arguments for subcommand \"create\"\x1b[0m\n";

/// Pieces of the usage help, around the program name.
pub const USAGE_HEAD: &'static str = "Description:\n  CLI tool to manage android projects\n\nUsage: \n  ";
pub const USAGE_MID: &'static str = " <SUBCOMMAND>\n  ";
pub const USAGE_TAIL: &'static str = " [OPTIONS]\n\nSubcommands:\n  create <APP_NAME> <PACKAGE_NAME>  Create new android project\n\nOptions:\n  -h, --help           Print help\n  -V, --version        Print version";
/// Pieces of the warning for an unrecognised argument.
pub const UNKNOWN_HEAD: &'static str = "\x1b[1;31mUnknown subcommand or option \"";
pub const UNKNOWN_TAIL: &'static str = "\"\x1b[0m\n";
/// Pieces of the warning for a project root that already exists.
pub const EXISTS_HEAD: &'static str = "\x1b[1;31mA folder with the app name \"";
pub const EXISTS_TAIL: &'static str = "\" already exists.\nChoose a different name or rename the existing folder.\x1b[0m";
/// Pieces of the first progress line of a creation.
pub const INTRO_HEAD: &'static str = "Creating new android project...\nAPP_NAME=";
pub const INTRO_MID: &'static str = "\nPACKAGE_NAME=";
/// Progress line printed before the directories are created.
pub const DIRS_MESSAGE: &'static str = "Creating all the directories and subdirectories...";
/// Progress line printed before the files are written.
pub const SOURCES_MESSAGE: &'static str = "Generating the sources...";

/// What an invocation asks for.
pub enum Command {
    Help,
    Version,
    Create { app_name: String, package_name: String },
    MissingCreateArgs,
    Unknown { arg: String },
}

pub open spec fn is_help_flag(a: Seq<char>) -> bool {
    a == HELP_SHORT@ || a == HELP_LONG@
}

pub open spec fn is_version_flag(a: Seq<char>) -> bool {
    a == VERSION_SHORT@ || a == VERSION_LONG@
}

/// Reads the arguments that follow the program name.
pub fn parse_command(args: &Vec<String>) -> (r: Command)
    ensures
        args@.len() == 0 ==> r is Help,
        args@.len() > 0 && is_help_flag(args@[0]@) ==> r is Help,
        args@.len() > 0 && is_version_flag(args@[0]@) ==> r is Version,
        args@.len() > 0 && args@[0]@ == CREATE@ && args@.len() < 3 ==> r is MissingCreateArgs,
        args@.len() >= 3 && args@[0]@ == CREATE@ ==> (match r {
            Command::Create { app_name, package_name } => app_name@ == args@[1]@
                && package_name@ == args@[2]@,
            _ => false,
        }),
        args@.len() > 0 && !is_help_flag(args@[0]@) && !is_version_flag(args@[0]@) && args@[0]@
            != CREATE@ ==> (match r {
            Command::Unknown { arg } => arg@ == args@[0]@,
            _ => false,
        }),
{
    proof {
        reveal_strlit("-h");
        reveal_strlit("--help");
        reveal_strlit("-V");
        reveal_strlit("--version");
        reveal_strlit("create");
        assert(HELP_SHORT@[1] != VERSION_SHORT@[1]);
        assert(HELP_LONG@[0] != CREATE@[0]);
        assert(HELP_SHORT@.len() == 2 && HELP_LONG@.len() == 6 && VERSION_SHORT@.len() == 2);
        assert(VERSION_LONG@.len() == 9 && CREATE@.len() == 6);
    }
    if args.len() == 0 {
        return Command::Help;
    }
    let first = &args[0];
    if *first == String::from_str(HELP_SHORT) || *first == String::from_str(HELP_LONG) {
        Command::Help
    } else if *first == String::from_str(VERSION_SHORT) || *first == String::from_str(VERSION_LONG) {
        Command::Version
    } else if *first == String::from_str(CREATE) {
        if args.len() < 3 {
            Command::MissingCreateArgs
        } else {
            Command::Create { app_name: args[1].clone(), package_name: args[2].clone() }
        }
    } else {
        Command::Unknown { arg: first.clone() }
    }
}

pub open spec fn usage_message(program: Seq<char>) -> Seq<char> {
    USAGE_HEAD@ + program + USAGE_MID@ + program + USAGE_TAIL@
}

pub open spec fn version_message(program: Seq<char>) -> Seq<char> {
    program + " "@ + VERSION@
}

pub open spec fn unknown_message(arg: Seq<char>) -> Seq<char> {
    UNKNOWN_HEAD@ + arg + UNKNOWN_TAIL@
}

pub open spec fn exists_message(app: Seq<char>) -> Seq<char> {
    EXISTS_HEAD@ + app + EXISTS_TAIL@
}

pub open spec fn intro_message(app: Seq<char>, pkg: Seq<char>) -> Seq<char> {
    INTRO_HEAD@ + app + INTRO_MID@ + pkg
}

/// The usage help for a program named `program_name`.
pub fn usage_text(program_name: &str) -> (r: String)
    ensures
        r@ == usage_message(program_name@),
{
    let mut r = String::from_str(USAGE_HEAD);
    r.append(program_name);
    r.append(USAGE_MID);
    r.append(program_name);
    r.append(USAGE_TAIL);
    r
}

/// The name and version of a program named `program_name`.
pub fn version_text(program_name: &str) -> (r: String)
    ensures
        r@ == version_message(program_name@),
{
    let mut r = String::from_str(program_name);
    r.append(" ");
    r.append(VERSION);
    r
}

/// The warning for an argument that names no subcommand or option.
pub fn unknown_text(arg: &str) -> (r: String)
    ensures
        r@ == unknown_message(arg@),
{
    let mut r = String::from_str(UNKNOWN_HEAD);
    r.append(arg);
    r.append(UNKNOWN_TAIL);
    r
}

/// One step of creating a project, performed in order; the first that fails
/// ends the run.
pub enum Step {
    /// Print a warning on standard error.
    Warn { message: String },
    /// Print a progress line on standard output.
    Inform { message: String },
    /// Create a directory; with `recursive`, its missing ancestors too.
    CreateDir { path: Vec<String>, recursive: bool },
    /// Write `contents` to the file at `path`.
    Write { path: Vec<String>, contents: String },
    /// Print the time the run took.
    ReportElapsed,
}

/// What a step does, over plain values.
pub enum StepView {
    Warn(Seq<char>),
    Inform(Seq<char>),
    CreateDir(PathView, bool),
    Write(PathView, Seq<char>),
    ReportElapsed,
}

impl View for Step {
    type V = StepView;

    open spec fn view(&self) -> StepView {
        match self {
            Step::Warn { message } => StepView::Warn(message@),
            Step::Inform { message } => StepView::Inform(message@),
            Step::CreateDir { path, recursive } => StepView::CreateDir(strings_view(path@), *recursive),
            Step::Write { path, contents } => StepView::Write(strings_view(path@), contents@),
            Step::ReportElapsed => StepView::ReportElapsed,
        }
    }
}

/// Whether a step changes the file system.
pub open spec fn mutates(s: StepView) -> bool {
    s is CreateDir || s is Write
}

/// The steps of `create` for display name `app` and package identifier `pkg`,
/// given whether the project root already exists.
pub open spec fn create_plan(app: Seq<char>, pkg: Seq<char>, root_exists: bool) -> Seq<StepView> {
    if root_exists {
        seq![StepView::Warn(exists_message(app))]
    } else {
        seq![StepView::Inform(intro_message(app, pkg)), StepView::Inform(DIRS_MESSAGE@)]
            + planned_dirs(app, pkg).map_values(|d: (PathView, bool)| StepView::CreateDir(d.0, d.1))
            + seq![StepView::Inform(SOURCES_MESSAGE@)]
            + planned_files(app, pkg).map_values(
            |f: (PathView, Artifact)| StepView::Write(f.0, artifact_text(f.1, app, pkg)),
        ) + seq![StepView::ReportElapsed]
    }
}

pub open spec fn steps_view(steps: Seq<Step>) -> Seq<StepView> {
    steps.map_values(|s: Step| s@)
}

proof fn lemma_steps_view_push(v: Seq<Step>, s: Step)
    ensures
        steps_view(v.push(s)) == steps_view(v).push(s@),
{
    assert(steps_view(v.push(s)) =~= steps_view(v).push(s@));
}

/// The steps that create a project named `app_name` with package identifier
/// `package_name`. Where the root already exists there is only a warning and
/// nothing on disk is touched.
pub fn create_steps(app_name: &str, package_name: &str, root_exists: bool) -> (r: Vec<Step>)
    ensures
        steps_view(r@) == create_plan(app_name@, package_name@, root_exists),
{
    let ghost app = app_name@;
    let ghost pkg = package_name@;
    let mut steps: Vec<Step> = Vec::new();
    if root_exists {
        let mut message = String::from_str(EXISTS_HEAD);
        message.append(app_name);
        message.append(EXISTS_TAIL);
        steps.push(Step::Warn { message });
        assert(steps_view(steps@) =~= create_plan(app, pkg, root_exists));
        return steps;
    }
    let mut intro = String::from_str(INTRO_HEAD);
    intro.append(app_name);
    intro.append(INTRO_MID);
    intro.append(package_name);
    steps.push(Step::Inform { message: intro });
    steps.push(Step::Inform { message: String::from_str(DIRS_MESSAGE) });
    let ghost head = steps_view(steps@);
    assert(head =~= seq![StepView::Inform(intro_message(app, pkg)), StepView::Inform(DIRS_MESSAGE@)]);

    let paths: PathPlan = plan(app_name, package_name);
    let ghost dirs_view = planned_dirs(app, pkg).map_values(
        |d: (PathView, bool)| StepView::CreateDir(d.0, d.1),
    );
    let mut i: usize = 0;
    while i < paths.dirs.len()
        invariant
            paths@ == (planned_dirs(app, pkg), planned_files(app, pkg)),
            paths.dirs@.len() == planned_dirs(app, pkg).len(),
            dirs_view == planned_dirs(app, pkg).map_values(
                |d: (PathView, bool)| StepView::CreateDir(d.0, d.1),
            ),
            i <= paths.dirs@.len(),
            steps_view(steps@) == head + dirs_view.subrange(0, i as int),
        decreases paths.dirs@.len() - i,
    {
        let d = &paths.dirs[i];
        let step = Step::CreateDir { path: copy_path(&d.path), recursive: d.recursive };
        assert(paths@.0[i as int] == d@);
        assert(dirs_view[i as int] == step@);
        let ghost before = steps@;
        steps.push(step);
        proof {
            lemma_steps_view_push(before, step);
        }
        assert(steps_view(steps@) =~= head + dirs_view.subrange(0, i + 1));
        i = i + 1;
    }
    assert(dirs_view.subrange(0, i as int) =~= dirs_view);
    let ghost before = steps@;
    let step = Step::Inform { message: String::from_str(SOURCES_MESSAGE) };
    steps.push(step);
    proof {
        lemma_steps_view_push(before, step);
    }
    let ghost mid = steps_view(steps@);

    let sources = Sources::generate(app_name, package_name);
    let ghost files_view = planned_files(app, pkg).map_values(
        |f: (PathView, Artifact)| StepView::Write(f.0, artifact_text(f.1, app, pkg)),
    );
    let mut j: usize = 0;
    while j < paths.files.len()
        invariant
            paths@ == (planned_dirs(app, pkg), planned_files(app, pkg)),
            paths.files@.len() == planned_files(app, pkg).len(),
            app == app_name@,
            pkg == package_name@,
            files_view == planned_files(app, pkg).map_values(
                |f: (PathView, Artifact)|
                    StepView::Write(f.0, artifact_text(f.1, app, pkg)),
            ),
            forall|a: Artifact| #[trigger] sources.text_of(a) == artifact_text(a, app, pkg),
            j <= paths.files@.len(),
            steps_view(steps@) == mid + files_view.subrange(0, j as int),
        decreases paths.files@.len() - j,
    {
        let f = &paths.files[j];
        let step = Step::Write { path: copy_path(&f.path), contents: sources.text(f.artifact).clone() };
        assert(paths@.1[j as int] == f@);
        assert(files_view[j as int] == step@);
        let ghost before = steps@;
        steps.push(step);
        proof {
            lemma_steps_view_push(before, step);
        }
        assert(steps_view(steps@) =~= mid + files_view.subrange(0, j + 1));
        j = j + 1;
    }
    assert(files_view.subrange(0, j as int) =~= files_view);
    let ghost before = steps@;
    steps.push(Step::ReportElapsed);
    proof {
        lemma_steps_view_push(before, Step::ReportElapsed);
    }
    assert(steps_view(steps@) =~= create_plan(app, pkg, root_exists));
    steps
}

} // verus!
