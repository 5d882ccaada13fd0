use vstd::prelude::*;

use crate::names::dot_segments;
use crate::names::split_dots;
use crate::names::lemma_strings_view_push;
use crate::names::strings_view;
use crate::sources::Artifact;

verus! {

/// Names of the fixed directories of a project.
pub const GRADLE_DIR: &'static str = "gradle";
pub const APP_DIR: &'static str = "app";
pub const SRC_DIR: &'static str = "src";
pub const MAIN_DIR: &'static str = "main";
pub const RES_DIR: &'static str = "res";
pub const VALUES_DIR: &'static str = "values";
pub const JAVA_DIR: &'static str = "java";
pub const UI_DIR: &'static str = "ui";
pub const THEME_DIR: &'static str = "theme";

/// Names of the files of a project.
pub const GITIGNORE_FILE: &'static str = ".gitignore";
pub const GRADLE_PROPERTIES_FILE: &'static str = "gradle.properties";
pub const SETTINGS_GRADLE_KTS_FILE: &'static str = "settings.gradle.kts";
pub const BUILD_GRADLE_KTS_FILE: &'static str = "build.gradle.kts";
pub const LIBS_VERSIONS_TOML_FILE: &'static str = "libs.versions.toml";
pub const ANDROID_MANIFEST_XML_FILE: &'static str = "AndroidManifest.xml";
pub const RESOURCES_XML_FILE: &'static str = "resources.xml";
pub const MAIN_ACTIVITY_KT_FILE: &'static str = "MainActivity.kt";
pub const COLOR_KT_FILE: &'static str = "Color.kt";
pub const THEME_KT_FILE: &'static str = "Theme.kt";
pub const TYPE_KT_FILE: &'static str = "Type.kt";

/// A path, relative to the working directory, as its sequence of components.
pub type PathView = Seq<Seq<char>>;

/// The project root: one directory named exactly as the display name.
pub open spec fn root_dir(app: Seq<char>) -> PathView {
    seq![app]
}

pub open spec fn gradle_dir(app: Seq<char>) -> PathView {
    root_dir(app).push(GRADLE_DIR@)
}

pub open spec fn app_dir(app: Seq<char>) -> PathView {
    root_dir(app).push(APP_DIR@)
}

pub open spec fn main_dir(app: Seq<char>) -> PathView {
    app_dir(app).push(SRC_DIR@).push(MAIN_DIR@)
}

pub open spec fn values_dir(app: Seq<char>) -> PathView {
    main_dir(app).push(RES_DIR@).push(VALUES_DIR@)
}

pub open spec fn java_dir(app: Seq<char>) -> PathView {
    main_dir(app).push(JAVA_DIR@)
}

/// The innermost source package directory: one directory under `java` per
/// dot-separated segment of the package identifier.
pub open spec fn package_dir(app: Seq<char>, pkg: Seq<char>) -> PathView {
    java_dir(app) + dot_segments(pkg)
}

pub open spec fn theme_dir(app: Seq<char>, pkg: Seq<char>) -> PathView {
    package_dir(app, pkg).push(UI_DIR@).push(THEME_DIR@)
}

/// The directory that holds artifact `a`.
pub open spec fn artifact_dir(a: Artifact, app: Seq<char>, pkg: Seq<char>) -> PathView {
    match a {
        Artifact::SettingsGradleKts => root_dir(app),
        Artifact::GradleProperties => root_dir(app),
        Artifact::RootGitignore => root_dir(app),
        Artifact::RootBuildGradleKts => root_dir(app),
        Artifact::LibsVersionsToml => gradle_dir(app),
        Artifact::AppGitignore => app_dir(app),
        Artifact::AppBuildGradleKts => app_dir(app),
        Artifact::AndroidManifestXml => main_dir(app),
        Artifact::ResourcesXml => values_dir(app),
        Artifact::MainActivityKt => package_dir(app, pkg),
        Artifact::ColorKt => theme_dir(app, pkg),
        Artifact::ThemeKt => theme_dir(app, pkg),
        Artifact::TypeKt => theme_dir(app, pkg),
    }
}

/// The file name of artifact `a` inside its directory.
pub open spec fn artifact_file_name(a: Artifact) -> Seq<char> {
    match a {
        Artifact::SettingsGradleKts => SETTINGS_GRADLE_KTS_FILE@,
        Artifact::GradleProperties => GRADLE_PROPERTIES_FILE@,
        Artifact::RootGitignore => GITIGNORE_FILE@,
        Artifact::AppGitignore => GITIGNORE_FILE@,
        Artifact::RootBuildGradleKts => BUILD_GRADLE_KTS_FILE@,
        Artifact::AppBuildGradleKts => BUILD_GRADLE_KTS_FILE@,
        Artifact::LibsVersionsToml => LIBS_VERSIONS_TOML_FILE@,
        Artifact::AndroidManifestXml => ANDROID_MANIFEST_XML_FILE@,
        Artifact::ResourcesXml => RESOURCES_XML_FILE@,
        Artifact::MainActivityKt => MAIN_ACTIVITY_KT_FILE@,
        Artifact::ColorKt => COLOR_KT_FILE@,
        Artifact::ThemeKt => THEME_KT_FILE@,
        Artifact::TypeKt => TYPE_KT_FILE@,
    }
}

/// The path of the file that holds artifact `a`.
pub open spec fn artifact_path(a: Artifact, app: Seq<char>, pkg: Seq<char>) -> PathView {
    artifact_dir(a, app, pkg).push(artifact_file_name(a))
}

/// The directories to create, in order, each with whether it is created
/// together with its missing ancestors.
pub open spec fn planned_dirs(app: Seq<char>, pkg: Seq<char>) -> Seq<(PathView, bool)> {
    seq![
        (root_dir(app), false),
        (gradle_dir(app), false),
        (app_dir(app), false),
        (values_dir(app), true),
        (package_dir(app, pkg), true),
        (theme_dir(app, pkg), true),
    ]
}

/// The order in which the artifacts are written.
pub open spec fn write_order() -> Seq<Artifact> {
    seq![
        Artifact::GradleProperties,
        Artifact::RootGitignore,
        Artifact::AppGitignore,
        Artifact::LibsVersionsToml,
        Artifact::AndroidManifestXml,
        Artifact::ResourcesXml,
        Artifact::MainActivityKt,
        Artifact::ColorKt,
        Artifact::ThemeKt,
        Artifact::TypeKt,
        Artifact::SettingsGradleKts,
        Artifact::RootBuildGradleKts,
        Artifact::AppBuildGradleKts,
    ]
}

/// The files to write, in order, each with the artifact it holds.
pub open spec fn planned_files(app: Seq<char>, pkg: Seq<char>) -> Seq<(PathView, Artifact)> {
    write_order().map_values(|a: Artifact| (artifact_path(a, app, pkg), a))
}

/// A directory to create.
pub struct DirStep {
    pub path: Vec<String>,
    /// Whether missing ancestors are created too.
    pub recursive: bool,
}

/// A file to write, and the artifact it holds.
pub struct FileStep {
    pub path: Vec<String>,
    pub artifact: Artifact,
}

/// The directories and files of a new project, in the order they are made.
pub struct PathPlan {
    pub dirs: Vec<DirStep>,
    pub files: Vec<FileStep>,
}

impl View for DirStep {
    type V = (PathView, bool);

    open spec fn view(&self) -> (PathView, bool) {
        (strings_view(self.path@), self.recursive)
    }
}

impl View for FileStep {
    type V = (PathView, Artifact);

    open spec fn view(&self) -> (PathView, Artifact) {
        (strings_view(self.path@), self.artifact)
    }
}

impl View for PathPlan {
    type V = (Seq<(PathView, bool)>, Seq<(PathView, Artifact)>);

    open spec fn view(&self) -> (Seq<(PathView, bool)>, Seq<(PathView, Artifact)>) {
        (self.dirs@.map_values(|d: DirStep| d@), self.files@.map_values(|f: FileStep| f@))
    }
}

/// `p` extended by the components of `more`.
fn extend_path(p: &Vec<String>, more: &Vec<String>) -> (r: Vec<String>)
    ensures
        strings_view(r@) == strings_view(p@) + strings_view(more@),
{
    let mut r: Vec<String> = Vec::new();
    let mut i: usize = 0;
    while i < p.len()
        invariant
            i <= p@.len(),
            strings_view(r@) == strings_view(p@).subrange(0, i as int),
        decreases p@.len() - i,
    {
        let s = p[i].clone();
        assert(s@ == strings_view(p@)[i as int]);
        let ghost before = r@;
        r.push(s);
        proof {
            lemma_strings_view_push(before, s);
        }
        assert(strings_view(r@) =~= strings_view(p@).subrange(0, i + 1));
        i = i + 1;
    }
    let mut j: usize = 0;
    while j < more.len()
        invariant
            j <= more@.len(),
            strings_view(r@) == strings_view(p@) + strings_view(more@).subrange(0, j as int),
        decreases more@.len() - j,
    {
        let s = more[j].clone();
        assert(s@ == strings_view(more@)[j as int]);
        let ghost before = r@;
        r.push(s);
        proof {
            lemma_strings_view_push(before, s);
        }
        assert(strings_view(r@) =~= strings_view(p@) + strings_view(more@).subrange(0, j + 1));
        j = j + 1;
    }
    assert(strings_view(more@).subrange(0, more@.len() as int) =~= strings_view(more@));
    r
}

/// A copy of `p`.
pub fn copy_path(p: &Vec<String>) -> (r: Vec<String>)
    ensures
        strings_view(r@) == strings_view(p@),
{
    let r = extend_path(p, &Vec::new());
    assert(strings_view(r@) =~= strings_view(p@));
    r
}

/// `p` extended by one component.
fn child(p: &Vec<String>, name: &str) -> (r: Vec<String>)
    ensures
        strings_view(r@) == strings_view(p@).push(name@),
{
    let mut more: Vec<String> = Vec::new();
    more.push(String::from_str(name));
    assert(strings_view(more@) =~= seq![name@]);
    let r = extend_path(p, &more);
    assert(strings_view(r@) =~= strings_view(p@).push(name@));
    r
}

/// The file name of artifact `a` inside its directory.
pub fn file_name(a: Artifact) -> (r: &'static str)
    ensures
        r@ == artifact_file_name(a),
{
    match a {
        Artifact::SettingsGradleKts => SETTINGS_GRADLE_KTS_FILE,
        Artifact::GradleProperties => GRADLE_PROPERTIES_FILE,
        Artifact::RootGitignore => GITIGNORE_FILE,
        Artifact::AppGitignore => GITIGNORE_FILE,
        Artifact::RootBuildGradleKts => BUILD_GRADLE_KTS_FILE,
        Artifact::AppBuildGradleKts => BUILD_GRADLE_KTS_FILE,
        Artifact::LibsVersionsToml => LIBS_VERSIONS_TOML_FILE,
        Artifact::AndroidManifestXml => ANDROID_MANIFEST_XML_FILE,
        Artifact::ResourcesXml => RESOURCES_XML_FILE,
        Artifact::MainActivityKt => MAIN_ACTIVITY_KT_FILE,
        Artifact::ColorKt => COLOR_KT_FILE,
        Artifact::ThemeKt => THEME_KT_FILE,
        Artifact::TypeKt => TYPE_KT_FILE,
    }
}

fn file_step(dir: &Vec<String>, a: Artifact) -> (r: FileStep)
    ensures
        r@ == (strings_view(dir@).push(artifact_file_name(a)), a),
{
    FileStep { path: child(dir, file_name(a)), artifact: a }
}

/// Plans the directories and files of a new project named `app_name` with
/// package identifier `package_name`. Planning cannot fail.
pub fn plan(app_name: &str, package_name: &str) -> (r: PathPlan)
    ensures
        r@ == (planned_dirs(app_name@, package_name@), planned_files(app_name@, package_name@)),
{
    let ghost app = app_name@;
    let ghost pkg = package_name@;
    let mut root: Vec<String> = Vec::new();
    root.push(String::from_str(app_name));
    assert(strings_view(root@) =~= root_dir(app));
    let gradle = child(&root, GRADLE_DIR);
    let app_path = child(&root, APP_DIR);
    let main = child(&child(&app_path, SRC_DIR), MAIN_DIR);
    let values = child(&child(&main, RES_DIR), VALUES_DIR);
    let java = child(&main, JAVA_DIR);
    let segments = split_dots(package_name);
    let package = extend_path(&java, &segments);
    let theme = child(&child(&package, UI_DIR), THEME_DIR);

    let mut files: Vec<FileStep> = Vec::new();
    files.push(file_step(&root, Artifact::GradleProperties));
    files.push(file_step(&root, Artifact::RootGitignore));
    files.push(file_step(&app_path, Artifact::AppGitignore));
    files.push(file_step(&gradle, Artifact::LibsVersionsToml));
    files.push(file_step(&main, Artifact::AndroidManifestXml));
    files.push(file_step(&values, Artifact::ResourcesXml));
    files.push(file_step(&package, Artifact::MainActivityKt));
    files.push(file_step(&theme, Artifact::ColorKt));
    files.push(file_step(&theme, Artifact::ThemeKt));
    files.push(file_step(&theme, Artifact::TypeKt));
    files.push(file_step(&root, Artifact::SettingsGradleKts));
    files.push(file_step(&root, Artifact::RootBuildGradleKts));
    files.push(file_step(&app_path, Artifact::AppBuildGradleKts));

    let mut dirs: Vec<DirStep> = Vec::new();
    dirs.push(DirStep { path: root, recursive: false });
    dirs.push(DirStep { path: gradle, recursive: false });
    dirs.push(DirStep { path: app_path, recursive: false });
    dirs.push(DirStep { path: values, recursive: true });
    dirs.push(DirStep { path: package, recursive: true });
    dirs.push(DirStep { path: theme, recursive: true });

    let r = PathPlan { dirs, files };
    assert(r@.0 =~= planned_dirs(app, pkg));
    assert(r@.1 =~= planned_files(app, pkg));
    r
}

} // verus!
