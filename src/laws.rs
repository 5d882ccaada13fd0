use vstd::prelude::*;

use crate::cli::create_plan;
use crate::cli::mutates;
use crate::cli::StepView;
use crate::layout::artifact_dir;
use crate::layout::java_dir;
use crate::layout::main_dir;
use crate::layout::package_dir;
use crate::layout::planned_dirs;
use crate::layout::planned_files;
use crate::layout::root_dir;
use crate::layout::theme_dir;
use crate::layout::values_dir;
use crate::layout::PathView;
use crate::layout::THEME_DIR;
use crate::layout::UI_DIR;
use crate::names::dot_count;
use crate::names::dot_segments;
use crate::names::join_dots;
use crate::names::lemma_dot_segments_dotless;
use crate::names::lemma_dot_segments_len;
use crate::names::lemma_join_dot_segments;
use crate::names::without_spaces;
use crate::names::DOT;
use crate::names::SPACE;
use crate::sources::artifact_text;
use crate::sources::package_line;
use crate::sources::theme_fn_name;
use crate::sources::theme_package;
use crate::sources::theme_style_name;
use crate::sources::Artifact;
use crate::sources::ANDROID_MANIFEST_XML_HEAD;
use crate::sources::MAIN_ACTIVITY_KT_IMPORTS;
use crate::sources::MEMBER_SEPARATOR;
use crate::sources::RESOURCES_XML_HEAD;
use crate::sources::RESOURCES_XML_MID;
use crate::sources::THEME_FN_SUFFIX;
use crate::sources::THEME_KT_HEAD;
use crate::sources::THEME_STYLE_PREFIX;
use crate::sources::THEME_SUBPACKAGE;

verus! {

/// Whether `part` occurs in `text` as a contiguous run of characters.
pub open spec fn occurs_in(text: Seq<char>, part: Seq<char>) -> bool {
    exists|i: int|
        0 <= i && i + part.len() <= text.len() && #[trigger] text.subrange(i, i + part.len()) == part
}

/// The path that a directory or file step acts on.
pub open spec fn step_path(s: StepView) -> PathView {
    match s {
        StepView::CreateDir(p, _) => p,
        StepView::Write(p, _) => p,
        _ => Seq::empty(),
    }
}

/// The package identifier becomes a chain of nested directories under `java`,
/// one per dot-separated segment, each named exactly as its segment; the theme
/// directory `ui/theme` lies beneath the innermost one, and both are created.
pub proof fn lemma_package_dirs_nested(app: Seq<char>, pkg: Seq<char>)
    ensures
        ({
            let java = java_dir(app);
            let inner = package_dir(app, pkg);
            &&& inner.len() == java.len() + dot_count(pkg) + 1
            &&& inner.subrange(0, java.len() as int) == java
            &&& inner.subrange(java.len() as int, inner.len() as int) == dot_segments(pkg)
            &&& forall|i: int|
                java.len() <= i < inner.len() ==> !(#[trigger] inner[i]).contains(DOT)
            &&& theme_dir(app, pkg) == inner + seq![UI_DIR@, THEME_DIR@]
            &&& planned_dirs(app, pkg)[4] == (inner, true)
            &&& planned_dirs(app, pkg)[5] == (theme_dir(app, pkg), true)
        }),
{
    let java = java_dir(app);
    let inner = package_dir(app, pkg);
    lemma_dot_segments_len(pkg);
    lemma_dot_segments_dotless(pkg);
    assert(inner.subrange(0, java.len() as int) =~= java);
    assert(inner.subrange(java.len() as int, inner.len() as int) =~= dot_segments(pkg));
    assert forall|i: int| java.len() <= i < inner.len() implies !(#[trigger] inner[i]).contains(
        DOT,
    ) by {
        assert(inner[i] == dot_segments(pkg)[i - java.len()]);
    }
    assert(theme_dir(app, pkg) =~= inner + seq![UI_DIR@, THEME_DIR@]);
}

/// The display name without spaces holds no space, and the very same string
/// names the theme style in the manifest and in the resource file, and the
/// theme function in the theme source and where the main activity calls it.
pub proof fn lemma_theme_name_shared(app: Seq<char>, pkg: Seq<char>)
    ensures
        !without_spaces(app).contains(SPACE),
        theme_style_name(app) == THEME_STYLE_PREFIX@ + without_spaces(app),
        theme_fn_name(app) == without_spaces(app) + THEME_FN_SUFFIX@,
        occurs_in(artifact_text(Artifact::AndroidManifestXml, app, pkg), theme_style_name(app)),
        occurs_in(artifact_text(Artifact::ResourcesXml, app, pkg), theme_style_name(app)),
        occurs_in(artifact_text(Artifact::ThemeKt, app, pkg), theme_fn_name(app)),
        occurs_in(artifact_text(Artifact::MainActivityKt, app, pkg), theme_fn_name(app)),
{
    let nospace = without_spaces(app);
    assert forall|i: int| 0 <= i < nospace.len() implies nospace[i] != SPACE by {
        app.lemma_filter_pred(|c: char| c != SPACE, i);
    }
    let style = theme_style_name(app);
    let func = theme_fn_name(app);

    let man = artifact_text(Artifact::AndroidManifestXml, app, pkg);
    let k = ANDROID_MANIFEST_XML_HEAD@.len() as int;
    assert(man.subrange(k, k + style.len()) =~= style);

    let res = artifact_text(Artifact::ResourcesXml, app, pkg);
    let k = (RESOURCES_XML_HEAD@ + app + RESOURCES_XML_MID@).len() as int;
    assert(res.subrange(k, k + style.len()) =~= style);

    let theme = artifact_text(Artifact::ThemeKt, app, pkg);
    let k = (package_line(theme_package(pkg)) + THEME_KT_HEAD@).len() as int;
    assert(theme.subrange(k, k + func.len()) =~= func);

    let main = artifact_text(Artifact::MainActivityKt, app, pkg);
    let k = (package_line(pkg) + MAIN_ACTIVITY_KT_IMPORTS@ + theme_package(pkg)
        + MEMBER_SEPARATOR@).len() as int;
    assert(main.subrange(k, k + func.len()) =~= func);
}

/// Where the project root already exists, creating the project neither
/// creates a directory nor writes a file.
pub proof fn lemma_existing_root_untouched(app: Seq<char>, pkg: Seq<char>)
    ensures
        forall|i: int|
            0 <= i < create_plan(app, pkg, true).len() ==> !mutates(
                #[trigger] create_plan(app, pkg, true)[i],
            ),
{
}

/// Each Kotlin source opens with a package declaration whose namespace is the
/// dotted form of the directories, below `java`, that hold the file.
pub proof fn lemma_namespaces_match_dirs(app: Seq<char>, pkg: Seq<char>, a: Artifact)
    requires
        a == Artifact::MainActivityKt || a == Artifact::ColorKt || a == Artifact::ThemeKt || a
            == Artifact::TypeKt,
    ensures
        ({
            let dir = artifact_dir(a, app, pkg);
            let ns = join_dots(dir.subrange(java_dir(app).len() as int, dir.len() as int));
            let text = artifact_text(a, app, pkg);
            &&& package_line(ns).len() <= text.len()
            &&& text.subrange(0, package_line(ns).len() as int) == package_line(ns)
        }),
{
    let java = java_dir(app);
    let segs = dot_segments(pkg);
    lemma_join_dot_segments(pkg);
    lemma_dot_segments_len(pkg);
    let inner = package_dir(app, pkg);
    assert(inner.subrange(java.len() as int, inner.len() as int) =~= segs);
    if a != Artifact::MainActivityKt {
        let dir = theme_dir(app, pkg);
        let below = dir.subrange(java.len() as int, dir.len() as int);
        assert(below =~= segs.push(UI_DIR@).push(THEME_DIR@));
        assert(below.drop_last() =~= segs.push(UI_DIR@));
        assert(segs.push(UI_DIR@).drop_last() =~= segs);
        reveal_strlit(".ui.theme");
        reveal_strlit("ui");
        reveal_strlit("theme");
        assert(join_dots(below) == join_dots(segs.push(UI_DIR@)) + seq![DOT] + THEME_DIR@);
        assert(join_dots(segs.push(UI_DIR@)) == pkg + seq![DOT] + UI_DIR@);
        assert(THEME_SUBPACKAGE@ =~= seq![DOT] + UI_DIR@ + seq![DOT] + THEME_DIR@);
        assert(join_dots(below) =~= theme_package(pkg));
    }
    let dir = artifact_dir(a, app, pkg);
    let ns = join_dots(dir.subrange(java.len() as int, dir.len() as int));
    let text = artifact_text(a, app, pkg);
    assert(text.subrange(0, package_line(ns).len() as int) =~= package_line(ns));
}

/// Whether `p` names a directory or one of its ancestors, `q`.
pub open spec fn is_prefix(p: PathView, q: PathView) -> bool {
    p.len() <= q.len() && q.subrange(0, p.len() as int) == p
}

/// Whether directory `p` exists once the steps before index `i` have run,
/// not counting what was there before.
pub open spec fn created_before(steps: Seq<StepView>, i: int, p: PathView) -> bool {
    exists|j: int|
        0 <= j < i && (#[trigger] steps[j]) is CreateDir && is_prefix(p, step_path(steps[j]))
}

/// Every directory is created after its parent and every file after the
/// directory that holds it: the root first, as a single directory below the
/// working directory; each later single-level creation directly below a
/// directory made earlier; each file directly inside a directory made earlier.
pub proof fn lemma_parents_first(app: Seq<char>, pkg: Seq<char>)
    ensures
        ({
            let steps = create_plan(app, pkg, false);
            &&& steps[2] == StepView::CreateDir(root_dir(app), false)
            &&& root_dir(app).len() == 1
            &&& forall|i: int|
                2 < i < steps.len() && (#[trigger] steps[i] matches StepView::CreateDir(_, false))
                    ==> created_before(steps, i, step_path(steps[i]).drop_last())
            &&& forall|i: int|
                0 <= i < steps.len() && (#[trigger] steps[i]) is Write ==> created_before(
                    steps,
                    i,
                    step_path(steps[i]).drop_last(),
                )
        }),
{
    let steps = create_plan(app, pkg, false);
    let dirs = planned_dirs(app, pkg);
    let files = planned_files(app, pkg);
    assert(steps.len() == 23);
    assert forall|i: int| 0 <= i < 6 implies steps[i + 2] == StepView::CreateDir(
        dirs[i].0,
        dirs[i].1,
    ) by {}
    assert forall|i: int| 0 <= i < 13 implies steps[i + 9] == StepView::Write(
        files[i].0,
        artifact_text(files[i].1, app, pkg),
    ) by {}
    assert(steps[0] is Inform && steps[1] is Inform && steps[8] is Inform);
    assert(steps[22] is ReportElapsed);
    let root = root_dir(app);
    assert(root.subrange(0, 1) =~= root);
    assert(is_prefix(root, step_path(steps[2])));
    assert forall|i: int|
        2 < i < steps.len() && (#[trigger] steps[i] matches StepView::CreateDir(_, false))
            implies created_before(steps, i, step_path(steps[i]).drop_last()) by {
        assert(step_path(steps[i]).drop_last() =~= root);
    }
    let values = values_dir(app);
    let main = main_dir(app);
    assert(is_prefix(main, values)) by {
        assert(values.subrange(0, main.len() as int) =~= main);
    }
    assert forall|i: int| 0 <= i < steps.len() && (#[trigger] steps[i]) is Write implies created_before(
        steps,
        i,
        step_path(steps[i]).drop_last(),
    ) by {
        let a = files[i - 9].1;
        let parent = artifact_dir(a, app, pkg);
        assert(step_path(steps[i]).drop_last() =~= parent);
        let j: int = match a {
            Artifact::LibsVersionsToml => 3,
            Artifact::AppGitignore | Artifact::AppBuildGradleKts => 4,
            Artifact::AndroidManifestXml | Artifact::ResourcesXml => 5,
            Artifact::MainActivityKt => 6,
            Artifact::ColorKt | Artifact::ThemeKt | Artifact::TypeKt => 7,
            _ => 2,
        };
        assert(step_path(steps[j]).subrange(0, parent.len() as int) =~= parent);
        assert(is_prefix(parent, step_path(steps[j])));
    }
}

} // verus!
