use crafter::cli::create_steps;
use crafter::cli::parse_command;
use crafter::cli::unknown_text;
use crafter::cli::usage_text;
use crafter::cli::version_text;
use crafter::cli::Command;
use crafter::cli::Step;
use crafter::cli::MISSING_CREATE_ARGS_MESSAGE;
use crafter::layout::file_name;
use crafter::layout::plan;
use crafter::names::remove_spaces;
use crafter::names::split_dots;
use crafter::sources::Artifact;
use crafter::sources::Sources;

fn strs(v: &[&str]) -> Vec<String> {
    v.iter().map(|s| s.to_string()).collect()
}

const APP: &str = "My Crafter App";
const PKG: &str = "com.crafter.mycrafterapp";

#[test]
fn remove_spaces_strips_every_space() {
    assert_eq!(remove_spaces("My Crafter App"), "MyCrafterApp");
    assert_eq!(remove_spaces("  a  b "), "ab");
    assert_eq!(remove_spaces(""), "");
    assert_eq!(remove_spaces("   "), "");
    assert_eq!(remove_spaces("NoSpace"), "NoSpace");
    assert_eq!(remove_spaces("Caf\u{e9} App"), "Caf\u{e9}App");
}

#[test]
fn split_dots_gives_segments() {
    assert_eq!(split_dots("com.crafter.mycrafterapp"), strs(&["com", "crafter", "mycrafterapp"]));
    assert_eq!(split_dots("single"), strs(&["single"]));
    assert_eq!(split_dots(""), strs(&[""]));
    assert_eq!(split_dots("a..b"), strs(&["a", "", "b"]));
    assert_eq!(split_dots(".a."), strs(&["", "a", ""]));
}

#[test]
fn plan_scenario_paths() {
    let p = plan(APP, PKG);
    let dirs: Vec<(Vec<String>, bool)> = p.dirs.iter().map(|d| (d.path.clone(), d.recursive)).collect();
    assert_eq!(
        dirs,
        vec![
            (strs(&[APP]), false),
            (strs(&[APP, "gradle"]), false),
            (strs(&[APP, "app"]), false),
            (strs(&[APP, "app", "src", "main", "res", "values"]), true),
            (strs(&[APP, "app", "src", "main", "java", "com", "crafter", "mycrafterapp"]), true),
            (strs(&[APP, "app", "src", "main", "java", "com", "crafter", "mycrafterapp", "ui", "theme"]), true),
        ]
    );
    let theme = strs(&[APP, "app", "src", "main", "java", "com", "crafter", "mycrafterapp", "ui", "theme"]);
    let mut in_theme: Vec<String> = p
        .files
        .iter()
        .filter(|f| f.path[..f.path.len() - 1] == theme[..])
        .map(|f| f.path[f.path.len() - 1].clone())
        .collect();
    in_theme.sort();
    assert_eq!(in_theme, strs(&["Color.kt", "Theme.kt", "Type.kt"]));
    let main = p.files.iter().find(|f| f.artifact == Artifact::MainActivityKt).unwrap();
    assert_eq!(
        main.path,
        strs(&[APP, "app", "src", "main", "java", "com", "crafter", "mycrafterapp", "MainActivity.kt"])
    );
    assert_eq!(p.files.len(), 13);
}

#[test]
fn plan_file_layout() {
    let p = plan("X", "a.b");
    let paths: Vec<String> = p.files.iter().map(|f| f.path.join("/")).collect();
    assert_eq!(
        paths,
        strs(&[
            "X/gradle.properties",
            "X/.gitignore",
            "X/app/.gitignore",
            "X/gradle/libs.versions.toml",
            "X/app/src/main/AndroidManifest.xml",
            "X/app/src/main/res/values/resources.xml",
            "X/app/src/main/java/a/b/MainActivity.kt",
            "X/app/src/main/java/a/b/ui/theme/Color.kt",
            "X/app/src/main/java/a/b/ui/theme/Theme.kt",
            "X/app/src/main/java/a/b/ui/theme/Type.kt",
            "X/settings.gradle.kts",
            "X/build.gradle.kts",
            "X/app/build.gradle.kts",
        ])
    );
    for f in p.files.iter() {
        assert_eq!(f.path[f.path.len() - 1], file_name(f.artifact));
    }
}

#[test]
fn package_segments_become_nested_dirs() {
    for k in 1..=10usize {
        let segs: Vec<String> = (0..k).map(|i| format!("s{i}x")).collect();
        let pkg = segs.join(".");
        let p = plan("App", &pkg);
        let inner = &p.dirs[4].path;
        assert_eq!(inner.len(), 5 + k);
        assert_eq!(inner[5..].to_vec(), segs);
        let theme = &p.dirs[5].path;
        assert_eq!(theme[..theme.len() - 2], inner[..]);
        assert_eq!(theme[theme.len() - 2..].to_vec(), strs(&["ui", "theme"]));
    }
}

#[test]
fn namespace_matches_directories() {
    for k in 1..=10usize {
        let segs: Vec<String> = (0..k).map(|i| format!("Seg{i}")).collect();
        let pkg = segs.join(".");
        let p = plan("App", &pkg);
        let s = Sources::generate("App", &pkg);
        for f in p.files.iter() {
            let text = s.text(f.artifact);
            if f.path[f.path.len() - 1].ends_with(".kt") {
                let ns = f.path[5..f.path.len() - 1].join(".");
                assert!(text.starts_with(&format!("package {ns}\n")), "{text}");
            }
        }
    }
}

#[test]
fn theme_name_scenario() {
    let s = Sources::generate(APP, PKG);
    assert!(s.android_manifest_xml.contains("android:theme=\"@style/Theme.MyCrafterApp\""));
    assert!(s.resources_xml.contains("<style name=\"Theme.MyCrafterApp\""));
    assert!(s.theme_kt.contains("fun MyCrafterAppTheme("));
    assert!(s.main_activity_kt.contains("import com.crafter.mycrafterapp.ui.theme.MyCrafterAppTheme\n"));
    assert!(s.main_activity_kt.contains("            MyCrafterAppTheme {\n"));
    assert!(s.main_activity_kt.starts_with("package com.crafter.mycrafterapp\n\nimport android.os.Bundle\n"));
    assert!(s.color_kt.starts_with("package com.crafter.mycrafterapp.ui.theme\n\nimport androidx.compose.ui.graphics.Color\n"));
    assert!(s.type_kt.starts_with("package com.crafter.mycrafterapp.ui.theme\n\n"));
    assert!(s.theme_kt.starts_with("package com.crafter.mycrafterapp.ui.theme\n\n"));
}

#[test]
fn resources_exact_text() {
    let s = Sources::generate(APP, PKG);
    assert_eq!(
        s.resources_xml,
        "<?xml version=\"1.0\" encoding=\"utf-8\"?>\n<resources>\n    <string name=\"app_name\">My Crafter App</string>\n    <style name=\"Theme.MyCrafterApp\" parent=\"android:Theme.Material.Light.NoActionBar\" />\n</resources>"
    );
}

#[test]
fn color_exact_text() {
    let s = Sources::generate(APP, "a.b");
    assert_eq!(
        s.color_kt,
        "package a.b.ui.theme\n\nimport androidx.compose.ui.graphics.Color\n\nval Purple80 = Color(0xFFD0BCFF)\nval PurpleGrey80 = Color(0xFFCCC2DC)\nval Pink80 = Color(0xFFEFB8C8)\n\nval Purple40 = Color(0xFF6650a4)\nval PurpleGrey40 = Color(0xFF625b71)\nval Pink40 = Color(0xFF7D5260)"
    );
}

#[test]
fn settings_and_module_build_substitute() {
    let s = Sources::generate(APP, PKG);
    assert!(s.settings_gradle_kts.ends_with("\n\nrootProject.name = \"My Crafter App\"\ninclude(\":app\")"));
    assert!(s.settings_gradle_kts.contains("includeGroupByRegex(\"com\\\\.android.*\")"));
    assert!(s.app_build_gradle_kts.contains("    namespace = \"com.crafter.mycrafterapp\"\n"));
    assert!(s.app_build_gradle_kts.contains("        applicationId = \"com.crafter.mycrafterapp\"\n"));
    assert!(s.app_build_gradle_kts.contains("excludes += \"/META-INF/{AL2.0,LGPL2.1}\""));
    assert!(!s.app_build_gradle_kts.contains("{{"));
}

#[test]
fn fixed_artifacts() {
    let s = Sources::generate("A", "b");
    let t = Sources::generate("Other Name", "x.y.z");
    assert_eq!(s.root_gitignore, ".gradle\nbuild");
    assert_eq!(s.app_gitignore, "build");
    assert_eq!(s.gradle_properties, t.gradle_properties);
    assert_eq!(s.libs_versions_toml, t.libs_versions_toml);
    assert_eq!(s.root_build_gradle_kts, t.root_build_gradle_kts);
    assert!(s.gradle_properties.starts_with("# Project-wide Gradle settings\n"));
    assert!(s.gradle_properties.ends_with("android.nonTransitiveRClass=true"));
    assert!(s.libs_versions_toml.starts_with("[versions]\nagp = \"8.5.0\"\n"));
    assert!(s.libs_versions_toml.ends_with("version.ref = \"kotlin\" }\n"));
    assert!(s.root_build_gradle_kts.starts_with("// Top-level build file"));
}

#[test]
fn text_matches_fields() {
    let s = Sources::generate(APP, PKG);
    assert_eq!(s.text(Artifact::ThemeKt), &s.theme_kt);
    assert_eq!(s.text(Artifact::AndroidManifestXml), &s.android_manifest_xml);
    assert_eq!(s.text(Artifact::AppGitignore), &s.app_gitignore);
}

#[test]
fn parse_no_arguments_is_help() {
    assert!(matches!(parse_command(&vec![]), Command::Help));
    assert!(matches!(parse_command(&strs(&["-h"])), Command::Help));
    assert!(matches!(parse_command(&strs(&["--help", "x"])), Command::Help));
}

#[test]
fn parse_version() {
    assert!(matches!(parse_command(&strs(&["-V"])), Command::Version));
    assert!(matches!(parse_command(&strs(&["--version"])), Command::Version));
}

#[test]
fn parse_create_needs_two_arguments() {
    assert!(matches!(parse_command(&strs(&["create"])), Command::MissingCreateArgs));
    assert!(matches!(parse_command(&strs(&["create", "App"])), Command::MissingCreateArgs));
    match parse_command(&strs(&["create", APP, PKG, "extra"])) {
        Command::Create { app_name, package_name } => {
            assert_eq!(app_name, APP);
            assert_eq!(package_name, PKG);
        }
        _ => panic!("expected create"),
    }
}

#[test]
fn parse_unknown() {
    match parse_command(&strs(&["build"])) {
        Command::Unknown { arg } => assert_eq!(arg, "build"),
        _ => panic!("expected unknown"),
    }
    assert!(matches!(parse_command(&strs(&["-x"])), Command::Unknown { .. }));
}

#[test]
fn messages() {
    assert_eq!(version_text("crafter"), "crafter 0.1.0");
    let u = usage_text("crafter");
    assert!(u.starts_with("Description:\n  CLI tool to manage android projects\n\nUsage: \n  crafter <SUBCOMMAND>\n  crafter [OPTIONS]\n"));
    assert!(u.ends_with("  -V, --version        Print version"));
    assert_eq!(unknown_text("zz"), "\x1b[1;31mUnknown subcommand or option \"zz\"\x1b[0m\n");
    assert_eq!(MISSING_CREATE_ARGS_MESSAGE, "\x1b[1;31minsufficient arguments for subcommand \"create\"\x1b[0m\n");
}

#[test]
fn existing_root_only_warns() {
    let steps = create_steps(APP, PKG, true);
    assert_eq!(steps.len(), 1);
    match &steps[0] {
        Step::Warn { message } => assert_eq!(
            message,
            "\x1b[1;31mA folder with the app name \"My Crafter App\" already exists.\nChoose a different name or rename the existing folder.\x1b[0m"
        ),
        _ => panic!("expected a warning"),
    }
    assert!(!steps.iter().any(|s| matches!(s, Step::CreateDir { .. } | Step::Write { .. })));
}

#[test]
fn create_steps_parents_first() {
    let steps = create_steps(APP, PKG, false);
    assert_eq!(steps.len(), 23);
    match &steps[0] {
        Step::Inform { message } => assert_eq!(
            message,
            "Creating new android project...\nAPP_NAME=My Crafter App\nPACKAGE_NAME=com.crafter.mycrafterapp"
        ),
        _ => panic!("expected progress"),
    }
    assert!(matches!(steps[22], Step::ReportElapsed));
    let mut made: Vec<Vec<String>> = Vec::new();
    let mut writes = 0;
    for s in steps.iter() {
        match s {
            Step::CreateDir { path, recursive } => {
                if !*recursive && path.len() > 1 {
                    let parent = &path[..path.len() - 1];
                    assert!(made.iter().any(|m| m.len() >= parent.len() && &m[..parent.len()] == parent));
                }
                made.push(path.clone());
            }
            Step::Write { path, contents } => {
                let parent = &path[..path.len() - 1];
                assert!(made.iter().any(|m| m.len() >= parent.len() && &m[..parent.len()] == parent));
                assert!(!contents.is_empty());
                writes += 1;
            }
            _ => {}
        }
    }
    assert_eq!(writes, 13);
}

#[test]
fn create_steps_write_rendered_text() {
    let steps = create_steps(APP, PKG, false);
    let s = Sources::generate(APP, PKG);
    let p = plan(APP, PKG);
    let written: Vec<(Vec<String>, String)> = steps
        .iter()
        .filter_map(|st| match st {
            Step::Write { path, contents } => Some((path.clone(), contents.clone())),
            _ => None,
        })
        .collect();
    let expected: Vec<(Vec<String>, String)> =
        p.files.iter().map(|f| (f.path.clone(), s.text(f.artifact).clone())).collect();
    assert_eq!(written, expected);
}
