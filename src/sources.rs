use vstd::prelude::*;
use vstd::string::StringExecFns;

use crate::names::remove_spaces;
use crate::names::without_spaces;

verus! {

/// One of the text files that make up a new project.
#[derive(Clone, Copy, Debug, PartialEq, Eq, Structural)]
pub enum Artifact {
    SettingsGradleKts,
    GradleProperties,
    RootGitignore,
    AppGitignore,
    RootBuildGradleKts,
    AppBuildGradleKts,
    LibsVersionsToml,
    AndroidManifestXml,
    ResourcesXml,
    MainActivityKt,
    ColorKt,
    ThemeKt,
    TypeKt,
}

/// The keyword that opens a Kotlin package declaration.
pub const PACKAGE_KEYWORD: &'static str = "package ";

/// The end of a line.
pub const LINE_BREAK: &'static str = "\n";

/// The sub-package, relative to the application package, that holds the theme sources.
pub const THEME_SUBPACKAGE: &'static str = ".ui.theme";

/// Separates a package from a member named inside it.
pub const MEMBER_SEPARATOR: &'static str = ".";

/// Prefix of the style resource that names the application theme.
pub const THEME_STYLE_PREFIX: &'static str = "Theme.";

/// Suffix of the composable theme function's name.
pub const THEME_FN_SUFFIX: &'static str = "Theme";

/// Root build settings, up to the project display name.
pub const SETTINGS_GRADLE_KTS_HEAD: &'static str = r#"pluginManagement {
    repositories {
        google {
            content {
                includeGroupByRegex("com\\.android.*")
                includeGroupByRegex("com\\.google.*")
                includeGroupByRegex("androidx.*")
            }
        }
        mavenCentral()
        gradlePluginPortal()
    }
}
dependencyResolutionManagement {
    repositoriesMode.set(RepositoriesMode.FAIL_ON_PROJECT_REPOS)
    repositories {
        google()
        mavenCentral()
    }
}

rootProject.name = ""#;

/// Root build settings, after the project display name.
pub const SETTINGS_GRADLE_KTS_TAIL: &'static str = r#""
include(":app")"#;

/// Project-wide build properties.
pub const GRADLE_PROPERTIES: &'static str = r#"# Project-wide Gradle settings
# Increase the heap size
org.gradle.jvmargs=-Xmx2048m -Dfile.encoding=UTF-8

# Enable the configuration cache
org.gradle.configuration-cache=true

# Enable the build cache
org.gradle.caching=true

# AndroidX package structure to make it clearer which packages are bundled with the
# Android operating system, and which are packaged with your app's APK
# https://developer.android.com/topic/libraries/support-library/androidx-rn
android.useAndroidX=true

# Kotlin code style for this project: "official" or "obsolete":
kotlin.code.style=official

# Enables namespacing of each library's R class so that its R class includes only the
# resources declared in the library itself and none from the library's dependencies,
# thereby reducing the size of the R class for that library
android.nonTransitiveRClass=true"#;

/// Ignore list of the project root.
pub const ROOT_GITIGNORE: &'static str = r#".gradle
build"#;

/// Ignore list of the application module.
pub const APP_GITIGNORE: &'static str = r#"build"#;

/// Top-level build file.
pub const ROOT_BUILD_GRADLE_KTS: &'static str = r#"// Top-level build file where you can add configuration options common to all sub-projects/modules.
plugins {
    alias(libs.plugins.android.application) apply false
    alias(libs.plugins.jetbrains.kotlin.android) apply false
}"#;

/// Module build file, up to the application namespace.
pub const APP_BUILD_GRADLE_KTS_HEAD: &'static str = r#"plugins {
    alias(libs.plugins.android.application)
    alias(libs.plugins.jetbrains.kotlin.android)
}

android {
    namespace = ""#;

/// Module build file, between the namespace and the application id.
pub const APP_BUILD_GRADLE_KTS_MID: &'static str = r#""
    compileSdk = 34

    defaultConfig {
        applicationId = ""#;

/// Module build file, after the application id.
pub const APP_BUILD_GRADLE_KTS_TAIL: &'static str = r#""
        minSdk = 24
        targetSdk = 34
        versionCode = 1
        versionName = "1.0"

        vectorDrawables {
            useSupportLibrary = true
        }
    }

    buildTypes {
        release {
            isMinifyEnabled = false
        }
    }
    compileOptions {
        sourceCompatibility = JavaVersion.VERSION_1_8
        targetCompatibility = JavaVersion.VERSION_1_8
    }
    kotlinOptions {
        jvmTarget = "1.8"
    }
    buildFeatures {
        compose = true
    }
    composeOptions {
        kotlinCompilerExtensionVersion = "1.5.1"
    }
    packaging {
        resources {
            excludes += "/META-INF/{AL2.0,LGPL2.1}"
        }
    }
}

dependencies {
    implementation(libs.androidx.core.ktx)
    implementation(libs.androidx.lifecycle.runtime.ktx)
    implementation(libs.androidx.activity.compose)
    implementation(platform(libs.androidx.compose.bom))
    implementation(libs.androidx.ui)
    implementation(libs.androidx.ui.graphics)
    implementation(libs.androidx.material3)
}"#;

/// Dependency version catalog.
pub const LIBS_VERSIONS_TOML: &'static str = r#"[versions]
agp = "8.5.0"
kotlin = "1.9.0"
coreKtx = "1.10.1"
lifecycleRuntimeKtx = "2.6.1"
activityCompose = "1.8.0"
composeBom = "2024.04.01"

[libraries]
androidx-core-ktx = { group = "androidx.core", name = "core-ktx", version.ref = "coreKtx" }
androidx-lifecycle-runtime-ktx = { group = "androidx.lifecycle", name = "lifecycle-runtime-ktx", version.ref = "lifecycleRuntimeKtx" }
androidx-activity-compose = { group = "androidx.activity", name = "activity-compose", version.ref = "activityCompose" }
androidx-compose-bom = { group = "androidx.compose", name = "compose-bom", version.ref = "composeBom" }
androidx-ui = { group = "androidx.compose.ui", name = "ui" }
androidx-ui-graphics = { group = "androidx.compose.ui", name = "ui-graphics" }
androidx-material3 = { group = "androidx.compose.material3", name = "material3" }

[plugins]
android-application = { id = "com.android.application", version.ref = "agp" }
jetbrains-kotlin-android = { id = "org.jetbrains.kotlin.android", version.ref = "kotlin" }
"#;

/// Manifest, up to the theme style name.
pub const ANDROID_MANIFEST_XML_HEAD: &'static str = r#"<?xml version="1.0" encoding="utf-8"?>
<manifest xmlns:android="http://schemas.android.com/apk/res/android"
    xmlns:tools="http://schemas.android.com/tools">

    <application
        android:label="@string/app_name"
        android:supportsRtl="true"
        android:theme="@style/"#;

/// Manifest, after the theme style name.
pub const ANDROID_MANIFEST_XML_TAIL: &'static str = r#""
        tools:targetApi="31">
        <activity
            android:name=".MainActivity"
            android:exported="true"
            android:label="@string/app_name">
            <intent-filter>
                <action android:name="android.intent.action.MAIN" />
                <category android:name="android.intent.category.LAUNCHER" />
            </intent-filter>
        </activity>
    </application>

</manifest>"#;

/// String resources, up to the app display name.
pub const RESOURCES_XML_HEAD: &'static str = r#"<?xml version="1.0" encoding="utf-8"?>
<resources>
    <string name="app_name">"#;

/// String resources, between the display name and the style name.
pub const RESOURCES_XML_MID: &'static str = r#"</string>
    <style name=""#;

/// String resources, after the style name.
pub const RESOURCES_XML_TAIL: &'static str = r#"" parent="android:Theme.Material.Light.NoActionBar" />
</resources>"#;

/// Main activity after its package line, up to the theme import.
pub const MAIN_ACTIVITY_KT_IMPORTS: &'static str = r#"
import android.os.Bundle
import androidx.activity.ComponentActivity
import androidx.activity.compose.setContent
import androidx.activity.enableEdgeToEdge
import androidx.compose.foundation.layout.fillMaxSize
import androidx.compose.foundation.layout.padding
import androidx.compose.material3.Scaffold
import androidx.compose.material3.Text
import androidx.compose.runtime.Composable
import androidx.compose.ui.Modifier
import "#;

/// Main activity after the theme import, up to the theme call.
pub const MAIN_ACTIVITY_KT_CLASS: &'static str = r#"

class MainActivity : ComponentActivity() {
    override fun onCreate(savedInstanceState: Bundle?) {
        super.onCreate(savedInstanceState)
        enableEdgeToEdge()
        setContent {
            "#;

/// Main activity after the theme call.
pub const MAIN_ACTIVITY_KT_TAIL: &'static str = r#" {
                Scaffold(modifier = Modifier.fillMaxSize()) { innerPadding ->
                    Greeting(
                        name = "Android",
                        modifier = Modifier.padding(innerPadding)
                    )
                }
            }
        }
    }
}

@Composable
fun Greeting(name: String, modifier: Modifier = Modifier) {
    Text(
        text = "Hello $name from crafter!",
        modifier = modifier
    )
}"#;

/// Color palette source after its package line.
pub const COLOR_KT_BODY: &'static str = r#"
import androidx.compose.ui.graphics.Color

val Purple80 = Color(0xFFD0BCFF)
val PurpleGrey80 = Color(0xFFCCC2DC)
val Pink80 = Color(0xFFEFB8C8)

val Purple40 = Color(0xFF6650a4)
val PurpleGrey40 = Color(0xFF625b71)
val Pink40 = Color(0xFF7D5260)"#;

/// Theme source after its package line, up to the theme function name.
pub const THEME_KT_HEAD: &'static str = r#"
import android.app.Activity
import android.os.Build
import androidx.compose.foundation.isSystemInDarkTheme
import androidx.compose.material3.MaterialTheme
import androidx.compose.material3.darkColorScheme
import androidx.compose.material3.dynamicDarkColorScheme
import androidx.compose.material3.dynamicLightColorScheme
import androidx.compose.material3.lightColorScheme
import androidx.compose.runtime.Composable
import androidx.compose.ui.platform.LocalContext

private val DarkColorScheme = darkColorScheme(
    primary = Purple80,
    secondary = PurpleGrey80,
    tertiary = Pink80
)

private val LightColorScheme = lightColorScheme(
    primary = Purple40,
    secondary = PurpleGrey40,
    tertiary = Pink40

    /* Other default colors to override
    background = Color(0xFFFFFBFE),
    surface = Color(0xFFFFFBFE),
    onPrimary = Color.White,
    onSecondary = Color.White,
    onTertiary = Color.White,
    onBackground = Color(0xFF1C1B1F),
    onSurface = Color(0xFF1C1B1F),
    */
)

@Composable
fun "#;

/// Theme source after the theme function name.
pub const THEME_KT_TAIL: &'static str = r#"(
    darkTheme: Boolean = isSystemInDarkTheme(),
    // Dynamic color is available on Android 12+
    dynamicColor: Boolean = true,
    content: @Composable () -> Unit
) {
    val colorScheme = when {
        dynamicColor && Build.VERSION.SDK_INT >= Build.VERSION_CODES.S -> {
            val context = LocalContext.current
            if (darkTheme) dynamicDarkColorScheme(context) else dynamicLightColorScheme(context)
        }

        darkTheme -> DarkColorScheme
        else -> LightColorScheme
    }

    MaterialTheme(
        colorScheme = colorScheme,
        typography = Typography,
        content = content
    )
}"#;

/// Typography source after its package line.
pub const TYPE_KT_BODY: &'static str = r#"
import androidx.compose.material3.Typography
import androidx.compose.ui.text.TextStyle
import androidx.compose.ui.text.font.FontFamily
import androidx.compose.ui.text.font.FontWeight
import androidx.compose.ui.unit.sp

// Set of Material typography styles to start with
val Typography = Typography(
    bodyLarge = TextStyle(
        fontFamily = FontFamily.Default,
        fontWeight = FontWeight.Normal,
        fontSize = 16.sp,
        lineHeight = 24.sp,
        letterSpacing = 0.5.sp
    )
    /* Other default text styles to override
    titleLarge = TextStyle(
        fontFamily = FontFamily.Default,
        fontWeight = FontWeight.Normal,
        fontSize = 22.sp,
        lineHeight = 28.sp,
        letterSpacing = 0.sp
    ),
    labelSmall = TextStyle(
        fontFamily = FontFamily.Default,
        fontWeight = FontWeight.Medium,
        fontSize = 11.sp,
        lineHeight = 16.sp,
        letterSpacing = 0.5.sp
    )
    */
)"#;

/// The line that declares the Kotlin package `ns`.
pub open spec fn package_line(ns: Seq<char>) -> Seq<char> {
    PACKAGE_KEYWORD@ + ns + LINE_BREAK@
}

/// The package of the theme sources for application package `pkg`.
pub open spec fn theme_package(pkg: Seq<char>) -> Seq<char> {
    pkg + THEME_SUBPACKAGE@
}

/// The style resource name of the application theme.
pub open spec fn theme_style_name(app: Seq<char>) -> Seq<char> {
    THEME_STYLE_PREFIX@ + without_spaces(app)
}

/// The name of the composable theme function.
pub open spec fn theme_fn_name(app: Seq<char>) -> Seq<char> {
    without_spaces(app) + THEME_FN_SUFFIX@
}

/// The text of artifact `a` for display name `app` and package identifier `pkg`.
pub open spec fn artifact_text(a: Artifact, app: Seq<char>, pkg: Seq<char>) -> Seq<char> {
    match a {
        Artifact::SettingsGradleKts => SETTINGS_GRADLE_KTS_HEAD@ + app + SETTINGS_GRADLE_KTS_TAIL@,
        Artifact::GradleProperties => GRADLE_PROPERTIES@,
        Artifact::RootGitignore => ROOT_GITIGNORE@,
        Artifact::AppGitignore => APP_GITIGNORE@,
        Artifact::RootBuildGradleKts => ROOT_BUILD_GRADLE_KTS@,
        Artifact::AppBuildGradleKts => APP_BUILD_GRADLE_KTS_HEAD@ + pkg + APP_BUILD_GRADLE_KTS_MID@
            + pkg + APP_BUILD_GRADLE_KTS_TAIL@,
        Artifact::LibsVersionsToml => LIBS_VERSIONS_TOML@,
        Artifact::AndroidManifestXml => ANDROID_MANIFEST_XML_HEAD@ + theme_style_name(app)
            + ANDROID_MANIFEST_XML_TAIL@,
        Artifact::ResourcesXml => RESOURCES_XML_HEAD@ + app + RESOURCES_XML_MID@
            + theme_style_name(app) + RESOURCES_XML_TAIL@,
        Artifact::MainActivityKt => package_line(pkg) + MAIN_ACTIVITY_KT_IMPORTS@ + theme_package(
            pkg,
        ) + MEMBER_SEPARATOR@ + theme_fn_name(app) + MAIN_ACTIVITY_KT_CLASS@ + theme_fn_name(app)
            + MAIN_ACTIVITY_KT_TAIL@,
        Artifact::ColorKt => package_line(theme_package(pkg)) + COLOR_KT_BODY@,
        Artifact::ThemeKt => package_line(theme_package(pkg)) + THEME_KT_HEAD@ + theme_fn_name(app)
            + THEME_KT_TAIL@,
        Artifact::TypeKt => package_line(theme_package(pkg)) + TYPE_KT_BODY@,
    }
}

/// The rendered text files of one new project.
pub struct Sources {
    pub settings_gradle_kts: String,
    pub gradle_properties: String,
    pub root_gitignore: String,
    pub app_gitignore: String,
    pub root_build_gradle_kts: String,
    pub app_build_gradle_kts: String,
    pub libs_versions_toml: String,
    pub android_manifest_xml: String,
    pub resources_xml: String,
    pub main_activity_kt: String,
    pub color_kt: String,
    pub theme_kt: String,
    pub type_kt: String,
}

/// `a`, then `b`, as a new string.
fn concat2(a: &str, b: &str) -> (r: String)
    ensures
        r@ == a@ + b@,
{
    let mut r = String::from_str(a);
    r.append(b);
    r
}

/// `a`, `b`, then `c`, as a new string.
fn concat3(a: &str, b: &str, c: &str) -> (r: String)
    ensures
        r@ == a@ + b@ + c@,
{
    let mut r = concat2(a, b);
    r.append(c);
    r
}

/// The package declaration line for `ns`, or for its theme sub-package when `theme` holds.
fn package_decl(ns: &str, theme: bool) -> (r: String)
    ensures
        r@ == package_line(if theme { theme_package(ns@) } else { ns@ }),
{
    let mut r = concat2(PACKAGE_KEYWORD, ns);
    if theme {
        r.append(THEME_SUBPACKAGE);
    }
    r.append(LINE_BREAK);
    r
}

impl Sources {
    /// The text held for artifact `a`.
    pub open spec fn text_of(&self, a: Artifact) -> Seq<char> {
        match a {
            Artifact::SettingsGradleKts => self.settings_gradle_kts@,
            Artifact::GradleProperties => self.gradle_properties@,
            Artifact::RootGitignore => self.root_gitignore@,
            Artifact::AppGitignore => self.app_gitignore@,
            Artifact::RootBuildGradleKts => self.root_build_gradle_kts@,
            Artifact::AppBuildGradleKts => self.app_build_gradle_kts@,
            Artifact::LibsVersionsToml => self.libs_versions_toml@,
            Artifact::AndroidManifestXml => self.android_manifest_xml@,
            Artifact::ResourcesXml => self.resources_xml@,
            Artifact::MainActivityKt => self.main_activity_kt@,
            Artifact::ColorKt => self.color_kt@,
            Artifact::ThemeKt => self.theme_kt@,
            Artifact::TypeKt => self.type_kt@,
        }
    }

    /// Renders every artifact for display name `app_name` and package identifier `package_name`.
    pub fn generate(app_name: &str, package_name: &str) -> (r: Self)
        ensures
            forall|a: Artifact| #[trigger] r.text_of(a) == artifact_text(a, app_name@, package_name@),
    {
        let app_name_nospace = remove_spaces(app_name);
        let nospace = app_name_nospace.as_str();

        let settings_gradle_kts = concat3(SETTINGS_GRADLE_KTS_HEAD, app_name, SETTINGS_GRADLE_KTS_TAIL);
        let gradle_properties = String::from_str(GRADLE_PROPERTIES);
        let root_gitignore = String::from_str(ROOT_GITIGNORE);
        let app_gitignore = String::from_str(APP_GITIGNORE);
        let root_build_gradle_kts = String::from_str(ROOT_BUILD_GRADLE_KTS);

        let mut app_build_gradle_kts = concat3(APP_BUILD_GRADLE_KTS_HEAD, package_name, APP_BUILD_GRADLE_KTS_MID);
        app_build_gradle_kts.append(package_name);
        app_build_gradle_kts.append(APP_BUILD_GRADLE_KTS_TAIL);

        let libs_versions_toml = String::from_str(LIBS_VERSIONS_TOML);

        let mut android_manifest_xml = concat3(ANDROID_MANIFEST_XML_HEAD, THEME_STYLE_PREFIX, nospace);
        android_manifest_xml.append(ANDROID_MANIFEST_XML_TAIL);

        let mut resources_xml = concat3(RESOURCES_XML_HEAD, app_name, RESOURCES_XML_MID);
        resources_xml.append(THEME_STYLE_PREFIX);
        resources_xml.append(nospace);
        resources_xml.append(RESOURCES_XML_TAIL);

        let mut main_activity_kt = package_decl(package_name, false);
        main_activity_kt.append(MAIN_ACTIVITY_KT_IMPORTS);
        main_activity_kt.append(package_name);
        main_activity_kt.append(THEME_SUBPACKAGE);
        main_activity_kt.append(MEMBER_SEPARATOR);
        main_activity_kt.append(nospace);
        main_activity_kt.append(THEME_FN_SUFFIX);
        main_activity_kt.append(MAIN_ACTIVITY_KT_CLASS);
        main_activity_kt.append(nospace);
        main_activity_kt.append(THEME_FN_SUFFIX);
        main_activity_kt.append(MAIN_ACTIVITY_KT_TAIL);

        let mut color_kt = package_decl(package_name, true);
        color_kt.append(COLOR_KT_BODY);

        let mut theme_kt = package_decl(package_name, true);
        theme_kt.append(THEME_KT_HEAD);
        theme_kt.append(nospace);
        theme_kt.append(THEME_FN_SUFFIX);
        theme_kt.append(THEME_KT_TAIL);

        let mut type_kt = package_decl(package_name, true);
        type_kt.append(TYPE_KT_BODY);

        let r = Sources {
            settings_gradle_kts,
            gradle_properties,
            root_gitignore,
            app_gitignore,
            root_build_gradle_kts,
            app_build_gradle_kts,
            libs_versions_toml,
            android_manifest_xml,
            resources_xml,
            main_activity_kt,
            color_kt,
            theme_kt,
            type_kt,
        };
        r
    }

    /// The text held for artifact `a`.
    pub fn text(&self, a: Artifact) -> (r: &String)
        ensures
            r@ == self.text_of(a),
    {
        match a {
            Artifact::SettingsGradleKts => &self.settings_gradle_kts,
            Artifact::GradleProperties => &self.gradle_properties,
            Artifact::RootGitignore => &self.root_gitignore,
            Artifact::AppGitignore => &self.app_gitignore,
            Artifact::RootBuildGradleKts => &self.root_build_gradle_kts,
            Artifact::AppBuildGradleKts => &self.app_build_gradle_kts,
            Artifact::LibsVersionsToml => &self.libs_versions_toml,
            Artifact::AndroidManifestXml => &self.android_manifest_xml,
            Artifact::ResourcesXml => &self.resources_xml,
            Artifact::MainActivityKt => &self.main_activity_kt,
            Artifact::ColorKt => &self.color_kt,
            Artifact::ThemeKt => &self.theme_kt,
            Artifact::TypeKt => &self.type_kt,
        }
    }
}

} // verus!
