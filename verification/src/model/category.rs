use vstd::prelude::*;

verus! {

/// The kinds of reclaimable artifacts the classifier recognizes.
#[derive(Debug, Clone, Copy, PartialEq, Eq, Structural, Hash)]
pub enum ArtifactCategory {
    // --- Consumer-first categories ---
    /// Old setup files left in Downloads
    StaleInstaller,
    /// Windows Update package leftovers
    WindowsUpdate,
    /// Browser caches (Chrome, Edge, Firefox, Brave)
    BrowserCache,
    /// App caches (Discord, Spotify, Teams, Slack, etc.)
    AppCache,
    /// Windows Temp folder junk
    TempFiles,
    /// Game launcher caches (Steam, Epic, GOG)
    GameCache,
    /// Crash dumps & diagnostic logs
    CrashDumps,
    // --- Developer / power user categories ---
    /// Node.js node_modules
    NodeModules,
    /// Rust target/ build directory
    RustTarget,
    /// Python virtual environment
    PythonVenv,
    /// Python __pycache__
    PythonCache,
    /// Gradle build cache
    GradleCache,
    /// Maven .m2 local repo
    MavenCache,
    /// NuGet global package cache
    NugetCache,
    /// Visual Studio bin/obj/.vs
    VisualStudio,
    /// JetBrains .idea cache
    JetBrains,
    /// Unity Library/Temp
    Unity,
}

/// The friendly name of each category.
pub open spec fn display_name_of(c: ArtifactCategory) -> Seq<char> {
    match c {
        ArtifactCategory::StaleInstaller => "Old Setup Files"@,
        ArtifactCategory::WindowsUpdate => "Windows Update Leftovers"@,
        ArtifactCategory::BrowserCache => "Web Browser Cache"@,
        ArtifactCategory::AppCache => "App Junk & Offline Cache"@,
        ArtifactCategory::TempFiles => "Temporary Files"@,
        ArtifactCategory::GameCache => "Game Launcher Cache"@,
        ArtifactCategory::CrashDumps => "Crash Reports & Logs"@,
        ArtifactCategory::NodeModules => "Node.js Project Files"@,
        ArtifactCategory::RustTarget => "Rust Build Files"@,
        ArtifactCategory::PythonVenv => "Python Project Environment"@,
        ArtifactCategory::PythonCache => "Python Bytecode Cache"@,
        ArtifactCategory::GradleCache => "Java/Android Build Cache"@,
        ArtifactCategory::MavenCache => "Java Package Cache"@,
        ArtifactCategory::NugetCache => ".NET Package Cache"@,
        ArtifactCategory::VisualStudio => "Visual Studio Build Files"@,
        ArtifactCategory::JetBrains => "JetBrains IDE Cache"@,
        ArtifactCategory::Unity => "Unity Game Build Cache"@,
    }
}

/// The one-sentence description of each category.
pub open spec fn description_of(c: ArtifactCategory) -> Seq<char> {
    match c {
        ArtifactCategory::StaleInstaller => "Old .exe and .msi setup files in your Downloads folder that you probably already installed."@,
        ArtifactCategory::WindowsUpdate => "Leftover Windows update packages and old Windows backup folders that are safe to remove."@,
        ArtifactCategory::BrowserCache => "Temporary web page data saved by Chrome, Edge, Firefox, or Brave. Frees space without losing bookmarks or passwords."@,
        ArtifactCategory::AppCache => "Offline data and media caches from apps like Discord, Spotify, or Teams. The app will re-download what it needs."@,
        ArtifactCategory::TempFiles => "Files in the Windows Temp folder that programs left behind. All safe to delete."@,
        ArtifactCategory::GameCache => "Shader and download caches from Steam, Epic Games, or GOG. Games may take slightly longer to load once after cleaning."@,
        ArtifactCategory::CrashDumps => "Crash report files and diagnostic logs from previous app crashes. You can safely delete these."@,
        ArtifactCategory::NodeModules => "Re-downloadable JavaScript packages for software projects (node_modules). Run 'npm install' to restore."@,
        ArtifactCategory::RustTarget => "Compiled Rust build output in the target/ folder. Rebuilt automatically when you run 'cargo build'."@,
        ArtifactCategory::PythonVenv => "Python project environment folder. Recreate with 'python -m venv' if needed."@,
        ArtifactCategory::PythonCache => "__pycache__ folders with compiled Python files. Regenerated automatically on next run."@,
        ArtifactCategory::GradleCache => "Gradle build and dependency cache for Java or Android projects."@,
        ArtifactCategory::MavenCache => "Maven local repository (.m2) with downloaded Java libraries."@,
        ArtifactCategory::NugetCache => "NuGet global package cache. Packages are re-downloaded from the internet when needed."@,
        ArtifactCategory::VisualStudio => "Visual Studio build output (bin/, obj/) and IntelliSense index (.vs/). Rebuilt by Visual Studio."@,
        ArtifactCategory::JetBrains => "JetBrains IDE index and workspace cache (.idea/). Rebuilt when you reopen the project."@,
        ArtifactCategory::Unity => "Unity game engine build cache (Library/, Temp/). Regenerated on next Unity project open."@,
    }
}

/// The icon shown beside each category.
pub open spec fn icon_glyph_of(c: ArtifactCategory) -> Seq<char> {
    match c {
        ArtifactCategory::StaleInstaller => "💾"@,
        ArtifactCategory::WindowsUpdate => "🪟"@,
        ArtifactCategory::BrowserCache => "🌐"@,
        ArtifactCategory::AppCache => "📱"@,
        ArtifactCategory::TempFiles => "🗑️"@,
        ArtifactCategory::GameCache => "🎮"@,
        ArtifactCategory::CrashDumps => "🐛"@,
        ArtifactCategory::NodeModules => "📦"@,
        ArtifactCategory::RustTarget => "🦀"@,
        ArtifactCategory::PythonVenv => "🐍"@,
        ArtifactCategory::PythonCache => "⚡"@,
        ArtifactCategory::GradleCache => "🐘"@,
        ArtifactCategory::MavenCache => "🪶"@,
        ArtifactCategory::NugetCache => "🔷"@,
        ArtifactCategory::VisualStudio => "🟣"@,
        ArtifactCategory::JetBrains => "🧠"@,
        ArtifactCategory::Unity => "🕹️"@,
    }
}

/// The categories aimed at general consumers rather than developers.
pub open spec fn is_consumer_category(c: ArtifactCategory) -> bool {
    match c {
        ArtifactCategory::StaleInstaller | ArtifactCategory::WindowsUpdate
        | ArtifactCategory::BrowserCache | ArtifactCategory::AppCache
        | ArtifactCategory::TempFiles | ArtifactCategory::GameCache
        | ArtifactCategory::CrashDumps => true,
        _ => false,
    }
}

impl ArtifactCategory {
    /// Friendly, plain-English name shown in the primary UI.
    pub fn display_name(&self) -> (r: &'static str)
        ensures
            r@ == display_name_of(*self),
    {
        match self {
            ArtifactCategory::StaleInstaller => "Old Setup Files",
            ArtifactCategory::WindowsUpdate => "Windows Update Leftovers",
            ArtifactCategory::BrowserCache => "Web Browser Cache",
            ArtifactCategory::AppCache => "App Junk & Offline Cache",
            ArtifactCategory::TempFiles => "Temporary Files",
            ArtifactCategory::GameCache => "Game Launcher Cache",
            ArtifactCategory::CrashDumps => "Crash Reports & Logs",
            ArtifactCategory::NodeModules => "Node.js Project Files",
            ArtifactCategory::RustTarget => "Rust Build Files",
            ArtifactCategory::PythonVenv => "Python Project Environment",
            ArtifactCategory::PythonCache => "Python Bytecode Cache",
            ArtifactCategory::GradleCache => "Java/Android Build Cache",
            ArtifactCategory::MavenCache => "Java Package Cache",
            ArtifactCategory::NugetCache => ".NET Package Cache",
            ArtifactCategory::VisualStudio => "Visual Studio Build Files",
            ArtifactCategory::JetBrains => "JetBrains IDE Cache",
            ArtifactCategory::Unity => "Unity Game Build Cache",
        }
    }

    /// One-sentence, jargon-free description for the detail view.
    pub fn description(&self) -> (r: &'static str)
        ensures
            r@ == description_of(*self),
    {
        match self {
            ArtifactCategory::StaleInstaller => "Old .exe and .msi setup files in your Downloads folder that you probably already installed.",
            ArtifactCategory::WindowsUpdate => "Leftover Windows update packages and old Windows backup folders that are safe to remove.",
            ArtifactCategory::BrowserCache => "Temporary web page data saved by Chrome, Edge, Firefox, or Brave. Frees space without losing bookmarks or passwords.",
            ArtifactCategory::AppCache => "Offline data and media caches from apps like Discord, Spotify, or Teams. The app will re-download what it needs.",
            ArtifactCategory::TempFiles => "Files in the Windows Temp folder that programs left behind. All safe to delete.",
            ArtifactCategory::GameCache => "Shader and download caches from Steam, Epic Games, or GOG. Games may take slightly longer to load once after cleaning.",
            ArtifactCategory::CrashDumps => "Crash report files and diagnostic logs from previous app crashes. You can safely delete these.",
            ArtifactCategory::NodeModules => "Re-downloadable JavaScript packages for software projects (node_modules). Run 'npm install' to restore.",
            ArtifactCategory::RustTarget => "Compiled Rust build output in the target/ folder. Rebuilt automatically when you run 'cargo build'.",
            ArtifactCategory::PythonVenv => "Python project environment folder. Recreate with 'python -m venv' if needed.",
            ArtifactCategory::PythonCache => "__pycache__ folders with compiled Python files. Regenerated automatically on next run.",
            ArtifactCategory::GradleCache => "Gradle build and dependency cache for Java or Android projects.",
            ArtifactCategory::MavenCache => "Maven local repository (.m2) with downloaded Java libraries.",
            ArtifactCategory::NugetCache => "NuGet global package cache. Packages are re-downloaded from the internet when needed.",
            ArtifactCategory::VisualStudio => "Visual Studio build output (bin/, obj/) and IntelliSense index (.vs/). Rebuilt by Visual Studio.",
            ArtifactCategory::JetBrains => "JetBrains IDE index and workspace cache (.idea/). Rebuilt when you reopen the project.",
            ArtifactCategory::Unity => "Unity game engine build cache (Library/, Temp/). Regenerated on next Unity project open.",
        }
    }

    /// Whether this category is primarily aimed at general consumers (not developers).
    pub fn is_consumer(&self) -> (r: bool)
        ensures
            r == is_consumer_category(*self),
    {
        match self {
            ArtifactCategory::StaleInstaller | ArtifactCategory::WindowsUpdate
            | ArtifactCategory::BrowserCache | ArtifactCategory::AppCache
            | ArtifactCategory::TempFiles | ArtifactCategory::GameCache
            | ArtifactCategory::CrashDumps => true,
            _ => false,
        }
    }

    /// The icon glyph shown next to the category.
    pub fn icon_glyph(&self) -> (r: &'static str)
        ensures
            r@ == icon_glyph_of(*self),
    {
        match self {
            ArtifactCategory::StaleInstaller => "💾",
            ArtifactCategory::WindowsUpdate => "🪟",
            ArtifactCategory::BrowserCache => "🌐",
            ArtifactCategory::AppCache => "📱",
            ArtifactCategory::TempFiles => "🗑️",
            ArtifactCategory::GameCache => "🎮",
            ArtifactCategory::CrashDumps => "🐛",
            ArtifactCategory::NodeModules => "📦",
            ArtifactCategory::RustTarget => "🦀",
            ArtifactCategory::PythonVenv => "🐍",
            ArtifactCategory::PythonCache => "⚡",
            ArtifactCategory::GradleCache => "🐘",
            ArtifactCategory::MavenCache => "🪶",
            ArtifactCategory::NugetCache => "🔷",
            ArtifactCategory::VisualStudio => "🟣",
            ArtifactCategory::JetBrains => "🧠",
            ArtifactCategory::Unity => "🕹️",
        }
    }
}

} // verus!
