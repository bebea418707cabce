use vstd::prelude::*;
use vstd::string::StringExecFns;
use crate::classifier::rules::{found, has_ext_child, has_plain_ext_child, plain_children, verdict_view};
use crate::model::category::ArtifactCategory;
use crate::model::file_record::FileRecord;
use crate::scanner::index::{IndexView, ScanIndex};
use crate::text::{has_substring, has_suffix, lowercase, str_contains, str_ends_with, str_eq, to_lowercase};

verus! {

/// Recognizes .NET `obj`/`bin` output, Gradle, Maven and NuGet caches.
pub struct DotnetJavaRule;

/// The parent holds a .NET project file.
pub open spec fn has_dotnet_project(v: IndexView, parent: u64) -> bool {
    has_ext_child(v, parent, "csproj"@) || has_ext_child(v, parent, "fsproj"@) || has_ext_child(
        v,
        parent,
        "vbproj"@,
    )
}

/// What the .NET / Java rule can match without looking at file extensions.
pub open spec fn dotnet_java_possible(r: FileRecord) -> bool {
    let name = lowercase(r.name@);
    let path = lowercase(r.path@);
    r.is_dir && (name == "obj"@ || name == "bin"@ || name == ".gradle"@ || has_suffix(path, ".m2/repository"@)
        || has_suffix(path, ".m2\\repository"@) || (name == "packages"@ && has_substring(path, ".nuget"@))
        || has_suffix(path, ".nuget/packages"@) || has_suffix(path, ".nuget\\packages"@))
}

/// The parent holds a .NET project file with a plain file name.
pub open spec fn has_plain_dotnet_project(v: IndexView, parent: u64) -> bool {
    has_plain_ext_child(v, parent, "csproj"@) || has_plain_ext_child(v, parent, "fsproj"@) || has_plain_ext_child(
        v,
        parent,
        "vbproj"@,
    )
}

/// The verdict for a .NET build folder (`obj` or `bin`).
pub open spec fn dotnet_build_verdict(r: FileRecord) -> Option<(ArtifactCategory, Seq<char>)> {
    Some((ArtifactCategory::VisualStudio, ".NET compilation intermediate '"@ + lowercase(r.name@) + "/' directory (rebuilt via dotnet build)"@))
}

/// A .NET build folder by its name.
pub open spec fn is_dotnet_build_dir(r: FileRecord) -> bool {
    r.is_dir && (lowercase(r.name@) == "obj"@ || lowercase(r.name@) == "bin"@)
}

/// The verdict of the .NET / Java rule.
pub open spec fn dotnet_java_verdict(v: IndexView, r: FileRecord) -> Option<(ArtifactCategory, Seq<char>)> {
    if is_dotnet_build_dir(r) && has_dotnet_project(v, r.parent_id) {
        dotnet_build_verdict(r)
    } else {
        java_cache_verdict(r)
    }
}

/// The verdict of the .NET / Java rule past the build-folder test: Gradle,
/// Maven and NuGet caches.
pub open spec fn java_cache_verdict(r: FileRecord) -> Option<(ArtifactCategory, Seq<char>)> {
    let name = lowercase(r.name@);
    let path = lowercase(r.path@);
    if !r.is_dir {
        None
    } else if name == ".gradle"@ {
        Some((ArtifactCategory::GradleCache, "Gradle build cache and artifact store (re-downloadable via gradle build)"@))
    } else if has_suffix(path, ".m2/repository"@) || has_suffix(path, ".m2\\repository"@) {
        Some((ArtifactCategory::MavenCache, "Maven local dependency cache (re-downloadable via mvn compile)"@))
    } else if (name == "packages"@ && has_substring(path, ".nuget"@)) || has_suffix(path, ".nuget/packages"@)
        || has_suffix(path, ".nuget\\packages"@) {
        Some((ArtifactCategory::NugetCache, "NuGet global package cache (re-downloadable via dotnet restore)"@))
    } else {
        None
    }
}

/// Every `.gradle` directory (any case that lower-cases to it) is a Gradle
/// cache, whatever lies beside it; no file is a .NET or Java artifact.
pub proof fn law_gradle_cache_is_recognized(v: IndexView, r: FileRecord)
    ensures
        r.is_dir && lowercase(r.name@) == ".gradle"@ ==> dotnet_java_verdict(v, r) == Some(
            (ArtifactCategory::GradleCache, "Gradle build cache and artifact store (re-downloadable via gradle build)"@),
        ),
        !r.is_dir ==> dotnet_java_verdict(v, r) is None,
{
    reveal_strlit(".gradle");
    reveal_strlit("obj");
    reveal_strlit("bin");
}

/// The rule's other answers, in their order: `obj` or `bin` beside a .NET
/// project file is build output; otherwise a directory whose lower-cased path
/// ends with `.m2/repository` (either separator) is the Maven cache; otherwise
/// one named `packages` under a `.nuget` path, or whose path ends with
/// `.nuget/packages` (either separator), is the NuGet cache; any other
/// directory gets no verdict.
pub proof fn law_dotnet_java_answers(v: IndexView, r: FileRecord)
    ensures
        r.is_dir && (lowercase(r.name@) == "obj"@ || lowercase(r.name@) == "bin"@) && (has_ext_child(
            v,
            r.parent_id,
            "csproj"@,
        ) || has_ext_child(v, r.parent_id, "fsproj"@) || has_ext_child(v, r.parent_id, "vbproj"@))
            ==> dotnet_java_verdict(v, r) == Some(
            (
                ArtifactCategory::VisualStudio,
                ".NET compilation intermediate '"@ + lowercase(r.name@) + "/' directory (rebuilt via dotnet build)"@,
            ),
        ),
        ({
            let name = lowercase(r.name@);
            let path = lowercase(r.path@);
            &&& r.is_dir
            &&& name != ".gradle"@
            &&& !((name == "obj"@ || name == "bin"@) && has_dotnet_project(v, r.parent_id))
            &&& (has_suffix(path, ".m2/repository"@) || has_suffix(path, ".m2\\repository"@))
        }) ==> dotnet_java_verdict(v, r) == Some(
            (ArtifactCategory::MavenCache, "Maven local dependency cache (re-downloadable via mvn compile)"@),
        ),
        ({
            let name = lowercase(r.name@);
            let path = lowercase(r.path@);
            &&& r.is_dir
            &&& name != ".gradle"@
            &&& !((name == "obj"@ || name == "bin"@) && has_dotnet_project(v, r.parent_id))
            &&& !has_suffix(path, ".m2/repository"@)
            &&& !has_suffix(path, ".m2\\repository"@)
            &&& ((name == "packages"@ && has_substring(path, ".nuget"@)) || has_suffix(path, ".nuget/packages"@)
                || has_suffix(path, ".nuget\\packages"@))
        }) ==> dotnet_java_verdict(v, r) == Some(
            (ArtifactCategory::NugetCache, "NuGet global package cache (re-downloadable via dotnet restore)"@),
        ),
        ({
            let name = lowercase(r.name@);
            let path = lowercase(r.path@);
            &&& !((name == "obj"@ || name == "bin"@) && has_dotnet_project(v, r.parent_id))
            &&& name != ".gradle"@
            &&& !has_suffix(path, ".m2/repository"@)
            &&& !has_suffix(path, ".m2\\repository"@)
            &&& !(name == "packages"@ && has_substring(path, ".nuget"@))
            &&& !has_suffix(path, ".nuget/packages"@)
            &&& !has_suffix(path, ".nuget\\packages"@)
        }) ==> dotnet_java_verdict(v, r) is None,
{
}

impl DotnetJavaRule {
    pub fn name(&self) -> (r: &'static str)
        ensures
            r@ == ".NET, Java, and Maven Caches"@,
    {
        ".NET, Java, and Maven Caches"
    }

    /// `obj`/`bin` next to a `.csproj`/`.fsproj`/`.vbproj`, `.gradle`, a path ending
    /// in `.m2/repository`, or a NuGet package folder.  The project-file test reads
    /// the extensions of the parent's children, so for `obj` and `bin` the verdict
    /// is stated when their names are plain file names.
    pub fn evaluate(&self, index: &ScanIndex, record: &FileRecord) -> (r: Option<(ArtifactCategory, String)>)
        ensures
            (lowercase(record.name@) != "obj"@ && lowercase(record.name@) != "bin"@) || plain_children(
                index@,
                record.parent_id,
            ) ==> verdict_view(r) == dotnet_java_verdict(index@, *record),
            r is Some ==> dotnet_java_possible(*record),
            record.is_dir && lowercase(record.name@) == ".gradle"@ ==> verdict_view(r) == Some(
                (ArtifactCategory::GradleCache, "Gradle build cache and artifact store (re-downloadable via gradle build)"@),
            ),
            is_dotnet_build_dir(*record) && has_plain_dotnet_project(index@, record.parent_id) ==> verdict_view(r)
                == dotnet_build_verdict(*record),
            verdict_view(r) == dotnet_java_verdict(index@, *record) || (is_dotnet_build_dir(*record) && (verdict_view(r)
                == dotnet_build_verdict(*record) || verdict_view(r) == java_cache_verdict(*record))),
    {
        proof {
            law_gradle_cache_is_recognized(index@, *record);
            reveal_strlit(".gradle");
            reveal_strlit("obj");
            reveal_strlit("bin");
        }
        if !record.is_dir {
            return None;
        }
        let name = to_lowercase(record.name.as_str());
        if str_eq(name.as_str(), "obj") || str_eq(name.as_str(), "bin") {
            let parent_id = record.parent_id;
            if index.has_child_with_extension(parent_id, "csproj") || index.has_child_with_extension(
                parent_id,
                "fsproj",
            ) || index.has_child_with_extension(parent_id, "vbproj") {
                let mut reason = String::from_str(".NET compilation intermediate '");
                reason.append(name.as_str());
                reason.append("/' directory (rebuilt via dotnet build)");
                return Some((ArtifactCategory::VisualStudio, reason));
            }
        }
        if str_eq(name.as_str(), ".gradle") {
            return found(
                ArtifactCategory::GradleCache,
                "Gradle build cache and artifact store (re-downloadable via gradle build)",
            );
        }
        let path_str = to_lowercase(record.path.as_str());
        if str_ends_with(path_str.as_str(), ".m2/repository") || str_ends_with(
            path_str.as_str(),
            ".m2\\repository",
        ) {
            return found(
                ArtifactCategory::MavenCache,
                "Maven local dependency cache (re-downloadable via mvn compile)",
            );
        }
        if (str_eq(name.as_str(), "packages") && str_contains(path_str.as_str(), ".nuget"))
            || str_ends_with(path_str.as_str(), ".nuget/packages") || str_ends_with(
            path_str.as_str(),
            ".nuget\\packages",
        ) {
            return found(
                ArtifactCategory::NugetCache,
                "NuGet global package cache (re-downloadable via dotnet restore)",
            );
        }
        None
    }
}

} // verus!
