use vstd::prelude::*;
use vstd::string::StringExecFns;
use crate::classifier::rules::{found, has_named_child, verdict_view};
use crate::model::category::ArtifactCategory;
use crate::model::file_record::FileRecord;
use crate::scanner::index::{IndexView, ScanIndex};
use crate::text::{lowercase, str_eq, to_lowercase};

verus! {

/// Recognizes `__pycache__` folders and virtual environments next to a project manifest.
pub struct PythonRule;

/// Names used for virtual environment folders (lower case).
pub open spec fn venv_name(n: Seq<char>) -> bool {
    n == ".venv"@ || n == "venv"@ || n == "env"@ || n == ".env_py"@
}

/// The parent holds a Python project manifest.
pub open spec fn has_python_manifest(v: IndexView, parent: u64) -> bool {
    has_named_child(v, parent, "pyproject.toml"@) || has_named_child(v, parent, "requirements.txt"@)
        || has_named_child(v, parent, "Pipfile"@) || has_named_child(v, parent, "setup.py"@)
}

/// The verdict of the Python rule.
pub open spec fn python_verdict(v: IndexView, r: FileRecord) -> Option<(ArtifactCategory, Seq<char>)> {
    let name = lowercase(r.name@);
    if !r.is_dir {
        None
    } else if name == "__pycache__"@ {
        Some((ArtifactCategory::PythonCache, "Python bytecode cache folder (regenerated automatically on execution)"@))
    } else if venv_name(name) && has_python_manifest(v, r.parent_id) {
        Some((ArtifactCategory::PythonVenv, "Python virtual environment '"@ + name + "' next to project manifest"@))
    } else {
        None
    }
}

/// Every `__pycache__` directory is a bytecode cache; a directory named
/// `.venv`, `venv`, `env` or `.env_py` beside `pyproject.toml`,
/// `requirements.txt`, `Pipfile` or `setup.py` is a virtual environment,
/// named in the reason; a file never gets a verdict.
pub proof fn law_python_caches_and_environments(v: IndexView, r: FileRecord)
    ensures
        r.is_dir && lowercase(r.name@) == "__pycache__"@ ==> python_verdict(v, r) == Some(
            (ArtifactCategory::PythonCache, "Python bytecode cache folder (regenerated automatically on execution)"@),
        ),
        r.is_dir && (lowercase(r.name@) == ".venv"@ || lowercase(r.name@) == "venv"@ || lowercase(r.name@) == "env"@
            || lowercase(r.name@) == ".env_py"@) && (has_named_child(v, r.parent_id, "pyproject.toml"@)
            || has_named_child(v, r.parent_id, "requirements.txt"@) || has_named_child(v, r.parent_id, "Pipfile"@)
            || has_named_child(v, r.parent_id, "setup.py"@)) ==> python_verdict(v, r) == Some(
            (
                ArtifactCategory::PythonVenv,
                "Python virtual environment '"@ + lowercase(r.name@) + "' next to project manifest"@,
            ),
        ),
        !r.is_dir ==> python_verdict(v, r) is None,
{
    reveal_strlit("__pycache__");
    reveal_strlit(".venv");
    reveal_strlit("venv");
    reveal_strlit("env");
    reveal_strlit(".env_py");
}

impl PythonRule {
    pub fn name(&self) -> (r: &'static str)
        ensures
            r@ == "Python Artifacts"@,
    {
        "Python Artifacts"
    }

    /// `__pycache__` directories, and `.venv`/`venv`/`env`/`.env_py` directories
    /// whose parent has `pyproject.toml`, `requirements.txt`, `Pipfile` or `setup.py`.
    pub fn evaluate(&self, index: &ScanIndex, record: &FileRecord) -> (r: Option<(ArtifactCategory, String)>)
        ensures
            verdict_view(r) == python_verdict(index@, *record),
    {
        if !record.is_dir {
            return None;
        }
        let name = to_lowercase(record.name.as_str());
        if str_eq(name.as_str(), "__pycache__") {
            return found(
                ArtifactCategory::PythonCache,
                "Python bytecode cache folder (regenerated automatically on execution)",
            );
        }
        if str_eq(name.as_str(), ".venv") || str_eq(name.as_str(), "venv") || str_eq(name.as_str(), "env")
            || str_eq(name.as_str(), ".env_py") {
            let parent_id = record.parent_id;
            if index.has_child_with_name(parent_id, "pyproject.toml") || index.has_child_with_name(
                parent_id,
                "requirements.txt",
            ) || index.has_child_with_name(parent_id, "Pipfile") || index.has_child_with_name(
                parent_id,
                "setup.py",
            ) {
                let mut reason = String::from_str("Python virtual environment '");
                reason.append(name.as_str());
                reason.append("' next to project manifest");
                return Some((ArtifactCategory::PythonVenv, reason));
            }
        }
        None
    }
}

} // verus!
