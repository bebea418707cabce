pub mod classifier;
pub mod cleaner;
pub mod model;
pub mod output;
pub mod paths;
pub mod safety;
pub mod scanner;
pub mod text;

pub use classifier::ClassifierPipeline;
pub use cleaner::{CleanExecutor, CleanReport};
pub use model::{ArtifactCategory, FileRecord, GitRepoStatus, ReclaimCandidate};
pub use output::ScanResultJson;
pub use safety::SafetyPipeline;
pub use scanner::ScanIndex;
