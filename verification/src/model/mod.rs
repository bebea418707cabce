pub mod candidate;
pub mod category;
pub mod file_record;

pub use candidate::{format_size, GitRepoStatus, ReclaimCandidate};
pub use category::ArtifactCategory;
pub use file_record::FileRecord;
