pub mod faction;
pub mod reader;
pub mod snapshot;
pub mod types;
pub mod walk;

pub use reader::{MemoryReader, MemoryReaderError};
pub use types::MemorySnapshot;
