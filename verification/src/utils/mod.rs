pub mod bytes;
pub mod shared_memory;
pub mod text;

pub use shared_memory::InMemoryOpener;
pub use shared_memory::InMemoryRegion;
pub use shared_memory::SharedMemory;
pub use shared_memory::SharedMemoryError;
pub use shared_memory::SharedMemoryOpener;
