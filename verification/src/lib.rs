//! A small generic resource cache: each distinct key is loaded at most once
//! through a caller-supplied loader, and every later request for an equal key
//! shares the handle that the first successful load produced.

pub mod cache;
pub mod keys;
pub mod loader;

pub use cache::ResourceManager;
pub use keys::CacheKey;
pub use keys::FontDetails;
pub use loader::ResourceLoader;
