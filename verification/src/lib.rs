//! Memoizing lookup layer for freedesktop-style icon themes.
//!
//! An [`Icons`] value is the uncached index: the set of named themes (each an
//! immutable graph of directories and parent themes) plus the standalone
//! icons used as a last-resort fallback. [`IconsCache`] mirrors that index
//! with one [`ThemeCache`] per theme; lookups through the cache are proved to
//! return exactly what the uncached lookup on the same index returns.

pub mod cache;
pub mod icons;
pub mod laws;
pub mod memo;
pub mod theme;

pub use cache::IconsCache;
pub use cache::ThemeCache;
pub use icons::Icons;
pub use theme::Directory;
pub use theme::DirectoryRef;
pub use theme::IconFile;
pub use theme::Theme;
