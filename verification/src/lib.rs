//! Localization of the interface: display languages, message catalogs read
//! from `key = value` resources, and a translator that falls back from the
//! chosen language to English and from English to the key itself.

pub mod catalog;
pub mod keys;
pub mod locale;
pub mod manager;
pub mod placeholders;
pub mod text;

pub use catalog::Catalog;
pub use keys::I18nKey;
pub use locale::Locale;
pub use manager::{I18n, LoadError};
