//! Localized, structured errors.
//!
//! An error is named by a short code. A catalog holds, for each code, the
//! message template of each locale; a template may hold placeholders of the
//! form `[name]`. Making a [`StandardError`] resolves its code in the
//! catalog under the current locale, and values given later are
//! interpolated into the resolved template. Adapters turn the errors of
//! other libraries into errors of this one.
//!
//! Nothing here is global: the catalog and the locale context are values
//! that the caller holds and passes in.
//!
//! Every function is verified against its contract. The contracts speak of
//! mathematical views: a string is the sequence of its characters, a map the
//! mathematical map, an error its [`error::ErrorView`]. What is taken on
//! trust from other crates is gathered in [`foreign`].

pub mod adapters;
pub mod assoc;
pub mod catalog;
pub mod conf;
pub mod defaults;
pub mod error;
pub mod foreign;
pub mod interpolation;
pub mod loader;
pub mod locale;
pub mod response;
pub mod string_map;
pub mod text;

pub use catalog::StandardErrorMessages;
pub use conf::Settings;
pub use defaults::default_error_messages;
pub use error::{Interpolate, StandardError, Status};
pub use locale::{get_current_locale, set_current_locale, LocaleContext};
pub use string_map::StringMap;
