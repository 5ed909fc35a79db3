//! Inspection of an application's configuration variables: the declared
//! variables, their effective values under environment overrides, and the
//! expansion of `{{ key }}` placeholders in manifest fields.

pub mod env_provider;
pub mod expand;
pub mod format;
pub mod manifest;
pub mod resolver;
pub mod source;
pub mod table;
pub mod template;
pub mod text;
pub mod variable;
