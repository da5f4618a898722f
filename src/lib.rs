//! Extraction of typed game-content records from a store of tagged objects,
//! with localized-text resolution and condition rendering.
pub mod enums;
pub mod text;
pub mod condition;
pub mod table;
pub mod lang;
pub mod codec;
pub mod entries;
pub mod localization;
pub mod records;
pub mod store;
pub mod extract;
pub mod datasets;
