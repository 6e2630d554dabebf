//! A composable builder for SQL statement text.
//!
//! Statements are assembled from structured fragments through fluent builders and
//! rendered to text in a fixed clause order. Nothing is executed, quoted or escaped:
//! every fragment is taken verbatim.

pub mod builder;
pub mod common;
pub mod insert;
pub mod query;
pub mod select;
pub mod text;
pub mod update;
pub mod where_cl;

pub use builder::Builder;
pub use common::{AsStr, Pusheable, Subquery, ToSQL};
pub use insert::Insert;
pub use query::Query;
pub use select::Select;
pub use update::Update;
pub use where_cl::{Condition, Where};
