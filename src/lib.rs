//! Bookkeeping and layout arithmetic for a table widget and a size-constraint
//! wrapper. Lengths are integer layout units; the host toolkit measures the
//! child widgets and this library decides how they are sized and placed.
pub mod geometry;
pub mod laws;
pub mod size_constraint;
pub mod table;

pub use geometry::{Constraints, Extent, Limit};
pub use size_constraint::{ChildBox, SizeConstraint};
pub use table::{Arrangement, RowChange, Table};
