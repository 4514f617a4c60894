//! State core of an icon showcase grid: a row collection kept in step with a
//! desired row count, and the display mode that every cell of the grid reads.

pub mod display;
pub mod grid;
pub mod laws;
pub mod rows;
pub mod sync;
