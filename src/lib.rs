//! Typed tables for the terminal: columns are declared with the type of the
//! values they hold, rows are heterogeneous lists whose cell types line up with
//! the columns, and a finished table is erased into a `tableau::Table` for
//! rendering.
use vstd::prelude::*;

pub mod backend;
pub mod laws;
pub mod sugar;
pub mod table;

pub use tableau::Style as TableStyle;
pub use sugar::{AppendToCells, AppendToColumns, AppendWith, Column, cell};
pub use table::{Cell, CellTypeExtractor, FromHet, Header, HeaderedTable, Table, UntypedHeader};
