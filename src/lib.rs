//! Renders the bytes of a value as a table of hexadecimal, decimal, binary
//! and ASCII columns, either as they stand in memory or as they come out of a
//! length-prefixed binary encoding of the value.
use vstd::prelude::*;

pub mod byte_record;
pub mod digits;
pub mod isolation;
pub mod report;
pub mod type_tag;

pub use byte_record::{ascii_label, byte_record, byte_records, label_column, ByteRecord};
pub use digits::{decimal_string, fixed_digits};
pub use isolation::{
    isolate_bytes, isolate_str, isolate_u16, isolate_u64, isolation_buffer, IsolationError, HEADER_LEN,
};
pub use report::{address_text, container_report, memory_report, render_table, type_label, TableKind};
pub use type_tag::{_get_type_of, TypeTag};

verus! {

} // verus!
