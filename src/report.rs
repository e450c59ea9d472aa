use vstd::prelude::*;

use crate::byte_record::{bin_octet, byte_record, dec_triple, hex_pair, label_cell, label_column};
use crate::digits::{decimal, decimal_string, digits, fixed_digits, push_char};

verus! {

/// The two table layouts: one over live memory, one over an isolation buffer.
#[derive(Clone, Copy, PartialEq, Eq, Debug)]
pub enum TableKind {
    Memory,
    Container,
}

/// An address as sixteen lower-case hexadecimal digits.
pub open spec fn address_hex(a: int) -> Seq<char> {
    digits(a as nat, 16, 16)
}

/// The column titles of a table.
pub open spec fn header(kind: TableKind) -> Seq<char> {
    match kind {
        TableKind::Memory => "     Address      | Hex | Dec |    Bin   | ASCII"@,
        TableKind::Container => "     Address     | Hex | Dec |    Bin   | ASCII"@,
    }
}

/// The line under the column titles.
pub open spec fn divider(kind: TableKind) -> Seq<char> {
    match kind {
        TableKind::Memory => "-----------------Memory Content-----------------"@,
        TableKind::Container => "---------------Container Content---------------"@,
    }
}

/// What opens a row, before the address.
pub open spec fn row_lead(kind: TableKind) -> Seq<char> {
    match kind {
        TableKind::Memory => " "@,
        TableKind::Container => ""@,
    }
}

/// What stands between the binary column and the label.
pub open spec fn label_gap(kind: TableKind) -> Seq<char> {
    match kind {
        TableKind::Memory => " |  "@,
        TableKind::Container => " | "@,
    }
}

/// The line of a table for byte `b` at `address`.
pub open spec fn row(kind: TableKind, address: int, b: u8) -> Seq<char> {
    row_lead(kind) + address_hex(address) + " | "@ + hex_pair(b) + "  | "@ + dec_triple(b) + " | "@
        + bin_octet(b) + label_gap(kind) + label_cell(b) + seq!['\n']
}

/// The lines of a table for `bytes`, the first at `base`.
pub open spec fn rows(kind: TableKind, base: int, bytes: Seq<u8>) -> Seq<char>
    decreases bytes.len(),
{
    if bytes.len() == 0 {
        Seq::empty()
    } else {
        rows(kind, base, bytes.drop_last()) + row(kind, base + bytes.len() - 1, bytes.last())
    }
}

/// A whole table: header, divider, one line per byte, then an empty line.
pub open spec fn table(kind: TableKind, base: int, bytes: Seq<u8>) -> Seq<char> {
    header(kind) + seq!['\n'] + divider(kind) + seq!['\n'] + rows(kind, base, bytes) + seq!['\n']
}

fn header_text(kind: TableKind) -> (r: &'static str)
    ensures
        r@ == header(kind),
{
    match kind {
        TableKind::Memory => "     Address      | Hex | Dec |    Bin   | ASCII",
        TableKind::Container => "     Address     | Hex | Dec |    Bin   | ASCII",
    }
}

fn divider_text(kind: TableKind) -> (r: &'static str)
    ensures
        r@ == divider(kind),
{
    match kind {
        TableKind::Memory => "-----------------Memory Content-----------------",
        TableKind::Container => "---------------Container Content---------------",
    }
}

fn row_lead_text(kind: TableKind) -> (r: &'static str)
    ensures
        r@ == row_lead(kind),
{
    match kind {
        TableKind::Memory => " ",
        TableKind::Container => "",
    }
}

fn label_gap_text(kind: TableKind) -> (r: &'static str)
    ensures
        r@ == label_gap(kind),
{
    match kind {
        TableKind::Memory => " |  ",
        TableKind::Container => " | ",
    }
}

/// Writes an address as sixteen hexadecimal digits.
pub fn address_text(a: usize) -> (r: String)
    ensures
        r@ == address_hex(a as int),
{
    fixed_digits(a as u64, 16, 16)
}

/// Appends the line for byte `b` at `address`.
fn append_row(s: &mut String, kind: TableKind, address: usize, b: u8)
    ensures
        final(s)@ == old(s)@ + row(kind, address as int, b),
{
    let rec = byte_record(address, b);
    s.append(row_lead_text(kind));
    s.append(address_text(address).as_str());
    s.append(" | ");
    s.append(rec.hex.as_str());
    s.append("  | ");
    s.append(rec.dec.as_str());
    s.append(" | ");
    s.append(rec.bin.as_str());
    s.append(label_gap_text(kind));
    s.append(label_column(b).as_str());
    push_char(s, '\n');
    assert(final(s)@ =~= old(s)@ + row(kind, address as int, b));
}

/// Renders the table of `bytes`, the first of which stands at `base`.
pub fn render_table(kind: TableKind, base: usize, bytes: &[u8]) -> (r: String)
    requires
        base + bytes@.len() <= usize::MAX + 1,
    ensures
        r@ == table(kind, base as int, bytes@),
{
    let mut s = String::new();
    s.append(header_text(kind));
    push_char(&mut s, '\n');
    s.append(divider_text(kind));
    push_char(&mut s, '\n');
    let ghost head = s@;
    let mut i: usize = 0;
    while i < bytes.len()
        invariant
            base + bytes@.len() <= usize::MAX + 1,
            i <= bytes@.len(),
            s@ == head + rows(kind, base as int, bytes@.subrange(0, i as int)),
        decreases bytes@.len() - i,
    {
        append_row(&mut s, kind, base + i, bytes[i]);
        proof {
            let next = bytes@.subrange(0, i + 1);
            assert(next.drop_last() =~= bytes@.subrange(0, i as int));
            assert(s@ =~= head + rows(kind, base as int, next));
        }
        i = i + 1;
    }
    push_char(&mut s, '\n');
    assert(bytes@.subrange(0, bytes@.len() as int) =~= bytes@);
    assert(s@ =~= table(kind, base as int, bytes@));
    s
}

/// The report on a value read in place: name, type, address and size, then
/// the table of its bytes.
pub open spec fn memory_report_text(name: Seq<char>, ty: Seq<char>, address: int, bytes: Seq<u8>) -> Seq<char> {
    "Name: "@ + name + seq!['\n'] + "Type: "@ + ty + seq!['\n'] + "Addr: "@ + address_hex(address)
        + seq!['\n'] + "Size: "@ + decimal(bytes.len()) + " bytes"@ + seq!['\n'] + table(TableKind::Memory, address, bytes)
}

/// The report on a value seen through its isolation buffer: name, type,
/// address and size of the value, where the buffer stands and how long it is,
/// then the table of the buffer's bytes.
pub open spec fn container_report_text(
    name: Seq<char>,
    ty: Seq<char>,
    address: int,
    size: nat,
    container_address: int,
    container: Seq<u8>,
) -> Seq<char> {
    "Name         : "@ + name + seq!['\n'] + "Type         : "@ + ty + seq!['\n'] + "Addr         : "@
        + address_hex(address) + seq!['\n'] + "Size         : "@ + decimal(size) + " bytes"@ + seq!['\n']
        + "Container Ptr: "@ + address_hex(container_address) + seq!['\n'] + "Container Len: "@ + decimal(
        container.len(),
    ) + seq!['\n'] + table(TableKind::Container, container_address, container)
}

/// Renders the report on the bytes of a value read in place at `address`.
pub fn memory_report(name: &str, ty: &str, address: usize, bytes: &[u8]) -> (r: String)
    requires
        address + bytes@.len() <= usize::MAX + 1,
    ensures
        r@ == memory_report_text(name@, ty@, address as int, bytes@),
{
    let mut s = String::new();
    s.append("Name: ");
    s.append(name);
    push_char(&mut s, '\n');
    s.append("Type: ");
    s.append(ty);
    push_char(&mut s, '\n');
    s.append("Addr: ");
    s.append(address_text(address).as_str());
    push_char(&mut s, '\n');
    s.append("Size: ");
    s.append(decimal_string(bytes.len() as u64).as_str());
    s.append(" bytes");
    push_char(&mut s, '\n');
    s.append(render_table(TableKind::Memory, address, bytes).as_str());
    assert(s@ =~= memory_report_text(name@, ty@, address as int, bytes@));
    s
}

/// Renders the report on a value of in-memory size `size` at `address`,
/// whose isolation buffer `container` stands at `container_address`.
pub fn container_report(
    name: &str,
    ty: &str,
    address: usize,
    size: usize,
    container_address: usize,
    container: &[u8],
) -> (r: String)
    requires
        container_address + container@.len() <= usize::MAX + 1,
    ensures
        r@ == container_report_text(
            name@,
            ty@,
            address as int,
            size as nat,
            container_address as int,
            container@,
        ),
{
    let mut s = String::new();
    s.append("Name         : ");
    s.append(name);
    push_char(&mut s, '\n');
    s.append("Type         : ");
    s.append(ty);
    push_char(&mut s, '\n');
    s.append("Addr         : ");
    s.append(address_text(address).as_str());
    push_char(&mut s, '\n');
    s.append("Size         : ");
    s.append(decimal_string(size as u64).as_str());
    s.append(" bytes");
    push_char(&mut s, '\n');
    s.append("Container Ptr: ");
    s.append(address_text(container_address).as_str());
    push_char(&mut s, '\n');
    s.append("Container Len: ");
    s.append(decimal_string(container.len() as u64).as_str());
    push_char(&mut s, '\n');
    s.append(render_table(TableKind::Container, container_address, container).as_str());
    assert(s@ =~= container_report_text(
        name@,
        ty@,
        address as int,
        size as nat,
        container_address as int,
        container@,
    ));
    s
}

/// A type name with a leading reference sigil `&` taken off.
pub open spec fn strip_reference(ty: Seq<char>) -> Seq<char> {
    if ty.len() > 0 && ty[0] == '&' {
        ty.drop_first()
    } else {
        ty
    }
}

/// The name of the type behind a reference, from the name of the reference
/// type.
pub fn type_label(ty: &str) -> (r: String)
    ensures
        r@ == strip_reference(ty@),
{
    let n = ty.unicode_len();
    if n > 0 && ty.get_char(0) == '&' {
        let rest = ty.substring_char(1, n);
        assert(rest@ =~= ty@.drop_first());
        String::from_str(rest)
    } else {
        String::from_str(ty)
    }
}

} // verus!
