use vstd::prelude::*;

use crate::digits::{digit_char, digits, fixed_digits, push_char};

verus! {

/// Whether `b` is a printable ASCII character other than space.
pub open spec fn is_graphic(b: u8) -> bool {
    33 <= b <= 126
}

/// The standard abbreviation of the C0 control character `b` (0 to 31).
pub open spec fn control_name(b: u8) -> Seq<char> {
    match b {
        0 => "NUL"@,
        1 => "SOH"@,
        2 => "STX"@,
        3 => "ETX"@,
        4 => "EOT"@,
        5 => "ENQ"@,
        6 => "ACK"@,
        7 => "BEL"@,
        8 => "BS"@,
        9 => "HT"@,
        10 => "LF"@,
        11 => "VT"@,
        12 => "FF"@,
        13 => "CR"@,
        14 => "SO"@,
        15 => "SI"@,
        16 => "DLE"@,
        17 => "DC1"@,
        18 => "DC2"@,
        19 => "DC3"@,
        20 => "DC4"@,
        21 => "NAK"@,
        22 => "SYN"@,
        23 => "ETB"@,
        24 => "CAN"@,
        25 => "EM"@,
        26 => "SUB"@,
        27 => "ESC"@,
        28 => "FS"@,
        29 => "GS"@,
        30 => "RS"@,
        _ => "US"@,
    }
}

/// The symbolic label of a byte: a control abbreviation, `SPC`, `DEL`, the
/// printable character itself, or `...` for a byte outside ASCII.
pub open spec fn label(b: u8) -> Seq<char> {
    if is_graphic(b) {
        seq![b as char]
    } else if b < 32 {
        control_name(b)
    } else if b == 32 {
        "SPC"@
    } else if b == 127 {
        "DEL"@
    } else {
        "..."@
    }
}

/// The label as it stands in a table column: a printable character between
/// two spaces, any other label padded on the right to three characters.
pub open spec fn label_cell(b: u8) -> Seq<char> {
    if is_graphic(b) {
        seq![' ', b as char, ' ']
    } else if label(b).len() < 3 {
        label(b).push(' ')
    } else {
        label(b)
    }
}

/// Every label column is three characters wide.
pub proof fn lemma_label_cell_width(b: u8)
    ensures
        label_cell(b).len() == 3,
{
    reveal_strlit("NUL");
    reveal_strlit("SOH");
    reveal_strlit("STX");
    reveal_strlit("ETX");
    reveal_strlit("EOT");
    reveal_strlit("ENQ");
    reveal_strlit("ACK");
    reveal_strlit("BEL");
    reveal_strlit("BS");
    reveal_strlit("HT");
    reveal_strlit("LF");
    reveal_strlit("VT");
    reveal_strlit("FF");
    reveal_strlit("CR");
    reveal_strlit("SO");
    reveal_strlit("SI");
    reveal_strlit("DLE");
    reveal_strlit("DC1");
    reveal_strlit("DC2");
    reveal_strlit("DC3");
    reveal_strlit("DC4");
    reveal_strlit("NAK");
    reveal_strlit("SYN");
    reveal_strlit("ETB");
    reveal_strlit("CAN");
    reveal_strlit("EM");
    reveal_strlit("SUB");
    reveal_strlit("ESC");
    reveal_strlit("FS");
    reveal_strlit("GS");
    reveal_strlit("RS");
    reveal_strlit("US");
    reveal_strlit("SPC");
    reveal_strlit("DEL");
    reveal_strlit("...");
}

/// Two lower-case hexadecimal digits.
pub open spec fn hex_pair(b: u8) -> Seq<char> {
    digits(b as nat, 16, 2)
}

/// Three decimal digits, zero-padded.
pub open spec fn dec_triple(b: u8) -> Seq<char> {
    digits(b as nat, 10, 3)
}

/// Eight binary digits, most significant bit first.
pub open spec fn bin_octet(b: u8) -> Seq<char> {
    digits(b as nat, 2, 8)
}

/// One byte at one address, with its four renderings.
pub struct ByteRecord {
    pub address: usize,
    pub hex: String,
    pub dec: String,
    pub bin: String,
    pub label: String,
}

impl ByteRecord {
    /// Whether this record describes byte `b` at `address`.
    pub open spec fn describes(&self, address: int, b: u8) -> bool {
        &&& self.address == address
        &&& self.hex@ == hex_pair(b)
        &&& self.dec@ == dec_triple(b)
        &&& self.bin@ == bin_octet(b)
        &&& self.label@ == label(b)
    }
}

/// Executable counterpart of `control_name`.
fn control_abbreviation(b: u8) -> (r: &'static str)
    requires
        b < 32,
    ensures
        r@ == control_name(b),
{
    match b {
        0 => "NUL",
        1 => "SOH",
        2 => "STX",
        3 => "ETX",
        4 => "EOT",
        5 => "ENQ",
        6 => "ACK",
        7 => "BEL",
        8 => "BS",
        9 => "HT",
        10 => "LF",
        11 => "VT",
        12 => "FF",
        13 => "CR",
        14 => "SO",
        15 => "SI",
        16 => "DLE",
        17 => "DC1",
        18 => "DC2",
        19 => "DC3",
        20 => "DC4",
        21 => "NAK",
        22 => "SYN",
        23 => "ETB",
        24 => "CAN",
        25 => "EM",
        26 => "SUB",
        27 => "ESC",
        28 => "FS",
        29 => "GS",
        30 => "RS",
        _ => "US",
    }
}

/// The symbolic label of `b`.
pub fn ascii_label(b: u8) -> (r: String)
    ensures
        r@ == label(b),
{
    if 33 <= b && b <= 126 {
        let mut s = String::new();
        push_char(&mut s, b as char);
        assert(s@ =~= seq![b as char]);
        s
    } else if b < 32 {
        String::from_str(control_abbreviation(b))
    } else if b == 32 {
        String::from_str("SPC")
    } else if b == 127 {
        String::from_str("DEL")
    } else {
        String::from_str("...")
    }
}

/// The label of `b` padded for a table column.
pub fn label_column(b: u8) -> (r: String)
    ensures
        r@ == label_cell(b),
{
    if 33 <= b && b <= 126 {
        let mut s = String::new();
        push_char(&mut s, ' ');
        push_char(&mut s, b as char);
        push_char(&mut s, ' ');
        assert(s@ =~= seq![' ', b as char, ' ']);
        s
    } else {
        let mut s = ascii_label(b);
        if s.as_str().unicode_len() < 3 {
            push_char(&mut s, ' ');
        }
        s
    }
}

/// Describes the byte `b` found at `address`.
pub fn byte_record(address: usize, b: u8) -> (r: ByteRecord)
    ensures
        r.describes(address as int, b),
{
    ByteRecord {
        address,
        hex: fixed_digits(b as u64, 16, 2),
        dec: fixed_digits(b as u64, 10, 3),
        bin: fixed_digits(b as u64, 2, 8),
        label: ascii_label(b),
    }
}

/// Describes each of `bytes`, the first at `base` and each next one a byte
/// further: one record per byte, in order.
pub fn byte_records(base: usize, bytes: &[u8]) -> (r: Vec<ByteRecord>)
    requires
        base + bytes@.len() <= usize::MAX + 1,
    ensures
        r@.len() == bytes@.len(),
        forall|i: int| 0 <= i < bytes@.len() ==> #[trigger] r@[i].describes(base + i, bytes@[i]),
{
    let mut r: Vec<ByteRecord> = Vec::new();
    let mut i: usize = 0;
    while i < bytes.len()
        invariant
            base + bytes@.len() <= usize::MAX + 1,
            i <= bytes@.len(),
            r@.len() == i,
            forall|j: int| 0 <= j < i ==> #[trigger] r@[j].describes(base + j, bytes@[j]),
        decreases bytes@.len() - i,
    {
        r.push(byte_record(base + i, bytes[i]));
        i = i + 1;
    }
    r
}

/// The hex column of a table: the records' hex strings, one after another.
pub open spec fn hex_column(records: Seq<ByteRecord>) -> Seq<char>
    decreases records.len(),
{
    if records.len() == 0 {
        Seq::empty()
    } else {
        records[0].hex@ + hex_column(records.drop_first())
    }
}

/// The value of a hexadecimal digit (either case).
pub open spec fn hex_value(c: char) -> int {
    if '0' <= c <= '9' {
        c as int - 48
    } else if 'a' <= c <= 'f' {
        c as int - 87
    } else if 'A' <= c <= 'F' {
        c as int - 55
    } else {
        0
    }
}

/// Reads hexadecimal text two digits at a time, one byte per pair.
pub open spec fn decode_hex(s: Seq<char>) -> Seq<u8>
    decreases s.len(),
{
    if s.len() < 2 {
        Seq::empty()
    } else {
        seq![(hex_value(s[0]) * 16 + hex_value(s[1])) as u8] + decode_hex(s.subrange(2, s.len() as int))
    }
}

proof fn lemma_hex_pair_value(b: u8)
    ensures
        hex_pair(b).len() == 2,
        hex_value(hex_pair(b)[0]) * 16 + hex_value(hex_pair(b)[1]) == b,
{
    reveal_with_fuel(digits, 3);
    let hi = (b as nat / 16) % 16;
    let lo = b as nat % 16;
    assert(hex_pair(b) =~= seq![digit_char(hi as int), digit_char(lo as int)]);
    assert(hex_value(digit_char(hi as int)) == hi);
    assert(hex_value(digit_char(lo as int)) == lo);
}

/// Reading back the hex column of the records of a byte sequence gives that
/// byte sequence again.
pub proof fn lemma_hex_column_round_trip(records: Seq<ByteRecord>, base: int, bytes: Seq<u8>)
    requires
        records.len() == bytes.len(),
        forall|i: int| 0 <= i < bytes.len() ==> #[trigger] records[i].describes(base + i, bytes[i]),
    ensures
        decode_hex(hex_column(records)) == bytes,
    decreases bytes.len(),
{
    if bytes.len() == 0 {
        assert(bytes =~= Seq::<u8>::empty());
    } else {
        let rest = records.drop_first();
        assert forall|i: int| 0 <= i < bytes.drop_first().len() implies #[trigger] rest[i].describes(
            (base + 1) + i,
            bytes.drop_first()[i],
        ) by {
            assert(records[i + 1].describes(base + (i + 1), bytes[i + 1]));
        }
        lemma_hex_column_round_trip(rest, base + 1, bytes.drop_first());
        assert(records[0].describes(base + 0, bytes[0]));
        lemma_hex_pair_value(bytes[0]);
        let s = hex_column(records);
        assert(s == hex_pair(bytes[0]) + hex_column(rest));
        assert(s.subrange(2, s.len() as int) =~= hex_column(rest));
        assert(bytes =~= seq![bytes[0]] + bytes.drop_first());
    }
}

} // verus!
