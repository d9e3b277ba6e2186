use vstd::prelude::*;

verus! {

/// Bytes of preamble before the marker of a source document.
pub const PREAMBLE_LEN: u64 = 128;

/// The four bytes that follow the preamble of a source document.
pub open spec fn dicom_marker() -> Seq<u8> {
    seq![0x44u8, 0x49u8, 0x43u8, 0x4du8]
}

/// The four bytes that open a zip archive's local file header.
pub open spec fn zip_signature() -> Seq<u8> {
    seq![0x50u8, 0x4bu8, 0x03u8, 0x04u8]
}

fn equals_four(bytes: &[u8], a: u8, b: u8, c: u8, d: u8) -> (r: bool)
    ensures
        r == (bytes@ == seq![a, b, c, d]),
{
    if bytes.len() != 4 {
        assert(bytes@.len() != seq![a, b, c, d].len());
        return false;
    }
    let r = bytes[0] == a && bytes[1] == b && bytes[2] == c && bytes[3] == d;
    if r {
        assert(bytes@ =~= seq![a, b, c, d]);
    } else {
        assert(exists|k: int| 0 <= k < 4 && bytes@[k] != seq![a, b, c, d][k]);
    }
    r
}

/// Whether the bytes read just after the preamble are the document marker ("DICM").
pub fn is_dicom_marker(bytes: &[u8]) -> (r: bool)
    ensures
        r == (bytes@ == dicom_marker()),
{
    equals_four(bytes, 0x44, 0x49, 0x43, 0x4d)
}

/// Whether the first bytes of a file are a zip archive's signature ("PK\x03\x04").
pub fn is_zip_signature(bytes: &[u8]) -> (r: bool)
    ensures
        r == (bytes@ == zip_signature()),
{
    equals_four(bytes, 0x50, 0x4b, 0x03, 0x04)
}

} // verus!
