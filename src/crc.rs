use vstd::prelude::*;

verus! {

/// The CRC-32C code of a byte sequence, as the `crc32c` crate computes it.
pub uninterp spec fn crc32c_of(data: Seq<u8>) -> u32;

/// The lowercase hexadecimal digit for a value below sixteen.
pub open spec fn hex_digit(n: nat) -> char {
    if n < 10 {
        ('0' as nat + n) as char
    } else {
        ('a' as nat + (n - 10)) as char
    }
}

/// Whether `c` is one of the sixteen lowercase hexadecimal digits.
pub open spec fn is_hex_char(c: char) -> bool {
    ('0' <= c && c <= '9') || ('a' <= c && c <= 'f')
}

/// The `width` least significant hexadecimal digits of `v`, most significant first.
pub open spec fn hex_of(v: nat, width: nat) -> Seq<char>
    decreases width,
{
    if width == 0 {
        Seq::empty()
    } else {
        hex_of(v / 16, (width - 1) as nat).push(hex_digit(v % 16))
    }
}

/// The text that stands for a checksum: eight lowercase hexadecimal digits.
pub open spec fn checksum_text(code: u32) -> Seq<char> {
    hex_of(code as nat, 8)
}

/// Relies on crc32c::crc32c: the CRC-32C of the bytes, which depends on them alone.
#[verifier::external_body]
pub fn calculate(data: &[u8]) -> (r: u32)
    ensures
        r == crc32c_of(data@),
{
    crc32c::crc32c(data)
}

fn digit_text(n: u32) -> (r: String)
    requires
        n < 16,
    ensures
        r@ == seq![hex_digit(n as nat)],
{
    let digits = "0123456789abcdef";
    proof {
        reveal_strlit("0123456789abcdef");
    }
    let d = n as usize;
    let s = digits.substring_char(d, d + 1);
    let r = String::from_str(s);
    assert(r@ =~= seq![hex_digit(n as nat)]);
    r
}

fn hex_fill(v: u32, width: usize) -> (r: String)
    ensures
        r@ == hex_of(v as nat, width as nat),
    decreases width,
{
    if width == 0 {
        String::new()
    } else {
        let mut r = hex_fill(v / 16, width - 1);
        let d = digit_text(v % 16);
        r.append(d.as_str());
        assert(r@ =~= hex_of(v as nat, width as nat));
        r
    }
}

/// Renders a checksum as exactly eight lowercase hexadecimal digits, zero-padded.
pub fn format_hex(crc: u32) -> (r: String)
    ensures
        r@ == checksum_text(crc),
{
    hex_fill(crc, 8)
}

/// Every rendering of `width` digits has that length and holds hexadecimal digits only.
pub proof fn lemma_hex_of_shape(v: nat, width: nat)
    ensures
        hex_of(v, width).len() == width,
        forall|i: int| 0 <= i < width ==> is_hex_char(#[trigger] hex_of(v, width)[i]),
    decreases width,
{
    if width > 0 {
        lemma_hex_of_shape(v / 16, (width - 1) as nat);
        let n = v % 16;
        assert(is_hex_char(hex_digit(n)));
    }
}

/// For every byte sequence, the rendered checksum has length eight and holds
/// hexadecimal digits only.
pub proof fn lemma_checksum_text_is_hex(data: Seq<u8>)
    ensures
        checksum_text(crc32c_of(data)).len() == 8,
        forall|i: int|
            0 <= i < 8 ==> is_hex_char(#[trigger] checksum_text(crc32c_of(data))[i]),
{
    lemma_hex_of_shape(crc32c_of(data) as nat, 8);
}

} // verus!
