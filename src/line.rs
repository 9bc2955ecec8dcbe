use vstd::prelude::*;

verus! {

/// ASCII code of the digit zero.
pub const DIGIT_ZERO: u8 = 48;

/// The decimal digits of `n`, most significant first, with no leading zeros.
pub open spec fn decimal(n: nat) -> Seq<u8>
    decreases n,
{
    if n < 10 {
        seq![(DIGIT_ZERO + n) as u8]
    } else {
        decimal(n / 10).push((DIGIT_ZERO + n % 10) as u8)
    }
}

/// The header line of the output stream: `code,time` and a newline.
pub open spec fn header_bytes() -> Seq<u8> {
    seq![99u8, 111u8, 100u8, 101u8, 44u8, 116u8, 105u8, 109u8, 101u8, 10u8]
}

/// One output row: the code, a comma, the time, a newline.
pub open spec fn row_bytes(code: nat, time: nat) -> Seq<u8> {
    decimal(code) + seq![44u8] + decimal(time) + seq![10u8]
}

/// A decimal rendering is never empty.
pub proof fn lemma_decimal_nonempty(n: nat)
    ensures
        decimal(n).len() > 0,
    decreases n,
{
    if n >= 10 {
        lemma_decimal_nonempty(n / 10);
    }
}

/// Appends the decimal digits of `n` to `out`.
fn push_decimal(out: &mut Vec<u8>, n: u32)
    ensures
        final(out)@ == old(out)@ + decimal(n as nat),
    decreases n,
{
    if n < 10 {
        out.push(DIGIT_ZERO + n as u8);
        assert(final(out)@ =~= old(out)@ + decimal(n as nat));
    } else {
        push_decimal(out, n / 10);
        out.push(DIGIT_ZERO + (n % 10) as u8);
        assert(final(out)@ =~= old(out)@ + decimal(n as nat));
    }
}

/// The header line, `code,time`, as bytes.
pub fn header_line() -> (r: Vec<u8>)
    ensures
        r@ == header_bytes(),
{
    let r = vec![99u8, 111u8, 100u8, 101u8, 44u8, 116u8, 105u8, 109u8, 101u8, 10u8];
    assert(r@ =~= header_bytes());
    r
}

/// The output row for a key code and a time, as bytes.
pub fn row_line(code: u32, time: u32) -> (r: Vec<u8>)
    ensures
        r@ == row_bytes(code as nat, time as nat),
{
    let mut r: Vec<u8> = Vec::new();
    push_decimal(&mut r, code);
    r.push(44u8);
    push_decimal(&mut r, time);
    r.push(10u8);
    assert(r@ =~= row_bytes(code as nat, time as nat));
    r
}

} // verus!
