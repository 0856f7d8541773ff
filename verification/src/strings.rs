//! Character-level string building: decimal rendering and the two pieces of
//! the standard library it rests on.
use vstd::prelude::*;

verus! {

/// Relies on `String::push`: appends exactly the one character to the end
/// of the string.
pub assume_specification[ String::push ](s: &mut String, c: char)
    ensures
        final(s)@ == old(s)@.push(c),
;

/// Relies on `char::from_u32`: yields the scalar value with the given code
/// point, and `None` exactly for surrogate code points and values beyond
/// the Unicode range.
pub assume_specification[ char::from_u32 ](v: u32) -> (r: Option<char>)
    ensures
        r is Some <==> (v < 0xD800 || (0xE000 <= v && v <= 0x10FFFF)),
        r matches Some(c) ==> c as u32 == v,
;

/// The decimal digit character for a value below ten.
pub open spec fn digit_char(d: int) -> char {
    if d == 0 {
        '0'
    } else if d == 1 {
        '1'
    } else if d == 2 {
        '2'
    } else if d == 3 {
        '3'
    } else if d == 4 {
        '4'
    } else if d == 5 {
        '5'
    } else if d == 6 {
        '6'
    } else if d == 7 {
        '7'
    } else if d == 8 {
        '8'
    } else {
        '9'
    }
}

/// The usual decimal rendering of a natural number, most significant digit
/// first, with no leading zeros (a single `'0'` for zero).
pub open spec fn dec_str(n: nat) -> Seq<char>
    decreases n,
{
    if n < 10 {
        seq![digit_char(n as int)]
    } else {
        dec_str(n / 10) + seq![digit_char((n % 10) as int)]
    }
}

fn digit_of(d: u64) -> (c: char)
    requires
        d < 10,
    ensures
        c == digit_char(d as int),
{
    if d == 0 {
        '0'
    } else if d == 1 {
        '1'
    } else if d == 2 {
        '2'
    } else if d == 3 {
        '3'
    } else if d == 4 {
        '4'
    } else if d == 5 {
        '5'
    } else if d == 6 {
        '6'
    } else if d == 7 {
        '7'
    } else if d == 8 {
        '8'
    } else {
        '9'
    }
}

/// Appends the decimal rendering of `n` to `out`.
pub fn append_dec_u64(out: &mut String, n: u64)
    ensures
        final(out)@ == old(out)@ + dec_str(n as nat),
    decreases n,
{
    if n < 10 {
        out.push(digit_of(n));
    } else {
        append_dec_u64(out, n / 10);
        out.push(digit_of(n % 10));
        proof {
            assert(old(out)@ + dec_str((n / 10) as nat) + seq![
                digit_char((n % 10) as int),
            ] =~= old(out)@ + dec_str(n as nat));
        }
    }
}

/// The decimal rendering of `n` as a string of its own.
pub fn dec_u64(n: u64) -> (r: String)
    ensures
        r@ == dec_str(n as nat),
{
    let mut r = String::new();
    append_dec_u64(&mut r, n);
    proof {
        assert(Seq::<char>::empty() + dec_str(n as nat) =~= dec_str(n as nat));
    }
    r
}

/// The decimal rendering of `n` left-padded with zeros to at least three
/// digits, as in the numbered artifact file names.
pub open spec fn dec3_str(n: nat) -> Seq<char> {
    if n < 10 {
        seq!['0', '0'] + dec_str(n)
    } else if n < 100 {
        seq!['0'] + dec_str(n)
    } else {
        dec_str(n)
    }
}

/// Appends the three-digit zero-padded rendering of `n` to `out`.
pub fn append_dec3_u64(out: &mut String, n: u64)
    ensures
        final(out)@ == old(out)@ + dec3_str(n as nat),
{
    if n < 10 {
        out.push('0');
        out.push('0');
    } else if n < 100 {
        out.push('0');
    }
    append_dec_u64(out, n);
    proof {
        assert(final(out)@ =~= old(out)@ + dec3_str(n as nat));
    }
}

/// The rendering of a millisecond count as seconds with one decimal place,
/// as in the progress messages (`"12.3"` for 12 350 milliseconds).
pub open spec fn secs_tenths_str(ms: nat) -> Seq<char> {
    dec_str(ms / 1000) + seq!['.'] + seq![digit_char(((ms % 1000) / 100) as int)]
}

/// Appends the seconds-with-tenths rendering of a millisecond count.
pub fn append_secs_tenths(out: &mut String, ms: u64)
    ensures
        final(out)@ == old(out)@ + secs_tenths_str(ms as nat),
{
    append_dec_u64(out, ms / 1000);
    out.push('.');
    out.push(digit_of((ms % 1000) / 100));
    proof {
        assert(final(out)@ =~= old(out)@ + secs_tenths_str(ms as nat));
    }
}

/// The rendering of a millisecond count as seconds with two decimal
/// places (`"12.35"` for 12 350 milliseconds).
pub open spec fn secs_hundredths_str(ms: nat) -> Seq<char> {
    dec_str(ms / 1000) + seq!['.'] + seq![
        digit_char(((ms % 1000) / 100) as int),
        digit_char((((ms % 1000) / 10) % 10) as int),
    ]
}

/// Appends the seconds-with-hundredths rendering of a millisecond count.
pub fn append_secs_hundredths(out: &mut String, ms: u64)
    ensures
        final(out)@ == old(out)@ + secs_hundredths_str(ms as nat),
{
    append_dec_u64(out, ms / 1000);
    out.push('.');
    out.push(digit_of((ms % 1000) / 100));
    out.push(digit_of(((ms % 1000) / 10) % 10));
    proof {
        assert(final(out)@ =~= old(out)@ + secs_hundredths_str(ms as nat));
    }
}

} // verus!
