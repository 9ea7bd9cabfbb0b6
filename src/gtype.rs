//! The name of the function that registers a boxed type, derived from the
//! type's name (`GdkRGBA` is registered by `gdk_rgba_get_type`).

use vstd::prelude::*;

verus! {

/// Whether `c` has the Unicode `Uppercase` property, as `char::is_uppercase` reports it.
pub uninterp spec fn is_uppercase_char(c: char) -> bool;

/// Relies on `char::is_uppercase`: whether the character is uppercase.
#[verifier::external_body]
fn is_uppercase(c: char) -> (r: bool)
    ensures
        r == is_uppercase_char(c),
{
    c.is_uppercase()
}

/// Relies on `String::push`: appends one character.
#[verifier::external_body]
fn push_char(s: &mut String, c: char)
    ensures
        final(s)@ == old(s)@.push(c),
{
    s.push(c)
}

/// ASCII letters `A` to `Z` in lower case; every other character unchanged.
pub open spec fn ascii_lower(c: char) -> char {
    if 'A' <= c && c <= 'Z' {
        ((c as u32) + 32) as char
    } else {
        c
    }
}

fn to_ascii_lowercase(c: char) -> (r: char)
    ensures
        r == ascii_lower(c),
{
    if 'A' <= c && c <= 'Z' {
        ((c as u8) + 32) as char
    } else {
        c
    }
}

/// Each uppercase character becomes `_` (except at the start) followed by
/// its lower-case form; other characters are kept.
pub open spec fn snake_case(s: Seq<char>) -> Seq<char>
    decreases s.len(),
{
    if s.len() == 0 {
        Seq::empty()
    } else {
        let init = snake_case(s.drop_last());
        let c = s.last();
        if is_uppercase_char(c) {
            (if init.len() > 0 {
                init.push('_')
            } else {
                init
            }).push(ascii_lower(c))
        } else {
            init.push(c)
        }
    }
}

/// The name of the `*_get_type` function of a boxed type.
pub fn get_type_fn_name(name: &str) -> (r: String)
    ensures
        r@ == snake_case(name@) + "_get_type"@,
{
    let n = name.unicode_len();
    let mut out = String::new();
    let mut i: usize = 0;
    while i < n
        invariant
            n as nat == name@.len(),
            0 <= i <= n,
            out@ == snake_case(name@.take(i as int)),
        decreases n - i,
    {
        proof {
            assert(name@.take(i as int + 1).drop_last() =~= name@.take(i as int));
        }
        let c = name.get_char(i);
        if is_uppercase(c) {
            if out.unicode_len() > 0 {
                push_char(&mut out, '_');
            }
            push_char(&mut out, to_ascii_lowercase(c));
        } else {
            push_char(&mut out, c);
        }
        i += 1;
    }
    proof {
        assert(name@.take(n as int) =~= name@);
    }
    out.append("_get_type");
    out
}

} // verus!
