//! Text rendering: decimal numbers, the wire form of a response, and the
//! log blocks for a request and a response.

use vstd::prelude::*;
use vstd::string::StringExecFns;
use vstd::string::StrSliceExecFns;
use vstd::utf8::encode_utf8;
use crate::content::HttpResponse;
use crate::text::push_char;

verus! {

broadcast use vstd::slice::group_slice_axioms;

/// The character of one decimal digit.
pub open spec fn dec_digit(d: nat) -> char {
    if d == 0 {
        '0'
    } else if d == 1 {
        '1'
    } else if d == 2 {
        '2'
    } else if d == 3 {
        '3'
    } else if d == 4 {
        '4'
    } else if d == 5 {
        '5'
    } else if d == 6 {
        '6'
    } else if d == 7 {
        '7'
    } else if d == 8 {
        '8'
    } else {
        '9'
    }
}

/// The decimal rendering of `n`, most significant digit first, without
/// leading zeros (a single `0` for zero).
pub open spec fn dec_of(n: nat) -> Seq<char>
    decreases n,
{
    if n < 10 {
        seq![dec_digit(n)]
    } else {
        dec_of(n / 10).push(dec_digit(n % 10))
    }
}

/// The character of the digit `d`.
fn digit_char(d: usize) -> (c: char)
    requires
        d < 10,
    ensures
        c == dec_digit(d as nat),
{
    if d == 0 {
        '0'
    } else if d == 1 {
        '1'
    } else if d == 2 {
        '2'
    } else if d == 3 {
        '3'
    } else if d == 4 {
        '4'
    } else if d == 5 {
        '5'
    } else if d == 6 {
        '6'
    } else if d == 7 {
        '7'
    } else if d == 8 {
        '8'
    } else {
        '9'
    }
}

/// Renders `n` in decimal.
pub fn usize_to_string(n: usize) -> (r: String)
    ensures
        r@ == dec_of(n as nat),
{
    let mut digits: Vec<char> = Vec::new();
    let mut m: usize = n;
    if m < 10 {
        let mut r = String::new();
        push_char(&mut r, digit_char(m));
        proof {
            assert(r@ =~= dec_of(n as nat));
        }
        return r;
    }
    proof {
        assert(dec_of(n as nat) + digits@.reverse() =~= dec_of(n as nat));
    }
    while m > 0
        invariant
            m > 0 ==> dec_of(n as nat) == dec_of(m as nat) + digits@.reverse(),
            m == 0 ==> dec_of(n as nat) == digits@.reverse(),
        decreases m,
    {
        let ghost old_digits = digits@;
        let ghost old_m = m as nat;
        let d = digit_char(m % 10);
        digits.push(d);
        m = m / 10;
        proof {
            assert(digits@.reverse() =~= seq![dec_digit(old_m % 10)] + old_digits.reverse());
            if m > 0 {
                assert(dec_of(old_m) == dec_of(old_m / 10).push(dec_digit(old_m % 10)));
                assert(dec_of(old_m / 10).push(dec_digit(old_m % 10)) + old_digits.reverse() =~= dec_of(
                    old_m / 10,
                ) + (seq![dec_digit(old_m % 10)] + old_digits.reverse()));
            } else {
                assert(old_m % 10 == old_m);
                assert(dec_of(old_m) + old_digits.reverse() =~= seq![dec_digit(old_m % 10)]
                    + old_digits.reverse());
            }
        }
    }
    let mut r = String::new();
    let mut i: usize = digits.len();
    proof {
        assert(r@ =~= digits@.reverse().subrange(0, (digits@.len() - i) as int));
    }
    while i > 0
        invariant
            i <= digits@.len(),
            dec_of(n as nat) == digits@.reverse(),
            r@ == digits@.reverse().subrange(0, (digits@.len() - i) as int),
        decreases i,
    {
        i -= 1;
        push_char(&mut r, digits[i]);
        proof {
            assert(r@ =~= digits@.reverse().subrange(0, (digits@.len() - i) as int));
        }
    }
    proof {
        assert(r@ =~= dec_of(n as nat));
    }
    r
}

/// The number of bytes of the UTF-8 form of `s`.
pub open spec fn byte_len(s: Seq<char>) -> nat {
    encode_utf8(s).len()
}

/// The characters put on the wire for a response: the status line, a
/// Content-Length header over the body's byte length, a blank line, and
/// the body.
pub open spec fn wire_of(status: Seq<char>, content: Seq<char>) -> Seq<char> {
    status + "\r\nContent-Length: "@ + dec_of(byte_len(content)) + "\r\n\r\n"@ + content
}

/// Renders a response in its wire form.
pub fn render_response(response: &HttpResponse) -> (r: String)
    ensures
        r@ == wire_of(response.status@, response.content@),
{
    let length = response.content.as_str().as_bytes().len();
    response.status.clone().concat("\r\nContent-Length: ").concat(
        usize_to_string(length).as_str(),
    ).concat("\r\n\r\n").concat(response.content.as_str())
}

} // verus!
