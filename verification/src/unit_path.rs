//! The manager's object path for a unit: the fixed unit namespace joined
//! with the unit name, encoded so that only ASCII alphanumerics, `/` and
//! `_` remain; every other character becomes `_` followed by the lowercase
//! hexadecimal of its code point.
use crate::text::push_char;
use vstd::prelude::*;
use vstd::string::*;

verus! {

/// Characters that the object-path encoding keeps as they are.
pub open spec fn spec_keep_char(c: char) -> bool {
    let u = c as u32;
    (48 <= u && u <= 57)  // '0'..'9'
    || (97 <= u && u <= 122)  // 'a'..'z'
    || (65 <= u && u <= 90)  // 'A'..'Z'
    || u == 47  // '/'
    || u == 95  // '_'
}

/// The lowercase hexadecimal digit for a value below 16.
pub open spec fn spec_hex_digit(d: nat) -> char {
    if d == 0 {
        '0'
    } else if d == 1 {
        '1'
    } else if d == 2 {
        '2'
    } else if d == 3 {
        '3'
    } else if d == 4 {
        '4'
    } else if d == 5 {
        '5'
    } else if d == 6 {
        '6'
    } else if d == 7 {
        '7'
    } else if d == 8 {
        '8'
    } else if d == 9 {
        '9'
    } else if d == 10 {
        'a'
    } else if d == 11 {
        'b'
    } else if d == 12 {
        'c'
    } else if d == 13 {
        'd'
    } else if d == 14 {
        'e'
    } else {
        'f'
    }
}

/// The lowercase hexadecimal digits of `n`, most significant first, with
/// no leading zeros (`0` itself is the single digit `0`).
pub open spec fn spec_hex(n: nat) -> Seq<char>
    decreases n,
{
    if n < 16 {
        seq![spec_hex_digit(n)]
    } else {
        spec_hex(n / 16).push(spec_hex_digit(n % 16))
    }
}

/// One character of the encoding: kept as is, or `_` followed by the
/// hexadecimal of its code point.
pub open spec fn spec_encode_char(c: char) -> Seq<char> {
    if spec_keep_char(c) {
        seq![c]
    } else {
        seq!['_'] + spec_hex(c as u32 as nat)
    }
}

/// The whole encoding, character by character.
pub open spec fn spec_encode(s: Seq<char>) -> Seq<char>
    decreases s.len(),
{
    if s.len() == 0 {
        Seq::empty()
    } else {
        spec_encode(s.drop_last()) + spec_encode_char(s.last())
    }
}

/// The fixed object-path namespace under which the manager exposes units.
pub open spec fn spec_unit_namespace() -> Seq<char> {
    "/org/freedesktop/systemd1/unit/"@
}

/// The object path of a unit: the fixed namespace plus the encoded name.
pub open spec fn spec_unit_path(full_name: Seq<char>) -> Seq<char> {
    spec_unit_namespace() + spec_encode(full_name)
}

fn hex_digit(d: u32) -> (r: char)
    requires
        d < 16,
    ensures
        r == spec_hex_digit(d as nat),
{
    if d == 0 {
        '0'
    } else if d == 1 {
        '1'
    } else if d == 2 {
        '2'
    } else if d == 3 {
        '3'
    } else if d == 4 {
        '4'
    } else if d == 5 {
        '5'
    } else if d == 6 {
        '6'
    } else if d == 7 {
        '7'
    } else if d == 8 {
        '8'
    } else if d == 9 {
        '9'
    } else if d == 10 {
        'a'
    } else if d == 11 {
        'b'
    } else if d == 12 {
        'c'
    } else if d == 13 {
        'd'
    } else if d == 14 {
        'e'
    } else {
        'f'
    }
}

/// Appends the hexadecimal digits of `n` to `out`.
fn push_hex(out: &mut String, n: u32)
    ensures
        final(out)@ == old(out)@ + spec_hex(n as nat),
    decreases n,
{
    if n < 16 {
        push_char(out, hex_digit(n));
        proof {
            assert(old(out)@.push(spec_hex_digit(n as nat)) =~= old(out)@ + spec_hex(n as nat));
        }
    } else {
        push_hex(out, n / 16);
        push_char(out, hex_digit(n % 16));
        proof {
            assert(old(out)@ + spec_hex((n / 16) as nat).push(spec_hex_digit((n % 16) as nat))
                =~= old(out)@ + spec_hex(n as nat));
        }
    }
}

fn keep_char(c: char) -> (r: bool)
    ensures
        r == spec_keep_char(c),
{
    let u = c as u32;
    (48 <= u && u <= 57) || (97 <= u && u <= 122) || (65 <= u && u <= 90) || u == 47 || u == 95
}

/// Encodes a name into the manager's object-path alphabet.
pub fn encode_as_dbus_object_path(input_string: &str) -> (r: String)
    ensures
        r@ == spec_encode(input_string@),
{
    let len = input_string.unicode_len();
    let mut out = String::new();
    let mut i: usize = 0;
    proof {
        assert(input_string@.take(0) =~= Seq::<char>::empty());
    }
    while i < len
        invariant
            len == input_string@.len(),
            i <= len,
            out@ == spec_encode(input_string@.take(i as int)),
        decreases len - i,
    {
        let ghost out_before = out@;
        let c = input_string.get_char(i);
        if keep_char(c) {
            push_char(&mut out, c);
            proof {
                assert(out@ =~= out_before + spec_encode_char(c));
            }
        } else {
            push_char(&mut out, '_');
            push_hex(&mut out, c as u32);
            proof {
                assert(out_before.push('_') + spec_hex(c as u32 as nat)
                    =~= out_before + spec_encode_char(c));
            }
        }
        proof {
            assert(input_string@.take(i + 1).drop_last() =~= input_string@.take(i as int));
            assert(input_string@.take(i + 1).last() == c);
        }
        i = i + 1;
    }
    proof {
        assert(input_string@.take(len as int) =~= input_string@);
    }
    out
}

/// The object path a unit is addressed by, derived from its full name.
pub fn get_unit_path(full_service_name: &str) -> (r: String)
    ensures
        r@ == spec_unit_path(full_service_name@),
{
    let prefix = String::from_str("/org/freedesktop/systemd1/unit/");
    let encoded = encode_as_dbus_object_path(full_service_name);
    prefix.concat(encoded.as_str())
}

} // verus!
