//! Verified text helpers: character tests, prefix and suffix tests,
//! whitespace tokenisation and decimal parsing, all specified over
//! `Seq<char>` views.
use vstd::prelude::*;
use vstd::string::*;

verus! {

/// `s` ends with `suffix`.
pub open spec fn spec_ends_with(s: Seq<char>, suffix: Seq<char>) -> bool {
    s.len() >= suffix.len() && s.subrange(s.len() - suffix.len(), s.len() as int) == suffix
}

/// `s` starts with `prefix`.
pub open spec fn spec_starts_with(s: Seq<char>, prefix: Seq<char>) -> bool {
    s.len() >= prefix.len() && s.subrange(0, prefix.len() as int) == prefix
}

/// Relies on `String::push` of std: appends one character at the end.
#[verifier::external_body]
pub fn push_char(s: &mut String, c: char)
    ensures
        final(s)@ == old(s)@.push(c),
{
    s.push(c);
}

/// Character-wise equality of two string slices.
pub fn str_eq(a: &str, b: &str) -> (r: bool)
    ensures
        r == (a@ == b@),
{
    let a_len = a.unicode_len();
    let b_len = b.unicode_len();
    if a_len != b_len {
        return false;
    }
    let mut i: usize = 0;
    while i < a_len
        invariant
            a_len == a@.len(),
            b_len == b@.len(),
            a_len == b_len,
            i <= a_len,
            forall|j: int| 0 <= j < i ==> a@[j] == b@[j],
        decreases a_len - i,
    {
        if a.get_char(i) != b.get_char(i) {
            return false;
        }
        i = i + 1;
    }
    proof {
        assert(a@ =~= b@);
    }
    true
}

/// `s` ends with `suffix`, checked character by character.
pub fn ends_with_str(s: &str, suffix: &str) -> (r: bool)
    ensures
        r == spec_ends_with(s@, suffix@),
{
    let s_len = s.unicode_len();
    let suf_len = suffix.unicode_len();
    if suf_len > s_len {
        return false;
    }
    let off = s_len - suf_len;
    let mut i: usize = 0;
    while i < suf_len
        invariant
            s_len == s@.len(),
            suf_len == suffix@.len(),
            suf_len <= s_len,
            off == s_len - suf_len,
            i <= suf_len,
            forall|j: int| 0 <= j < i ==> a_char_at(s@, off + j) == suffix@[j],
        decreases suf_len - i,
    {
        if s.get_char(off + i) != suffix.get_char(i) {
            assert(s@.subrange(s@.len() - suffix@.len(), s@.len() as int)[i as int] != suffix@[i as int]);
            return false;
        }
        i = i + 1;
    }
    proof {
        assert(s@.subrange(s@.len() - suffix@.len(), s@.len() as int) =~= suffix@);
    }
    true
}

/// The character of `s` at position `i` (a readable trigger for loop
/// invariants over offsets).
pub open spec fn a_char_at(s: Seq<char>, i: int) -> char {
    s[i]
}

/// An ASCII decimal digit.
pub open spec fn spec_is_digit(c: char) -> bool {
    48 <= c as u32 && c as u32 <= 57
}

/// The value of one decimal digit.
pub open spec fn spec_digit_val(c: char) -> nat {
    (c as u32 - 48) as nat
}

/// Every character of `s` is a decimal digit.
pub open spec fn spec_all_digits(s: Seq<char>) -> bool {
    forall|i: int| 0 <= i < s.len() ==> spec_is_digit(s[i])
}

/// The value of `s` read as a decimal numeral.
pub open spec fn spec_dec_val(s: Seq<char>) -> nat
    decreases s.len(),
{
    if s.len() == 0 {
        0
    } else {
        spec_dec_val(s.drop_last()) * 10 + spec_digit_val(s.last())
    }
}

/// A decimal numeral is at least as large as the one read from any of its
/// prefixes.
pub proof fn lemma_dec_val_prefix(s: Seq<char>, i: int)
    requires
        0 <= i <= s.len(),
    ensures
        spec_dec_val(s.take(i)) <= spec_dec_val(s),
    decreases s.len() - i,
{
    if i < s.len() {
        lemma_dec_val_prefix(s, i + 1);
        assert(s.take(i + 1).drop_last() =~= s.take(i));
        assert(spec_dec_val(s.take(i)) <= spec_dec_val(s.take(i + 1)));
    } else {
        assert(s.take(i) =~= s);
    }
}

/// Reads a decimal numeral. Returns the value exactly when `s` is a
/// nonempty run of digits whose value fits in a `u64`; `None` otherwise.
pub fn parse_u64(s: &str) -> (r: Option<u64>)
    ensures
        r is Some <==> (s@.len() > 0 && spec_all_digits(s@) && spec_dec_val(s@) <= u64::MAX),
        r matches Some(v) ==> v == spec_dec_val(s@),
{
    let len = s.unicode_len();
    if len == 0 {
        return None;
    }
    let mut val: u64 = 0;
    let mut i: usize = 0;
    proof {
        assert(s@.take(0) =~= Seq::<char>::empty());
    }
    while i < len
        invariant
            len == s@.len(),
            i <= len,
            spec_all_digits(s@.take(i as int)),
            val == spec_dec_val(s@.take(i as int)),
        decreases len - i,
    {
        let c = s.get_char(i);
        let u = c as u32;
        if !(48 <= u && u <= 57) {
            assert(!spec_is_digit(s@[i as int]));
            return None;
        }
        let d: u64 = (u - 48) as u64;
        let wide: u128 = (val as u128) * 10 + (d as u128);
        proof {
            assert(s@.take(i + 1).drop_last() =~= s@.take(i as int));
            assert(spec_dec_val(s@.take(i + 1)) == wide);
        }
        if wide > u64::MAX as u128 {
            proof {
                lemma_dec_val_prefix(s@, i + 1);
            }
            return None;
        }
        val = wide as u64;
        i = i + 1;
    }
    proof {
        assert(s@.take(len as int) =~= s@);
    }
    Some(val)
}

/// `s` is a nonempty run of digits whose value fits in a `u64`.
pub open spec fn spec_u64_numeral(s: Seq<char>) -> bool {
    s.len() > 0 && spec_all_digits(s) && spec_dec_val(s) <= u64::MAX
}

/// The decimal digits of `n`, most significant first, with no leading
/// zeros (`0` itself is the single digit `0`).
pub open spec fn spec_dec_digits(n: nat) -> Seq<char>
    decreases n,
{
    if n < 10 {
        seq![spec_dec_digit(n)]
    } else {
        spec_dec_digits(n / 10).push(spec_dec_digit(n % 10))
    }
}

/// The digit character of a value below 10.
pub open spec fn spec_dec_digit(d: nat) -> char {
    if d == 0 {
        '0'
    } else if d == 1 {
        '1'
    } else if d == 2 {
        '2'
    } else if d == 3 {
        '3'
    } else if d == 4 {
        '4'
    } else if d == 5 {
        '5'
    } else if d == 6 {
        '6'
    } else if d == 7 {
        '7'
    } else if d == 8 {
        '8'
    } else {
        '9'
    }
}

fn dec_digit(d: u64) -> (r: char)
    requires
        d < 10,
    ensures
        r == spec_dec_digit(d as nat),
{
    if d == 0 {
        '0'
    } else if d == 1 {
        '1'
    } else if d == 2 {
        '2'
    } else if d == 3 {
        '3'
    } else if d == 4 {
        '4'
    } else if d == 5 {
        '5'
    } else if d == 6 {
        '6'
    } else if d == 7 {
        '7'
    } else if d == 8 {
        '8'
    } else {
        '9'
    }
}

/// Appends the decimal digits of `n` to `out`.
fn push_dec(out: &mut String, n: u64)
    ensures
        final(out)@ == old(out)@ + spec_dec_digits(n as nat),
    decreases n,
{
    if n < 10 {
        push_char(out, dec_digit(n));
        proof {
            assert(old(out)@.push(spec_dec_digit(n as nat)) =~= old(out)@ + spec_dec_digits(
                n as nat,
            ));
        }
    } else {
        push_dec(out, n / 10);
        push_char(out, dec_digit(n % 10));
        proof {
            assert(old(out)@ + spec_dec_digits((n / 10) as nat).push(
                spec_dec_digit((n % 10) as nat),
            ) =~= old(out)@ + spec_dec_digits(n as nat));
        }
    }
}

/// Renders `n` as a decimal numeral.
pub fn u64_to_dec_string(n: u64) -> (r: String)
    ensures
        r@ == spec_dec_digits(n as nat),
{
    let mut out = String::new();
    push_dec(&mut out, n);
    proof {
        assert(Seq::<char>::empty() + spec_dec_digits(n as nat) =~= spec_dec_digits(n as nat));
    }
    out
}

/// `s` with every trailing whitespace character removed.
pub open spec fn spec_trim_end(s: Seq<char>) -> Seq<char>
    decreases s.len(),
{
    if s.len() == 0 {
        s
    } else if spec_is_ws(s.last()) {
        spec_trim_end(s.drop_last())
    } else {
        s
    }
}

/// After the last character that is not whitespace, only whitespace
/// follows; trimming keeps exactly the prefix up to that character.
proof fn lemma_trim_end_take(s: Seq<char>, end: int)
    requires
        0 <= end <= s.len(),
        forall|j: int| end <= j < s.len() ==> spec_is_ws(s[j]),
        end == 0 || !spec_is_ws(s[end - 1]),
    ensures
        spec_trim_end(s) == s.take(end),
    decreases s.len() - end,
{
    if end == s.len() {
        assert(s.take(end) =~= s);
    } else {
        lemma_trim_end_take(s.drop_last(), end);
        assert(s.drop_last().take(end) =~= s.take(end));
    }
}

/// Removes trailing whitespace.
pub fn trim_end_ws(s: &str) -> (r: String)
    ensures
        r@ == spec_trim_end(s@),
{
    let len = s.unicode_len();
    let mut end: usize = 0;
    let mut i: usize = 0;
    while i < len
        invariant
            len == s@.len(),
            i <= len,
            end <= i,
            end == 0 || !spec_is_ws(s@[end - 1]),
            forall|j: int| end <= j < i ==> spec_is_ws(s@[j]),
        decreases len - i,
    {
        let c = s.get_char(i);
        if !is_ws(c) {
            end = i + 1;
        }
        i = i + 1;
    }
    proof {
        lemma_trim_end_take(s@, end as int);
    }
    String::from_str(s.substring_char(0, end))
}

/// An ASCII whitespace character, the separators of the token syntax.
pub open spec fn spec_is_ws(c: char) -> bool {
    c == ' ' || c == '\t' || c == '\n' || c == '\r'
}

/// A pending token flushed to the output: nothing when it is empty.
pub open spec fn spec_flush(cur: Seq<char>) -> Seq<Seq<char>> {
    if cur.len() == 0 {
        Seq::empty()
    } else {
        seq![cur]
    }
}

/// The tokens of `s` after a pending partial token `cur`.
pub open spec fn spec_scan(s: Seq<char>, cur: Seq<char>) -> Seq<Seq<char>>
    decreases s.len(),
{
    if s.len() == 0 {
        spec_flush(cur)
    } else if spec_is_ws(s[0]) {
        spec_flush(cur) + spec_scan(s.drop_first(), Seq::empty())
    } else {
        spec_scan(s.drop_first(), cur.push(s[0]))
    }
}

/// The whitespace-separated tokens of `s`, in order.
pub open spec fn spec_tokens(s: Seq<char>) -> Seq<Seq<char>> {
    spec_scan(s, Seq::empty())
}

fn is_ws(c: char) -> (r: bool)
    ensures
        r == spec_is_ws(c),
{
    c == ' ' || c == '\t' || c == '\n' || c == '\r'
}

/// Splits `s` into its whitespace-separated tokens, in input order.
pub fn split_whitespace_tokens(s: &str) -> (r: Vec<String>)
    ensures
        r.deep_view() == spec_tokens(s@),
{
    let len = s.unicode_len();
    let mut out: Vec<String> = Vec::new();
    let mut cur = String::new();
    let mut i: usize = 0;
    proof {
        assert(s@.skip(0) =~= s@);
        assert(out.deep_view() =~= Seq::<Seq<char>>::empty());
    }
    while i < len
        invariant
            len == s@.len(),
            i <= len,
            spec_tokens(s@) == out.deep_view() + spec_scan(s@.skip(i as int), cur@),
        decreases len - i,
    {
        let ghost rest = s@.skip(i as int);
        let ghost out_before = out.deep_view();
        let ghost cur_before = cur@;
        let c = s.get_char(i);
        proof {
            assert(rest[0] == c);
            assert(rest.drop_first() =~= s@.skip(i + 1));
        }
        if is_ws(c) {
            if !cur.as_str().is_empty() {
                out.push(cur);
                cur = String::new();
                proof {
                    assert(out.deep_view() =~= out_before.push(cur_before));
                    assert(out_before.push(cur_before) =~= out_before + spec_flush(cur_before));
                }
            }
            proof {
                assert(cur@ =~= Seq::<char>::empty());
                assert(out.deep_view() =~= out_before + spec_flush(cur_before));
                assert(spec_scan(rest, cur_before) == spec_flush(cur_before) + spec_scan(
                    s@.skip(i + 1),
                    Seq::<char>::empty(),
                ));
                assert(out_before + (spec_flush(cur_before) + spec_scan(s@.skip(i + 1), Seq::<char>::empty()))
                    =~= (out_before + spec_flush(cur_before)) + spec_scan(s@.skip(i + 1), Seq::<char>::empty()));
                assert(spec_tokens(s@) == out.deep_view() + spec_scan(s@.skip(i + 1), cur@));
            }
        } else {
            push_char(&mut cur, c);
            proof {
                assert(spec_scan(rest, cur_before) == spec_scan(s@.skip(i + 1), cur_before.push(c)));
                assert(spec_tokens(s@) == out.deep_view() + spec_scan(s@.skip(i + 1), cur@));
            }
        }
        i = i + 1;
    }
    proof {
        assert(s@.skip(len as int) =~= Seq::<char>::empty());
    }
    let ghost out_before = out.deep_view();
    let ghost cur_before = cur@;
    if !cur.as_str().is_empty() {
        out.push(cur);
        proof {
            assert(out.deep_view() =~= out_before.push(cur_before));
            assert(out_before.push(cur_before) =~= out_before + spec_flush(cur_before));
        }
    }
    proof {
        assert(out.deep_view() =~= out_before + spec_flush(cur_before));
    }
    out
}

/// `s` starts with `prefix`, checked character by character.
pub fn starts_with_str(s: &str, prefix: &str) -> (r: bool)
    ensures
        r == spec_starts_with(s@, prefix@),
{
    let s_len = s.unicode_len();
    let pre_len = prefix.unicode_len();
    if pre_len > s_len {
        return false;
    }
    let mut i: usize = 0;
    while i < pre_len
        invariant
            s_len == s@.len(),
            pre_len == prefix@.len(),
            pre_len <= s_len,
            i <= pre_len,
            forall|j: int| 0 <= j < i ==> a_char_at(s@, j) == prefix@[j],
        decreases pre_len - i,
    {
        if s.get_char(i) != prefix.get_char(i) {
            assert(s@.subrange(0, prefix@.len() as int)[i as int] != prefix@[i as int]);
            return false;
        }
        i = i + 1;
    }
    proof {
        assert(s@.subrange(0, prefix@.len() as int) =~= prefix@);
    }
    true
}

} // verus!
