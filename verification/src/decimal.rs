//! Decimal rendering and parsing of machine integers, both directions
//! exact: rendering has no sign and no leading zeros, parsing accepts
//! digits only and refuses values that do not fit.

use vstd::prelude::*;

verus! {

/// The decimal digit character for `d`; meaningful only for `d < 10`.
pub open spec fn digit_char(d: nat) -> char {
    if d == 0 {
        '0'
    } else if d == 1 {
        '1'
    } else if d == 2 {
        '2'
    } else if d == 3 {
        '3'
    } else if d == 4 {
        '4'
    } else if d == 5 {
        '5'
    } else if d == 6 {
        '6'
    } else if d == 7 {
        '7'
    } else if d == 8 {
        '8'
    } else {
        '9'
    }
}

/// The decimal rendering of `n`, without sign or leading zeros.
pub open spec fn dec_str(n: nat) -> Seq<char>
    decreases n,
{
    if n < 10 {
        seq![digit_char(n)]
    } else {
        dec_str(n / 10) + seq![digit_char(n % 10)]
    }
}

/// A decimal digit character.
pub open spec fn is_dec_digit(c: char) -> bool {
    48 <= c as u32 && c as u32 <= 57
}

/// A non-empty string of decimal digits.
pub open spec fn all_dec_digits(s: Seq<char>) -> bool {
    s.len() > 0 && (forall|i: int| 0 <= i < s.len() ==> is_dec_digit(#[trigger] s[i]))
}

/// The number a digit string denotes; meaningful only when its characters
/// are decimal digits.
pub open spec fn dec_val(s: Seq<char>) -> int
    decreases s.len(),
{
    if s.len() == 0 {
        0
    } else {
        dec_val(s.drop_last()) * 10 + (s.last() as u32 - 48)
    }
}

/// On digit strings the denoted number is non-negative and never smaller
/// than the number any prefix denotes.
proof fn lemma_dec_val_prefix(s: Seq<char>, k: int)
    requires
        0 <= k <= s.len(),
        forall|i: int| 0 <= i < s.len() ==> is_dec_digit(#[trigger] s[i]),
    ensures
        0 <= dec_val(s.take(k)),
        dec_val(s.take(k)) <= dec_val(s),
    decreases s.len(),
{
    if s.len() == 0 {
        assert(s.take(k) =~= s);
    } else {
        let head = s.drop_last();
        assert(forall|i: int| 0 <= i < head.len() ==> head[i] == s[i]);
        if k == s.len() {
            lemma_dec_val_prefix(head, head.len() as int);
            assert(head.take(head.len() as int) =~= head);
            assert(s.take(k) =~= s);
        } else {
            lemma_dec_val_prefix(head, k);
            assert(head.take(k) =~= s.take(k));
        }
    }
}

/// The rendering of `n` is a digit string denoting `n` itself.
pub proof fn lemma_dec_str_val(n: nat)
    ensures
        all_dec_digits(dec_str(n)),
        dec_val(dec_str(n)) == n,
    decreases n,
{
    if n < 10 {
        assert(dec_str(n) =~= seq![digit_char(n)]);
        assert(dec_str(n).drop_last() =~= Seq::<char>::empty());
        assert(dec_val(seq![digit_char(n)]) == digit_char(n) as u32 - 48) by {
            reveal_with_fuel(dec_val, 2);
            assert(seq![digit_char(n)].drop_last() =~= Seq::<char>::empty());
        }
        assert(digit_char(n) as u32 - 48 == n);
    } else {
        lemma_dec_str_val(n / 10);
        let rendered = dec_str(n / 10) + seq![digit_char(n % 10)];
        assert(rendered.drop_last() =~= dec_str(n / 10));
        assert(rendered.last() == digit_char(n % 10));
        assert(forall|i: int|
            0 <= i < rendered.len() ==> is_dec_digit(#[trigger] rendered[i])) by {
            assert(forall|i: int|
                0 <= i < dec_str(n / 10).len() ==> rendered[i] == #[trigger] dec_str(n / 10)[i]);
        }
    }
}

/// The single-character string for decimal digit `d`.
fn digit_str(d: u64) -> (s: &'static str)
    requires
        d < 10,
    ensures
        s@ =~= seq![digit_char(d as nat)],
{
    proof {
        reveal_strlit("0");
        reveal_strlit("1");
        reveal_strlit("2");
        reveal_strlit("3");
        reveal_strlit("4");
        reveal_strlit("5");
        reveal_strlit("6");
        reveal_strlit("7");
        reveal_strlit("8");
        reveal_strlit("9");
    }
    if d == 0 {
        "0"
    } else if d == 1 {
        "1"
    } else if d == 2 {
        "2"
    } else if d == 3 {
        "3"
    } else if d == 4 {
        "4"
    } else if d == 5 {
        "5"
    } else if d == 6 {
        "6"
    } else if d == 7 {
        "7"
    } else if d == 8 {
        "8"
    } else {
        "9"
    }
}

/// Renders `n` in decimal.
pub fn u64_to_string(n: u64) -> (s: String)
    ensures
        s@ == dec_str(n as nat),
    decreases n,
{
    if n < 10 {
        digit_str(n).to_owned()
    } else {
        let mut s = u64_to_string(n / 10);
        s.append(digit_str(n % 10));
        s
    }
}

/// Parses the characters of `s` from position `from` on as a decimal
/// number: succeeds exactly on non-empty all-digit tails whose value fits
/// in 32 bits, and then returns that value.
pub fn parse_u32(s: &str, from: usize) -> (r: Option<u32>)
    requires
        from <= s@.len(),
    ensures
        r matches Some(v) <==> all_dec_digits(s@.skip(from as int)) && dec_val(
            s@.skip(from as int),
        ) <= u32::MAX,
        r matches Some(v) ==> v == dec_val(s@.skip(from as int)),
{
    let ghost tail = s@.skip(from as int);
    let n = s.unicode_len();
    if from == n {
        return None;
    }
    let mut acc: u64 = 0;
    let mut i: usize = from;
    while i < n
        invariant
            from <= i <= n,
            n == s@.len(),
            tail == s@.skip(from as int),
            forall|k: int| from <= k < i ==> is_dec_digit(#[trigger] s@[k]),
            acc == dec_val(s@.subrange(from as int, i as int)),
            acc <= u32::MAX,
        decreases n - i,
    {
        let c = s.get_char(i);
        let u = c as u32;
        proof {
            assert(s@.subrange(from as int, i + 1).drop_last() =~= s@.subrange(
                from as int,
                i as int,
            ));
            assert(s@.subrange(from as int, i + 1).last() == s@[i as int]);
        }
        if !(48 <= u && u <= 57) {
            proof {
                assert(tail[i - from] == s@[i as int]);
            }
            return None;
        }
        acc = acc * 10 + ((u - 48) as u64);
        if acc > 0xFFFF_FFFFu64 {
            proof {
                if all_dec_digits(tail) {
                    lemma_dec_val_prefix(tail, i + 1 - from);
                    assert(tail.take(i + 1 - from) =~= s@.subrange(from as int, i + 1));
                }
            }
            return None;
        }
        i = i + 1;
    }
    proof {
        assert(s@.subrange(from as int, n as int) =~= tail);
        assert(forall|k: int| 0 <= k < tail.len() ==> tail[k] == s@[from + k]);
    }
    Some(acc as u32)
}

} // verus!
