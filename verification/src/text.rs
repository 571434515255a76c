//! Small verified text utilities: substring search (for the `contains`
//! filter operator) and decimal rendering of record identifiers.
use vstd::prelude::*;
use vstd::string::StrSliceExecFns;
use vstd::string::StringExecFns;

verus! {

/// `n` occurs in `h` as a contiguous run of characters.
pub open spec fn seq_contains_sub(h: Seq<char>, n: Seq<char>) -> bool {
    exists|i: int| 0 <= i && i + n.len() <= h.len() && #[trigger] h.subrange(i, i + n.len()) == n
}

/// The characters of `s`, one per element.
pub fn chars_vec(s: &str) -> (r: Vec<char>)
    ensures
        r@ == s@,
{
    let n: usize = s.unicode_len();
    let mut r: Vec<char> = Vec::new();
    let mut i: usize = 0;
    while i < n
        invariant
            n == s@.len(),
            i <= n,
            r@ == s@.subrange(0, i as int),
        decreases n - i,
    {
        r.push(s.get_char(i));
        i = i + 1;
        proof {
            assert(r@ =~= s@.subrange(0, i as int));
        }
    }
    proof {
        assert(r@ =~= s@);
    }
    r
}

fn match_at(h: &Vec<char>, n: &Vec<char>, i: usize) -> (r: bool)
    requires
        i + n@.len() <= h@.len(),
    ensures
        r == (h@.subrange(i as int, i as int + n@.len() as int) == n@),
{
    let mut j: usize = 0;
    while j < n.len()
        invariant
            i + n@.len() <= h@.len(),
            j <= n@.len(),
            forall|k: int| 0 <= k < j ==> h@[i + k] == n@[k],
        decreases n@.len() - j,
    {
        proof {
            assert(h.len() == h@.len());
        }
        if h[i + j] != n[j] {
            proof {
                assert(h@.subrange(i as int, i as int + n@.len() as int)[j as int] == h@[i + j]);
            }
            return false;
        }
        j = j + 1;
    }
    proof {
        assert(h@.subrange(i as int, i as int + n@.len() as int) =~= n@);
    }
    true
}

/// Whether `n` occurs in `h` as a contiguous substring (case-sensitive).
pub fn str_contains(h: &str, n: &str) -> (r: bool)
    ensures
        r == seq_contains_sub(h@, n@),
{
    let hv = chars_vec(h);
    let nv = chars_vec(n);
    if nv.len() == 0 {
        proof {
            assert(h@.subrange(0, 0 + n@.len() as int) =~= n@);
        }
        return true;
    }
    if nv.len() > hv.len() {
        return false;
    }
    let last: usize = hv.len() - nv.len();
    let mut i: usize = 0;
    while i <= last
        invariant
            hv@ == h@,
            nv@ == n@,
            1 <= nv@.len() <= hv@.len(),
            last == hv@.len() - nv@.len(),
            i <= last + 1,
            forall|k: int| 0 <= k < i ==> #[trigger] h@.subrange(k, k + n@.len()) != n@,
        decreases last + 1 - i,
    {
        proof {
            assert(hv.len() == hv@.len());
        }
        if match_at(&hv, &nv, i) {
            assert(seq_contains_sub(h@, n@)) by {
                assert(0 <= i as int && i as int + n@.len() <= h@.len() && h@.subrange(
                    i as int,
                    i as int + n@.len(),
                ) == n@);
            }
            return true;
        }
        i = i + 1;
    }
    false
}

/// Filtering a one-element sequence keeps or drops its element.
pub proof fn lemma_filter_singleton<A>(x: A, pred: spec_fn(A) -> bool)
    ensures
        seq![x].filter(pred) == (if pred(x) {
            seq![x]
        } else {
            Seq::<A>::empty()
        }),
{
    reveal_with_fuel(Seq::filter, 2);
    assert(seq![x].drop_last() =~= Seq::<A>::empty());
    if pred(x) {
        assert(seq![x].filter(pred) =~= seq![x]);
    } else {
        assert(seq![x].filter(pred) =~= Seq::<A>::empty());
    }
}

/// The character for one decimal digit.
pub open spec fn dec_digit(d: nat) -> char {
    if d == 0 {
        '0'
    } else if d == 1 {
        '1'
    } else if d == 2 {
        '2'
    } else if d == 3 {
        '3'
    } else if d == 4 {
        '4'
    } else if d == 5 {
        '5'
    } else if d == 6 {
        '6'
    } else if d == 7 {
        '7'
    } else if d == 8 {
        '8'
    } else {
        '9'
    }
}

/// The decimal representation of `n`, most significant digit first, with no
/// leading zeros (`0` is rendered as `"0"`).
pub open spec fn dec_of(n: nat) -> Seq<char>
    decreases n,
{
    if n < 10 {
        seq![dec_digit(n)]
    } else {
        dec_of(n / 10).push(dec_digit(n % 10))
    }
}

/// The numeric value of one decimal digit character.
pub open spec fn digit_val(c: char) -> nat {
    if c == '0' {
        0
    } else if c == '1' {
        1
    } else if c == '2' {
        2
    } else if c == '3' {
        3
    } else if c == '4' {
        4
    } else if c == '5' {
        5
    } else if c == '6' {
        6
    } else if c == '7' {
        7
    } else if c == '8' {
        8
    } else {
        9
    }
}

/// The numeric value of a decimal digit string.
pub open spec fn dec_val(s: Seq<char>) -> nat
    decreases s.len(),
{
    if s.len() == 0 {
        0
    } else {
        dec_val(s.drop_last()) * 10 + digit_val(s.last())
    }
}

/// Rendering a number in decimal and reading the digits back round-trips.
pub proof fn lemma_dec_of_val(n: nat)
    ensures
        dec_val(dec_of(n)) == n,
    decreases n,
{
    if n < 10 {
        let s = seq![dec_digit(n)];
        assert(s.drop_last() =~= Seq::<char>::empty());
        assert(dec_val(Seq::<char>::empty()) == 0);
        assert(dec_val(s) == digit_val(dec_digit(n)));
    } else {
        lemma_dec_of_val(n / 10);
        let s = dec_of(n / 10).push(dec_digit(n % 10));
        assert(s.drop_last() =~= dec_of(n / 10));
        assert(s.last() == dec_digit(n % 10));
        vstd::arithmetic::div_mod::lemma_fundamental_div_mod(n as int, 10);
    }
}

/// Distinct numbers have distinct decimal representations, so ids minted
/// from a strictly increasing counter never collide.
pub proof fn lemma_dec_of_injective(a: nat, b: nat)
    requires
        dec_of(a) == dec_of(b),
    ensures
        a == b,
{
    lemma_dec_of_val(a);
    lemma_dec_of_val(b);
}

fn digit_str(d: u64) -> (r: &'static str)
    requires
        d < 10,
    ensures
        r@ == seq![dec_digit(d as nat)],
{
    proof {
        reveal_strlit("0");
        reveal_strlit("1");
        reveal_strlit("2");
        reveal_strlit("3");
        reveal_strlit("4");
        reveal_strlit("5");
        reveal_strlit("6");
        reveal_strlit("7");
        reveal_strlit("8");
        reveal_strlit("9");
    }
    if d == 0 {
        proof {
            assert("0"@ =~= seq![dec_digit(d as nat)]);
        }
        "0"
    } else if d == 1 {
        proof {
            assert("1"@ =~= seq![dec_digit(d as nat)]);
        }
        "1"
    } else if d == 2 {
        proof {
            assert("2"@ =~= seq![dec_digit(d as nat)]);
        }
        "2"
    } else if d == 3 {
        proof {
            assert("3"@ =~= seq![dec_digit(d as nat)]);
        }
        "3"
    } else if d == 4 {
        proof {
            assert("4"@ =~= seq![dec_digit(d as nat)]);
        }
        "4"
    } else if d == 5 {
        proof {
            assert("5"@ =~= seq![dec_digit(d as nat)]);
        }
        "5"
    } else if d == 6 {
        proof {
            assert("6"@ =~= seq![dec_digit(d as nat)]);
        }
        "6"
    } else if d == 7 {
        proof {
            assert("7"@ =~= seq![dec_digit(d as nat)]);
        }
        "7"
    } else if d == 8 {
        proof {
            assert("8"@ =~= seq![dec_digit(d as nat)]);
        }
        "8"
    } else {
        proof {
            assert("9"@ =~= seq![dec_digit(d as nat)]);
        }
        "9"
    }
}

/// The digit characters of `ds`, read back to front.
pub open spec fn rev_digit_chars(ds: Seq<u64>) -> Seq<char> {
    Seq::new(ds.len(), |i: int| dec_digit(ds[ds.len() - 1 - i] as nat))
}

/// Renders `n` in decimal.
pub fn u64_to_dec_string(n: u64) -> (s: String)
    ensures
        s@ == dec_of(n as nat),
{
    let mut digits: Vec<u64> = Vec::new();
    let mut m: u64 = n;
    let d0: u64 = m % 10;
    digits.push(d0);
    m = m / 10;
    proof {
        if n < 10 {
            assert(rev_digit_chars(digits@) =~= seq![dec_digit(n as nat)]);
        } else {
            assert(rev_digit_chars(digits@) =~= seq![dec_digit((n % 10) as nat)]);
            assert(dec_of(n as nat) =~= dec_of((n / 10) as nat) + rev_digit_chars(digits@));
        }
    }
    while m > 0
        invariant
            forall|k: int| 0 <= k < digits@.len() ==> digits@[k] < 10,
            dec_of(n as nat) == (if m > 0 {
                dec_of(m as nat) + rev_digit_chars(digits@)
            } else {
                rev_digit_chars(digits@)
            }),
        decreases m,
    {
        let ghost old_digits = digits@;
        let ghost old_m = m as nat;
        let d: u64 = m % 10;
        digits.push(d);
        m = m / 10;
        proof {
            assert(rev_digit_chars(digits@) =~= seq![dec_digit(d as nat)] + rev_digit_chars(
                old_digits,
            ));
            if m > 0 {
                assert(dec_of(old_m) =~= dec_of(m as nat) + seq![dec_digit(d as nat)]);
                assert(dec_of(m as nat) + seq![dec_digit(d as nat)] + rev_digit_chars(old_digits)
                    =~= dec_of(m as nat) + rev_digit_chars(digits@));
            } else {
                assert(dec_of(old_m) =~= seq![dec_digit(d as nat)]);
            }
        }
    }
    let mut s = String::new();
    let mut i: usize = digits.len();
    while i > 0
        invariant
            forall|k: int| 0 <= k < digits@.len() ==> digits@[k] < 10,
            dec_of(n as nat) == rev_digit_chars(digits@),
            i <= digits@.len(),
            s@ == rev_digit_chars(digits@).subrange(0, digits@.len() - i),
        decreases i,
    {
        let ghost old_s = s@;
        i = i - 1;
        let part = digit_str(digits[i]);
        s.append(part);
        proof {
            let ds = digits@;
            let k = ds.len() - 1 - i;
            assert(rev_digit_chars(ds)[k] == dec_digit(ds[i as int] as nat));
            assert(s@ =~= rev_digit_chars(ds).subrange(0, ds.len() - i));
        }
    }
    proof {
        assert(rev_digit_chars(digits@).subrange(0, digits@.len() as int) =~= rev_digit_chars(
            digits@,
        ));
    }
    s
}

} // verus!
