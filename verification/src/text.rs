use vstd::prelude::*;
use vstd::string::{StrSliceExecFns, StringExecFns};

use crate::rng::get_rnd;

verus! {

/// The character for a single decimal digit.
pub open spec fn digit_char(d: int) -> char {
    if d == 0 {
        '0'
    } else if d == 1 {
        '1'
    } else if d == 2 {
        '2'
    } else if d == 3 {
        '3'
    } else if d == 4 {
        '4'
    } else if d == 5 {
        '5'
    } else if d == 6 {
        '6'
    } else if d == 7 {
        '7'
    } else if d == 8 {
        '8'
    } else {
        '9'
    }
}

/// The decimal representation of `n`, most significant digit first, with no
/// leading zeros (except for `n == 0` itself).
pub open spec fn spec_decimal(n: nat) -> Seq<char>
    decreases n,
{
    if n < 10 {
        seq![digit_char(n as int)]
    } else {
        spec_decimal(n / 10).push(digit_char((n % 10) as int))
    }
}

/// `s` is the decimal representation of some value that is at most `bound`.
pub open spec fn is_decimal_le(s: Seq<char>, bound: nat) -> bool {
    exists|v: nat| v <= bound && s == spec_decimal(v)
}

/// `t` is a challenge string for target length `n`: the concatenation of `n`
/// decimal numbers, each of a value drawn from `[0, n]`.
pub open spec fn is_challenge(t: Seq<char>, n: nat) -> bool {
    exists|parts: Seq<Seq<char>>|
        #![trigger parts.flatten()]
        parts.len() == n && (forall|i: int| 0 <= i < n ==> is_decimal_le(#[trigger] parts[i], n))
            && t == parts.flatten()
}

/// The one-character string for digit `d`.
fn digit_str(d: usize) -> (s: &'static str)
    requires
        d < 10,
    ensures
        s@ == seq![digit_char(d as int)],
{
    if d == 0 {
        proof {
            reveal_strlit("0");
            assert("0"@ =~= seq![digit_char(0)]);
        }
        "0"
    } else if d == 1 {
        proof {
            reveal_strlit("1");
            assert("1"@ =~= seq![digit_char(1)]);
        }
        "1"
    } else if d == 2 {
        proof {
            reveal_strlit("2");
            assert("2"@ =~= seq![digit_char(2)]);
        }
        "2"
    } else if d == 3 {
        proof {
            reveal_strlit("3");
            assert("3"@ =~= seq![digit_char(3)]);
        }
        "3"
    } else if d == 4 {
        proof {
            reveal_strlit("4");
            assert("4"@ =~= seq![digit_char(4)]);
        }
        "4"
    } else if d == 5 {
        proof {
            reveal_strlit("5");
            assert("5"@ =~= seq![digit_char(5)]);
        }
        "5"
    } else if d == 6 {
        proof {
            reveal_strlit("6");
            assert("6"@ =~= seq![digit_char(6)]);
        }
        "6"
    } else if d == 7 {
        proof {
            reveal_strlit("7");
            assert("7"@ =~= seq![digit_char(7)]);
        }
        "7"
    } else if d == 8 {
        proof {
            reveal_strlit("8");
            assert("8"@ =~= seq![digit_char(8)]);
        }
        "8"
    } else {
        proof {
            reveal_strlit("9");
            assert("9"@ =~= seq![digit_char(9)]);
        }
        "9"
    }
}

/// Formats `n` in decimal.
pub fn decimal_string(n: usize) -> (s: String)
    ensures
        s@ == spec_decimal(n as nat),
    decreases n,
{
    if n < 10 {
        String::from_str(digit_str(n))
    } else {
        let mut s = decimal_string(n / 10);
        s.append(digit_str(n % 10));
        proof {
            assert(s@ =~= spec_decimal(n as nat));
        }
        s
    }
}

/// The decimal form of a single digit is one character long.
pub proof fn lemma_small_decimal_len(v: nat)
    requires
        v <= 9,
    ensures
        spec_decimal(v).len() == 1,
{
}

/// Flattening a sequence of one-character parts yields one character per
/// part, each at its part's own index.
pub proof fn lemma_unit_flatten_index(parts: Seq<Seq<char>>)
    requires
        forall|i: int| 0 <= i < parts.len() ==> (#[trigger] parts[i]).len() == 1,
    ensures
        parts.flatten().len() == parts.len(),
        forall|i: int| 0 <= i < parts.len() ==> parts.flatten()[i] == (#[trigger] parts[i])[0],
    decreases parts.len(),
{
    if parts.len() > 0 {
        lemma_unit_flatten_index(parts.drop_first());
        assert forall|i: int| 0 <= i < parts.len() implies parts.flatten()[i] == (
        #[trigger] parts[i])[0] by {
            if i > 0 {
                assert(parts.drop_first()[i - 1] == parts[i]);
            }
        }
    }
}

/// Generates `num` random challenge components: each is the decimal form of a
/// value drawn from `[0, num]`.
pub fn get_captcha(num: usize) -> (res: Vec<String>)
    ensures
        res@.len() == num,
        forall|i: int| 0 <= i < num ==> is_decimal_le((#[trigger] res@[i])@, num as nat),
        num <= 9 ==> forall|i: int| 0 <= i < num ==> (#[trigger] res@[i])@.len() == 1,
{
    let mut res: Vec<String> = Vec::new();
    let mut k: usize = 0;
    while k < num
        invariant
            k <= num,
            res@.len() == k,
            forall|i: int| 0 <= i < k ==> is_decimal_le((#[trigger] res@[i])@, num as nat),
            num <= 9 ==> forall|i: int| 0 <= i < k ==> (#[trigger] res@[i])@.len() == 1,
        decreases num - k,
    {
        let rnd = get_rnd(num);
        let s = decimal_string(rnd);
        proof {
            assert(rnd as nat <= num as nat && s@ == spec_decimal(rnd as nat));
            if num <= 9 {
                lemma_small_decimal_len(rnd as nat);
            }
        }
        res.push(s);
        k = k + 1;
    }
    res
}

/// Concatenates all parts into one string.
pub fn join_strings(parts: &Vec<String>) -> (s: String)
    ensures
        s@ == parts.deep_view().flatten(),
{
    let mut s = String::new();
    let mut k: usize = 0;
    proof {
        assert(parts.deep_view().take(0) =~= Seq::<Seq<char>>::empty());
    }
    while k < parts.len()
        invariant
            k <= parts.len(),
            parts.deep_view().len() == parts.len(),
            s@ == parts.deep_view().take(k as int).flatten(),
        decreases parts.len() - k,
    {
        let ghost pre = parts.deep_view().take(k as int);
        s.append(parts[k].as_str());
        proof {
            pre.lemma_flatten_push(parts.deep_view()[k as int]);
            assert(parts.deep_view().take(k + 1 as int) =~= pre.push(parts.deep_view()[k as int]));
        }
        k = k + 1;
    }
    proof {
        assert(parts.deep_view().take(parts.deep_view().len() as int) =~= parts.deep_view());
    }
    s
}

/// Splits a string into its characters, one single-character string each.
pub fn split_chars(s: &String) -> (res: Vec<String>)
    ensures
        res@.len() == s@.len(),
        forall|i: int| 0 <= i < s@.len() ==> (#[trigger] res@[i])@ == seq![s@[i]],
{
    let n = s.as_str().unicode_len();
    let mut res: Vec<String> = Vec::new();
    let mut k: usize = 0;
    while k < n
        invariant
            n == s@.len(),
            k <= n,
            res@.len() == k,
            forall|i: int| 0 <= i < k ==> (#[trigger] res@[i])@ == seq![s@[i]],
        decreases n - k,
    {
        let part = String::from_str(s.as_str().substring_char(k, k + 1));
        proof {
            assert(part@ =~= seq![s@[k as int]]);
        }
        res.push(part);
        k = k + 1;
    }
    res
}

} // verus!
