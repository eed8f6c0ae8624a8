//! Small verified operations on UTF-8 text: equality, splitting at an ASCII
//! separator, concatenation, and decimal and hexadecimal digits.

use vstd::prelude::*;

verus! {

use vstd::string::StringExecFns;
use vstd::string::StringSliceAdditionalSpecFns;

broadcast use {
    vstd::utf8::encode_utf8_decode_utf8,
    vstd::utf8::encode_utf8_valid_utf8,
    vstd::utf8::is_char_boundary_iff_not_is_continuation_byte,
    vstd::utf8::is_char_boundary_start_end_of_seq,
};

/// The bytes of `a` and `b` are equal.
pub fn same_bytes(a: &[u8], b: &[u8]) -> (res: bool)
    ensures
        res == (a@ == b@),
{
    if a.len() != b.len() {
        return false;
    }
    let mut i: usize = 0;
    while i < a.len()
        invariant
            i <= a@.len(),
            a@.len() == b@.len(),
            forall|k: int| 0 <= k < i ==> a@[k] == b@[k],
        decreases a@.len() - i,
    {
        if a[i] != b[i] {
            return false;
        }
        i = i + 1;
    }
    assert(a@ == b@);
    true
}

/// The two texts are equal.
pub fn same_text(a: &str, b: &str) -> (res: bool)
    ensures
        res == (a@ == b@),
{
    let equal = same_bytes(a.as_bytes(), b.as_bytes());
    proof {
        if a.spec_bytes() == b.spec_bytes() {
            assert(vstd::utf8::decode_utf8(vstd::utf8::encode_utf8(a@)) == a@);
            assert(vstd::utf8::decode_utf8(vstd::utf8::encode_utf8(b@)) == b@);
        }
    }
    equal
}

/// `i` is the first position of byte `sep` in `s`.
pub open spec fn first_at(s: Seq<u8>, sep: u8, i: int) -> bool {
    &&& 0 <= i < s.len()
    &&& s[i] == sep
    &&& forall|j: int| 0 <= j < i ==> s[j] != sep
}

/// Splits `s` around the first occurrence of the ASCII byte `sep`.
pub fn split_once<'a>(s: &'a str, sep: u8) -> (res: Option<(&'a str, &'a str)>)
    requires
        sep < 0x80,
    ensures
        match res {
            Some((head, tail)) => exists|i: int|
                #![trigger first_at(s.spec_bytes(), sep, i)]
                first_at(s.spec_bytes(), sep, i) && head.spec_bytes() == s.spec_bytes().take(i)
                    && tail.spec_bytes() == s.spec_bytes().skip(i + 1),
            None => forall|j: int| 0 <= j < s.spec_bytes().len() ==> s.spec_bytes()[j] != sep,
        },
{
    let bytes = s.as_bytes();
    let mut i: usize = 0;
    while i < bytes.len()
        invariant
            i <= bytes@.len(),
            bytes@ == s.spec_bytes(),
            sep < 0x80,
            forall|j: int| 0 <= j < i ==> bytes@[j] != sep,
        decreases bytes@.len() - i,
    {
        if bytes[i] == sep {
            proof {
                assert(vstd::utf8::valid_utf8(vstd::utf8::encode_utf8(s@)));
                assert(!vstd::utf8::is_continuation_byte(bytes@[i as int]));
                assert(vstd::utf8::is_char_boundary(s.spec_bytes(), i as int));
            }
            let (head, rest) = s.split_at(i);
            proof {
                let all = s.spec_bytes();
                assert(rest.spec_bytes() == all.subrange(i as int, all.len() as int));
                assert(vstd::utf8::valid_utf8(vstd::utf8::encode_utf8(rest@)));
                assert(rest.spec_bytes().len() >= 1);
                if rest.spec_bytes().len() > 1 {
                    assert(rest.spec_bytes()[0] == all[i as int]);
                    assert(!vstd::utf8::is_continuation_byte(rest.spec_bytes()[0]));
                    assert(vstd::utf8::is_char_boundary(rest.spec_bytes(), 1)) by {
                        reveal_with_fuel(vstd::utf8::is_char_boundary, 2);
                    }
                } else {
                    assert(vstd::utf8::is_char_boundary(rest.spec_bytes(), rest.spec_bytes().len() as int));
                }
            }
            let (_, tail) = rest.split_at(1);
            proof {
                let all = s.spec_bytes();
                assert(first_at(all, sep, i as int));
                assert(head.spec_bytes() == all.take(i as int));
                assert(tail.spec_bytes() == all.skip(i + 1));
            }
            return Some((head, tail));
        }
        i = i + 1;
    }
    None
}

/// `a` followed by `b`.
pub(crate) fn concat(a: &str, b: &str) -> (res: String)
    ensures
        res@ == a@ + b@,
{
    let mut text = a.to_owned();
    text.append(b);
    text
}

/// The character of a digit below sixteen: `0` to `9`, then `A` to `F`.
pub open spec fn digit_char(d: int) -> char {
    if d < 10 {
        (48 + d) as char
    } else {
        (55 + d) as char
    }
}

/// The one-character text of the digit `d`.
pub(crate) fn digit_text(d: u8) -> (res: &'static str)
    requires
        d < 16,
    ensures
        res@ == seq![digit_char(d as int)],
{
    match d {
        0 => {
            proof {
                reveal_strlit("0");
            }
            "0"
        }
        1 => {
            proof {
                reveal_strlit("1");
            }
            "1"
        }
        2 => {
            proof {
                reveal_strlit("2");
            }
            "2"
        }
        3 => {
            proof {
                reveal_strlit("3");
            }
            "3"
        }
        4 => {
            proof {
                reveal_strlit("4");
            }
            "4"
        }
        5 => {
            proof {
                reveal_strlit("5");
            }
            "5"
        }
        6 => {
            proof {
                reveal_strlit("6");
            }
            "6"
        }
        7 => {
            proof {
                reveal_strlit("7");
            }
            "7"
        }
        8 => {
            proof {
                reveal_strlit("8");
            }
            "8"
        }
        9 => {
            proof {
                reveal_strlit("9");
            }
            "9"
        }
        10 => {
            proof {
                reveal_strlit("A");
            }
            "A"
        }
        11 => {
            proof {
                reveal_strlit("B");
            }
            "B"
        }
        12 => {
            proof {
                reveal_strlit("C");
            }
            "C"
        }
        13 => {
            proof {
                reveal_strlit("D");
            }
            "D"
        }
        14 => {
            proof {
                reveal_strlit("E");
            }
            "E"
        }
        15 => {
            proof {
                reveal_strlit("F");
            }
            "F"
        }
        _ => {
            proof {
                reveal_strlit("F");
            }
            "F"
        }
    }
}

/// The decimal digits of `n`, most significant first.
pub open spec fn digits(n: nat) -> Seq<char>
    decreases n,
{
    if n < 10 {
        seq![digit_char(n as int)]
    } else {
        digits(n / 10) + seq![digit_char((n % 10) as int)]
    }
}

/// The decimal digits of `n`.
pub(crate) fn decimal(n: u64) -> (res: String)
    ensures
        res@ == digits(n as nat),
{
    let mut rest: u64 = n / 10;
    let mut text: String = concat(digit_text((n % 10) as u8), "");
    proof {
        reveal_strlit("");
    }
    while rest > 0
        invariant
            digits(n as nat) == (if rest == 0 {
                Seq::<char>::empty()
            } else {
                digits(rest as nat)
            }) + text@,
        decreases rest,
    {
        let d = digit_text((rest % 10) as u8);
        text = concat(d, text.as_str());
        proof {
            let r = rest as nat;
            if r >= 10 {
                assert(digits(r) == digits(r / 10) + seq![digit_char((r % 10) as int)]);
            }
        }
        rest = rest / 10;
    }
    text
}

} // verus!
