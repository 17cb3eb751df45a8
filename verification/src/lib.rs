//! A typed facade over a mutable, graph-structured IR store.
//!
//! The store keeps contexts, modules, types, values (functions, basic
//! blocks, constants, instructions) and builders, and hands every node out
//! as an opaque handle.  The wrapper types of this crate pair each handle
//! with the node kind it stands for, so that a wrapper of a specific kind
//! always refers to a node of that kind, owned resources are disposed
//! exactly once, and every name that reaches the store is free of embedded
//! terminator bytes.

use vstd::prelude::*;
use vstd::string::StringSliceAdditionalSpecFns;
use vstd::string::StringExecFns;

pub mod store;

pub mod types;
pub mod module;
pub mod builder;
pub mod value;
pub mod function;
pub mod basic_block;
pub mod context;

pub mod switch;
pub mod function_call;

pub mod value_kind;

verus! {

/// The recoverable failures of the facade: a name that holds an embedded
/// terminator byte, which the store's string convention cannot carry.
#[derive(Debug, PartialEq, Eq, Structural, Clone, Copy)]
pub enum LLVMErr {
    NulByte,
}

/// A name may be handed to the store only when none of its bytes is the
/// terminator byte.
pub open spec fn name_ok(n: Seq<u8>) -> bool {
    forall|i: int| 0 <= i < n.len() ==> n[i] != 0
}

/// Checks a name against the store's string convention.  A name free of
/// the terminator byte is returned as its bytes; any other name is
/// refused, and the caller performs no store mutation.
pub fn name_bytes(name: &str) -> (r: Result<Vec<u8>, LLVMErr>)
    ensures
        match r {
            Ok(v) => v@ == name.spec_bytes() && name_ok(name.spec_bytes()),
            Err(e) => e == LLVMErr::NulByte && !name_ok(name.spec_bytes()),
        },
{
    let bytes: &[u8] = name.as_bytes();
    let n = bytes.len();
    let mut i: usize = 0;
    while i < n
        invariant
            bytes@ == name.spec_bytes(),
            n == bytes@.len(),
            i <= n,
            forall|j: int| 0 <= j < i ==> bytes@[j] != 0,
        decreases n - i,
    {
        if *vstd::slice::slice_index_get(bytes, i) == 0 {
            proof {
                assert(!name_ok(name.spec_bytes())) by {
                    assert(name.spec_bytes()[i as int] == 0);
                }
            }
            return Err(LLVMErr::NulByte);
        }
        i = i + 1;
    }
    Ok(vstd::slice::slice_to_vec(bytes))
}

/// The character of one decimal digit.
pub open spec fn digit_char(d: int) -> char {
    if d == 0 {
        '0'
    } else if d == 1 {
        '1'
    } else if d == 2 {
        '2'
    } else if d == 3 {
        '3'
    } else if d == 4 {
        '4'
    } else if d == 5 {
        '5'
    } else if d == 6 {
        '6'
    } else if d == 7 {
        '7'
    } else if d == 8 {
        '8'
    } else {
        '9'
    }
}

/// The decimal text of a number, most significant digit first.
pub open spec fn spec_decimal(n: nat) -> Seq<char>
    decreases n,
{
    if n < 10 {
        seq![digit_char(n as int)]
    } else {
        spec_decimal(n / 10) + seq![digit_char((n % 10) as int)]
    }
}

/// The characters of digits collected least-significant first, read back
/// most-significant first.
spec fn digits_reversed(ds: Seq<u8>) -> Seq<char> {
    Seq::new(ds.len(), |k: int| digit_char(ds[ds.len() - 1 - k] as int))
}

/// One decimal digit as text.
fn digit_str(d: u8) -> (c: &'static str)
    requires
        d < 10,
    ensures
        c@ == seq![digit_char(d as int)],
{
    proof {
        reveal_strlit("0");
        reveal_strlit("1");
        reveal_strlit("2");
        reveal_strlit("3");
        reveal_strlit("4");
        reveal_strlit("5");
        reveal_strlit("6");
        reveal_strlit("7");
        reveal_strlit("8");
        reveal_strlit("9");
    }
    match d {
        0 => "0",
        1 => "1",
        2 => "2",
        3 => "3",
        4 => "4",
        5 => "5",
        6 => "6",
        7 => "7",
        8 => "8",
        _ => "9",
    }
}

/// The decimal rendering of a number, for the canonical texts the store
/// hands out: exactly the text `spec_decimal` describes.
pub(crate) fn decimal_string(n: u64) -> (s: String)
    ensures
        s@ == spec_decimal(n as nat),
        s@.len() > 0,
{
    let mut digits: Vec<u8> = Vec::new();
    let mut m = n;
    digits.push((m % 10) as u8);
    proof {
        if n < 10 {
            assert(spec_decimal(n as nat) =~= digits_reversed(digits@));
        } else {
            assert(spec_decimal(n as nat) =~= spec_decimal((n / 10) as nat) + digits_reversed(
                digits@,
            ));
        }
    }
    m = m / 10;
    while m > 0
        invariant
            digits@.len() >= 1,
            forall|j: int| 0 <= j < digits@.len() ==> digits@[j] < 10,
            m > 0 ==> spec_decimal(n as nat) == spec_decimal(m as nat) + digits_reversed(digits@),
            m == 0 ==> spec_decimal(n as nat) == digits_reversed(digits@),
        decreases m,
    {
        let ghost pre = digits@;
        digits.push((m % 10) as u8);
        proof {
            assert(digits_reversed(digits@) =~= seq![digit_char((m % 10) as int)]
                + digits_reversed(pre));
            if m < 10 {
                assert(spec_decimal(m as nat) =~= seq![digit_char((m % 10) as int)]);
                assert(spec_decimal(n as nat) =~= digits_reversed(digits@));
            } else {
                assert(spec_decimal(m as nat) == spec_decimal((m / 10) as nat) + seq![
                    digit_char((m % 10) as int),
                ]);
                assert(spec_decimal(n as nat) =~= spec_decimal((m / 10) as nat) + digits_reversed(
                    digits@,
                ));
            }
        }
        m = m / 10;
    }
    let mut s = String::new();
    let mut i = digits.len();
    while i > 0
        invariant
            i <= digits@.len(),
            digits@.len() >= 1,
            forall|j: int| 0 <= j < digits@.len() ==> digits@[j] < 10,
            spec_decimal(n as nat) == digits_reversed(digits@),
            s@ == digits_reversed(digits@).take(digits@.len() - i),
        decreases i,
    {
        i = i - 1;
        let c = digit_str(digits[i]);
        let ghost spre = s@;
        s.append(c);
        proof {
            let rev = digits_reversed(digits@);
            assert(rev[digits@.len() - 1 - i] == digit_char(digits@[i as int] as int));
            assert(s@ =~= rev.take(digits@.len() - i));
        }
    }
    proof {
        assert(digits_reversed(digits@).take(digits@.len() - 0) =~= digits_reversed(digits@));
    }
    s
}

} // verus!
