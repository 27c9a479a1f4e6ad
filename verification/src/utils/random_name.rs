//! Unique names.
use vstd::prelude::*;
use vstd::string::*;
use crate::utils::text::{
    digits, is_digit_char, lemma_digits_injective, lemma_digits_round_trip, push_digits,
};

verus! {

/// The name that request number `counter` gives to `name`: the name, an
/// underscore, and the request number in decimal.
pub open spec fn mangled(name: Seq<char>, counter: nat) -> Seq<char> {
    name + seq!['_'] + digits(counter)
}

/// Builds the identifier that request number `counter` gives to `name`.
pub fn unique_identifier(name: &str, counter: u64) -> (unique: String)
    ensures
        unique@ == mangled(name@, counter as nat),
{
    proof {
        reveal_strlit("_");
    }
    let unique = push_digits(String::from_str(name).concat("_"), counter);
    assert(unique@ =~= mangled(name@, counter as nat));
    unique
}

/// Two requests give the same identifier only if they are the same request
/// for the same name: the text after the last underscore is the request
/// number, and what stands before that underscore is the name.
pub proof fn lemma_mangled_injective(a: Seq<char>, m: nat, b: Seq<char>, n: nat)
    requires
        mangled(a, m) == mangled(b, n),
    ensures
        a == b,
        m == n,
{
    lemma_digits_round_trip(m);
    lemma_digits_round_trip(n);
    let x = mangled(a, m);
    let dm = digits(m);
    let dn = digits(n);
    assert(x.len() == a.len() + 1 + dm.len());
    assert(mangled(b, n).len() == b.len() + 1 + dn.len());
    // The last underscore of x stands right before its digits.
    if dm.len() != dn.len() {
        if dm.len() < dn.len() {
            let i = x.len() - dm.len() - 1;
            assert(x[i] == '_');
            assert(mangled(b, n)[i] == dn[i - b.len() - 1]);
            assert(is_digit_char(dn[i - b.len() - 1]));
        } else {
            let i = x.len() - dn.len() - 1;
            assert(mangled(b, n)[i] == '_');
            assert(x[i] == dm[i - a.len() - 1]);
            assert(is_digit_char(dm[i - a.len() - 1]));
        }
        assert(false);
    }
    assert(a.len() == b.len());
    assert(dm =~= dn) by {
        assert forall|i: int| 0 <= i < dm.len() implies dm[i] == dn[i] by {
            assert(x[a.len() + 1 + i] == dm[i]);
            assert(mangled(b, n)[b.len() + 1 + i] == dn[i]);
        }
    }
    lemma_digits_injective(m, n);
    assert(a =~= b) by {
        assert forall|i: int| 0 <= i < a.len() implies a[i] == b[i] by {
            assert(x[i] == a[i]);
            assert(mangled(b, n)[i] == b[i]);
        }
    }
}

/// Requests with different numbers give different identifiers, whatever
/// the names.
pub proof fn lemma_mangled_distinct(a: Seq<char>, m: nat, b: Seq<char>, n: nat)
    requires
        m != n,
    ensures
        mangled(a, m) != mangled(b, n),
{
    if mangled(a, m) == mangled(b, n) {
        lemma_mangled_injective(a, m, b, n);
    }
}

} // verus!
