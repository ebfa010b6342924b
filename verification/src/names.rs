//! Generated module names: `W0`, `W1`, `W2`, ...
//!
//! The items collector wraps each rendered warning in a module whose name
//! is `W` followed by the entry's position, written in decimal.  Distinct
//! positions give distinct names, so the modules of one collection never
//! collide with each other; the `W` prefix plus digits keeps them clear of
//! ordinary user identifiers in the splice target.

use vstd::prelude::*;
use crate::tokens::{ident_char, ident_ok, ident_start_char};
use vstd::string::StringExecFns;

verus! {

/// The decimal digit character for `d`.
pub open spec fn digit_char(d: int) -> char {
    if d == 0 {
        '0'
    } else if d == 1 {
        '1'
    } else if d == 2 {
        '2'
    } else if d == 3 {
        '3'
    } else if d == 4 {
        '4'
    } else if d == 5 {
        '5'
    } else if d == 6 {
        '6'
    } else if d == 7 {
        '7'
    } else if d == 8 {
        '8'
    } else {
        '9'
    }
}

/// The decimal digits of `n`, most significant first, with no leading zero
/// except for `n == 0` itself.
pub open spec fn dec_digits(n: nat) -> Seq<char>
    decreases n,
{
    if n < 10 {
        seq![digit_char(n as int)]
    } else {
        dec_digits(n / 10).push(digit_char((n % 10) as int))
    }
}

/// The generated name for the warning module at position `n`.
pub open spec fn module_name(n: nat) -> Seq<char> {
    seq!['W'] + dec_digits(n)
}

/// Every character of a decimal rendering is a digit.
proof fn lemma_dec_digits_chars(n: nat)
    ensures
        forall|i: int| 0 <= i < dec_digits(n).len() ==> #[trigger] ident_char(dec_digits(n)[i]),
    decreases n,
{
    if n >= 10 {
        lemma_dec_digits_chars(n / 10);
        assert forall|i: int| 0 <= i < dec_digits(n).len() implies #[trigger] ident_char(
            dec_digits(n)[i],
        ) by {
            if i < dec_digits(n).len() - 1 {
                assert(dec_digits(n)[i] == dec_digits(n / 10)[i]);
            } else {
                assert(dec_digits(n)[i] == digit_char((n % 10) as int));
            }
        }
    } else {
        assert(dec_digits(n)[0] == digit_char(n as int));
    }
}

/// Every generated module name is a legal identifier.
pub proof fn lemma_module_name_ident_ok(n: nat)
    ensures
        ident_ok(module_name(n)),
{
    lemma_dec_digits_chars(n);
    assert(ident_start_char(module_name(n)[0]));
    assert forall|i: int| 0 <= i < module_name(n).len() implies #[trigger] ident_char(
        module_name(n)[i],
    ) by {
        if i > 0 {
            assert(module_name(n)[i] == dec_digits(n)[i - 1]);
        }
    }
}

/// A number below ten renders to one digit, a larger one to at least two.
proof fn lemma_dec_digits_len(n: nat)
    ensures
        dec_digits(n).len() >= 1,
        n >= 10 ==> dec_digits(n).len() >= 2,
    decreases n,
{
    if n >= 10 {
        lemma_dec_digits_len(n / 10);
    }
}

/// Distinct numbers render to distinct digit strings.
proof fn lemma_dec_digits_injective(a: nat, b: nat)
    requires
        a != b,
    ensures
        dec_digits(a) != dec_digits(b),
    decreases a + b,
{
    lemma_dec_digits_len(a);
    lemma_dec_digits_len(b);
    if a < 10 && b < 10 {
        assert(dec_digits(a)[0] != dec_digits(b)[0]);
    } else if a < 10 {
        assert(dec_digits(a).len() != dec_digits(b).len());
    } else if b < 10 {
        assert(dec_digits(a).len() != dec_digits(b).len());
    } else {
        if a % 10 != b % 10 {
            assert(dec_digits(a).last() != dec_digits(b).last());
            if dec_digits(a) == dec_digits(b) {
                assert(dec_digits(a).last() == dec_digits(b).last());
            }
        } else {
            assert(a / 10 != b / 10);
            lemma_dec_digits_injective(a / 10, b / 10);
            if dec_digits(a) == dec_digits(b) {
                assert(dec_digits(a).drop_last() =~= dec_digits(a / 10));
                assert(dec_digits(b).drop_last() =~= dec_digits(b / 10));
            }
        }
    }
}

/// Law: the names generated within one items collection are pairwise
/// distinct — no rendered module ever reuses another's name.
pub proof fn lemma_module_names_distinct(i: nat, j: nat)
    requires
        i != j,
    ensures
        module_name(i) != module_name(j),
{
    lemma_dec_digits_injective(i, j);
    if module_name(i) == module_name(j) {
        assert(module_name(i).subrange(1, module_name(i).len() as int) =~= dec_digits(i));
        assert(module_name(j).subrange(1, module_name(j).len() as int) =~= dec_digits(j));
    }
}

/// The one-character string for a decimal digit.
fn digit_str(d: u64) -> (s: &'static str)
    requires
        d < 10,
    ensures
        s@ == seq![digit_char(d as int)],
{
    proof {
        reveal_strlit("0");
        reveal_strlit("1");
        reveal_strlit("2");
        reveal_strlit("3");
        reveal_strlit("4");
        reveal_strlit("5");
        reveal_strlit("6");
        reveal_strlit("7");
        reveal_strlit("8");
        reveal_strlit("9");
    }
    let s: &'static str = if d == 0 {
        "0"
    } else if d == 1 {
        "1"
    } else if d == 2 {
        "2"
    } else if d == 3 {
        "3"
    } else if d == 4 {
        "4"
    } else if d == 5 {
        "5"
    } else if d == 6 {
        "6"
    } else if d == 7 {
        "7"
    } else if d == 8 {
        "8"
    } else {
        "9"
    };
    proof {
        assert(s@ =~= seq![digit_char(d as int)]);
    }
    s
}

/// Appends the decimal digits of `n` to `out`.
fn push_dec_digits(n: u64, out: &mut String)
    ensures
        final(out)@ == old(out)@ + dec_digits(n as nat),
    decreases n,
{
    if n >= 10 {
        push_dec_digits(n / 10, out);
    }
    out.append(digit_str(n % 10));
    proof {
        assert(out@ =~= old(out)@ + dec_digits(n as nat));
    }
}

/// The generated name for the warning module at position `n`, as a string.
pub fn render_module_name(n: u64) -> (r: String)
    ensures
        r@ == module_name(n as nat),
{
    let mut out = String::new();
    out.append("W");
    push_dec_digits(n, &mut out);
    proof {
        reveal_strlit("W");
        assert(out@ =~= module_name(n as nat));
    }
    out
}

} // verus!
