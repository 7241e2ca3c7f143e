//! Rewriting of GNU-style numeric short options that the argument parser
//! cannot read.
//!
//! GNU diff accepts `-c42`, `-42c` and even `-4c2` for "copied context with 42
//! lines" (likewise `u` for unified context), while the argument parser only
//! reads `-c=42`. Such arguments are rewritten before parsing. Other
//! lowercase letters may stand in the argument (`-sc4`); the rewritten form
//! keeps only the context option and its digits, so those letters are
//! dropped (`-sc4` becomes `-c=4`).
//!
//! Arguments are handled as the bytes of their OS strings. Only ASCII bytes
//! are accepted in a rewritten argument, so an argument that holds anything
//! else is left as it is, whatever its encoding.

use vstd::prelude::*;

verus! {

/// Whether `c` is an ASCII digit.
pub open spec fn is_digit_byte(c: u8) -> bool {
    48 <= c && c <= 57
}

/// Whether `c` is an ASCII lowercase letter.
pub open spec fn is_lower_byte(c: u8) -> bool {
    97 <= c && c <= 122
}

/// Whether `c` is one of the letters of the context options, `c` or `u`.
pub open spec fn is_context_letter(c: u8) -> bool {
    c == 99 || c == 117
}

/// Whether every byte of `s` is an ASCII digit or lowercase letter.
pub open spec fn digits_and_letters(s: Seq<u8>) -> bool {
    forall|i: int| 0 <= i < s.len() ==> is_digit_byte(#[trigger] s[i]) || is_lower_byte(s[i])
}

/// The context letters of `s`, in order.
pub open spec fn context_letters(s: Seq<u8>) -> Seq<u8> {
    s.filter(|c: u8| is_context_letter(c))
}

/// The digits of `s`, in order.
pub open spec fn digits_of(s: Seq<u8>) -> Seq<u8> {
    s.filter(|c: u8| is_digit_byte(c))
}

/// Whether `arg` is a GNU-style numeric context option: longer than two
/// bytes, a dash, then only digits and lowercase letters among which exactly
/// one is a context letter (`c` or `u`).
pub open spec fn is_numeric_context_option(arg: Seq<u8>) -> bool {
    &&& arg.len() > 2
    &&& arg[0] == 45u8
    &&& digits_and_letters(arg.drop_first())
    &&& context_letters(arg.drop_first()).len() == 1
}

/// The form the argument parser reads: a dash, the context letter, `=` and
/// the digits of the argument in their order.
pub open spec fn parser_form(arg: Seq<u8>) -> Seq<u8> {
    seq![45u8, context_letters(arg.drop_first())[0], 61u8] + digits_of(arg.drop_first())
}

/// An argument as it is handed to the argument parser.
pub open spec fn prepared(arg: Seq<u8>) -> Seq<u8> {
    if is_numeric_context_option(arg) {
        parser_form(arg)
    } else {
        arg
    }
}

/// Rewrites one argument into the form the argument parser reads, if it is
/// a GNU-style numeric context option; returns it unchanged otherwise.
pub fn prepare_arg(arg: &[u8]) -> (r: Vec<u8>)
    ensures
        r@ == prepared(arg@),
        arg@.len() >= 3 && arg@[0] == 45u8 && (arg@[1] == 99u8 || arg@[1] == 117u8) && (forall|
            i: int,
        | 2 <= i < arg@.len() ==> 48 <= #[trigger] arg@[i] <= 57) ==> r@ == seq![45u8, arg@[1], 61u8]
            + arg@.subrange(2, arg@.len() as int),
        arg@.len() >= 3 && arg@[0] == 45u8 && (arg@.last() == 99u8 || arg@.last() == 117u8) && (
        forall|i: int| 1 <= i < arg@.len() - 1 ==> 48 <= #[trigger] arg@[i] <= 57) ==> r@ == seq![
            45u8,
            arg@.last(),
            61u8,
        ] + arg@.subrange(1, arg@.len() - 1),
{
    proof {
        let n = arg@.len() as int;
        if n >= 3 && arg@[0] == 45u8 && (arg@[1] == 99u8 || arg@[1] == 117u8) && (forall|i: int|
            2 <= i < n ==> 48 <= #[trigger] arg@[i] <= 57) {
            lemma_letter_then_digits_kept(arg@);
        }
        if n >= 3 && arg@[0] == 45u8 && (arg@.last() == 99u8 || arg@.last() == 117u8) && (forall|
            i: int,
        | 1 <= i < n - 1 ==> 48 <= #[trigger] arg@[i] <= 57) {
            lemma_digits_then_letter_kept(arg@);
        }
    }
    let len = arg.len();
    if len > 2 && arg[0] == 45u8 {
        let ghost tail = arg@.drop_first();
        let mut opt: u8 = 45u8;
        let mut num: Vec<u8> = Vec::new();
        let mut ok = false;
        let mut i: usize = 1;
        proof {
            reveal(Seq::filter);
            assert(arg@.subrange(1, 1) =~= Seq::<u8>::empty());
        }
        // The scan stops at the first byte that rules the rewrite out, and
        // `ok` then is false.
        let mut stopped = false;
        while i < len && !stopped
            invariant
                1 <= i <= len,
                len == arg@.len(),
                len > 2,
                arg@[0] == 45u8,
                tail == arg@.drop_first(),
                !stopped ==> {
                    let t = arg@.subrange(1, i as int);
                    &&& digits_and_letters(t)
                    &&& context_letters(t).len() <= 1
                    &&& ok == (context_letters(t).len() == 1)
                    &&& ok ==> opt == context_letters(t)[0]
                    &&& !ok ==> opt == 45u8
                    &&& num@ == digits_of(t)
                },
                stopped ==> !ok && !is_numeric_context_option(arg@),
            decreases len - i + (if stopped { 0int } else { 1int }),
        {
            let c = arg[i];
            let ghost t = arg@.subrange(1, i as int);
            proof {
                assert(arg@.subrange(1, i + 1) =~= t.push(c));
                t.lemma_filter_push(c, |c: u8| is_context_letter(c));
                t.lemma_filter_push(c, |c: u8| is_digit_byte(c));
            }
            if 48u8 <= c && c <= 57u8 {
                num.push(c);
                i = i + 1;
            } else if 97u8 <= c && c <= 122u8 {
                if c == 99u8 || c == 117u8 {
                    if opt == 45u8 {
                        opt = c;
                        ok = true;
                        i = i + 1;
                    } else {
                        // a second context letter
                        proof {
                            assert(tail.subrange(0, i as int) =~= arg@.subrange(1, i + 1));
                            lemma_letters_of_prefix(tail, i as int);
                        }
                        ok = false;
                        stopped = true;
                    }
                } else {
                    // another lowercase letter: allowed, and not kept
                    i = i + 1;
                }
            } else {
                // a byte that is neither a digit nor a lowercase letter
                proof {
                    assert(tail[i - 1] == c);
                }
                ok = false;
                stopped = true;
            }
        }
        if ok {
            proof {
                assert(arg@.subrange(1, len as int) =~= tail);
            }
            let mut s: Vec<u8> = Vec::new();
            s.push(45u8);
            s.push(opt);
            s.push(61u8);
            let mut k: usize = 0;
            while k < num.len()
                invariant
                    0 <= k <= num.len(),
                    s@ == seq![45u8, opt, 61u8] + num@.subrange(0, k as int),
                decreases num.len() - k,
            {
                s.push(num[k]);
                k = k + 1;
                proof {
                    assert(num@.subrange(0, k as int) =~= num@.subrange(0, k - 1).push(num@[k - 1]));
                }
            }
            proof {
                assert(num@.subrange(0, num@.len() as int) =~= num@);
            }
            s
        } else {
            proof {
                if !stopped {
                    assert(arg@.subrange(1, len as int) =~= tail);
                }
            }
            vstd::slice::slice_to_vec(arg)
        }
    } else {
        vstd::slice::slice_to_vec(arg)
    }
}

/// Context letters of a prefix of `s` are context letters of `s`: a second
/// one in the prefix rules `s` out.
proof fn lemma_letters_of_prefix(s: Seq<u8>, i: int)
    requires
        0 <= i <= s.len(),
        context_letters(s.subrange(0, i)).len() >= 2,
    ensures
        context_letters(s).len() >= 2,
    decreases s.len() - i,
{
    if i < s.len() {
        assert(s.subrange(0, i + 1) =~= s.subrange(0, i).push(s[i]));
        s.subrange(0, i).lemma_filter_push(s[i], |c: u8| is_context_letter(c));
        lemma_letters_of_prefix(s, i + 1);
    } else {
        assert(s.subrange(0, i) =~= s);
    }
}

/// Handles the argument constellations that the argument parser cannot:
/// every argument that is a GNU-style numeric context option (`-c42`,
/// `-42u`, `-4c2`, `-sc4`, ...) becomes the parser's form (`-c=42`,
/// `-c=4`); every other argument, the program name among them, stays as it
/// is.
pub fn clap_preparation(args: Vec<Vec<u8>>) -> (r: Vec<Vec<u8>>)
    ensures
        r@.len() == args@.len(),
        forall|i: int| 0 <= i < args@.len() ==> #[trigger] r@[i]@ == prepared(args@[i]@),
{
    let mut args_checked: Vec<Vec<u8>> = Vec::new();
    let mut i: usize = 0;
    while i < args.len()
        invariant
            0 <= i <= args@.len(),
            args_checked@.len() == i,
            forall|j: int| 0 <= j < i ==> #[trigger] args_checked@[j]@ == prepared(args@[j]@),
        decreases args@.len() - i,
    {
        let arg = prepare_arg(args[i].as_slice());
        args_checked.push(arg);
        i = i + 1;
    }
    args_checked
}

/// The parser's form of a numeric context option is not itself one: it holds
/// `=`, which is neither a digit nor a lowercase letter.
proof fn lemma_parser_form_is_final(arg: Seq<u8>)
    requires
        is_numeric_context_option(arg),
    ensures
        !is_numeric_context_option(parser_form(arg)),
{
    let f = parser_form(arg);
    assert(f.drop_first()[1] == 61u8);
}

/// Preparing an argument a second time changes nothing: the rewritten form
/// is left as it is.
pub proof fn lemma_prepared_idempotent(arg: Seq<u8>)
    ensures
        prepared(prepared(arg)) == prepared(arg),
{
    if is_numeric_context_option(arg) {
        lemma_parser_form_is_final(arg);
    }
}

/// Preparing a whole command line a second time changes nothing.
pub proof fn lemma_clap_preparation_idempotent(args: Seq<Seq<u8>>)
    ensures
        args.map_values(|a: Seq<u8>| prepared(a)).map_values(|a: Seq<u8>| prepared(a))
            == args.map_values(|a: Seq<u8>| prepared(a)),
{
    let once = args.map_values(|a: Seq<u8>| prepared(a));
    let twice = once.map_values(|a: Seq<u8>| prepared(a));
    assert forall|i: int| 0 <= i < args.len() implies twice[i] == once[i] by {
        lemma_prepared_idempotent(args[i]);
    }
    assert(twice =~= once);
}

/// Arguments of at most two bytes, and arguments that do not start with a
/// dash, are never rewritten.
pub proof fn lemma_prepared_keeps_plain_arguments(arg: Seq<u8>)
    requires
        arg.len() <= 2 || arg[0] != 45u8,
    ensures
        prepared(arg) == arg,
{
}


/// Whether every byte of `ds` is one of the ASCII digits `0` (48) to `9`
/// (57).
#[verifier::opaque]
pub open spec fn ascii_digits(ds: Seq<u8>) -> bool {
    forall|i: int| 0 <= i < ds.len() ==> 48 <= #[trigger] ds[i] <= 57
}

/// A run of ASCII digits has no context letter, and all of it are digits.
proof fn lemma_digit_run(ds: Seq<u8>)
    requires
        ascii_digits(ds),
    ensures
        digits_of(ds) == ds,
        context_letters(ds) == Seq::<u8>::empty(),
    decreases ds.len(),
{
    reveal(Seq::filter);
    reveal(ascii_digits);
    if ds.len() > 0 {
        let init = ds.drop_last();
        assert(ascii_digits(init)) by {
            assert forall|i: int| 0 <= i < init.len() implies 48 <= #[trigger] init[i] <= 57 by {
                assert(init[i] == ds[i]);
            }
        }
        lemma_digit_run(init);
        assert(init.push(ds.last()) =~= ds);
        init.lemma_filter_push(ds.last(), |c: u8| is_digit_byte(c));
        init.lemma_filter_push(ds.last(), |c: u8| is_context_letter(c));
    }
}

/// The text after the dash of a context letter followed by digits: only
/// digits and letters, the one context letter, and those digits.
proof fn lemma_letter_then_digits(t: Seq<u8>)
    requires
        t.len() >= 1,
        is_context_letter(t[0]),
        ascii_digits(t.drop_first()),
    ensures
        digits_and_letters(t),
        context_letters(t) == seq![t[0]],
        digits_of(t) == t.drop_first(),
{
    let d = t.drop_first();
    lemma_digit_run(d);
    assert(seq![t[0]] + d =~= t);
    d.lemma_filter_prepend(t[0], |c: u8| is_digit_byte(c));
    d.lemma_filter_prepend(t[0], |c: u8| is_context_letter(c));
    assert(Seq::<u8>::empty() + d =~= d);
    assert(seq![t[0]] + Seq::<u8>::empty() =~= seq![t[0]]);
    reveal(ascii_digits);
    assert forall|i: int| 0 <= i < t.len() implies is_digit_byte(#[trigger] t[i]) || is_lower_byte(
        t[i],
    ) by {
        if i > 0 {
            assert(t[i] == d[i - 1]);
        }
    }
}

/// The text after the dash of digits followed by a context letter: only
/// digits and letters, the one context letter, and those digits.
proof fn lemma_digits_then_letter(t: Seq<u8>)
    requires
        t.len() >= 1,
        is_context_letter(t.last()),
        ascii_digits(t.drop_last()),
    ensures
        digits_and_letters(t),
        context_letters(t) == seq![t.last()],
        digits_of(t) == t.drop_last(),
{
    let d = t.drop_last();
    lemma_digit_run(d);
    assert(d.push(t.last()) =~= t);
    d.lemma_filter_push(t.last(), |c: u8| is_digit_byte(c));
    d.lemma_filter_push(t.last(), |c: u8| is_context_letter(c));
    assert(Seq::<u8>::empty().push(t.last()) =~= seq![t.last()]);
    reveal(ascii_digits);
    assert forall|i: int| 0 <= i < t.len() implies is_digit_byte(#[trigger] t[i]) || is_lower_byte(
        t[i],
    ) by {
        if i < t.len() - 1 {
            assert(t[i] == d[i]);
        }
    }
}

/// An argument whose text after the dash holds only digits and letters, with
/// the single context letter `letter` and the digits `ds`, becomes
/// `-letter=ds`.
proof fn lemma_rewrite_of(arg: Seq<u8>, letter: u8, ds: Seq<u8>)
    requires
        arg.len() >= 3,
        arg[0] == 45u8,
        digits_and_letters(arg.drop_first()),
        context_letters(arg.drop_first()) == seq![letter],
        digits_of(arg.drop_first()) == ds,
    ensures
        prepared(arg) == seq![45u8, letter, 61u8] + ds,
{
    assert(is_numeric_context_option(arg));
}

/// Every ASCII digit `0` to `9` of a numeric context option is kept, in its
/// order: `-c` (or `-u`) followed by digits becomes `-c=` and those digits
/// (`-c10` becomes `-c=10`, `-u0` becomes `-u=0`).
pub proof fn lemma_letter_then_digits_kept(arg: Seq<u8>)
    requires
        arg.len() >= 3,
        arg[0] == 45u8,
        arg[1] == 99u8 || arg[1] == 117u8,
        forall|i: int| 2 <= i < arg.len() ==> 48 <= #[trigger] arg[i] <= 57,
    ensures
        prepared(arg) == seq![45u8, arg[1], 61u8] + arg.subrange(2, arg.len() as int),
{
    let t = arg.drop_first();
    assert(t.drop_first() =~= arg.subrange(2, arg.len() as int));
    assert(ascii_digits(t.drop_first())) by {
        reveal(ascii_digits);
        assert forall|i: int| 0 <= i < t.drop_first().len() implies 48 <= #[trigger] t.drop_first()[i]
            <= 57 by {
            assert(t.drop_first()[i] == arg[i + 2]);
        }
    }
    lemma_letter_then_digits(t);
    lemma_rewrite_of(arg, arg[1], arg.subrange(2, arg.len() as int));
}

/// Every ASCII digit `0` to `9` of a numeric context option is kept, in its
/// order: `-`, digits, then `c` (or `u`) becomes `-c=` and those digits
/// (`-10c` becomes `-c=10`).
pub proof fn lemma_digits_then_letter_kept(arg: Seq<u8>)
    requires
        arg.len() >= 3,
        arg[0] == 45u8,
        arg.last() == 99u8 || arg.last() == 117u8,
        forall|i: int| 1 <= i < arg.len() - 1 ==> 48 <= #[trigger] arg[i] <= 57,
    ensures
        prepared(arg) == seq![45u8, arg.last(), 61u8] + arg.subrange(1, arg.len() - 1),
{
    let t = arg.drop_first();
    assert(t.drop_last() =~= arg.subrange(1, arg.len() - 1));
    assert(ascii_digits(t.drop_last())) by {
        reveal(ascii_digits);
        assert forall|i: int| 0 <= i < t.drop_last().len() implies 48 <= #[trigger] t.drop_last()[i]
            <= 57 by {
            assert(t.drop_last()[i] == arg[i + 1]);
        }
    }
    assert(t.last() == arg.last());
    lemma_digits_then_letter(t);
    lemma_rewrite_of(arg, arg.last(), arg.subrange(1, arg.len() - 1));
}

} // verus!
