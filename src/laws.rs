use vstd::prelude::*;
use crate::eval::{eval, eval_from, eval_insts, felt_of, gather};
use crate::felt::{pow2_32, Felt252};
use crate::ir::{IntOperator, Value};
use crate::uint32::{
    const_fragment,    divmod_fragment, equal_fragment, felt_u32_max, from_felt252_fragment, is_zero_fragment,
    operation_fragment, to_felt252_fragment, EQUAL, IN_RANGE, NON_ZERO, NOT_EQUAL, NO_OVERFLOW,
    OUT_OF_RANGE, OVERFLOW, ZERO,
};

verus! {

/// A constant leaves by the single successor with that word.
pub proof fn lemma_const(c: u32)
    ensures
        eval(const_fragment(c), Seq::<Value>::empty()) == Some((0nat, seq![Value::U32(c)])),
{
    let f = const_fragment(c);
    reveal_with_fuel(eval_insts, 2);
    let e = eval_insts(Seq::<Value>::empty(), f[0].insts).unwrap();
    assert(e.len() == 1);
    assert(gather(e, seq![0usize]) == Some(seq![Value::U32(c)])) by {
        assert(seq![0usize].map_values(|i: usize| e[i as int]) =~= seq![Value::U32(c)]);
    }
}

/// Overflowing add: both successors get the range check and the sum modulo
/// 2^32; the overflow successor is taken exactly when the sum reaches 2^32.
pub proof fn lemma_overflowing_add(a: u32, b: u32)
    ensures
        eval(
            operation_fragment(IntOperator::OverflowingAdd),
            seq![Value::RangeCheck, Value::U32(a), Value::U32(b)],
        ) == Some((
            (if a as int + b as int >= pow2_32() { OVERFLOW } else { NO_OVERFLOW }) as nat,
            seq![Value::RangeCheck, Value::U32(((a as int + b as int) % pow2_32() as int) as u32)],
        )),
{
    let args = seq![Value::RangeCheck, Value::U32(a), Value::U32(b)];
    let f = operation_fragment(IntOperator::OverflowingAdd);
    reveal_with_fuel(eval_insts, 4);
    let e = eval_insts(args, f[0].insts).unwrap();
    assert(e.len() == 6);
    let out = seq![Value::RangeCheck, Value::U32(((a as int + b as int) % pow2_32() as int) as u32)];
    assert(gather(e, seq![0usize, 4]) == Some(out)) by {
        assert(seq![0usize, 4].map_values(|i: usize| e[i as int]) =~= out);
    }
}

/// Overflowing subtract: both successors get the range check and the
/// difference modulo 2^32; the overflow successor is taken exactly when the
/// difference is negative.
pub proof fn lemma_overflowing_sub(a: u32, b: u32)
    ensures
        eval(
            operation_fragment(IntOperator::OverflowingSub),
            seq![Value::RangeCheck, Value::U32(a), Value::U32(b)],
        ) == Some((
            (if a < b { OVERFLOW } else { NO_OVERFLOW }) as nat,
            seq![Value::RangeCheck, Value::U32(((a as int - b as int) % pow2_32() as int) as u32)],
        )),
{
    let args = seq![Value::RangeCheck, Value::U32(a), Value::U32(b)];
    let f = operation_fragment(IntOperator::OverflowingSub);
    reveal_with_fuel(eval_insts, 4);
    let e = eval_insts(args, f[0].insts).unwrap();
    assert(e.len() == 6);
    let out = seq![Value::RangeCheck, Value::U32(((a as int - b as int) % pow2_32() as int) as u32)];
    assert(gather(e, seq![0usize, 4]) == Some(out)) by {
        assert(seq![0usize, 4].map_values(|i: usize| e[i as int]) =~= out);
    }
}

/// Equality takes the equal successor exactly when the words are equal, and
/// hands neither successor a value.
pub proof fn lemma_equal(a: u32, b: u32)
    ensures
        eval(equal_fragment(), seq![Value::U32(a), Value::U32(b)])
            == Some(((if a == b { EQUAL } else { NOT_EQUAL }) as nat, Seq::<Value>::empty())),
{
    let args = seq![Value::U32(a), Value::U32(b)];
    let f = equal_fragment();
    reveal_with_fuel(eval_insts, 2);
    let e = eval_insts(args, f[0].insts).unwrap();
    assert(e.len() == 3);
    assert(gather(e, seq![]) == Some(Seq::<Value>::empty())) by {
        assert(Seq::<usize>::empty().map_values(|i: usize| e[i as int]) =~= Seq::<Value>::empty());
    }
}

/// Equality is reflexive and symmetric.
pub proof fn lemma_equal_reflexive_symmetric(a: u32, b: u32)
    ensures
        eval(equal_fragment(), seq![Value::U32(a), Value::U32(a)])
            == Some((EQUAL as nat, Seq::<Value>::empty())),
        eval(equal_fragment(), seq![Value::U32(a), Value::U32(b)])
            == eval(equal_fragment(), seq![Value::U32(b), Value::U32(a)]),
{
    lemma_equal(a, a);
    lemma_equal(a, b);
    lemma_equal(b, a);
}

/// The zero test sends zero to the zero successor with no payload, and any
/// other word to the nonzero successor with that word unchanged.
pub proof fn lemma_is_zero(v: u32)
    ensures
        v == 0 ==> eval(is_zero_fragment(), seq![Value::U32(v)])
            == Some((ZERO as nat, Seq::<Value>::empty())),
        v != 0 ==> eval(is_zero_fragment(), seq![Value::U32(v)])
            == Some((NON_ZERO as nat, seq![Value::U32(v)])),
{
    let args = seq![Value::U32(v)];
    let f = is_zero_fragment();
    reveal_with_fuel(eval_insts, 3);
    let e = eval_insts(args, f[0].insts).unwrap();
    assert(e.len() == 3);
    assert(gather(e, seq![]) == Some(Seq::<Value>::empty())) by {
        assert(Seq::<usize>::empty().map_values(|i: usize| e[i as int]) =~= Seq::<Value>::empty());
    }
    assert(gather(e, seq![0usize]) == Some(seq![Value::U32(v)])) by {
        assert(seq![0usize].map_values(|i: usize| e[i as int]) =~= seq![Value::U32(v)]);
    }
}

/// Division with remainder by a nonzero divisor leaves by its single successor
/// with the range check, a quotient and a remainder such that
/// quotient * divisor + remainder == dividend and remainder < divisor.
pub proof fn lemma_divmod(a: u32, b: u32)
    requires
        b != 0,
    ensures
        eval(divmod_fragment(), seq![Value::RangeCheck, Value::U32(a), Value::U32(b)])
            == Some((0nat, seq![Value::RangeCheck, Value::U32(a / b), Value::U32(a % b)])),
        (a / b) as int * b as int + (a % b) as int == a as int,
        0 <= a % b < b,
{
    let args = seq![Value::RangeCheck, Value::U32(a), Value::U32(b)];
    let f = divmod_fragment();
    reveal_with_fuel(eval_insts, 3);
    let e = eval_insts(args, f[0].insts).unwrap();
    assert(e.len() == 5);
    let out = seq![Value::RangeCheck, Value::U32(a / b), Value::U32(a % b)];
    assert(gather(e, seq![0usize, 3, 4]) == Some(out)) by {
        assert(seq![0usize, 3, 4].map_values(|i: usize| e[i as int]) =~= out);
    }
    assert((a / b) as int * b as int + (a % b) as int == a as int) by (nonlinear_arith)
        requires b != 0;
}

/// With a zero divisor the division fragment has no outcome: the divisor must
/// be shown nonzero before it runs.
pub proof fn lemma_divmod_zero_divisor(a: u32)
    ensures
        eval(divmod_fragment(), seq![Value::RangeCheck, Value::U32(a), Value::U32(0)]) is None,
{
    let args = seq![Value::RangeCheck, Value::U32(a), Value::U32(0)];
    let f = divmod_fragment();
    reveal_with_fuel(eval_insts, 3);
    assert(eval_insts(args, f[0].insts) is None);
}

/// Widening a word gives the field element of the same value.
pub proof fn lemma_to_felt252(a: u32)
    ensures
        eval(to_felt252_fragment(), seq![Value::U32(a)])
            == Some((0nat, seq![Value::Felt(felt_of(a))])),
        felt_of(a).value() == a as nat,
        felt_of(a).wf(),
{
    let args = seq![Value::U32(a)];
    let f = to_felt252_fragment();
    reveal_with_fuel(eval_insts, 2);
    let e = eval_insts(args, f[0].insts).unwrap();
    assert(e.len() == 2);
    assert(gather(e, seq![1usize]) == Some(seq![Value::Felt(felt_of(a))])) by {
        assert(seq![1usize].map_values(|i: usize| e[i as int]) =~= seq![Value::Felt(felt_of(a))]);
    }
}

/// The entry block of the narrowing fragment: it compares the element with
/// the largest word and jumps to the block that truncates or to the one that
/// fails.
proof fn lemma_from_felt252_entry(x: Felt252)
    ensures
        eval(from_felt252_fragment(), seq![Value::RangeCheck, Value::Felt(x)]) == eval_from(
            from_felt252_fragment(),
            if x.value() < pow2_32() { 1nat } else { 2nat },
            seq![
                Value::RangeCheck,
                Value::Felt(x),
                Value::Felt(felt_u32_max()),
                Value::Bool(x.value() < pow2_32()),
            ],
            2,
        ),
{
    let args = seq![Value::RangeCheck, Value::Felt(x)];
    let f = from_felt252_fragment();
    reveal_with_fuel(eval_insts, 3);
    assert(felt_u32_max().value() == pow2_32() - 1);
    let e = seq![
        Value::RangeCheck,
        Value::Felt(x),
        Value::Felt(felt_u32_max()),
        Value::Bool(x.value() < pow2_32()),
    ];
    assert(eval_insts(args, f[0].insts) == Some(e));
}

/// Narrowing a field element: below 2^32 it leaves by the in-range successor
/// with the range check and the word of the same value; from 2^32 on it leaves
/// by the out-of-range successor with the range check alone.
pub proof fn lemma_from_felt252(x: Felt252)
    ensures
        x.value() < pow2_32() ==> eval(from_felt252_fragment(), seq![Value::RangeCheck, Value::Felt(x)])
            == Some((IN_RANGE as nat, seq![Value::RangeCheck, Value::U32(x.value() as u32)])),
        x.value() >= pow2_32() ==> eval(from_felt252_fragment(), seq![Value::RangeCheck, Value::Felt(x)])
            == Some((OUT_OF_RANGE as nat, seq![Value::RangeCheck])),
{
    let f = from_felt252_fragment();
    let e = seq![
        Value::RangeCheck,
        Value::Felt(x),
        Value::Felt(felt_u32_max()),
        Value::Bool(x.value() < pow2_32()),
    ];
    lemma_from_felt252_entry(x);
    if x.value() < pow2_32() {
        assert(x.hi == 0) by (nonlinear_arith)
            requires (x.hi as int) * 0x1_0000_0000_0000_0000_0000_0000_0000_0000 + (x.lo as int) < 0x1_0000_0000, x.lo >= 0;
        reveal_with_fuel(eval_insts, 2);
        let e2 = e.push(Value::U32(x.value() as u32));
        assert(eval_insts(e, f[1].insts) == Some(e2));
        let out = seq![Value::RangeCheck, Value::U32(x.value() as u32)];
        assert(gather(e2, seq![0usize, 4]) == Some(out)) by {
            assert(seq![0usize, 4].map_values(|i: usize| e2[i as int]) =~= out);
        }
        assert(eval_from(f, 1, e, 2) == Some((IN_RANGE as nat, out)));
    } else {
        assert(eval_insts(e, f[2].insts) == Some(e));
        assert(gather(e, seq![0usize]) == Some(seq![Value::RangeCheck])) by {
            assert(seq![0usize].map_values(|i: usize| e[i as int]) =~= seq![Value::RangeCheck]);
        }
        assert(eval_from(f, 2, e, 2) == Some((OUT_OF_RANGE as nat, seq![Value::RangeCheck])));
    }
}

/// Widening then narrowing gives back the same word, by the in-range successor.
pub proof fn lemma_widen_narrow_round_trip(a: u32)
    ensures
        eval(to_felt252_fragment(), seq![Value::U32(a)]) matches Some((s, vals)) && s == 0
            && vals.len() == 1
            && eval(from_felt252_fragment(), seq![Value::RangeCheck, vals[0]])
                == Some((IN_RANGE as nat, seq![Value::RangeCheck, Value::U32(a)])),
{
    lemma_to_felt252(a);
    lemma_from_felt252(felt_of(a));
}

} // verus!
