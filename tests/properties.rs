use uint_lowering::eval::{run, run_inst};
use uint_lowering::felt::{Felt252, PRIME_HI};
use uint_lowering::ir::{Block, Fragment, Inst, IntOperator, Target, Terminator, Value};
use uint_lowering::uint32::{
    build, build_divmod, build_equal, build_from_felt252, build_is_zero, build_operation,
    build_to_felt252, LoweringError, Uint32Op, EQUAL, IN_RANGE, NON_ZERO, NOT_EQUAL, NO_OVERFLOW,
    OUT_OF_RANGE, OVERFLOW, ZERO,
};

fn outcome(f: &Fragment, args: Vec<Value>) -> (usize, Vec<Value>) {
    let out = run(f, &args).expect("the fragment has an outcome");
    (out.successor, out.args)
}

fn op(o: IntOperator, a: u32, b: u32) -> (usize, Vec<Value>) {
    outcome(&build_operation(o), vec![Value::RangeCheck, Value::U32(a), Value::U32(b)])
}

#[test]
fn add_wraps_modulo_word() {
    for (a, b) in [(3u32, 4u32), (0x8000_0000, 0x8000_0000), (0xFFFF_FFF0, 0x20), (12345, 0xFFFF_0000)] {
        let sum = a as u64 + b as u64;
        let expected = if sum >= 1 << 32 { OVERFLOW } else { NO_OVERFLOW };
        assert_eq!(
            op(IntOperator::OverflowingAdd, a, b),
            (expected, vec![Value::RangeCheck, Value::U32((sum % (1 << 32)) as u32)])
        );
    }
}

#[test]
fn sub_wraps_modulo_word() {
    for (a, b) in [(3u32, 4u32), (10, 3), (0, 0x8000_0000), (0xFFFF_FFFF, 0)] {
        let expected = if a < b { OVERFLOW } else { NO_OVERFLOW };
        assert_eq!(
            op(IntOperator::OverflowingSub, a, b),
            (expected, vec![Value::RangeCheck, Value::U32(a.wrapping_sub(b))])
        );
    }
}

#[test]
fn overflow_boundaries() {
    let max = u32::MAX;
    assert_eq!(op(IntOperator::OverflowingAdd, 0, 0).0, NO_OVERFLOW);
    assert_eq!(op(IntOperator::OverflowingSub, 0, 0).0, NO_OVERFLOW);
    assert_eq!(op(IntOperator::OverflowingAdd, max, 1).0, OVERFLOW);
    assert_eq!(op(IntOperator::OverflowingSub, 0, 1).0, OVERFLOW);
    assert_eq!(
        op(IntOperator::OverflowingSub, max, max),
        (NO_OVERFLOW, vec![Value::RangeCheck, Value::U32(0)])
    );
}

#[test]
fn scenarios_of_the_word_family() {
    assert_eq!(op(IntOperator::OverflowingAdd, 0, 0), (NO_OVERFLOW, vec![Value::RangeCheck, Value::U32(0)]));
    assert_eq!(
        op(IntOperator::OverflowingAdd, 0xFFFF_FFFF, 1),
        (OVERFLOW, vec![Value::RangeCheck, Value::U32(0)])
    );
    assert_eq!(
        op(IntOperator::OverflowingSub, 0, 1),
        (OVERFLOW, vec![Value::RangeCheck, Value::U32(0xFFFF_FFFF)])
    );
    assert_eq!(
        outcome(&build_divmod(), vec![Value::RangeCheck, Value::U32(7), Value::U32(2)]),
        (0, vec![Value::RangeCheck, Value::U32(3), Value::U32(1)])
    );
    let narrow = build_from_felt252();
    assert_eq!(
        outcome(&narrow, vec![Value::RangeCheck, Value::Felt(Felt252::from_u32(4294967295))]),
        (IN_RANGE, vec![Value::RangeCheck, Value::U32(4294967295)])
    );
    assert_eq!(
        outcome(&narrow, vec![Value::RangeCheck, Value::Felt(Felt252::new(4294967296, 0).unwrap())]),
        (OUT_OF_RANGE, vec![Value::RangeCheck])
    );
}

#[test]
fn equality_matches_numbers() {
    let eq = build_equal();
    for (a, b) in [(0u32, 0u32), (7, 7), (u32::MAX, u32::MAX), (1, 2), (u32::MAX, 0)] {
        let (s, vals) = outcome(&eq, vec![Value::U32(a), Value::U32(b)]);
        let (t, _) = outcome(&eq, vec![Value::U32(b), Value::U32(a)]);
        assert_eq!(s, if a == b { EQUAL } else { NOT_EQUAL });
        assert_eq!(s, t);
        assert!(vals.is_empty());
    }
}

#[test]
fn zero_test_hands_back_nonzero_word() {
    let z = build_is_zero();
    assert_eq!(outcome(&z, vec![Value::U32(0)]), (ZERO, vec![]));
    assert_eq!(outcome(&z, vec![Value::U32(u32::MAX)]), (NON_ZERO, vec![Value::U32(u32::MAX)]));
    assert_eq!(outcome(&z, vec![Value::U32(0x100)]), (NON_ZERO, vec![Value::U32(0x100)]));
}

#[test]
fn divmod_quotient_and_remainder() {
    let d = build_divmod();
    for (a, b) in [(100u32, 7u32), (u32::MAX, 2), (5, 9), (u32::MAX, u32::MAX)] {
        let (s, vals) = outcome(&d, vec![Value::RangeCheck, Value::U32(a), Value::U32(b)]);
        assert_eq!(s, 0);
        match (vals[0], vals[1], vals[2]) {
            (Value::RangeCheck, Value::U32(q), Value::U32(r)) => {
                assert_eq!(q as u64 * b as u64 + r as u64, a as u64);
                assert!(r < b);
            }
            _ => panic!("unexpected payload"),
        }
    }
}

#[test]
fn divmod_by_zero_has_no_outcome() {
    let args = vec![Value::RangeCheck, Value::U32(5), Value::U32(0)];
    assert!(run(&build_divmod(), &args).is_none());
}

#[test]
fn widen_then_narrow_round_trips() {
    let widen = build_to_felt252();
    let narrow = build_from_felt252();
    for a in [0u32, 1, 0xFFFF, 0x8000_0000, u32::MAX] {
        let (s, vals) = outcome(&widen, vec![Value::U32(a)]);
        assert_eq!(s, 0);
        assert_eq!(vals, vec![Value::Felt(Felt252 { lo: a as u128, hi: 0 })]);
        assert_eq!(
            outcome(&narrow, vec![Value::RangeCheck, vals[0]]),
            (IN_RANGE, vec![Value::RangeCheck, Value::U32(a)])
        );
    }
}

#[test]
fn narrow_rejects_large_elements() {
    let narrow = build_from_felt252();
    for (lo, hi) in [(1u128 << 32, 0u128), (u128::MAX, 0), (0, 1), (0, PRIME_HI)] {
        let x = Felt252::new(lo, hi).unwrap();
        assert_eq!(outcome(&narrow, vec![Value::RangeCheck, Value::Felt(x)]), (OUT_OF_RANGE, vec![Value::RangeCheck]));
    }
}

#[test]
fn felt_new_checks_the_modulus() {
    assert_eq!(Felt252::new(0, PRIME_HI), Some(Felt252 { lo: 0, hi: PRIME_HI }));
    assert_eq!(Felt252::new(1, PRIME_HI), None);
    assert_eq!(Felt252::new(0, PRIME_HI + 1), None);
    assert_eq!(Felt252::from_u32(9), Felt252 { lo: 9, hi: 0 });
}

#[test]
fn dispatch_selects_the_routine() {
    let f = build(&Uint32Op::Const(42)).unwrap();
    assert_eq!(outcome(&f, vec![]), (0, vec![Value::U32(42)]));
    let f = build(&Uint32Op::Operation(IntOperator::OverflowingSub)).unwrap();
    assert_eq!(
        outcome(&f, vec![Value::RangeCheck, Value::U32(2), Value::U32(3)]),
        (OVERFLOW, vec![Value::RangeCheck, Value::U32(u32::MAX)])
    );
    let f = build(&Uint32Op::IsZero).unwrap();
    assert_eq!(outcome(&f, vec![Value::U32(0)]), (ZERO, vec![]));
    assert!(build(&Uint32Op::Equal).is_ok());
    assert!(build(&Uint32Op::Divmod).is_ok());
    assert!(build(&Uint32Op::ToFelt252).is_ok());
    assert!(build(&Uint32Op::FromFelt252).is_ok());
}

#[test]
fn dispatch_refuses_unimplemented() {
    assert_eq!(
        build(&Uint32Op::SquareRoot).err(),
        Some(LoweringError::NotImplemented(Uint32Op::SquareRoot))
    );
    assert_eq!(build(&Uint32Op::WideMul).err(), Some(LoweringError::NotImplemented(Uint32Op::WideMul)));
}

#[test]
fn ill_formed_fragments_have_no_outcome() {
    // An operand of the wrong kind.
    let args = vec![Value::RangeCheck, Value::Bool(true), Value::U32(1)];
    assert!(run(&build_operation(IntOperator::OverflowingAdd), &args).is_none());
    // Too few arguments.
    assert!(run(&build_equal(), &vec![Value::U32(1)]).is_none());
    // A jump that never leaves the fragment.
    let looping = Fragment {
        blocks: vec![Block { insts: vec![], term: Terminator::Br(Target::Local(0)) }],
    };
    assert!(run(&looping, &vec![]).is_none());
    // An exit argument that names no value.
    let dangling = Fragment {
        blocks: vec![Block { insts: vec![], term: Terminator::Br(Target::Exit(0, vec![3])) }],
    };
    assert!(run(&dangling, &vec![Value::U32(1)]).is_none());
}

#[test]
fn single_instructions() {
    let env = vec![Value::Felt(Felt252 { lo: 5, hi: 1 }), Value::Felt(Felt252 { lo: 7, hi: 0 }), Value::U32(9)];
    assert_eq!(run_inst(&env, Inst::CmpUle(0, 1)), Some(Value::Bool(false)));
    assert_eq!(run_inst(&env, Inst::CmpUle(1, 0)), Some(Value::Bool(true)));
    assert_eq!(run_inst(&env, Inst::CmpEq(0, 0)), Some(Value::Bool(true)));
    assert_eq!(run_inst(&env, Inst::TruncU(0)), Some(Value::U32(5)));
    assert_eq!(run_inst(&env, Inst::ExtU(2)), Some(Value::Felt(Felt252 { lo: 9, hi: 0 })));
    assert_eq!(run_inst(&env, Inst::Extract(2, 0)), None);
    assert_eq!(run_inst(&env, Inst::CmpEq(0, 2)), None);
}
