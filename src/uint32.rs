use vstd::prelude::*;
use crate::felt::Felt252;
use crate::ir::{Block, BlockV, Fragment, Inst, IntOperator, Target, TargetV, Terminator, TerminatorV};

verus! {

/// Successor of an overflowing operation taken when the result fits.
pub const NO_OVERFLOW: usize = 0;
/// Successor of an overflowing operation taken when the result wraps.
pub const OVERFLOW: usize = 1;
/// Successor of an equality test taken when the operands are equal.
pub const EQUAL: usize = 0;
/// Successor of an equality test taken when the operands differ.
pub const NOT_EQUAL: usize = 1;
/// Successor of a zero test that carries the nonzero operand.
pub const NON_ZERO: usize = 0;
/// Successor of a zero test taken on zero, with no payload.
pub const ZERO: usize = 1;
/// Successor of a narrowing taken when the value fits in a word.
pub const IN_RANGE: usize = 0;
/// Successor of a narrowing taken when the value does not fit.
pub const OUT_OF_RANGE: usize = 1;

/// The largest word, as a field element.
pub open spec fn felt_u32_max() -> Felt252 {
    Felt252 { lo: 0xFFFF_FFFF, hi: 0 }
}

pub open spec fn exit(s: usize, args: Seq<usize>) -> TargetV {
    TargetV::Exit(s as nat, args)
}

/// Materialises the constant and leaves by the single successor with it.
pub open spec fn const_fragment(c: u32) -> Seq<BlockV> {
    seq![BlockV {
        insts: seq![Inst::ConstU32(c)],
        term: TerminatorV::Br(exit(0, seq![0usize])),
    }]
}

/// Arguments: range check, left, right. One fused instruction, its two fields
/// extracted, and a branch on the flag; both successors get the range check
/// and the wrapped result.
pub open spec fn operation_fragment(op: IntOperator) -> Seq<BlockV> {
    seq![BlockV {
        insts: seq![Inst::WithOverflow(op, 1, 2), Inst::Extract(3, 0), Inst::Extract(3, 1)],
        term: TerminatorV::CondBr(5, exit(OVERFLOW, seq![0usize, 4]), exit(NO_OVERFLOW, seq![0usize, 4])),
    }]
}

/// Arguments: left, right. One comparison and a branch on it, with no payload.
pub open spec fn equal_fragment() -> Seq<BlockV> {
    seq![BlockV {
        insts: seq![Inst::CmpEq(0, 1)],
        term: TerminatorV::CondBr(2, exit(EQUAL, seq![]), exit(NOT_EQUAL, seq![])),
    }]
}

/// Argument: the word. A comparison with zero; the nonzero successor gets the
/// word back.
pub open spec fn is_zero_fragment() -> Seq<BlockV> {
    seq![BlockV {
        insts: seq![Inst::ConstU32(0), Inst::CmpEq(0, 1)],
        term: TerminatorV::CondBr(2, exit(ZERO, seq![]), exit(NON_ZERO, seq![0usize])),
    }]
}

/// Arguments: range check, dividend, divisor. Quotient and remainder as two
/// instructions, then the single successor.
pub open spec fn divmod_fragment() -> Seq<BlockV> {
    seq![BlockV {
        insts: seq![Inst::DivU(1, 2), Inst::RemU(1, 2)],
        term: TerminatorV::Br(exit(0, seq![0usize, 3, 4])),
    }]
}

/// Argument: the word. Zero extension, then the single successor.
pub open spec fn to_felt252_fragment() -> Seq<BlockV> {
    seq![BlockV {
        insts: seq![Inst::ExtU(0)],
        term: TerminatorV::Br(exit(0, seq![1usize])),
    }]
}

/// Arguments: range check, field element. A comparison with the largest word,
/// then a block that truncates and leaves with range check and word, or one
/// that leaves with the range check alone.
pub open spec fn from_felt252_fragment() -> Seq<BlockV> {
    seq![
        BlockV {
            insts: seq![Inst::ConstFelt(felt_u32_max()), Inst::CmpUle(1, 2)],
            term: TerminatorV::CondBr(3, TargetV::Local(1), TargetV::Local(2)),
        },
        BlockV {
            insts: seq![Inst::TruncU(1)],
            term: TerminatorV::Br(exit(IN_RANGE, seq![0usize, 4])),
        },
        BlockV {
            insts: seq![],
            term: TerminatorV::Br(exit(OUT_OF_RANGE, seq![0usize])),
        },
    ]
}

fn one_block(insts: Vec<Inst>, term: Terminator) -> (r: Fragment)
    ensures
        r@ == seq![BlockV { insts: insts@, term: term@ }],
{
    let r = Fragment { blocks: vec![Block { insts, term }] };
    assert(r@ =~= seq![BlockV { insts: insts@, term: term@ }]);
    r
}

/// Lowers the constant `c`.
pub fn build_const(c: u32) -> (r: Fragment)
    ensures
        r@ == const_fragment(c),
{
    let insts = vec![Inst::ConstU32(c)];
    let args: Vec<usize> = vec![0];
    assert(insts@ =~= seq![Inst::ConstU32(c)]);
    assert(args@ =~= seq![0usize]);
    let r = one_block(insts, Terminator::Br(Target::Exit(0, args)));
    assert(r@ =~~= const_fragment(c));
    r
}

/// Lowers an overflowing add or subtract.
pub fn build_operation(op: IntOperator) -> (r: Fragment)
    ensures
        r@ == operation_fragment(op),
{
    let r = one_block(
        vec![Inst::WithOverflow(op, 1, 2), Inst::Extract(3, 0), Inst::Extract(3, 1)],
        Terminator::CondBr(5, Target::Exit(OVERFLOW, vec![0, 4]), Target::Exit(NO_OVERFLOW, vec![0, 4])),
    );
    assert(r@ =~~= operation_fragment(op));
    r
}

/// Lowers an equality test.
pub fn build_equal() -> (r: Fragment)
    ensures
        r@ == equal_fragment(),
{
    let insts = vec![Inst::CmpEq(0, 1)];
    let (on_eq, on_ne): (Vec<usize>, Vec<usize>) = (vec![], vec![]);
    assert(insts@ =~= seq![Inst::CmpEq(0, 1)]);
    assert(on_eq@ =~= seq![] && on_ne@ =~= seq![]);
    let r = one_block(insts, Terminator::CondBr(2, Target::Exit(EQUAL, on_eq), Target::Exit(NOT_EQUAL, on_ne)));
    assert(r@ =~~= equal_fragment());
    r
}

/// Lowers a zero test.
pub fn build_is_zero() -> (r: Fragment)
    ensures
        r@ == is_zero_fragment(),
{
    let insts = vec![Inst::ConstU32(0), Inst::CmpEq(0, 1)];
    let (on_zero, on_nonzero): (Vec<usize>, Vec<usize>) = (vec![], vec![0]);
    assert(insts@ =~= seq![Inst::ConstU32(0), Inst::CmpEq(0, 1)]);
    assert(on_zero@ =~= seq![] && on_nonzero@ =~= seq![0usize]);
    let r = one_block(insts, Terminator::CondBr(2, Target::Exit(ZERO, on_zero), Target::Exit(NON_ZERO, on_nonzero)));
    assert(r@ =~~= is_zero_fragment());
    r
}

/// Lowers a division with remainder whose divisor is already known nonzero.
pub fn build_divmod() -> (r: Fragment)
    ensures
        r@ == divmod_fragment(),
{
    let r = one_block(
        vec![Inst::DivU(1, 2), Inst::RemU(1, 2)],
        Terminator::Br(Target::Exit(0, vec![0, 3, 4])),
    );
    assert(r@ =~~= divmod_fragment());
    r
}

/// Lowers the widening of a word to a field element.
pub fn build_to_felt252() -> (r: Fragment)
    ensures
        r@ == to_felt252_fragment(),
{
    let insts = vec![Inst::ExtU(0)];
    let args: Vec<usize> = vec![1];
    assert(insts@ =~= seq![Inst::ExtU(0)]);
    assert(args@ =~= seq![1usize]);
    let r = one_block(insts, Terminator::Br(Target::Exit(0, args)));
    assert(r@ =~~= to_felt252_fragment());
    r
}

/// Lowers the range-checked narrowing of a field element to a word.
pub fn build_from_felt252() -> (r: Fragment)
    ensures
        r@ == from_felt252_fragment(),
{
    let max = Felt252 { lo: 0xFFFF_FFFF, hi: 0 };
    let entry = Block {
        insts: vec![Inst::ConstFelt(max), Inst::CmpUle(1, 2)],
        term: Terminator::CondBr(3, Target::Local(1), Target::Local(2)),
    };
    let (success_args, failure_args): (Vec<usize>, Vec<usize>) = (vec![0, 4], vec![0]);
    let success = Block { insts: vec![Inst::TruncU(1)], term: Terminator::Br(Target::Exit(IN_RANGE, success_args)) };
    let failure = Block { insts: vec![], term: Terminator::Br(Target::Exit(OUT_OF_RANGE, failure_args)) };
    let ghost spec_frag = from_felt252_fragment();
    assert(entry@ == spec_frag[0]) by {
        assert(entry.insts@ =~= spec_frag[0].insts);
    }
    assert(success@ == spec_frag[1]) by {
        assert(success.insts@ =~= spec_frag[1].insts);
        assert(success_args@ =~= seq![0usize, 4]);
    }
    assert(failure@ == spec_frag[2]) by {
        assert(failure.insts@ =~= spec_frag[2].insts);
        assert(failure_args@ =~= seq![0usize]);
    }
    let r = Fragment { blocks: vec![entry, success, failure] };
    assert(r@ =~= spec_frag);
    r
}

/// The operations on 32-bit words that can be asked for.
#[derive(Clone, Copy, Debug, PartialEq, Eq, Structural)]
pub enum Uint32Op {
    Const(u32),
    Operation(IntOperator),
    SquareRoot,
    Equal,
    ToFelt252,
    FromFelt252,
    IsZero,
    Divmod,
    WideMul,
}

/// Why an operation could not be lowered.
#[derive(Clone, Copy, Debug, PartialEq, Eq, Structural)]
pub enum LoweringError {
    /// The operation has no lowering yet.
    NotImplemented(Uint32Op),
}

/// The fragment that each implemented operation lowers to.
pub open spec fn op_fragment(op: Uint32Op) -> Option<Seq<BlockV>> {
    match op {
        Uint32Op::Const(c) => Some(const_fragment(c)),
        Uint32Op::Operation(o) => Some(operation_fragment(o)),
        Uint32Op::Equal => Some(equal_fragment()),
        Uint32Op::ToFelt252 => Some(to_felt252_fragment()),
        Uint32Op::FromFelt252 => Some(from_felt252_fragment()),
        Uint32Op::IsZero => Some(is_zero_fragment()),
        Uint32Op::Divmod => Some(divmod_fragment()),
        Uint32Op::SquareRoot | Uint32Op::WideMul => None,
    }
}

/// Selects and runs the lowering routine of the operation. Square root and
/// wide multiplication are refused as not implemented.
pub fn build(selector: &Uint32Op) -> (r: Result<Fragment, LoweringError>)
    ensures
        match r {
            Ok(f) => op_fragment(*selector) == Some(f@),
            Err(e) => op_fragment(*selector) is None && e == LoweringError::NotImplemented(*selector),
        },
{
    match *selector {
        Uint32Op::Const(c) => Ok(build_const(c)),
        Uint32Op::Operation(o) => Ok(build_operation(o)),
        Uint32Op::SquareRoot => Err(LoweringError::NotImplemented(*selector)),
        Uint32Op::Equal => Ok(build_equal()),
        Uint32Op::ToFelt252 => Ok(build_to_felt252()),
        Uint32Op::FromFelt252 => Ok(build_from_felt252()),
        Uint32Op::IsZero => Ok(build_is_zero()),
        Uint32Op::Divmod => Ok(build_divmod()),
        Uint32Op::WideMul => Err(LoweringError::NotImplemented(*selector)),
    }
}

} // verus!
