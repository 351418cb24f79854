use vstd::prelude::*;
use crate::felt::Felt252;

verus! {

/// A value of the target representation.
#[derive(Clone, Copy, Debug, PartialEq, Eq, Structural)]
pub enum Value {
    /// The range-check capability, threaded linearly through validating operations.
    RangeCheck,
    /// A 32-bit word.
    U32(u32),
    /// A one-bit flag.
    Bool(bool),
    /// The pair that an arithmetic-with-overflow instruction yields: wrapped result and flag.
    Pair(u32, bool),
    /// A field element.
    Felt(Felt252),
}

/// The two fused arithmetic-with-overflow operations.
#[derive(Clone, Copy, Debug, PartialEq, Eq, Structural)]
pub enum IntOperator {
    OverflowingAdd,
    OverflowingSub,
}

/// One value-producing instruction. Operands name earlier values by position:
/// first the block's arguments, then the results of the instructions before it.
#[derive(Clone, Copy, Debug, PartialEq, Eq, Structural)]
pub enum Inst {
    ConstU32(u32),
    ConstFelt(Felt252),
    /// Add or subtract with overflow flag, on two words.
    WithOverflow(IntOperator, usize, usize),
    /// Field 0 or 1 of a pair.
    Extract(usize, usize),
    /// Equality of two words or of two field elements.
    CmpEq(usize, usize),
    /// Unsigned less-or-equal of two words or of two field elements.
    CmpUle(usize, usize),
    /// Unsigned division of words.
    DivU(usize, usize),
    /// Unsigned remainder of words.
    RemU(usize, usize),
    /// Zero extension of a word to a field element.
    ExtU(usize),
    /// Truncation of a field element to its low 32 bits.
    TruncU(usize),
}

/// Where a branch goes: out of the fragment to one of the operation's
/// successors, with its arguments, or to another block of the fragment.
#[derive(Clone, Debug)]
pub enum Target {
    Exit(usize, Vec<usize>),
    Local(usize),
}

/// How a block ends.
#[derive(Clone, Debug)]
pub enum Terminator {
    Br(Target),
    /// On a flag: the first target when it is set, the second when it is clear.
    CondBr(usize, Target, Target),
}

#[derive(Clone, Debug)]
pub struct Block {
    pub insts: Vec<Inst>,
    pub term: Terminator,
}

/// A lowered operation: its blocks, the first of which is entered with the
/// operation's arguments.
#[derive(Clone, Debug)]
pub struct Fragment {
    pub blocks: Vec<Block>,
}

pub enum TargetV {
    Exit(nat, Seq<usize>),
    Local(nat),
}

pub enum TerminatorV {
    Br(TargetV),
    CondBr(nat, TargetV, TargetV),
}

pub struct BlockV {
    pub insts: Seq<Inst>,
    pub term: TerminatorV,
}

impl View for Target {
    type V = TargetV;

    open spec fn view(&self) -> TargetV {
        match self {
            Target::Exit(s, a) => TargetV::Exit(*s as nat, a@),
            Target::Local(b) => TargetV::Local(*b as nat),
        }
    }
}

impl View for Terminator {
    type V = TerminatorV;

    open spec fn view(&self) -> TerminatorV {
        match self {
            Terminator::Br(t) => TerminatorV::Br(t@),
            Terminator::CondBr(c, t, e) => TerminatorV::CondBr(*c as nat, t@, e@),
        }
    }
}

impl View for Block {
    type V = BlockV;

    open spec fn view(&self) -> BlockV {
        BlockV { insts: self.insts@, term: self.term@ }
    }
}

impl View for Fragment {
    type V = Seq<BlockV>;

    open spec fn view(&self) -> Seq<BlockV> {
        self.blocks@.map_values(|b: Block| b@)
    }
}

/// Where a run of a fragment leaves it: the successor taken and its arguments.
#[derive(Clone, Debug)]
pub struct Outcome {
    pub successor: usize,
    pub args: Vec<Value>,
}

impl View for Outcome {
    type V = (nat, Seq<Value>);

    open spec fn view(&self) -> (nat, Seq<Value>) {
        (self.successor as nat, self.args@)
    }
}

} // verus!
