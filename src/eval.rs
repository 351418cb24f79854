use vstd::prelude::*;
use crate::felt::{lemma_felt_le, pow2_32, Felt252};
use crate::ir::{BlockV, Fragment, Inst, IntOperator, Outcome, Target, TargetV, Terminator, TerminatorV, Value};

verus! {

/// The wrapped result and the overflow flag of a fused add or subtract on words.
pub open spec fn overflowing(op: IntOperator, x: u32, y: u32) -> (u32, bool) {
    match op {
        IntOperator::OverflowingAdd => (
            ((x as int + y as int) % pow2_32() as int) as u32,
            x as int + y as int >= pow2_32(),
        ),
        IntOperator::OverflowingSub => (
            ((x as int - y as int) % pow2_32() as int) as u32,
            (x as int) < (y as int),
        ),
    }
}

/// The field element that holds a word.
pub open spec fn felt_of(x: u32) -> Felt252 {
    Felt252 { lo: x as u128, hi: 0 }
}

/// What one instruction yields over the values before it; `None` where an
/// operand is missing or of the wrong kind, or a division has a zero divisor.
pub open spec fn eval_inst(env: Seq<Value>, i: Inst) -> Option<Value> {
    match i {
        Inst::ConstU32(c) => Some(Value::U32(c)),
        Inst::ConstFelt(c) => Some(Value::Felt(c)),
        Inst::WithOverflow(op, a, b) => if a < env.len() && b < env.len() {
            match (env[a as int], env[b as int]) {
                (Value::U32(x), Value::U32(y)) => Some(
                    Value::Pair(overflowing(op, x, y).0, overflowing(op, x, y).1),
                ),
                _ => None,
            }
        } else {
            None
        },
        Inst::Extract(p, k) => if p < env.len() {
            match env[p as int] {
                Value::Pair(w, o) => if k == 0 {
                    Some(Value::U32(w))
                } else if k == 1 {
                    Some(Value::Bool(o))
                } else {
                    None
                },
                _ => None,
            }
        } else {
            None
        },
        Inst::CmpEq(a, b) => if a < env.len() && b < env.len() {
            match (env[a as int], env[b as int]) {
                (Value::U32(x), Value::U32(y)) => Some(Value::Bool(x == y)),
                (Value::Felt(x), Value::Felt(y)) => Some(Value::Bool(x.value() == y.value())),
                _ => None,
            }
        } else {
            None
        },
        Inst::CmpUle(a, b) => if a < env.len() && b < env.len() {
            match (env[a as int], env[b as int]) {
                (Value::U32(x), Value::U32(y)) => Some(Value::Bool(x <= y)),
                (Value::Felt(x), Value::Felt(y)) => Some(Value::Bool(x.value() <= y.value())),
                _ => None,
            }
        } else {
            None
        },
        Inst::DivU(a, b) => if a < env.len() && b < env.len() {
            match (env[a as int], env[b as int]) {
                (Value::U32(x), Value::U32(y)) => if y != 0 {
                    Some(Value::U32((x / y) as u32))
                } else {
                    None
                },
                _ => None,
            }
        } else {
            None
        },
        Inst::RemU(a, b) => if a < env.len() && b < env.len() {
            match (env[a as int], env[b as int]) {
                (Value::U32(x), Value::U32(y)) => if y != 0 {
                    Some(Value::U32((x % y) as u32))
                } else {
                    None
                },
                _ => None,
            }
        } else {
            None
        },
        Inst::ExtU(a) => if a < env.len() {
            match env[a as int] {
                Value::U32(x) => Some(Value::Felt(felt_of(x))),
                _ => None,
            }
        } else {
            None
        },
        Inst::TruncU(a) => if a < env.len() {
            match env[a as int] {
                Value::Felt(x) => Some(Value::U32((x.lo % pow2_32() as u128) as u32)),
                _ => None,
            }
        } else {
            None
        },
    }
}

/// The values after running a sequence of instructions: those given, then
/// one result per instruction.
pub open spec fn eval_insts(env: Seq<Value>, insts: Seq<Inst>) -> Option<Seq<Value>>
    decreases insts.len(),
{
    if insts.len() == 0 {
        Some(env)
    } else {
        match eval_insts(env, insts.drop_last()) {
            Some(e) => match eval_inst(e, insts.last()) {
                Some(v) => Some(e.push(v)),
                None => None,
            },
            None => None,
        }
    }
}

/// The values that a list of positions picks, where all of them are present.
pub open spec fn gather(env: Seq<Value>, idxs: Seq<usize>) -> Option<Seq<Value>> {
    if forall|k: int| 0 <= k < idxs.len() ==> idxs[k] < env.len() {
        Some(idxs.map_values(|i: usize| env[i as int]))
    } else {
        None
    }
}

/// Running a fragment from block `b`, with at most `fuel` more jumps between
/// its blocks.
pub open spec fn eval_from(f: Seq<BlockV>, b: nat, env: Seq<Value>, fuel: nat) -> Option<(nat, Seq<Value>)>
    decreases fuel,
{
    if b >= f.len() {
        None
    } else {
        match eval_insts(env, f[b as int].insts) {
            None => None,
            Some(e) => {
                let target = match f[b as int].term {
                    TerminatorV::Br(t) => Some(t),
                    TerminatorV::CondBr(c, t, o) => if c < e.len() {
                        match e[c as int] {
                            Value::Bool(flag) => if flag {
                                Some(t)
                            } else {
                                Some(o)
                            },
                            _ => None,
                        }
                    } else {
                        None
                    },
                };
                match target {
                    None => None,
                    Some(TargetV::Exit(s, a)) => match gather(e, a) {
                        Some(vals) => Some((s, vals)),
                        None => None,
                    },
                    Some(TargetV::Local(n)) => if fuel == 0 {
                        None
                    } else {
                        eval_from(f, n, e, (fuel - 1) as nat)
                    },
                }
            },
        }
    }
}

/// What a fragment does on the given arguments: the successor it leaves by and
/// the values handed to it, or `None` where it goes wrong (a malformed
/// instruction, a zero divisor, a jump between its blocks that never ends).
pub open spec fn eval(f: Seq<BlockV>, args: Seq<Value>) -> Option<(nat, Seq<Value>)> {
    eval_from(f, 0, args, f.len())
}

proof fn lemma_felt_eq(x: Felt252, y: Felt252)
    ensures
        (x.value() == y.value()) == (x == y),
{
    lemma_felt_le(x, y);
    lemma_felt_le(y, x);
}

fn felt_le(x: Felt252, y: Felt252) -> (r: bool)
    ensures
        r == (x.value() <= y.value()),
{
    proof {
        lemma_felt_le(x, y);
    }
    x.hi < y.hi || (x.hi == y.hi && x.lo <= y.lo)
}

fn felt_eq(x: Felt252, y: Felt252) -> (r: bool)
    ensures
        r == (x.value() == y.value()),
{
    proof {
        lemma_felt_eq(x, y);
    }
    x == y
}

fn run_overflowing(op: IntOperator, x: u32, y: u32) -> (r: (u32, bool))
    ensures
        r == overflowing(op, x, y),
{
    match op {
        IntOperator::OverflowingAdd => {
            let s: u64 = x as u64 + y as u64;
            (((s % 0x1_0000_0000) as u32), s >= 0x1_0000_0000)
        },
        IntOperator::OverflowingSub => {
            if x >= y {
                (x - y, false)
            } else {
                let d: u64 = 0x1_0000_0000u64 - y as u64 + x as u64;
                (d as u32, true)
            }
        },
    }
}

/// Runs one instruction over the values computed so far.
pub fn run_inst(env: &Vec<Value>, i: Inst) -> (r: Option<Value>)
    ensures
        r == eval_inst(env@, i),
{
    let n = env.len();
    match i {
        Inst::ConstU32(c) => Some(Value::U32(c)),
        Inst::ConstFelt(c) => Some(Value::Felt(c)),
        Inst::WithOverflow(op, a, b) => {
            if a < n && b < n {
                match (env[a], env[b]) {
                    (Value::U32(x), Value::U32(y)) => {
                        let (w, o) = run_overflowing(op, x, y);
                        Some(Value::Pair(w, o))
                    },
                    _ => None,
                }
            } else {
                None
            }
        },
        Inst::Extract(p, k) => {
            if p < n {
                match env[p] {
                    Value::Pair(w, o) => if k == 0 {
                        Some(Value::U32(w))
                    } else if k == 1 {
                        Some(Value::Bool(o))
                    } else {
                        None
                    },
                    _ => None,
                }
            } else {
                None
            }
        },
        Inst::CmpEq(a, b) => {
            if a < n && b < n {
                match (env[a], env[b]) {
                    (Value::U32(x), Value::U32(y)) => Some(Value::Bool(x == y)),
                    (Value::Felt(x), Value::Felt(y)) => Some(Value::Bool(felt_eq(x, y))),
                    _ => None,
                }
            } else {
                None
            }
        },
        Inst::CmpUle(a, b) => {
            if a < n && b < n {
                match (env[a], env[b]) {
                    (Value::U32(x), Value::U32(y)) => Some(Value::Bool(x <= y)),
                    (Value::Felt(x), Value::Felt(y)) => Some(Value::Bool(felt_le(x, y))),
                    _ => None,
                }
            } else {
                None
            }
        },
        Inst::DivU(a, b) => {
            if a < n && b < n {
                match (env[a], env[b]) {
                    (Value::U32(x), Value::U32(y)) => if y != 0 {
                        Some(Value::U32(x / y))
                    } else {
                        None
                    },
                    _ => None,
                }
            } else {
                None
            }
        },
        Inst::RemU(a, b) => {
            if a < n && b < n {
                match (env[a], env[b]) {
                    (Value::U32(x), Value::U32(y)) => if y != 0 {
                        Some(Value::U32(x % y))
                    } else {
                        None
                    },
                    _ => None,
                }
            } else {
                None
            }
        },
        Inst::ExtU(a) => {
            if a < n {
                match env[a] {
                    Value::U32(x) => Some(Value::Felt(Felt252 { lo: x as u128, hi: 0 })),
                    _ => None,
                }
            } else {
                None
            }
        },
        Inst::TruncU(a) => {
            if a < n {
                match env[a] {
                    Value::Felt(x) => Some(Value::U32((x.lo % 0x1_0000_0000) as u32)),
                    _ => None,
                }
            } else {
                None
            }
        },
    }
}

/// Runs a sequence of instructions after the given values.
pub fn run_insts(env: Vec<Value>, insts: &Vec<Inst>) -> (r: Option<Vec<Value>>)
    ensures
        match r {
            Some(e) => eval_insts(env@, insts@) == Some(e@),
            None => eval_insts(env@, insts@) is None,
        },
{
    let mut e = env;
    let mut i: usize = 0;
    while i < insts.len()
        invariant
            0 <= i <= insts.len(),
            eval_insts(env@, insts@.take(i as int)) == Some(e@),
        decreases insts.len() - i,
    {
        let v = run_inst(&e, insts[i]);
        assert(insts@.take(i as int + 1).drop_last() == insts@.take(i as int));
        match v {
            Some(v) => {
                e.push(v);
            },
            None => {
                proof {
                    lemma_eval_insts_none(env@, insts@, i as int + 1);
                }
                return None;
            },
        }
        i = i + 1;
    }
    assert(insts@.take(i as int) == insts@);
    Some(e)
}

/// Once a prefix of the instructions goes wrong, the whole sequence does.
proof fn lemma_eval_insts_none(env: Seq<Value>, insts: Seq<Inst>, k: int)
    requires
        0 <= k <= insts.len(),
        eval_insts(env, insts.take(k)) is None,
    ensures
        eval_insts(env, insts) is None,
    decreases insts.len() - k,
{
    if k < insts.len() {
        assert(insts.take(k + 1).drop_last() == insts.take(k));
        lemma_eval_insts_none(env, insts, k + 1);
    } else {
        assert(insts.take(k) == insts);
    }
}

/// Picks the values at the given positions.
pub fn run_gather(env: &Vec<Value>, idxs: &Vec<usize>) -> (r: Option<Vec<Value>>)
    ensures
        match r {
            Some(v) => gather(env@, idxs@) == Some(v@),
            None => gather(env@, idxs@) is None,
        },
{
    let mut out: Vec<Value> = Vec::new();
    let mut i: usize = 0;
    while i < idxs.len()
        invariant
            0 <= i <= idxs.len(),
            out@.len() == i,
            forall|k: int| 0 <= k < i ==> #[trigger] idxs@[k] < env@.len(),
            forall|k: int| 0 <= k < i ==> #[trigger] out@[k] == env@[idxs@[k] as int],
        decreases idxs.len() - i,
    {
        let j = idxs[i];
        if j >= env.len() {
            return None;
        }
        let ghost before = out@;
        out.push(env[j]);
        assert(out@[i as int] == env@[idxs@[i as int] as int]);
        assert forall|k: int| 0 <= k < i + 1 implies #[trigger] out@[k] == env@[idxs@[k] as int] by {
            if k < i {
                assert(out@[k] == before[k]);
            }
        }
        i = i + 1;
    }
    assert(forall|k: int| 0 <= k < idxs@.len() ==> #[trigger] idxs@[k] < env@.len());
    assert(out@ =~= idxs@.map_values(|i: usize| env@[i as int]));
    Some(out)
}

/// Runs a fragment from block `b`, with at most `fuel` more jumps between its
/// blocks.
pub fn run_from(f: &Fragment, b: usize, env: Vec<Value>, fuel: usize) -> (r: Option<Outcome>)
    ensures
        match r {
            Some(o) => eval_from(f@, b as nat, env@, fuel as nat) == Some(o@),
            None => eval_from(f@, b as nat, env@, fuel as nat) is None,
        },
    decreases fuel,
{
    if b >= f.blocks.len() {
        return None;
    }
    let block = &f.blocks[b];
    assert(f@[b as int] == block@);
    let e = match run_insts(env, &block.insts) {
        Some(e) => e,
        None => return None,
    };
    let target = match &block.term {
        Terminator::Br(t) => t,
        Terminator::CondBr(c, t, o) => {
            if *c >= e.len() {
                return None;
            }
            match e[*c] {
                Value::Bool(flag) => if flag {
                    t
                } else {
                    o
                },
                _ => return None,
            }
        },
    };
    match target {
        Target::Exit(s, a) => match run_gather(&e, a) {
            Some(vals) => Some(Outcome { successor: *s, args: vals }),
            None => None,
        },
        Target::Local(n) => {
            if fuel == 0 {
                None
            } else {
                run_from(f, *n, e, fuel - 1)
            }
        },
    }
}

/// Runs a fragment on the given arguments: the successor it leaves by and the
/// values handed to it, or `None` where it goes wrong.
pub fn run(f: &Fragment, args: &Vec<Value>) -> (r: Option<Outcome>)
    ensures
        match r {
            Some(o) => eval(f@, args@) == Some(o@),
            None => eval(f@, args@) is None,
        },
{
    run_from(f, 0, args.clone(), f.blocks.len())
}

} // verus!
