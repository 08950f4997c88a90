//! Flat re-evaluable expression programs.
//!
//! The linearizer emits its combined constraint expression as a sequence of
//! stack operations over field elements and named leaves (witness and
//! permutation evaluations, transcript challenges, folded constants).  The
//! program is produced once per configuration and re-evaluated at many
//! challenge points; the evaluator's contract pins the result to a
//! functional replay of the same token sequence.

use vstd::prelude::*;
use crate::field::{fr_add, fr_inv, fr_mul, fr_pow, fr_sub, fr_wf, spec_fr_add, spec_fr_inv,
    spec_fr_mul, spec_fr_pow, spec_fr_sub};

verus! {

/// A named leaf: an evaluation carried by the proof being verified.
#[derive(Clone, Copy, Debug, PartialEq, Eq, Structural)]
pub enum Column {
    WitnessA,
    WitnessB,
    WitnessC,
    Accumulator,
}

/// One operation of the flat program, in reverse Polish order.
#[derive(Clone, Copy, Debug, PartialEq, Eq, Structural)]
pub enum PolishToken {
    /// A constant folded in when the program was built.
    Literal(u64),
    /// A proof-supplied evaluation.
    Cell(Column),
    Beta,
    Gamma,
    Alpha,
    Zeta,
    /// Raise the top of the stack to a fixed power.
    Pow(u64),
    /// Replace the top of the stack by its checked inverse.
    Inv,
    Add,
    Mul,
    Sub,
}

pub open spec fn spec_token_wf(t: PolishToken) -> bool {
    match t {
        PolishToken::Literal(x) => fr_wf(x),
        _ => true,
    }
}

/// The leaf values one evaluation runs the program against.
#[derive(Clone, Copy, Debug)]
pub struct Environment {
    pub witness_a: u64,
    pub witness_b: u64,
    pub witness_c: u64,
    pub accumulator: u64,
    pub beta: u64,
    pub gamma: u64,
    pub alpha: u64,
    pub zeta: u64,
}

impl Environment {
    pub open spec fn wf(self) -> bool {
        &&& fr_wf(self.witness_a)
        &&& fr_wf(self.witness_b)
        &&& fr_wf(self.witness_c)
        &&& fr_wf(self.accumulator)
        &&& fr_wf(self.beta)
        &&& fr_wf(self.gamma)
        &&& fr_wf(self.alpha)
        &&& fr_wf(self.zeta)
    }

    pub open spec fn spec_cell(self, col: Column) -> u64 {
        match col {
            Column::WitnessA => self.witness_a,
            Column::WitnessB => self.witness_b,
            Column::WitnessC => self.witness_c,
            Column::Accumulator => self.accumulator,
        }
    }
}

/// Replay the program over a stack; `None` is a malformed program (stack
/// underflow).
pub open spec fn spec_run(
    tokens: Seq<PolishToken>,
    env: Environment,
    stack: Seq<u64>,
) -> Option<Seq<u64>>
    decreases tokens.len(),
{
    if tokens.len() == 0 {
        Some(stack)
    } else {
        let rest = tokens.drop_first();
        match tokens[0] {
            PolishToken::Literal(x) => spec_run(rest, env, stack.push(x)),
            PolishToken::Cell(col) => spec_run(rest, env, stack.push(env.spec_cell(col))),
            PolishToken::Beta => spec_run(rest, env, stack.push(env.beta)),
            PolishToken::Gamma => spec_run(rest, env, stack.push(env.gamma)),
            PolishToken::Alpha => spec_run(rest, env, stack.push(env.alpha)),
            PolishToken::Zeta => spec_run(rest, env, stack.push(env.zeta)),
            PolishToken::Pow(e) => if stack.len() < 1 {
                None
            } else {
                spec_run(
                    rest,
                    env,
                    stack.drop_last().push(spec_fr_pow(stack.last(), e as nat)),
                )
            },
            PolishToken::Inv => if stack.len() < 1 {
                None
            } else {
                spec_run(rest, env, stack.drop_last().push(spec_fr_inv(stack.last())))
            },
            PolishToken::Add => if stack.len() < 2 {
                None
            } else {
                spec_run(
                    rest,
                    env,
                    stack.drop_last().drop_last().push(
                        spec_fr_add(stack[stack.len() - 2], stack.last()),
                    ),
                )
            },
            PolishToken::Mul => if stack.len() < 2 {
                None
            } else {
                spec_run(
                    rest,
                    env,
                    stack.drop_last().drop_last().push(
                        spec_fr_mul(stack[stack.len() - 2], stack.last()),
                    ),
                )
            },
            PolishToken::Sub => if stack.len() < 2 {
                None
            } else {
                spec_run(
                    rest,
                    env,
                    stack.drop_last().drop_last().push(
                        spec_fr_sub(stack[stack.len() - 2], stack.last()),
                    ),
                )
            },
        }
    }
}

/// A full evaluation: run from the empty stack; the program is well formed
/// exactly when one value is left.
pub open spec fn spec_evaluate(tokens: Seq<PolishToken>, env: Environment) -> Option<u64> {
    match spec_run(tokens, env, Seq::empty()) {
        Some(s) => if s.len() == 1 {
            Some(s[0])
        } else {
            None
        },
        None => None,
    }
}

/// Evaluate the program against the given leaf values.
pub fn evaluate(tokens: &Vec<PolishToken>, env: &Environment) -> (r: Option<u64>)
    requires
        env.wf(),
        forall|i: int| 0 <= i < tokens@.len() ==> spec_token_wf(#[trigger] tokens@[i]),
    ensures
        r == spec_evaluate(tokens@, *env),
        r matches Some(v) ==> fr_wf(v),
{
    let mut stack: Vec<u64> = Vec::new();
    let mut i: usize = 0;
    proof {
        assert(tokens@.skip(0) =~= tokens@);
        assert(stack@ =~= Seq::<u64>::empty());
    }
    while i < tokens.len()
        invariant
            env.wf(),
            i <= tokens@.len(),
            forall|j: int| 0 <= j < tokens@.len() ==> spec_token_wf(#[trigger] tokens@[j]),
            forall|j: int| 0 <= j < stack@.len() ==> fr_wf(#[trigger] stack@[j]),
            spec_run(tokens@.skip(i as int), *env, stack@) == spec_run(
                tokens@,
                *env,
                Seq::empty(),
            ),
        decreases tokens@.len() - i,
    {
        proof {
            assert(tokens@.skip(i as int)[0] == tokens@[i as int]);
            assert(tokens@.skip(i as int).drop_first() =~= tokens@.skip(i as int + 1));
        }
        let t = tokens[i];
        match t {
            PolishToken::Literal(x) => {
                stack.push(x);
            },
            PolishToken::Cell(col) => {
                let v = match col {
                    Column::WitnessA => env.witness_a,
                    Column::WitnessB => env.witness_b,
                    Column::WitnessC => env.witness_c,
                    Column::Accumulator => env.accumulator,
                };
                stack.push(v);
            },
            PolishToken::Beta => {
                stack.push(env.beta);
            },
            PolishToken::Gamma => {
                stack.push(env.gamma);
            },
            PolishToken::Alpha => {
                stack.push(env.alpha);
            },
            PolishToken::Zeta => {
                stack.push(env.zeta);
            },
            PolishToken::Pow(e) => {
                if stack.len() < 1 {
                    return None;
                }
                let x = stack.pop().unwrap();
                let ghost pre = stack@.push(x);
                proof {
                    assert(pre.drop_last() =~= stack@);
                }
                stack.push(fr_pow(x, e));
            },
            PolishToken::Inv => {
                if stack.len() < 1 {
                    return None;
                }
                let x = stack.pop().unwrap();
                let ghost pre = stack@.push(x);
                proof {
                    assert(pre.drop_last() =~= stack@);
                }
                stack.push(fr_inv(x));
            },
            PolishToken::Add => {
                if stack.len() < 2 {
                    return None;
                }
                let b = stack.pop().unwrap();
                let a = stack.pop().unwrap();
                let ghost pre = stack@.push(a).push(b);
                proof {
                    assert(pre.drop_last().drop_last() =~= stack@);
                    assert(pre[pre.len() - 2] == a);
                }
                stack.push(fr_add(a, b));
            },
            PolishToken::Mul => {
                if stack.len() < 2 {
                    return None;
                }
                let b = stack.pop().unwrap();
                let a = stack.pop().unwrap();
                let ghost pre = stack@.push(a).push(b);
                proof {
                    assert(pre.drop_last().drop_last() =~= stack@);
                    assert(pre[pre.len() - 2] == a);
                }
                stack.push(fr_mul(a, b));
            },
            PolishToken::Sub => {
                if stack.len() < 2 {
                    return None;
                }
                let b = stack.pop().unwrap();
                let a = stack.pop().unwrap();
                let ghost pre = stack@.push(a).push(b);
                proof {
                    assert(pre.drop_last().drop_last() =~= stack@);
                    assert(pre[pre.len() - 2] == a);
                }
                stack.push(fr_sub(a, b));
            },
        }
        i = i + 1;
    }
    proof {
        assert(tokens@.skip(i as int) =~= Seq::<PolishToken>::empty());
    }
    if stack.len() == 1 {
        let v = stack.pop().unwrap();
        Some(v)
    } else {
        None
    }
}

} // verus!
