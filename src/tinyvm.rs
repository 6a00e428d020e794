use vstd::prelude::*;

verus! {

/// An opcode of the stack machine.
#[derive(Clone, Copy, Debug, PartialEq, Eq, Structural)]
pub enum Instruction {
    PUSH,
    POP,
    ADD,
    SUB,
    INCR,
    DECR,
    MUL,
    DIV,
    JUMP,
    RETURN,
}

/// The opcode that a byte encodes, if any.
pub open spec fn decode(b: u8) -> Option<Instruction> {
    if b == 1 {
        Some(Instruction::PUSH)
    } else if b == 2 {
        Some(Instruction::POP)
    } else if b == 3 {
        Some(Instruction::ADD)
    } else if b == 4 {
        Some(Instruction::SUB)
    } else if b == 5 {
        Some(Instruction::INCR)
    } else if b == 6 {
        Some(Instruction::DECR)
    } else if b == 7 {
        Some(Instruction::MUL)
    } else if b == 8 {
        Some(Instruction::DIV)
    } else if b == 9 {
        Some(Instruction::JUMP)
    } else if b == 10 {
        Some(Instruction::RETURN)
    } else {
        None
    }
}

impl Instruction {
    /// Decodes one byte of a program.
    pub fn from_code(value: &u8) -> (r: Option<Instruction>)
        ensures
            r == decode(*value),
    {
        match *value {
            0x1 => Some(Instruction::PUSH),
            0x2 => Some(Instruction::POP),
            0x3 => Some(Instruction::ADD),
            0x4 => Some(Instruction::SUB),
            0x5 => Some(Instruction::INCR),
            0x6 => Some(Instruction::DECR),
            0x7 => Some(Instruction::MUL),
            0x8 => Some(Instruction::DIV),
            0x9 => Some(Instruction::JUMP),
            0xa => Some(Instruction::RETURN),
            _ => None,
        }
    }
}

/// The machine's operand stack; its top is the last element.
pub struct Stack(pub Vec<u64>);

impl Stack {
    /// Pushes `v` on top.
    pub fn push(&mut self, v: u64)
        ensures
            final(self).0@ == old(self).0@.push(v),
    {
        self.0.push(v);
    }

    /// Removes and returns the top value.
    pub fn pop(&mut self) -> (r: u64)
        requires
            old(self).0@.len() > 0,
        ensures
            r == old(self).0@.last(),
            final(self).0@ == old(self).0@.drop_last(),
    {
        self.0.pop().unwrap()
    }

    /// A handle on the top value.
    pub fn last(&mut self) -> (r: &mut u64)
        requires
            old(self).0@.len() > 0,
        ensures
            *r == old(self).0@.last(),
            final(self).0@ == old(self).0@.update(old(self).0@.len() - 1, *final(r)),
    {
        self.0.last_mut().unwrap()
    }
}

/// How a run of a program ended.
#[derive(Clone, Copy, Debug, PartialEq, Eq, Structural)]
pub enum Outcome {
    /// A `RETURN` popped this value.
    Returned(u64),
    /// The pointer reached a byte that is no opcode.
    Stopped,
}

/// Why a run of a program failed.
#[derive(Clone, Copy, Debug, PartialEq, Eq, Structural)]
pub enum VmError {
    /// The pointer or an operand left the program, the stack held too few
    /// values, or an arithmetic result fell outside `u64`.
    Fault,
    /// The step budget ran out first.
    OutOfFuel,
}

/// The result of a binary opcode, popping `a` and then `b`; `None` where it
/// leaves `u64` or divides by zero.
pub open spec fn binop(ins: Instruction, a: u64, b: u64) -> Option<u64> {
    match ins {
        Instruction::ADD => if a + b <= u64::MAX {
            Some((a + b) as u64)
        } else {
            None
        },
        Instruction::SUB => if b >= a {
            Some((b - a) as u64)
        } else {
            None
        },
        Instruction::MUL => if a * b <= u64::MAX {
            Some((a * b) as u64)
        } else {
            None
        },
        _ => if a != 0 {
            Some((b / a) as u64)
        } else {
            None
        },
    }
}

/// Runs `p` from pointer `pc` with stack `st` (top last) for at most `fuel`
/// instructions.
pub open spec fn run(p: Seq<u8>, st: Seq<u64>, pc: int, fuel: nat) -> Result<Outcome, VmError>
    decreases fuel,
{
    if fuel == 0 {
        Err(VmError::OutOfFuel)
    } else if !(0 <= pc < p.len()) {
        Err(VmError::Fault)
    } else {
        let next = pc + 1;
        match decode(p[pc]) {
            None => Ok(Outcome::Stopped),
            Some(Instruction::PUSH) => if next < p.len() {
                run(p, st.push(p[next] as u64), next + 1, (fuel - 1) as nat)
            } else {
                Err(VmError::Fault)
            },
            Some(Instruction::POP) => if st.len() > 0 {
                run(p, st.drop_last(), next, (fuel - 1) as nat)
            } else {
                Err(VmError::Fault)
            },
            Some(Instruction::INCR) => if st.len() > 0 && st.last() < u64::MAX {
                run(p, st.update(st.len() - 1, (st.last() + 1) as u64), next, (fuel - 1) as nat)
            } else {
                Err(VmError::Fault)
            },
            Some(Instruction::DECR) => if st.len() > 0 && st.last() > 0 {
                run(p, st.update(st.len() - 1, (st.last() - 1) as u64), next, (fuel - 1) as nat)
            } else {
                Err(VmError::Fault)
            },
            Some(Instruction::JUMP) => if next < p.len() {
                run(p, st, p[next] as int, (fuel - 1) as nat)
            } else {
                Err(VmError::Fault)
            },
            Some(Instruction::RETURN) => if st.len() > 0 {
                Ok(Outcome::Returned(st.last()))
            } else {
                Err(VmError::Fault)
            },
            Some(ins) => if st.len() >= 2 {
                match binop(ins, st.last(), st.drop_last().last()) {
                    Some(v) => run(p, st.drop_last().drop_last().push(v), next, (fuel - 1) as nat),
                    None => Err(VmError::Fault),
                }
            } else {
                Err(VmError::Fault)
            },
        }
    }
}

/// Applies a binary opcode to `a`, popped first, and `b`.
fn apply_binop(ins: Instruction, a: u64, b: u64) -> (r: Option<u64>)
    requires
        ins == Instruction::ADD || ins == Instruction::SUB || ins == Instruction::MUL || ins
            == Instruction::DIV,
    ensures
        r == binop(ins, a, b),
{
    match ins {
        Instruction::ADD => a.checked_add(b),
        Instruction::SUB => b.checked_sub(a),
        Instruction::MUL => a.checked_mul(b),
        _ => if a != 0 {
            Some(b / a)
        } else {
            None
        },
    }
}

/// Runs a program from its first byte on an empty stack, executing at most
/// `fuel` instructions.
pub fn interpret(program: &[u8], fuel: usize) -> (r: Result<Outcome, VmError>)
    ensures
        r == run(program@, seq![], 0, fuel as nat),
{
    let mut stack = Stack(Vec::new());
    let mut pointer: usize = 0;
    let mut remaining: usize = fuel;
    loop
        invariant
            run(program@, stack.0@, pointer as int, remaining as nat) == run(
                program@,
                seq![],
                0,
                fuel as nat,
            ),
        decreases remaining,
    {
        if remaining == 0 {
            return Err(VmError::OutOfFuel);
        }
        if pointer >= program.len() {
            return Err(VmError::Fault);
        }
        let instruction = match Instruction::from_code(&program[pointer]) {
            Some(i) => i,
            None => {
                return Ok(Outcome::Stopped);
            },
        };
        remaining = remaining - 1;
        pointer = pointer + 1;
        match instruction {
            Instruction::PUSH => {
                if pointer >= program.len() {
                    return Err(VmError::Fault);
                }
                stack.push(program[pointer] as u64);
                pointer = pointer + 1;
            },
            Instruction::POP => {
                if stack.0.len() == 0 {
                    return Err(VmError::Fault);
                }
                stack.pop();
            },
            Instruction::INCR => {
                if stack.0.len() == 0 {
                    return Err(VmError::Fault);
                }
                let top = stack.last();
                if *top == u64::MAX {
                    return Err(VmError::Fault);
                }
                *top = *top + 1;
            },
            Instruction::DECR => {
                if stack.0.len() == 0 {
                    return Err(VmError::Fault);
                }
                let top = stack.last();
                if *top == 0 {
                    return Err(VmError::Fault);
                }
                *top = *top - 1;
            },
            Instruction::JUMP => {
                if pointer >= program.len() {
                    return Err(VmError::Fault);
                }
                pointer = program[pointer] as usize;
            },
            Instruction::RETURN => {
                if stack.0.len() == 0 {
                    return Err(VmError::Fault);
                }
                return Ok(Outcome::Returned(stack.pop()));
            },
            _ => {
                if stack.0.len() < 2 {
                    return Err(VmError::Fault);
                }
                let a = stack.pop();
                let b = stack.pop();
                match apply_binop(instruction, a, b) {
                    Some(v) => stack.push(v),
                    None => {
                        return Err(VmError::Fault);
                    },
                }
            },
        }
    }
}

} // verus!
