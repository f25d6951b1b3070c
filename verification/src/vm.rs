use vstd::prelude::*;
use vstd::string::StringExecFns;

use crate::chunk::{Chunk, OpCode};
use crate::value::{
    Value, add_bits, sub_bits, mul_bits, div_bits, neg_bits, render_bits, render_value, value_add,
    value_sub, value_mul, value_div, value_neg,
};

verus! {

/// The terminal outcome of one `run` or `interpret` call.
#[derive(Clone, Copy, Debug, PartialEq, Eq, Structural)]
pub enum InterpretResult {
    Okay,
    CompileError,
    RuntimeError,
}

/// The bit pattern a binary arithmetic opcode leaves for operands `a` and
/// `b`, where `a` lay beneath `b` on the stack.
pub open spec fn spec_apply_binary(op: OpCode, a: u64, b: u64) -> u64 {
    match op {
        OpCode::Add => add_bits(a, b),
        OpCode::Subtract => sub_bits(a, b),
        OpCode::Multiply => mul_bits(a, b),
        OpCode::Divide => div_bits(a, b),
        _ => 0,
    }
}

/// The outcome of executing `code` against `constants` from instruction
/// pointer `ip` with operand stack `stack`: the terminal result, the final
/// stack, the value `Return` popped and reported (if any), and the final
/// instruction pointer. An out-of-range fetch or constant index is a fatal
/// `RuntimeError`, never a crash; popping past the bottom of the stack
/// likewise.
pub open spec fn spec_run(
    code: Seq<OpCode>,
    constants: Seq<Value>,
    ip: int,
    stack: Seq<Value>,
) -> (InterpretResult, Seq<Value>, Option<Value>, int)
    decreases code.len() - ip,
{
    if ip < 0 || ip >= code.len() {
        (InterpretResult::RuntimeError, stack, None::<Value>, ip)
    } else {
        match code[ip] {
            OpCode::Constant(ci) => {
                if (ci as int) < constants.len() {
                    spec_run(code, constants, ip + 1, stack.push(constants[ci as int]))
                } else {
                    (InterpretResult::RuntimeError, stack, None::<Value>, ip)
                }
            },
            OpCode::Add | OpCode::Subtract | OpCode::Multiply | OpCode::Divide => {
                if stack.len() >= 2 {
                    let b = stack.last();
                    let a = stack[stack.len() - 2];
                    spec_run(
                        code,
                        constants,
                        ip + 1,
                        stack.drop_last().drop_last().push(
                            Value { bits: spec_apply_binary(code[ip], a.bits, b.bits) },
                        ),
                    )
                } else if stack.len() == 1 {
                    (InterpretResult::RuntimeError, stack.drop_last(), None::<Value>, ip)
                } else {
                    (InterpretResult::RuntimeError, stack, None::<Value>, ip)
                }
            },
            OpCode::Negate => {
                if stack.len() >= 1 {
                    spec_run(
                        code,
                        constants,
                        ip + 1,
                        stack.drop_last().push(Value { bits: neg_bits(stack.last().bits) }),
                    )
                } else {
                    (InterpretResult::RuntimeError, stack, None::<Value>, ip)
                }
            },
            OpCode::Return => {
                if stack.len() >= 1 {
                    (InterpretResult::Okay, stack.drop_last(), Some(stack.last()), ip)
                } else {
                    (InterpretResult::Okay, stack, None::<Value>, ip)
                }
            },
        }
    }
}

/// The bracketed rendering of each stack slot, bottom to top.
pub open spec fn spec_stack_cells(s: Seq<Value>) -> Seq<char>
    decreases s.len(),
{
    if s.len() == 0 {
        Seq::<char>::empty()
    } else {
        spec_stack_cells(s.drop_last()) + "[ "@ + render_bits(s.last().bits) + " ]"@
    }
}

/// One debug-trace line showing the whole operand stack.
pub open spec fn spec_stack_line(s: Seq<Value>) -> Seq<char> {
    "          "@ + spec_stack_cells(s) + "\n"@
}

/// Renders the operand stack as one trace line: ten spaces, then each value
/// bracketed, bottom to top.
fn stack_line(stack: &Vec<Value>) -> (r: String)
    ensures
        r@ == spec_stack_line(stack@),
{
    let mut r = "          ".to_owned();
    let mut k: usize = 0;
    while k < stack.len()
        invariant
            k <= stack@.len(),
            r@ == "          "@ + spec_stack_cells(stack@.subrange(0, k as int)),
        decreases stack@.len() - k,
    {
        r.append("[ ");
        let rendered = render_value(&stack[k]);
        r.append(rendered.as_str());
        r.append(" ]");
        k = k + 1;
        proof {
            assert(stack@.subrange(0, k as int).drop_last() =~= stack@.subrange(0, k - 1 as int));
            assert(r@ =~= "          "@ + spec_stack_cells(stack@.subrange(0, k as int)));
        }
    }
    proof {
        assert(stack@.subrange(0, stack@.len() as int) =~= stack@);
    }
    r.push('\n');
    proof {
        reveal_strlit("\n");
        assert(r@ =~= spec_stack_line(stack@));
    }
    r
}

/// A stack-based virtual machine: a borrowed chunk, an instruction pointer,
/// an operand stack, and a debug switch. When `debug` is set, `run` appends
/// to `trace`, before each instruction's effects, a line showing the operand
/// stack and the disassembly of the instruction about to execute; `output`
/// holds the value the last executed `Return` reported, for the caller to
/// print.
pub struct VM<'a> {
    chunk: &'a Chunk,
    ip: usize,
    stack: Vec<Value>,
    pub debug: bool,
    pub trace: Vec<String>,
    pub output: Option<Value>,
}

impl<'a> VM<'a> {
    /// The chunk this machine executes.
    pub closed spec fn spec_chunk(&self) -> Chunk {
        *self.chunk
    }

    /// The instruction pointer.
    pub closed spec fn spec_ip(&self) -> int {
        self.ip as int
    }

    /// The operand stack, bottom first.
    pub closed spec fn spec_stack(&self) -> Seq<Value> {
        self.stack@
    }

    /// Whether the debug trace is switched on.
    pub closed spec fn spec_debug(&self) -> bool {
        self.debug
    }

    /// The debug-trace lines gathered so far.
    pub closed spec fn spec_trace(&self) -> Seq<String> {
        self.trace@
    }

    /// The value the last executed `Return` reported, if any.
    pub closed spec fn spec_output(&self) -> Option<Value> {
        self.output
    }

    /// A fresh machine over `chunk`: instruction pointer at the start, empty
    /// operand stack, debug off.
    pub fn new(chunk: &'a Chunk) -> (r: VM<'a>)
        ensures
            r.spec_chunk() == *chunk,
            r.spec_ip() == 0,
            r.spec_stack() == Seq::<Value>::empty(),
            r.spec_debug() == false,
            r.spec_trace() == Seq::<String>::empty(),
            r.spec_output() is None,
    {
        VM { chunk, ip: 0, stack: vec![], debug: false, trace: vec![], output: None }
    }

    /// Scans the source line and appends its diagnostic token dump to the
    /// trace for the caller to print. Until an expression compiler exists,
    /// nothing is executed and the result is always `Okay`; a full
    /// implementation will scan, compile and run, reporting `CompileError`
    /// for scan failures and `RuntimeError` for execution failures.
    pub fn interpret(&mut self, line: String) -> (r: InterpretResult)
        requires
            line@.len() + 1 < usize::MAX,
        ensures
            r == InterpretResult::Okay,
            final(self).spec_trace().map_values(|s: String| s@) == old(self).spec_trace()
                .map_values(|s: String| s@) + crate::compiler::spec_token_dump(
                line@,
                0,
                1,
                None::<int>,
            ),
            final(self).spec_chunk() == old(self).spec_chunk(),
            final(self).spec_ip() == old(self).spec_ip(),
            final(self).spec_stack() == old(self).spec_stack(),
            final(self).spec_debug() == old(self).spec_debug(),
            final(self).spec_output() == old(self).spec_output(),
    {
        let mut lines = crate::compiler::compile(line);
        let ghost dump = lines@;
        self.trace.append(&mut lines);
        proof {
            assert(self.trace@.map_values(|s: String| s@) =~= old(self).trace@.map_values(
                |s: String| s@,
            ) + dump.map_values(|s: String| s@));
        }
        InterpretResult::Okay
    }

    /// Drives the fetch-decode-execute loop to a terminal result. The
    /// outcome, final stack, reported value and final instruction pointer
    /// are exactly those of `spec_run`; with `debug` set, trace lines are
    /// appended in execution order.
    pub fn run(&mut self) -> (r: InterpretResult)
        requires
            old(self).spec_debug() ==> old(self).spec_chunk().wf()
                && old(self).spec_chunk().spec_constants_ok(),
        ensures
            ({
                let outcome = spec_run(
                    old(self).spec_chunk().spec_code(),
                    old(self).spec_chunk().spec_constants(),
                    old(self).spec_ip(),
                    old(self).spec_stack(),
                );
                &&& r == outcome.0
                &&& final(self).spec_stack() == outcome.1
                &&& final(self).spec_output() == outcome.2
                &&& final(self).spec_ip() == outcome.3
            }),
            final(self).spec_chunk() == old(self).spec_chunk(),
            final(self).spec_debug() == old(self).spec_debug(),
            old(self).spec_trace().is_prefix_of(final(self).spec_trace()),
            !old(self).spec_debug() ==> final(self).spec_trace() == old(self).spec_trace(),
    {
        self.output = None;
        loop
            invariant
                self.chunk == old(self).chunk,
                self.debug == old(self).debug,
                self.output is None,
                self.debug ==> self.spec_chunk().wf() && self.spec_chunk().spec_constants_ok(),
                old(self).trace@.is_prefix_of(self.trace@),
                !self.debug ==> self.trace@ == old(self).trace@,
                spec_run(
                    self.spec_chunk().spec_code(),
                    self.spec_chunk().spec_constants(),
                    self.spec_ip(),
                    self.spec_stack(),
                ) == spec_run(
                    old(self).spec_chunk().spec_code(),
                    old(self).spec_chunk().spec_constants(),
                    old(self).spec_ip(),
                    old(self).spec_stack(),
                ),
            decreases self.spec_chunk().spec_code().len() - self.spec_ip(),
        {
            let ip = self.ip;
            if ip >= self.chunk.code_count() {
                // A fetch past the end of the code is a fatal runtime error
                // rather than a crash.
                return InterpretResult::RuntimeError;
            }
            let instruction = self.chunk.get_instruction(ip);
            if self.debug {
                let sl = stack_line(&self.stack);
                self.trace.push(sl);
                let dl = instruction.disassemble(self.chunk, ip);
                self.trace.push(dl);
            }
            match instruction {
                OpCode::Constant(constant_index) => {
                    if constant_index >= self.chunk.constant_count() {
                        return InterpretResult::RuntimeError;
                    }
                    let value = self.chunk.get_constant(constant_index);
                    self.stack.push(value);
                },
                OpCode::Add => {
                    let b = match self.stack.pop() {
                        Some(operand) => operand,
                        None => {
                            return InterpretResult::RuntimeError;
                        },
                    };
                    let a = match self.stack.pop() {
                        Some(operand) => operand,
                        None => {
                            return InterpretResult::RuntimeError;
                        },
                    };
                    self.stack.push(value_add(a, b));
                },
                OpCode::Subtract => {
                    let b = match self.stack.pop() {
                        Some(operand) => operand,
                        None => {
                            return InterpretResult::RuntimeError;
                        },
                    };
                    let a = match self.stack.pop() {
                        Some(operand) => operand,
                        None => {
                            return InterpretResult::RuntimeError;
                        },
                    };
                    self.stack.push(value_sub(a, b));
                },
                OpCode::Multiply => {
                    let b = match self.stack.pop() {
                        Some(operand) => operand,
                        None => {
                            return InterpretResult::RuntimeError;
                        },
                    };
                    let a = match self.stack.pop() {
                        Some(operand) => operand,
                        None => {
                            return InterpretResult::RuntimeError;
                        },
                    };
                    self.stack.push(value_mul(a, b));
                },
                OpCode::Divide => {
                    let b = match self.stack.pop() {
                        Some(operand) => operand,
                        None => {
                            return InterpretResult::RuntimeError;
                        },
                    };
                    let a = match self.stack.pop() {
                        Some(operand) => operand,
                        None => {
                            return InterpretResult::RuntimeError;
                        },
                    };
                    self.stack.push(value_div(a, b));
                },
                OpCode::Negate => {
                    match self.stack.pop() {
                        Some(value) => self.stack.push(value_neg(value)),
                        None => {
                            return InterpretResult::RuntimeError;
                        },
                    }
                },
                OpCode::Return => {
                    if let Some(final_value) = self.stack.pop() {
                        self.output = Some(final_value);
                    }
                    return InterpretResult::Okay;
                },
            }
            self.ip = ip + 1;
        }
    }
}

} // verus!
