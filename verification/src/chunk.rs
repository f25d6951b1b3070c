use vstd::prelude::*;
use vstd::string::StringExecFns;

use crate::text::{spec_pad_left, pad4};
use crate::value::{Value, render_bits, render_value};

verus! {

/// One bytecode instruction: a tagged variant per opcode, carrying only the
/// operands that opcode needs (a constant-pool index for `Constant`, nothing
/// for arithmetic and `Return`).
#[derive(Clone, Copy, Debug, PartialEq, Eq, Structural)]
pub enum OpCode {
    Constant(usize),
    Add,
    Subtract,
    Multiply,
    Divide,
    Negate,
    Return,
}

/// The mnemonic the disassembler prints for an instruction.
pub open spec fn spec_mnemonic(op: OpCode) -> Seq<char> {
    match op {
        OpCode::Constant(_) => "CONSTANT"@,
        OpCode::Add => "ADD"@,
        OpCode::Subtract => "SUBTRACT"@,
        OpCode::Multiply => "MULTIPLY"@,
        OpCode::Divide => "DIVIDE"@,
        OpCode::Negate => "NEGATE"@,
        OpCode::Return => "RETURN"@,
    }
}

/// Whether an instruction's constant-pool operand, if it has one, lies
/// inside a pool of `nconsts` entries.
pub open spec fn spec_constant_ok(op: OpCode, nconsts: int) -> bool {
    match op {
        OpCode::Constant(i) => (i as int) < nconsts,
        _ => true,
    }
}

/// The offset-and-line prefix of a disassembled instruction: the 4-digit
/// zero-padded offset, then either the 4-digit zero-padded source line or the
/// continuation marker when the previous instruction shares the line.
pub open spec fn spec_line_field(lines: Seq<usize>, offset: int) -> Seq<char> {
    if offset > 0 && lines[offset] == lines[offset - 1] {
        "   | "@
    } else {
        spec_pad_left(lines[offset] as nat, 4, '0') + " "@
    }
}

/// The mnemonic-and-operands part of a disassembled instruction, newline
/// included.
pub open spec fn spec_op_text(op: OpCode, constants: Seq<Value>) -> Seq<char> {
    match op {
        OpCode::Constant(i) => "CONSTANT        "@ + " "@ + spec_pad_left(i as nat, 4, ' ')
            + " '"@ + render_bits(constants[i as int].bits) + "'\n"@,
        _ => spec_mnemonic(op) + "\n"@,
    }
}

/// One full disassembled instruction line, newline included.
pub open spec fn spec_instruction_line(
    op: OpCode,
    lines: Seq<usize>,
    constants: Seq<Value>,
    offset: int,
) -> Seq<char> {
    spec_pad_left(offset as nat, 4, '0') + " "@ + spec_line_field(lines, offset) + spec_op_text(
        op,
        constants,
    )
}

/// The disassembly of the first `n` instructions, one line each, in ascending
/// offset order.
pub open spec fn spec_disasm_lines(
    code: Seq<OpCode>,
    lines: Seq<usize>,
    constants: Seq<Value>,
    n: int,
) -> Seq<char>
    decreases n,
{
    if n <= 0 {
        Seq::<char>::empty()
    } else {
        spec_disasm_lines(code, lines, constants, n - 1) + spec_instruction_line(
            code[n - 1],
            lines,
            constants,
            n - 1,
        )
    }
}

impl OpCode {
    /// Renders this instruction, standing at `offset` in `chunk`, as one
    /// diagnostic line. Must be driven in ascending offset order for the
    /// shared-line continuation marker to be meaningful.
    pub fn disassemble(&self, chunk: &Chunk, offset: usize) -> (r: String)
        requires
            offset < chunk.spec_lines().len(),
            spec_constant_ok(*self, chunk.spec_constants().len() as int),
        ensures
            r@ == spec_instruction_line(
                *self,
                chunk.spec_lines(),
                chunk.spec_constants(),
                offset as int,
            ),
    {
        let mut r = pad4(offset, '0');
        r.append(" ");

        if offset > 0 && chunk.lines[offset] == chunk.lines[offset - 1] {
            r.append("   | ");
        } else {
            let line_digits = pad4(chunk.lines[offset], '0');
            r.append(line_digits.as_str());
            r.append(" ");
        }

        let body = match self {
            OpCode::Constant(index) => OpCode::constant_instruction(
                "CONSTANT        ",
                chunk,
                *index,
            ),
            _ => OpCode::simple_instruction(self.mnemonic()),
        };
        r.append(body.as_str());
        r
    }

    /// The printed mnemonic of this instruction.
    fn mnemonic(&self) -> (r: &'static str)
        ensures
            r@ == spec_mnemonic(*self),
    {
        match self {
            OpCode::Constant(_) => "CONSTANT",
            OpCode::Add => "ADD",
            OpCode::Subtract => "SUBTRACT",
            OpCode::Multiply => "MULTIPLY",
            OpCode::Divide => "DIVIDE",
            OpCode::Negate => "NEGATE",
            OpCode::Return => "RETURN",
        }
    }

    fn simple_instruction(name: &str) -> (r: String)
        ensures
            r@ == name@ + "\n"@,
    {
        let mut r = name.to_owned();
        r.push('\n');
        proof {
            assert(r@ =~= name@ + "\n"@) by {
                reveal_strlit("\n");
            }
        }
        r
    }

    fn constant_instruction(name: &str, chunk: &Chunk, index: usize) -> (r: String)
        requires
            index < chunk.spec_constants().len(),
        ensures
            r@ == name@ + " "@ + spec_pad_left(index as nat, 4, ' ') + " '"@ + render_bits(
                chunk.spec_constants()[index as int].bits,
            ) + "'\n"@,
    {
        let value = chunk.get_constant(index);
        let mut r = name.to_owned();
        r.append(" ");
        let idx = pad4(index, ' ');
        r.append(idx.as_str());
        r.append(" '");
        let rendered = render_value(&value);
        r.append(rendered.as_str());
        r.append("'\n");
        r
    }
}

/// Law: when consecutive instructions share a source line, the later one is
/// rendered with the continuation marker in place of a repeated line number.
pub proof fn lemma_shared_line_renders_marker(
    op: OpCode,
    lines: Seq<usize>,
    constants: Seq<Value>,
    offset: int,
)
    requires
        0 < offset < lines.len(),
        lines[offset] == lines[offset - 1],
    ensures
        spec_instruction_line(op, lines, constants, offset) == spec_pad_left(
            offset as nat,
            4,
            '0',
        ) + " "@ + "   | "@ + spec_op_text(op, constants),
{
}

/// An append-only container of bytecode: the instructions, a parallel table
/// of their source lines, and the constant pool they index into.
pub struct Chunk {
    pub(crate) code: Vec<OpCode>,
    pub(crate) lines: Vec<usize>,
    pub(crate) constants: Vec<Value>,
}

impl Chunk {
    /// The instructions, in append order.
    pub closed spec fn spec_code(&self) -> Seq<OpCode> {
        self.code@
    }

    /// The source line of the instruction at each offset.
    pub closed spec fn spec_lines(&self) -> Seq<usize> {
        self.lines@
    }

    /// The constant pool, in insertion order.
    pub closed spec fn spec_constants(&self) -> Seq<Value> {
        self.constants@
    }

    /// The code and line tables run in lockstep.
    pub open spec fn wf(&self) -> bool {
        self.spec_code().len() == self.spec_lines().len()
    }

    /// Every `Constant` instruction indexes inside the constant pool.
    pub open spec fn spec_constants_ok(&self) -> bool {
        forall|k: int|
            0 <= k < self.spec_code().len() ==> spec_constant_ok(
                #[trigger] self.spec_code()[k],
                self.spec_constants().len() as int,
            )
    }

    /// How many instructions the chunk holds.
    pub fn code_count(&self) -> (n: usize)
        ensures
            n == self.spec_code().len(),
    {
        self.code.len()
    }

    /// How many values the constant pool holds.
    pub fn constant_count(&self) -> (n: usize)
        ensures
            n == self.spec_constants().len(),
    {
        self.constants.len()
    }

    /// An empty chunk: no instructions, no lines, no constants.
    pub fn new() -> (r: Chunk)
        ensures
            r.spec_code() == Seq::<OpCode>::empty(),
            r.spec_lines() == Seq::<usize>::empty(),
            r.spec_constants() == Seq::<Value>::empty(),
            r.wf(),
            r.spec_constants_ok(),
    {
        Chunk { code: vec![], lines: vec![], constants: vec![] }
    }

    /// Appends an instruction and its source line in lockstep.
    pub fn write_code(&mut self, code: OpCode, line: usize)
        ensures
            final(self).spec_code() == old(self).spec_code().push(code),
            final(self).spec_lines() == old(self).spec_lines().push(line),
            final(self).spec_constants() == old(self).spec_constants(),
            old(self).wf() ==> final(self).wf(),
    {
        self.code.push(code);
        self.lines.push(line);
    }

    /// Appends a value to the constant pool and returns its stable index.
    pub fn add_constant(&mut self, value: Value) -> (index: usize)
        ensures
            final(self).spec_constants() == old(self).spec_constants().push(value),
            index as int == old(self).spec_constants().len(),
            final(self).spec_code() == old(self).spec_code(),
            final(self).spec_lines() == old(self).spec_lines(),
    {
        self.constants.push(value);
        self.constants.len() - 1
    }

    /// The constant at `index`; indexing outside the pool is a caller error.
    pub fn get_constant(&self, index: usize) -> (r: Value)
        requires
            index < self.spec_constants().len(),
        ensures
            r == self.spec_constants()[index as int],
    {
        self.constants[index]
    }

    /// The instruction at `index`; indexing outside the code is a caller
    /// error.
    pub fn get_instruction(&self, index: usize) -> (r: OpCode)
        requires
            index < self.spec_code().len(),
        ensures
            r == self.spec_code()[index as int],
    {
        self.code[index]
    }

    /// Renders a labeled dump of every instruction in order: a `== name ==`
    /// header, then one line per instruction.
    pub fn disassemble(&self, name: &str) -> (r: String)
        requires
            self.wf(),
            self.spec_constants_ok(),
        ensures
            r@ == "== "@ + name@ + " ==\n"@ + spec_disasm_lines(
                self.spec_code(),
                self.spec_lines(),
                self.spec_constants(),
                self.spec_code().len() as int,
            ),
    {
        let mut r = "== ".to_owned();
        r.append(name);
        r.append(" ==\n");

        let mut offset: usize = 0;
        while offset < self.code.len()
            invariant
                self.wf(),
                self.spec_constants_ok(),
                offset <= self.spec_code().len(),
                r@ == "== "@ + name@ + " ==\n"@ + spec_disasm_lines(
                    self.spec_code(),
                    self.spec_lines(),
                    self.spec_constants(),
                    offset as int,
                ),
            decreases self.spec_code().len() - offset,
        {
            let instruction = self.get_instruction(offset);
            let line = instruction.disassemble(self, offset);
            r.append(line.as_str());
            proof {
                assert(r@ =~= "== "@ + name@ + " ==\n"@ + spec_disasm_lines(
                    self.spec_code(),
                    self.spec_lines(),
                    self.spec_constants(),
                    offset + 1,
                ));
            }
            offset = offset + 1;
        }
        r
    }
}

} // verus!
