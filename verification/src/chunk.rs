//! Chunks of bytecode and the builder that writes them.
//!
//! A chunk is a sequence of code units, each one byte: an opcode or an
//! operand. Beside the code it holds the constants that operands refer to,
//! and the source line of every code unit in run-length form.

use vstd::prelude::*;
use crate::opcodes::{opcode_byte, required_indexes, OpCode, OPCODE_COUNT, VARIABLE_INDEXES};
use crate::value::{values_equal, Value};

verus! {

/// One byte of code: an opcode or an operand. Which of the two it is
/// follows from what precedes it.
#[derive(Clone, Copy, PartialEq, Eq, Debug, Structural)]
pub struct CodeUnit {
    pub byte: u8,
}

impl CodeUnit {
    /// Whether the byte is the code of an opcode.
    pub open spec fn is_opcode(&self) -> bool {
        self.byte < OPCODE_COUNT
    }

    pub fn from_opcode(opcode: OpCode) -> (unit: CodeUnit)
        ensures
            unit.byte == opcode_byte(opcode),
            unit.is_opcode(),
    {
        CodeUnit { byte: opcode.to_byte() }
    }

    pub fn from_index(index: u8) -> (unit: CodeUnit)
        ensures
            unit.byte == index,
    {
        CodeUnit { byte: index }
    }

    /// The opcode that the unit holds.
    pub fn get_opcode(&self) -> (opcode: OpCode)
        requires
            self.is_opcode(),
        ensures
            opcode_byte(opcode) == self.byte,
    {
        match OpCode::from_byte(self.byte) {
            Some(opcode) => opcode,
            None => OpCode::Nil,
        }
    }

    /// The opcode that the unit holds, if its byte is the code of one.
    pub fn opcode(&self) -> (opcode: Option<OpCode>)
        ensures
            self.is_opcode() <==> opcode.is_some(),
            opcode matches Some(op) ==> opcode_byte(op) == self.byte,
    {
        OpCode::from_byte(self.byte)
    }

    /// The operand that the unit holds.
    pub fn get_index(&self) -> (index: u8)
        ensures
            index == self.byte,
    {
        self.byte
    }
}

/// A run of code units that come from one source line.
#[derive(Clone, Copy, PartialEq, Eq, Debug, Structural)]
pub struct LineInfo {
    pub line: u32,
    pub count: u32,
}

impl LineInfo {
    pub fn new(line: u32, count: u32) -> (info: LineInfo)
        ensures
            info.line == line,
            info.count == count,
    {
        LineInfo { line, count }
    }

    pub fn line(&self) -> (line: u32)
        ensures
            line == self.line,
    {
        self.line
    }

    pub fn count(&self) -> (count: u32)
        ensures
            count == self.count,
    {
        self.count
    }

    pub fn inc_count(&mut self)
        requires
            old(self).count < u32::MAX,
        ensures
            final(self).line == old(self).line,
            final(self).count == old(self).count + 1,
    {
        self.count += 1;
    }

    pub fn set_count(&mut self, count: u32)
        ensures
            final(self).line == old(self).line,
            final(self).count == count,
    {
        self.count = count;
    }
}

/// The number of code units that the runs cover.
pub open spec fn total(lines: Seq<LineInfo>) -> nat
    decreases lines.len(),
{
    if lines.len() == 0 {
        0
    } else {
        total(lines.drop_last()) + lines.last().count as nat
    }
}

/// The source line of the code unit at `index`: the line of the first run
/// at which the count of units covered exceeds the index.
pub open spec fn line_at(lines: Seq<LineInfo>, index: int) -> Option<u32>
    decreases lines.len(),
{
    if lines.len() == 0 {
        None
    } else if index < total(lines.drop_last()) {
        line_at(lines.drop_last(), index)
    } else if index < total(lines) {
        Some(lines.last().line)
    } else {
        None
    }
}

/// The runs after one more code unit of `line`: the last run grows where
/// it is of that line and has room, else a new run starts.
pub open spec fn append_line(lines: Seq<LineInfo>, line: u32) -> Seq<LineInfo> {
    if lines.len() > 0 && lines.last().line == line && lines.last().count < u32::MAX {
        lines.update(
            lines.len() - 1,
            LineInfo { line, count: (lines.last().count + 1) as u32 },
        )
    } else {
        lines.push(LineInfo { line, count: 1 })
    }
}

/// The line of the last run, or 0 where there is none.
pub open spec fn last_line(lines: Seq<LineInfo>) -> u32 {
    if lines.len() == 0 {
        0
    } else {
        lines.last().line
    }
}

/// The runs after `count` more code units of `line`.
pub open spec fn lined(lines: Seq<LineInfo>, line: u32, count: nat) -> Seq<LineInfo>
    decreases count,
{
    if count == 0 {
        lines
    } else {
        append_line(lined(lines, line, (count - 1) as nat), line)
    }
}

/// One more code unit of `line` is one run of one unit more.
pub proof fn lined_once(lines: Seq<LineInfo>, line: u32)
    ensures
        lined(lines, line, 1) == append_line(lines, line),
        lined(lines, line, 0) == lines,
{
    assert(lined(lines, line, 0) == lines);
    assert(lined(lines, line, 1) == append_line(lined(lines, line, 0), line));
}

/// After code units of `line` the last run is of that line.
pub proof fn lined_ends_with_line(lines: Seq<LineInfo>, line: u32, count: nat)
    requires
        count > 0,
    ensures
        last_line(lined(lines, line, count)) == line,
{
}

/// Code units of one line that are appended in two steps are appended.
pub proof fn lined_twice(lines: Seq<LineInfo>, line: u32, first: nat, second: nat)
    ensures
        lined(lined(lines, line, first), line, second) == lined(lines, line, first + second),
    decreases second,
{
    if second > 0 {
        lined_twice(lines, line, first, (second - 1) as nat);
    }
}

/// One more code unit is covered, it has the given line, and every unit
/// before it keeps its line.
pub proof fn append_line_covers(lines: Seq<LineInfo>, line: u32)
    ensures
        total(append_line(lines, line)) == total(lines) + 1,
        line_at(append_line(lines, line), total(lines) as int) == Some(line),
        forall|index: int|
            0 <= index < total(lines) ==> line_at(append_line(lines, line), index) == line_at(
                lines,
                index,
            ),
        last_line(append_line(lines, line)) == line,
{
    let after = append_line(lines, line);
    if lines.len() > 0 && lines.last().line == line && lines.last().count < u32::MAX {
        assert(after.drop_last() == lines.drop_last());
    } else {
        assert(after.drop_last() == lines);
        assert forall|index: int| 0 <= index < total(lines) implies line_at(after, index)
            == line_at(lines, index) by {}
    }
}

pub proof fn total_take_grows(lines: Seq<LineInfo>, i: int, j: int)
    requires
        0 <= i <= j <= lines.len(),
    ensures
        total(lines.take(i)) <= total(lines.take(j)),
    decreases j - i,
{
    if i < j {
        total_take_grows(lines, i, j - 1);
        assert(lines.take(j).drop_last() == lines.take(j - 1));
    }
}

/// Every code unit that the runs cover has a line.
pub proof fn line_at_covered(lines: Seq<LineInfo>, index: int)
    requires
        0 <= index < total(lines),
    ensures
        line_at(lines, index).is_some(),
    decreases lines.len(),
{
    if lines.len() > 0 && index < total(lines.drop_last()) {
        line_at_covered(lines.drop_last(), index);
    }
}

/// The run that covers `index` gives its line.
pub proof fn line_at_run(lines: Seq<LineInfo>, i: int, index: int)
    requires
        0 <= i < lines.len(),
        total(lines.take(i)) <= index < total(lines.take(i + 1)),
    ensures
        line_at(lines, index) == Some(lines[i].line),
    decreases lines.len(),
{
    if i == lines.len() - 1 {
        assert(lines.take(i) == lines.drop_last());
        assert(lines.take(i + 1) == lines);
    } else {
        total_take_grows(lines, i + 1, lines.len() - 1);
        assert(lines.take(lines.len() - 1) == lines.drop_last());
        assert(lines.drop_last().take(i) == lines.take(i));
        assert(lines.drop_last().take(i + 1) == lines.take(i + 1));
        line_at_run(lines.drop_last(), i, index);
    }
}

/// The place of the first constant that equals `value`, or the number of
/// constants where none does.
pub open spec fn first_equal(constants: Seq<Value>, value: Value) -> int
    decreases constants.len(),
{
    if constants.len() == 0 {
        0
    } else {
        let before = first_equal(constants.drop_last(), value);
        if before < constants.len() - 1 {
            before
        } else if values_equal(constants.last(), value) {
            constants.len() - 1
        } else {
            constants.len() as int
        }
    }
}

/// The big-endian bytes of an address.
pub open spec fn high_byte(address: u16) -> u8 {
    (address / 256) as u8
}

pub open spec fn low_byte(address: u16) -> u8 {
    (address % 256) as u8
}

/// The address that two bytes spell, the high one first.
pub open spec fn address_of(high: u8, low: u8) -> u16 {
    (high * 256 + low) as u16
}

/// Reading back the bytes of an address gives the address.
pub proof fn address_round_trip(address: u16)
    ensures
        address_of(high_byte(address), low_byte(address)) == address,
{
}

/// The opcode that a code unit holds.
pub open spec fn opcode_of(unit: CodeUnit) -> OpCode {
    choose|opcode: OpCode| opcode_byte(opcode) == unit.byte
}

/// Whether `count` operand bytes are what `opcode` takes: the fixed number
/// of the opcode, or any number after `Closure`.
pub open spec fn takes(opcode: OpCode, count: int) -> bool {
    if opcode == OpCode::Closure {
        count >= 0
    } else {
        count == required_indexes(opcode)
    }
}

/// Whether `code[from..to]` is one instruction: an opcode and the operands
/// it takes.
pub open spec fn whole_instruction(code: Seq<CodeUnit>, from: int, to: int) -> bool {
    &&& 0 <= from < to <= code.len()
    &&& code[from].is_opcode()
    &&& takes(opcode_of(code[from]), to - from - 1)
}

/// Whether the code is a sequence of whole instructions that start at
/// `starts`.
pub open spec fn instructions(code: Seq<CodeUnit>, starts: Seq<int>) -> bool {
    &&& (starts.len() == 0 ==> code.len() == 0)
    &&& (starts.len() > 0 ==> starts[0] == 0)
    &&& forall|i: int|
        0 <= i < starts.len() ==> whole_instruction(
            code,
            #[trigger] starts[i],
            if i + 1 < starts.len() {
                starts[i + 1]
            } else {
                code.len() as int
            },
        )
}

/// Whether the code is a sequence of whole instructions but for the last
/// one, which still waits for `required` operands.
pub open spec fn open_instructions(code: Seq<CodeUnit>, starts: Seq<int>, required: u8) -> bool {
    &&& (starts.len() == 0 ==> code.len() == 0 && required == 0)
    &&& (starts.len() > 0 ==> starts[0] == 0)
    &&& forall|i: int|
        0 <= i < starts.len() - 1 ==> whole_instruction(code, #[trigger] starts[i], starts[i + 1])
    &&& (starts.len() > 0 ==> {
        let from = starts.last();
        &&& 0 <= from < code.len()
        &&& code[from].is_opcode()
        &&& if opcode_of(code[from]) == OpCode::Closure {
            required == VARIABLE_INDEXES
        } else {
            required + (code.len() - from - 1) == required_indexes(opcode_of(code[from]))
        }
    })
}

/// A sequence of instructions with their operands, the constants they
/// refer to and their source lines.
pub struct Chunk {
    pub code: Vec<CodeUnit>,
    pub constants: Vec<Value>,
    pub lines: Vec<LineInfo>,
}

impl Chunk {
    /// Every code unit has a source line.
    pub open spec fn wf(&self) -> bool {
        total(self.lines@) == self.code.len()
    }

    /// The code is a sequence of whole instructions: the first code unit
    /// is an opcode, and each opcode is followed by the operands it takes.
    pub open spec fn structured(&self) -> bool {
        exists|starts: Seq<int>| instructions(self.code@, starts)
    }

    /// The code unit at `instruction_index`.
    pub fn get_code_unit(&self, instruction_index: usize) -> (unit: CodeUnit)
        requires
            instruction_index < self.code.len(),
        ensures
            unit == self.code[instruction_index as int],
    {
        self.code[instruction_index]
    }

    /// The source line of the code unit at `instruction_index`.
    pub fn get_source_code_line(&self, instruction_index: usize) -> (line: u32)
        requires
            self.wf(),
            instruction_index < self.code.len(),
        ensures
            line_at(self.lines@, instruction_index as int) == Some(line),
    {
        proof {
            line_at_covered(self.lines@, instruction_index as int);
        }
        match self.line_of(instruction_index) {
            Some(line) => line,
            None => 0,
        }
    }

    /// The source line of the code unit at `instruction_index`, if the
    /// runs cover it.
    pub fn line_of(&self, instruction_index: usize) -> (line: Option<u32>)
        ensures
            line == line_at(self.lines@, instruction_index as int),
    {
        let mut covered: usize = 0;
        let mut i: usize = 0;
        while i < self.lines.len()
            invariant
                i <= self.lines.len(),
                covered == total(self.lines@.take(i as int)),
                covered <= instruction_index,
            decreases self.lines.len() - i,
        {
            let info = self.lines[i];
            proof {
                assert(self.lines@.take(i + 1).drop_last() == self.lines@.take(i as int));
            }
            if instruction_index - covered < info.count as usize {
                proof {
                    line_at_run(self.lines@, i as int, instruction_index as int);
                }
                return Some(info.line);
            }
            covered += info.count as usize;
            i += 1;
        }
        proof {
            assert(self.lines@.take(self.lines.len() as int) == self.lines@);
        }
        None
    }

    /// The constant at `index`.
    pub fn get_value_at_index(&self, index: u8) -> (value: &Value)
        requires
            index < self.constants.len(),
        ensures
            *value == self.constants[index as int],
    {
        &self.constants[index as usize]
    }

    /// The number of code units.
    pub fn len(&self) -> (n: usize)
        ensures
            n == self.code.len(),
    {
        self.code.len()
    }

    /// The operand byte at `index`, if the code reaches that far.
    pub fn index_at(&self, index: usize) -> (byte: Option<u8>)
        ensures
            byte == if index < self.code.len() {
                Some(self.code[index as int].byte)
            } else {
                None
            },
    {
        if index < self.code.len() {
            Some(self.code[index].byte)
        } else {
            None
        }
    }

    /// The two-byte address at `index`, if the code reaches that far.
    pub fn address_at(&self, index: usize) -> (address: Option<u16>)
        ensures
            address == if index + 1 < self.code.len() {
                Some(address_of(self.code[index as int].byte, self.code[index + 1].byte))
            } else {
                None
            },
    {
        if index < self.code.len() && index + 1 < self.code.len() {
            let high = self.code[index].byte as u16;
            let low = self.code[index + 1].byte as u16;
            Some(high * 256 + low)
        } else {
            None
        }
    }

    /// The constant at `index`, if there is one.
    pub fn constant_at(&self, index: u8) -> (value: Option<&Value>)
        ensures
            match value {
                Some(v) => index < self.constants.len() && *v == self.constants[index as int],
                None => index >= self.constants.len(),
            },
    {
        if (index as usize) < self.constants.len() {
            Some(&self.constants[index as usize])
        } else {
            None
        }
    }

    fn new() -> (chunk: Chunk)
        ensures
            chunk.wf(),
            chunk.code@.len() == 0,
            chunk.constants@.len() == 0,
            chunk.lines@.len() == 0,
    {
        Chunk { code: Vec::new(), constants: Vec::new(), lines: Vec::new() }
    }

    /// Notes one more code unit of `line` in the runs.
    fn note_line(&mut self, line: u32)
        ensures
            final(self).code == old(self).code,
            final(self).constants == old(self).constants,
            final(self).lines@ == append_line(old(self).lines@, line),
    {
        let n = self.lines.len();
        if n > 0 && self.lines[n - 1].line == line && self.lines[n - 1].count < u32::MAX {
            let count = self.lines[n - 1].count;
            self.lines[n - 1] = LineInfo::new(line, count + 1);
            assert(self.lines@ =~= append_line(old(self).lines@, line));
        } else {
            self.lines.push(LineInfo::new(line, 1));
        }
    }

    fn write_opcode(&mut self, opcode: OpCode, line: u32) -> (position: usize)
        requires
            old(self).wf(),
            last_line(old(self).lines@) <= line,
        ensures
            final(self).wf(),
            position == old(self).code.len(),
            final(self).code@ == old(self).code@.push(CodeUnit { byte: opcode_byte(opcode) }),
            final(self).lines@ == append_line(old(self).lines@, line),
            final(self).constants == old(self).constants,
    {
        self.code.push(CodeUnit::from_opcode(opcode));
        self.note_line(line);
        proof {
            append_line_covers(old(self).lines@, line);
        }
        self.code.len() - 1
    }

    fn write_index(&mut self, index: u8) -> (position: usize)
        requires
            old(self).wf(),
            old(self).lines.len() > 0,
        ensures
            final(self).wf(),
            position == old(self).code.len(),
            final(self).code@ == old(self).code@.push(CodeUnit { byte: index }),
            final(self).lines@ == append_line(old(self).lines@, last_line(old(self).lines@)),
            final(self).constants == old(self).constants,
    {
        self.code.push(CodeUnit::from_index(index));
        let line = self.lines[self.lines.len() - 1].line;
        self.note_line(line);
        proof {
            append_line_covers(old(self).lines@, line);
        }
        self.code.len() - 1
    }

    /// Overwrites the code unit at `position` with an operand.
    fn write_index_at(&mut self, index: u8, position: usize)
        requires
            position < old(self).code.len(),
        ensures
            final(self).code@ == old(self).code@.update(position as int, CodeUnit { byte: index }),
            final(self).lines == old(self).lines,
            final(self).constants == old(self).constants,
    {
        self.code[position] = CodeUnit::from_index(index);
    }

    /// The place of `value` among the constants; a value that equals none
    /// of them is added at the end.
    fn add_constant(&mut self, value: Value) -> (index: usize)
        ensures
            index == first_equal(old(self).constants@, value),
            final(self).code == old(self).code,
            final(self).lines == old(self).lines,
            final(self).constants@ == if index < old(self).constants.len() {
                old(self).constants@
            } else {
                old(self).constants@.push(value)
            },
    {
        let mut i: usize = 0;
        proof {
            assert(self.constants@.take(0) =~= Seq::<Value>::empty());
        }
        while i < self.constants.len()
            invariant
                i <= self.constants.len(),
                *self == *old(self),
                first_equal(self.constants@.take(i as int), value) == i,
            decreases self.constants.len() - i,
        {
            proof {
                assert(self.constants@.take(i + 1).drop_last() == self.constants@.take(i as int));
            }
            if self.constants[i].equals(&value) {
                proof {
                    first_equal_stays(self.constants@, i + 1, value);
                }
                return i;
            }
            i += 1;
        }
        proof {
            assert(self.constants@.take(i as int) == self.constants@);
        }
        self.constants.push(value);
        self.constants.len() - 1
    }
}

/// A match among the first constants stays the first match when more
/// constants follow.
pub proof fn first_equal_stays(constants: Seq<Value>, n: int, value: Value)
    requires
        0 <= n <= constants.len(),
        first_equal(constants.take(n), value) < n,
    ensures
        first_equal(constants, value) == first_equal(constants.take(n), value),
    decreases constants.len() - n,
{
    if n < constants.len() {
        assert(constants.take(n + 1).drop_last() == constants.take(n));
        first_equal_stays(constants, n + 1, value);
    } else {
        assert(constants.take(n) == constants);
    }
}

/// What the first match means: it equals `value`, nothing before it does,
/// and where it is the number of constants, no constant does.
pub proof fn first_equal_is_first(constants: Seq<Value>, value: Value)
    ensures
        0 <= first_equal(constants, value) <= constants.len(),
        first_equal(constants, value) < constants.len() ==> values_equal(
            constants[first_equal(constants, value)],
            value,
        ),
        forall|k: int|
            0 <= k < first_equal(constants, value) ==> !values_equal(
                #[trigger] constants[k],
                value,
            ),
    decreases constants.len(),
{
    if constants.len() > 0 {
        first_equal_is_first(constants.drop_last(), value);
        assert forall|k: int| 0 <= k < first_equal(constants, value) implies !values_equal(
            #[trigger] constants[k],
            value,
        ) by {
            if k < constants.len() - 1 {
                assert(constants.drop_last()[k] == constants[k]);
            }
        }
    }
}

/// The constants after `value` was asked for: as they were where one of
/// them equals `value`, else with `value` behind them.
pub open spec fn with_constant(constants: Seq<Value>, value: Value) -> Seq<Value> {
    if first_equal(constants, value) < constants.len() {
        constants
    } else {
        constants.push(value)
    }
}

/// Whether no constant equals one that stands before it.
pub open spec fn distinct(constants: Seq<Value>) -> bool {
    forall|i: int, j: int|
        0 <= i < j < constants.len() ==> !values_equal(
            #[trigger] constants[i],
            #[trigger] constants[j],
        )
}

/// A constant is added once. A value that equals itself, asked for a
/// second time, is found at the place that it got the first time, and
/// the constants stay as they are.
pub proof fn a_constant_is_added_once(constants: Seq<Value>, value: Value)
    requires
        values_equal(value, value),
    ensures
        first_equal(with_constant(constants, value), value) == first_equal(constants, value),
        with_constant(with_constant(constants, value), value) == with_constant(constants, value),
{
    first_equal_is_first(constants, value);
    if first_equal(constants, value) >= constants.len() {
        assert(constants.push(value).drop_last() == constants);
    }
}

/// Constants of which none equals one before it stay so when one more is
/// asked for, and each of them stays at its place: the constants stand
/// in the order in which they were first asked for.
pub proof fn constants_stay_distinct(constants: Seq<Value>, value: Value)
    requires
        distinct(constants),
    ensures
        distinct(with_constant(constants, value)),
        forall|k: int|
            0 <= k < constants.len() ==> #[trigger] with_constant(constants, value)[k]
                == constants[k],
{
    first_equal_is_first(constants, value);
}

/// A place in the code that waits for its two-byte address.
pub struct Patch {
    location: usize,
}

impl Patch {
    pub closed spec fn location(&self) -> int {
        self.location as int
    }

    /// The position in the code at which the address will be written.
    pub fn get_own_index(&self) -> (index: usize)
        ensures
            index == self.location(),
    {
        self.location
    }

    /// Writes `position` into the place that the patch stands for, the
    /// high byte first.
    pub fn apply(self, builder: &mut ChunkBuilder, position: u16)
        requires
            old(builder).wf(),
            old(builder).pending@.contains(self.location()),
        ensures
            final(builder).wf(),
            final(builder).chunk.code@ == old(builder).chunk.code@.update(
                self.location(),
                CodeUnit { byte: high_byte(position) },
            ).update(self.location() + 1, CodeUnit { byte: low_byte(position) }),
            final(builder).chunk.lines == old(builder).chunk.lines,
            final(builder).chunk.constants == old(builder).chunk.constants,
            final(builder).required_indexes == old(builder).required_indexes,
            final(builder).patch_count == old(builder).patch_count - 1,
            final(builder).pending@ == old(builder).pending@.remove(self.location()),
            final(builder).starts == old(builder).starts,
    {
        let high = (position / 256) as u8;
        let low = (position % 256) as u8;
        builder.chunk.write_index_at(high, self.location);
        builder.chunk.write_index_at(low, self.location + 1);
        assert(old(builder).pending@.len() > 0) by {
            if old(builder).pending@.len() == 0 {
                assert(old(builder).pending@ =~= Set::empty()) by {
                    old(builder).pending@.lemma_len0_is_empty();
                }
            }
        }
        builder.patch_count -= 1;
        builder.pending = Ghost(builder.pending@.remove(self.location as int));
        proof {
            let code = builder.chunk.code@;
            let before = old(builder).chunk.code@;
            let starts = builder.starts@;
            assert forall|i: int| 0 <= i < starts.len() implies code[#[trigger] starts[i]]
                == before[starts[i]] by {
                assert(old(builder).pending@.contains(self.location as int));
                if i < starts.len() - 1 {
                    assert(whole_instruction(before, starts[i], starts[i + 1]));
                }
            }
            assert forall|i: int| 0 <= i < starts.len() - 1 implies whole_instruction(
                code,
                #[trigger] starts[i],
                starts[i + 1],
            ) by {
                assert(whole_instruction(before, starts[i], starts[i + 1]));
            }
        }
    }
}

/// Builds a chunk unit by unit. It knows how many operands the last
/// opcode still waits for and how many patches are open, and hands out
/// the chunk only when both are zero.
pub struct ChunkBuilder {
    pub chunk: Chunk,
    pub required_indexes: u8,
    pub patch_count: usize,
    pub pending: Ghost<Set<int>>,
    pub starts: Ghost<Seq<int>>,
}

impl ChunkBuilder {
    /// The chunk is well formed; the code is a sequence of whole
    /// instructions but for the operands that the last one waits for; and
    /// the open patches are as many as counted, each at two operands
    /// inside the code.
    pub closed spec fn wf(&self) -> bool {
        &&& self.chunk.wf()
        &&& (self.required_indexes != 0 ==> self.chunk.lines.len() > 0)
        &&& self.pending@.finite()
        &&& self.pending@.len() == self.patch_count
        &&& self.patch_count <= self.chunk.code.len()
        &&& forall|location: int| #[trigger]
            self.pending@.contains(location) ==> 0 <= location && location + 2
                <= self.chunk.code.len()
        &&& open_instructions(self.chunk.code@, self.starts@, self.required_indexes)
        &&& forall|location: int, i: int|
            #[trigger] self.pending@.contains(location) && 0 <= i < self.starts@.len() ==> (
            #[trigger] self.starts@[i]) != location && self.starts@[i] != location + 1
    }

    /// An open patch stands inside the code.
    pub proof fn pending_is_inside(&self, location: int)
        requires
            self.wf(),
            self.pending@.contains(location),
        ensures
            0 <= location,
            location + 2 <= self.chunk.code@.len(),
    {
    }

    /// Without open patches the count of patches is zero.
    pub proof fn no_pending_no_patches(&self)
        requires
            self.wf(),
            self.pending@ =~= Set::<int>::empty(),
        ensures
            self.patch_count == 0,
    {
    }

    pub fn new() -> (builder: ChunkBuilder)
        ensures
            builder.wf(),
            builder.chunk.code@.len() == 0,
            builder.chunk.constants@.len() == 0,
            builder.chunk.lines@.len() == 0,
            builder.required_indexes == 0,
            builder.patch_count == 0,
            builder.pending@ == Set::<int>::empty(),
    {
        ChunkBuilder {
            chunk: Chunk::new(),
            required_indexes: 0,
            patch_count: 0,
            pending: Ghost(Set::empty()),
            starts: Ghost(Seq::empty()),
        }
    }

    /// Appends an opcode that comes from source line `line`, and answers
    /// its position.
    pub fn write_opcode(&mut self, opcode: OpCode, line: u32) -> (position: usize)
        requires
            old(self).wf(),
            old(self).required_indexes == 0 || old(self).required_indexes == VARIABLE_INDEXES,
            last_line(old(self).chunk.lines@) <= line,
        ensures
            final(self).wf(),
            position == old(self).chunk.code.len(),
            final(self).chunk.code@ == old(self).chunk.code@.push(
                CodeUnit { byte: opcode_byte(opcode) },
            ),
            final(self).chunk.lines@ == append_line(old(self).chunk.lines@, line),
            final(self).chunk.constants == old(self).chunk.constants,
            final(self).required_indexes == required_indexes(opcode),
            final(self).patch_count == old(self).patch_count,
            final(self).pending == old(self).pending,
    {
        self.required_indexes = crate::opcodes::IndexesPerOpCode::new().get(opcode);
        let position = self.chunk.write_opcode(opcode, line);
        proof {
            self.starts = Ghost(self.starts@.push(position as int));
            let code = self.chunk.code@;
            let before = old(self).chunk.code@;
            let starts = self.starts@;
            crate::opcodes::opcode_byte_is_injective(opcode_of(code[position as int]), opcode);
            assert forall|i: int| 0 <= i < starts.len() - 1 implies whole_instruction(
                code,
                #[trigger] starts[i],
                starts[i + 1],
            ) by {
                assert(starts[i] == old(self).starts@[i]);
                assert(code[starts[i]] == before[starts[i]]);
                if i + 1 < starts.len() - 1 {
                    assert(starts[i + 1] == old(self).starts@[i + 1]);
                    assert(whole_instruction(before, old(self).starts@[i], old(self).starts@[i + 1]));
                }
            }
        }
        position
    }

    /// Appends one operand byte.
    pub fn write_index(&mut self, index: u8)
        requires
            old(self).wf(),
            old(self).required_indexes != 0,
        ensures
            final(self).wf(),
            final(self).chunk.code@ == old(self).chunk.code@.push(CodeUnit { byte: index }),
            final(self).chunk.lines@ == append_line(
                old(self).chunk.lines@,
                last_line(old(self).chunk.lines@),
            ),
            final(self).chunk.constants == old(self).chunk.constants,
            final(self).required_indexes == if old(self).required_indexes == VARIABLE_INDEXES {
                VARIABLE_INDEXES
            } else {
                (old(self).required_indexes - 1) as u8
            },
            final(self).patch_count == old(self).patch_count,
            final(self).pending == old(self).pending,
    {
        self.chunk.write_index(index);
        if self.required_indexes != VARIABLE_INDEXES {
            self.required_indexes -= 1;
        }
        proof {
            let code = self.chunk.code@;
            let before = old(self).chunk.code@;
            let starts = self.starts@;
            assert forall|i: int| 0 <= i < starts.len() - 1 implies whole_instruction(
                code,
                #[trigger] starts[i],
                starts[i + 1],
            ) by {
                assert(whole_instruction(before, starts[i], starts[i + 1]));
                assert(code[starts[i]] == before[starts[i]]);
            }
            assert(code[starts.last()] == before[starts.last()]);
        }
    }

    /// Appends a two-byte address, the high byte first.
    pub fn write_address(&mut self, position: u16)
        requires
            old(self).wf(),
            old(self).required_indexes >= 2,
        ensures
            final(self).wf(),
            final(self).chunk.code@ == old(self).chunk.code@.push(
                CodeUnit { byte: high_byte(position) },
            ).push(CodeUnit { byte: low_byte(position) }),
            final(self).chunk.lines@ == append_line(
                append_line(old(self).chunk.lines@, last_line(old(self).chunk.lines@)),
                last_line(old(self).chunk.lines@),
            ),
            final(self).chunk.constants == old(self).chunk.constants,
            final(self).required_indexes == if old(self).required_indexes == VARIABLE_INDEXES {
                VARIABLE_INDEXES
            } else {
                (old(self).required_indexes - 2) as u8
            },
            final(self).patch_count == old(self).patch_count,
            final(self).pending == old(self).pending,
    {
        let high = (position / 256) as u8;
        let low = (position % 256) as u8;
        proof {
            append_line_covers(old(self).chunk.lines@, last_line(old(self).chunk.lines@));
        }
        self.write_index(high);
        self.write_index(low);
    }

    /// Reserves two operand bytes for an address that is not known yet,
    /// and answers the patch that will write it.
    pub fn write_patch(&mut self) -> (patch: Patch)
        requires
            old(self).wf(),
            old(self).required_indexes >= 2,
        ensures
            final(self).wf(),
            patch.location() == old(self).chunk.code.len(),
            final(self).chunk.code@ == old(self).chunk.code@.push(CodeUnit { byte: 255 }).push(
                CodeUnit { byte: 255 },
            ),
            final(self).chunk.lines@ == append_line(
                append_line(old(self).chunk.lines@, last_line(old(self).chunk.lines@)),
                last_line(old(self).chunk.lines@),
            ),
            final(self).chunk.constants == old(self).chunk.constants,
            final(self).required_indexes == if old(self).required_indexes == VARIABLE_INDEXES {
                VARIABLE_INDEXES
            } else {
                (old(self).required_indexes - 2) as u8
            },
            final(self).patch_count == old(self).patch_count + 1,
            final(self).pending@ == old(self).pending@.insert(old(self).chunk.code.len() as int),
            !old(self).pending@.contains(old(self).chunk.code.len() as int),
    {
        proof {
            append_line_covers(old(self).chunk.lines@, last_line(old(self).chunk.lines@));
        }
        let location = self.chunk.len();
        let ghost at = location as int;
        assert(!self.pending@.contains(at));
        self.write_index(u8::MAX);
        self.write_index(u8::MAX);
        let ghost written = *self;
        proof {
            let code = self.chunk.code@;
            let starts = self.starts@;
            assert(code[at] == CodeUnit { byte: 255 });
            assert(code[at + 1] == CodeUnit { byte: 255 });
            assert(!code[at].is_opcode() && !code[at + 1].is_opcode());
            assert forall|i: int| 0 <= i < starts.len() implies (#[trigger] starts[i]) != at
                && starts[i] != at + 1 by {
                if i < starts.len() - 1 {
                    assert(whole_instruction(code, starts[i], starts[i + 1]));
                } else {
                    assert(starts[i] == starts.last());
                }
            }
        }
        self.patch_count += 1;
        self.pending = Ghost(self.pending@.insert(at));
        proof {
            assert forall|place: int| #[trigger] self.pending@.contains(place) implies 0 <= place
                && place + 2 <= self.chunk.code.len() by {
                if place != at {
                    assert(written.pending@.contains(place));
                }
            }
            assert forall|place: int, i: int| #[trigger]
                self.pending@.contains(place) && 0 <= i < self.starts@.len() implies (
            #[trigger] self.starts@[i]) != place && self.starts@[i] != place + 1 by {
                if place != at {
                    assert(written.pending@.contains(place));
                }
            }
        }
        Patch { location }
    }

    /// The place of `value` among the constants; a value that equals none
    /// of them is added at the end.
    pub fn add_constant(&mut self, value: Value) -> (index: usize)
        requires
            old(self).wf(),
        ensures
            final(self).wf(),
            index == first_equal(old(self).chunk.constants@, value),
            final(self).chunk.code == old(self).chunk.code,
            final(self).chunk.lines == old(self).chunk.lines,
            final(self).chunk.constants@ == with_constant(old(self).chunk.constants@, value),
            final(self).required_indexes == old(self).required_indexes,
            final(self).patch_count == old(self).patch_count,
            final(self).pending == old(self).pending,
    {
        self.chunk.add_constant(value)
    }

    /// The number of code units written so far.
    pub fn len(&self) -> (n: usize)
        ensures
            n == self.chunk.code.len(),
    {
        self.chunk.len()
    }

    /// The line of the last code unit, or 0 before the first.
    pub fn line(&self) -> (line: u32)
        ensures
            line == last_line(self.chunk.lines@),
    {
        let n = self.chunk.lines.len();
        if n == 0 {
            0
        } else {
            self.chunk.lines[n - 1].line
        }
    }

    /// Hands out the finished chunk.
    pub fn build(self) -> (chunk: Chunk)
        requires
            self.wf(),
            self.required_indexes == 0,
            self.patch_count == 0,
        ensures
            chunk == self.chunk,
            chunk.wf(),
            chunk.structured(),
    {
        proof {
            let code = self.chunk.code@;
            let starts = self.starts@;
            assert forall|i: int| 0 <= i < starts.len() implies whole_instruction(
                code,
                #[trigger] starts[i],
                if i + 1 < starts.len() {
                    starts[i + 1]
                } else {
                    code.len() as int
                },
            ) by {
                if i + 1 < starts.len() {
                    assert(whole_instruction(code, starts[i], starts[i + 1]));
                }
            }
            assert(instructions(code, starts));
        }
        self.chunk
    }
}

} // verus!
