//! A unit of bytecode: instruction bytes, a constant pool and a line table
//! with one entry per code byte.
use vstd::prelude::*;
use crate::simple_vec::SimpleVec;

verus! {

/// Most constants a chunk can hold: an operand byte must address each one.
pub const MAX_CONSTANTS: usize = 256;

/// Instruction bytes, their source lines and the constants they refer to.
pub struct Chunk<V> {
    code: SimpleVec<u8>,
    constants: SimpleVec<V>,
    lines: SimpleVec<usize>,
}

impl<V> Chunk<V> {
    /// The instruction bytes.
    pub closed spec fn code(&self) -> Seq<u8> {
        self.code@
    }

    /// The source line of each instruction byte.
    pub closed spec fn lines(&self) -> Seq<usize> {
        self.lines@
    }

    /// The constant pool.
    pub closed spec fn constants(&self) -> Seq<V> {
        self.constants@
    }

    /// The buffers are sound, the line table runs parallel to the code and
    /// the pool fits an operand byte.
    pub closed spec fn wf(&self) -> bool {
        &&& self.code.wf()
        &&& self.constants.wf()
        &&& self.lines.wf()
        &&& self.lines@.len() == self.code@.len()
        &&& self.code@.len() <= usize::MAX / 2
        &&& self.constants@.len() <= MAX_CONSTANTS
    }

    /// A chunk with no code and no constants; constants of a zero-sized type
    /// are not accepted.
    pub fn new() -> (r: Self)
        requires
            vstd::layout::size_of::<V>() != 0,
        ensures
            r.wf(),
            r.code() == Seq::<u8>::empty(),
            r.lines() == Seq::<usize>::empty(),
            r.constants() == Seq::<V>::empty(),
    {
        broadcast use vstd::layout::layout_of_primitives;

        Chunk { code: SimpleVec::new(), constants: SimpleVec::new(), lines: SimpleVec::new() }
    }

    /// Appends one code byte together with its source line.
    pub fn write(&mut self, byte: u8, line: usize)
        requires
            old(self).wf(),
            old(self).code().len() < usize::MAX / 2,
        ensures
            final(self).wf(),
            final(self).code() == old(self).code().push(byte),
            final(self).lines() == old(self).lines().push(line),
            final(self).lines().len() == final(self).code().len(),
            final(self).code().len() == old(self).code().len() + 1,
            final(self).constants() == old(self).constants(),
    {
        self.code.push(byte);
        self.lines.push(line);
    }

    /// Appends `value` to the constant pool and returns its index. A full
    /// pool is a construction error: callers make sure there is room.
    pub fn add_constant(&mut self, value: V) -> (r: u8)
        requires
            old(self).wf(),
            old(self).constants().len() < MAX_CONSTANTS,
        ensures
            final(self).wf(),
            final(self).code() == old(self).code(),
            final(self).lines() == old(self).lines(),
            r == old(self).constants().len(),
            final(self).constants() == old(self).constants().push(value),
    {
        let index = self.constants.count();
        self.constants.push(value);
        index as u8
    }

    /// Number of code bytes.
    pub fn code_count(&self) -> (r: usize)
        requires
            self.wf(),
        ensures
            r == self.code().len(),
    {
        self.code.count()
    }

    /// Number of constants in the pool.
    pub fn constant_count(&self) -> (r: usize)
        requires
            self.wf(),
        ensures
            r == self.constants().len(),
    {
        self.constants.count()
    }

    /// The code byte at `ip`.
    pub fn instruction(&self, ip: usize) -> (r: u8)
        requires
            ip < self.code().len(),
        ensures
            r == self.code()[ip as int],
    {
        *self.code.get(ip)
    }

    /// The source line of the code byte at `offset`.
    pub fn line(&self, offset: usize) -> (r: usize)
        requires
            offset < self.lines().len(),
        ensures
            r == self.lines()[offset as int],
    {
        *self.lines.get(offset)
    }

    /// The constant at `index`.
    pub fn constant(&self, index: usize) -> (r: V) where V: Copy
        requires
            index < self.constants().len(),
        ensures
            r == self.constants()[index as int],
    {
        *self.constants.get(index)
    }

    /// The line table always has one entry per code byte, and the pool never
    /// outgrows an operand byte.
    pub proof fn lemma_tables_in_step(&self)
        requires
            self.wf(),
        ensures
            self.lines().len() == self.code().len(),
            self.code().len() <= usize::MAX / 2,
            self.constants().len() <= MAX_CONSTANTS,
    {
    }
}

} // verus!
