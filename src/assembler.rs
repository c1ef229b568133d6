//! Writes a program into memory, word after word.
use vstd::prelude::*;
use crate::memory::Addressable;

verus! {

/// The words of all lines, in order.
pub open spec fn flatten_lines(lines: Seq<Vec<u8>>) -> Seq<u8>
    decreases lines.len(),
{
    if lines.len() == 0 {
        Seq::empty()
    } else {
        flatten_lines(lines.drop_last()) + lines.last()@
    }
}

/// `cells` with `words` written over it from address `start` on.
pub open spec fn written(cells: Seq<u8>, start: int, words: Seq<u8>) -> Seq<u8> {
    Seq::new(
        cells.len(),
        |a: int|
            if start <= a < start + words.len() {
                words[a - start]
            } else {
                cells[a]
            },
    )
}

proof fn lemma_flatten_split(lines: Seq<Vec<u8>>, i: int)
    requires
        0 <= i < lines.len(),
    ensures
        flatten_lines(lines.take(i + 1)) == flatten_lines(lines.take(i)) + lines[i]@,
        flatten_lines(lines.skip(i)) == lines[i]@ + flatten_lines(lines.skip(i + 1)),
{
    assert(lines.take(i + 1).drop_last() =~= lines.take(i));
    lemma_flatten_front(lines.skip(i));
    assert(lines.skip(i).drop_first() =~= lines.skip(i + 1));
}

proof fn lemma_flatten_front(lines: Seq<Vec<u8>>)
    requires
        lines.len() > 0,
    ensures
        flatten_lines(lines) == lines[0]@ + flatten_lines(lines.drop_first()),
    decreases lines.len(),
{
    if lines.len() == 1 {
        assert(lines.drop_last() =~= Seq::<Vec<u8>>::empty());
        assert(lines.drop_first() =~= Seq::<Vec<u8>>::empty());
        assert(flatten_lines(lines) =~= lines[0]@ + flatten_lines(lines.drop_first()));
    } else {
        lemma_flatten_front(lines.drop_last());
        assert(lines.drop_last().drop_first() =~= lines.drop_first().drop_last());
        assert(flatten_lines(lines) =~= lines[0]@ + flatten_lines(lines.drop_first()));
    }
}

/// Writes words into a memory at a head that starts at address zero and
/// moves one address per word.
pub struct ProgramAssembler<'d, Memory> {
    pub head: usize,
    pub memory: &'d mut Memory,
}

impl<'d, Memory: Addressable> ProgramAssembler<'d, Memory> {
    pub fn build(target: &'d mut Memory) -> (r: Self)
        ensures
            r.head == 0,
            *r.memory == *old(target),
            *final(target) == *final(r.memory),
    {
        ProgramAssembler { head: 0, memory: target }
    }

    /// Writes each line of `program` in turn, its words at consecutive
    /// addresses from the head.
    pub fn assemble_program(&mut self, program: Vec<Vec<u8>>)
        requires
            old(self).head + flatten_lines(program@).len() <= old(self).memory.cells().len(),
            old(self).memory.cells().len() <= usize::MAX,
        ensures
            final(self).head == old(self).head + flatten_lines(program@).len(),
            final(self).memory.cells() == written(
                old(self).memory.cells(),
                old(self).head as int,
                flatten_lines(program@),
            ),
    {
        let mut i: usize = 0;
        assert(program@.skip(0) =~= program@);
        assert(program@.take(0) =~= Seq::<Vec<u8>>::empty());
        assert(self.memory.cells() =~= written(
            old(self).memory.cells(),
            old(self).head as int,
            flatten_lines(program@.take(0)),
        ));
        while i < program.len()
            invariant
                0 <= i <= program.len(),
                self.head == old(self).head + flatten_lines(program@.take(i as int)).len(),
                self.head + flatten_lines(program@.skip(i as int)).len() <= self.memory.cells().len(),
                self.memory.cells().len() <= usize::MAX,
                self.memory.cells() == written(
                    old(self).memory.cells(),
                    old(self).head as int,
                    flatten_lines(program@.take(i as int)),
                ),
            decreases program.len() - i,
        {
            proof {
                lemma_flatten_split(program@, i as int);
            }
            self.assemble_instruction(&program[i]);
            i = i + 1;
        }
        assert(program@.take(i as int) =~= program@);
    }

    /// Writes the words of one line at consecutive addresses from the head.
    fn assemble_instruction(&mut self, instructions: &Vec<u8>)
        requires
            old(self).head + instructions@.len() <= old(self).memory.cells().len(),
            old(self).memory.cells().len() <= usize::MAX,
        ensures
            final(self).head == old(self).head + instructions@.len(),
            final(self).memory.cells() == written(
                old(self).memory.cells(),
                old(self).head as int,
                instructions@,
            ),
    {
        let mut j: usize = 0;
        assert(self.memory.cells() =~= written(
            old(self).memory.cells(),
            old(self).head as int,
            instructions@.take(0),
        ));
        while j < instructions.len()
            invariant
                0 <= j <= instructions.len(),
                self.head == old(self).head + j,
                old(self).head + instructions@.len() <= old(self).memory.cells().len(),
                old(self).memory.cells().len() <= usize::MAX,
                self.memory.cells() == written(
                    old(self).memory.cells(),
                    old(self).head as int,
                    instructions@.take(j as int),
                ),
            decreases instructions.len() - j,
        {
            *self.memory.write(self.head) = instructions[j];
            self.head = self.head + 1;
            j = j + 1;
            assert(self.memory.cells() =~= written(
                old(self).memory.cells(),
                old(self).head as int,
                instructions@.take(j as int),
            ));
        }
        assert(instructions@.take(j as int) =~= instructions@);
    }
}

} // verus!
