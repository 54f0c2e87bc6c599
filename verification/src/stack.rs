//! The operand stack: a bounded last-in, first-out sequence of words.

use crate::word::Word;
use vstd::prelude::*;

verus! {

/// Why a stack operation was refused.
#[derive(Clone, Copy, Debug, PartialEq, Eq, Structural)]
pub enum StackError {
    /// The item cannot be held. Every word can, so no operation returns this.
    InvalidItem(Word),
    /// The stack is at its maximum depth.
    StackOverflow,
    /// The stack holds fewer items than the operation reaches.
    StackUnderflow,
    /// The index names no exchange: `swap(0)` would exchange the top with itself.
    InvalidIndex,
}

/// A stack of words whose top is the last element of `stack`.
#[derive(Debug)]
pub struct Stack {
    pub stack: Vec<Word>,
    pub max_depth: usize,
}

impl View for Stack {
    type V = Seq<Word>;

    open spec fn view(&self) -> Seq<Word> {
        self.stack@
    }
}

/// The item `n` positions below the top of `items` (0 is the top).
pub open spec fn from_top(items: Seq<Word>, n: int) -> Word
    recommends
        0 <= n < items.len(),
{
    items[items.len() - 1 - n]
}

/// `items` with the top and the item `n` positions below it exchanged.
pub open spec fn swapped(items: Seq<Word>, n: int) -> Seq<Word>
    recommends
        0 < n < items.len(),
{
    items.update(items.len() - 1, from_top(items, n)).update(
        items.len() - 1 - n,
        from_top(items, 0),
    )
}

impl Stack {
    /// The depth never exceeds the maximum.
    pub open spec fn wf(&self) -> bool {
        self@.len() <= self.max_depth
    }

    /// An empty stack that holds at most `max_depth` items.
    pub fn new(max_depth: usize) -> (s: Stack)
        ensures
            s@ == Seq::<Word>::empty(),
            s.max_depth == max_depth,
            s.wf(),
    {
        Self { stack: Vec::new(), max_depth }
    }

    /// Puts `item` on top, unless the stack is full.
    pub fn push(&mut self, item: Word) -> (r: Result<(), StackError>)
        ensures
            final(self).max_depth == old(self).max_depth,
            old(self)@.len() < old(self).max_depth ==> r == Ok::<(), StackError>(())
                && final(self)@ == old(self)@.push(item),
            old(self)@.len() >= old(self).max_depth ==> r == Err::<(), StackError>(
                StackError::StackOverflow,
            ) && final(self)@ == old(self)@,
    {
        if self.stack.len() >= self.max_depth {
            return Err(StackError::StackOverflow);
        }
        self.stack.push(item);
        Ok(())
    }

    /// Takes the top item off, unless the stack is empty.
    pub fn pop(&mut self) -> (r: Result<Word, StackError>)
        ensures
            final(self).max_depth == old(self).max_depth,
            old(self)@.len() > 0 ==> r == Ok::<Word, StackError>(old(self)@.last())
                && final(self)@ == old(self)@.drop_last(),
            old(self)@.len() == 0 ==> r == Err::<Word, StackError>(StackError::StackUnderflow)
                && final(self)@ == old(self)@,
    {
        match self.stack.pop() {
            Some(item) => Ok(item),
            None => Err(StackError::StackUnderflow),
        }
    }

    /// The item `index` positions below the top, which stays where it is.
    pub fn peek(&mut self, index: usize) -> (r: Result<Word, StackError>)
        ensures
            final(self).max_depth == old(self).max_depth,
            final(self)@ == old(self)@,
            index < old(self)@.len() ==> r == Ok::<Word, StackError>(
                from_top(old(self)@, index as int),
            ),
            index >= old(self)@.len() ==> r == Err::<Word, StackError>(
                StackError::StackUnderflow,
            ),
    {
        if self.stack.len() <= index {
            return Err(StackError::StackUnderflow);
        }
        Ok(self.stack[self.stack.len() - (index + 1)])
    }

    /// Exchanges the top with the item `index` positions below it.
    pub fn swap(&mut self, index: usize) -> (r: Result<(), StackError>)
        ensures
            final(self).max_depth == old(self).max_depth,
            index == 0 ==> r == Err::<(), StackError>(StackError::InvalidIndex) && final(self)@
                == old(self)@,
            index != 0 && old(self)@.len() <= index ==> r == Err::<(), StackError>(
                StackError::StackUnderflow,
            ) && final(self)@ == old(self)@,
            0 < index < old(self)@.len() ==> r == Ok::<(), StackError>(()) && final(self)@
                == swapped(old(self)@, index as int),
    {
        if index == 0 {
            return Err(StackError::InvalidIndex);
        }
        let stack_len: usize = self.stack.len();
        if stack_len <= index {
            return Err(StackError::StackUnderflow);
        }
        let top: Word = self.stack[stack_len - 1];
        let below: Word = self.stack[stack_len - 1 - index];
        self.stack[stack_len - 1] = below;
        self.stack[stack_len - 1 - index] = top;
        Ok(())
    }
}

/// The stack after the items of `items` went onto `base` one by one, the
/// first of them first.
pub open spec fn pushed_all(base: Seq<Word>, items: Seq<Word>) -> Seq<Word>
    decreases items.len(),
{
    if items.len() == 0 {
        base
    } else {
        pushed_all(base, items.drop_last()).push(items.last())
    }
}

/// The items that `n` pops take off `stack`, in the order in which they
/// come off.
pub open spec fn popped(stack: Seq<Word>, n: nat) -> Seq<Word>
    decreases n,
{
    if n == 0 || stack.len() == 0 {
        Seq::<Word>::empty()
    } else {
        seq![stack.last()] + popped(stack.drop_last(), (n - 1) as nat)
    }
}

/// The stack that `n` pops leave of `stack`.
pub open spec fn after_pops(stack: Seq<Word>, n: nat) -> Seq<Word>
    decreases n,
{
    if n == 0 || stack.len() == 0 {
        stack
    } else {
        after_pops(stack.drop_last(), (n - 1) as nat)
    }
}

/// Last in, first out: as many pops as there were pushes return the pushed
/// items in reverse order and leave the stack as it was before the pushes.
pub proof fn lemma_last_in_first_out(base: Seq<Word>, items: Seq<Word>)
    ensures
        pushed_all(base, items) == base + items,
        popped(pushed_all(base, items), items.len()) == items.reverse(),
        popped(pushed_all(base, items), items.len()) == Seq::new(
            items.len(),
            |k: int| items[items.len() - 1 - k],
        ),
        after_pops(pushed_all(base, items), items.len()) == base,
    decreases items.len(),
{
    if items.len() == 0 {
        assert(base + items =~= base);
        assert(popped(base, 0) =~= Seq::new(0, |k: int| items[items.len() - 1 - k]));
    } else {
        let earlier = items.drop_last();
        let stack = pushed_all(base, items);
        lemma_last_in_first_out(base, earlier);
        assert(stack.drop_last() =~= pushed_all(base, earlier));
        assert(stack =~= base + items);
        assert(popped(stack, items.len()) =~= Seq::new(
            items.len(),
            |k: int| items[items.len() - 1 - k],
        ));
    }
}

} // verus!
