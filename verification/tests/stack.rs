use smol_evm_rs::stack::{Stack, StackError};
use smol_evm_rs::word::Word;

fn w(x: u64) -> Word {
    Word::from_u64(x)
}

#[test]
fn new_stack_is_empty() {
    let stack = Stack::new(1024);
    assert_eq!(stack.stack.len(), 0);
}

#[test]
fn push_and_pop_on_stack() {
    let mut stack = Stack::new(1024);
    stack.push(w(42)).unwrap();
    assert_eq!(stack.stack.len(), 1);
    assert_eq!(stack.pop().unwrap(), w(42));
    assert_eq!(stack.stack.len(), 0);
}

#[test]
fn test_peek() {
    let mut stack = Stack::new(1024);
    stack.push(w(41)).unwrap();
    stack.push(w(42)).unwrap();
    stack.push(w(43)).unwrap();

    assert_eq!(stack.peek(0).unwrap(), w(43));
    assert_eq!(stack.peek(1).unwrap(), w(42));
    assert_eq!(stack.peek(2).unwrap(), w(41));

    assert!(stack.peek(3).is_err());
}

#[test]
fn test_swap() {
    let mut stack = Stack::new(1024);
    stack.push(w(41)).unwrap();
    stack.push(w(42)).unwrap();
    stack.push(w(43)).unwrap();
    assert_eq!(stack.peek(0).unwrap(), w(43));
    assert_eq!(stack.peek(1).unwrap(), w(42));
    assert_eq!(stack.peek(2).unwrap(), w(41));

    // The top changes places with the word one below it.
    stack.swap(1).unwrap();

    assert_eq!(stack.peek(0).unwrap(), w(42));
    assert_eq!(stack.peek(1).unwrap(), w(43));
    assert_eq!(stack.peek(2).unwrap(), w(41));

    // The top changes places with the word two below it.
    stack.swap(2).unwrap();

    assert_eq!(stack.peek(0).unwrap(), w(41));
    assert_eq!(stack.peek(1).unwrap(), w(43));
    assert_eq!(stack.peek(2).unwrap(), w(42));

    assert!(stack.swap(3).is_err());
    assert!(stack.swap(0).is_err());
}

#[test]
fn pops_return_pushes_in_reverse_order() {
    let mut stack = Stack::new(1024);
    for i in 0..100u64 {
        stack.push(w(i * 7)).unwrap();
    }
    for i in (0..100u64).rev() {
        assert_eq!(stack.pop().unwrap(), w(i * 7));
    }
    assert_eq!(stack.stack.len(), 0);
}

#[test]
fn push_at_max_depth_overflows() {
    let mut stack = Stack::new(1024);
    for i in 0..1024u64 {
        assert_eq!(stack.push(w(i)), Ok(()));
    }
    assert_eq!(stack.push(w(7)), Err(StackError::StackOverflow));
    assert_eq!(stack.stack.len(), 1024);
    assert_eq!(stack.peek(0), Ok(w(1023)));
}

#[test]
fn push_on_zero_depth_stack_overflows() {
    let mut stack = Stack::new(0);
    assert_eq!(stack.push(w(1)), Err(StackError::StackOverflow));
}

#[test]
fn empty_stack_underflows() {
    let mut stack = Stack::new(1024);
    assert_eq!(stack.pop(), Err(StackError::StackUnderflow));
    assert_eq!(stack.peek(0), Err(StackError::StackUnderflow));
    assert_eq!(stack.swap(1), Err(StackError::StackUnderflow));
}

#[test]
fn shallow_stack_underflows() {
    let mut stack = Stack::new(1024);
    stack.push(w(1)).unwrap();
    stack.push(w(2)).unwrap();
    assert_eq!(stack.peek(2), Err(StackError::StackUnderflow));
    assert_eq!(stack.swap(2), Err(StackError::StackUnderflow));
    assert_eq!(stack.swap(1), Ok(()));
    assert_eq!(stack.stack, vec![w(2), w(1)]);
}

#[test]
fn swap_zero_is_an_invalid_index() {
    let mut empty = Stack::new(1024);
    assert_eq!(empty.swap(0), Err(StackError::InvalidIndex));
    let mut stack = Stack::new(1024);
    stack.push(w(1)).unwrap();
    stack.push(w(2)).unwrap();
    assert_eq!(stack.swap(0), Err(StackError::InvalidIndex));
    assert_eq!(stack.stack, vec![w(1), w(2)]);
}

#[test]
fn peek_leaves_the_stack_alone() {
    let mut stack = Stack::new(4);
    stack.push(w(5)).unwrap();
    stack.push(w(6)).unwrap();
    assert_eq!(stack.peek(1), Ok(w(5)));
    assert_eq!(stack.stack, vec![w(5), w(6)]);
    assert_eq!(stack.max_depth, 4);
}
