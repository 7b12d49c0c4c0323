use sync_prims::stack::Stack;

#[test]
fn test_stack_single_threaded() {
    let mut stack = Stack::new();
    for i in 0..100 {
        stack.push(i);
    }
    for i in (0..100).rev() {
        let Some(val) = stack.pop() else {
            panic!("stack should not be empty")
        };
        println!("popped {val}");
        assert_eq!(val, i);
    }
}

#[test]
fn test_stack_pop_empty_returns_empty() {
    let mut stack: Stack<u32> = Stack::new();
    assert_eq!(stack.pop(), None);
    stack.push(7);
    assert_eq!(stack.pop(), Some(7));
    assert_eq!(stack.pop(), None);
}

#[test]
fn test_stack_push_pop_interleaved() {
    let mut stack = Stack::new();
    stack.push(1);
    stack.push(2);
    assert_eq!(stack.pop(), Some(2));
    stack.push(3);
    assert_eq!(stack.pop(), Some(3));
    assert_eq!(stack.pop(), Some(1));
    assert_eq!(stack.pop(), None);
}

#[test]
fn test_stack_clear_drains_iteratively() {
    let mut stack = Stack::new();
    for i in 0..10_000 {
        stack.push(i);
    }
    stack.clear();
    assert_eq!(stack.pop(), None);
    stack.push(5);
    assert_eq!(stack.pop(), Some(5));
}
