use stm32mp1_openamp::fifo::{Fifo, FIFO_SIZE};

fn empty() -> Fifo<u32> {
    Fifo { storage: [0; FIFO_SIZE], write: 0, read: 0 }
}

#[test]
fn pop_on_empty_is_none() {
    let mut f = empty();
    assert_eq!(f.pop(), None);
    assert_eq!((f.read, f.write), (0, 0));
}

#[test]
fn items_leave_in_the_order_they_came() {
    let mut f = empty();
    f.push(1);
    f.push(2);
    f.push(3);
    assert_eq!(f.pop(), Some(1));
    f.push(4);
    assert_eq!(f.pop(), Some(2));
    assert_eq!(f.pop(), Some(3));
    assert_eq!(f.pop(), Some(4));
    assert_eq!(f.pop(), None);
}

#[test]
fn push_then_pop_on_empty_gives_the_item_back() {
    let mut f = empty();
    f.push(42);
    assert_eq!(f.pop(), Some(42));
    assert_eq!(f.read, f.write);
}

#[test]
fn counters_wrap_around_the_word() {
    let mut f = Fifo { storage: [0u32; FIFO_SIZE], write: usize::MAX, read: usize::MAX };
    f.push(7);
    f.push(8);
    assert_eq!(f.write, 1);
    assert_eq!(f.storage[63], 7);
    assert_eq!(f.storage[0], 8);
    assert_eq!(f.pop(), Some(7));
    assert_eq!(f.read, 0);
    assert_eq!(f.pop(), Some(8));
    assert_eq!(f.pop(), None);
}

#[test]
fn a_full_fifo_overwrites_its_oldest_slot() {
    let mut f = empty();
    for i in 0..FIFO_SIZE as u32 {
        f.push(i);
    }
    assert_eq!(f.write - f.read, FIFO_SIZE);
    f.push(100);
    assert_eq!(f.storage[0], 100);
    assert_eq!(f.pop(), Some(100));
}
