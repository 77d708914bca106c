use len_experiment::InputBufferU8;
use len_experiment::InputBufferU8Hint;
use len_experiment::InputBufferUsize;
use len_experiment::InputBufferUsizeHint;

#[test]
fn print_sizes() {
    println!(
        "InputBufferU8:        size={}, align={}",
        std::mem::size_of::<InputBufferU8>(),
        std::mem::align_of::<InputBufferU8>()
    );
    println!(
        "InputBufferUsize:     size={}, align={}",
        std::mem::size_of::<InputBufferUsize>(),
        std::mem::align_of::<InputBufferUsize>()
    );
    println!(
        "InputBufferU8Hint:    size={}, align={}",
        std::mem::size_of::<InputBufferU8Hint>(),
        std::mem::align_of::<InputBufferU8Hint>()
    );
    println!(
        "InputBufferUsizeHint: size={}, align={}",
        std::mem::size_of::<InputBufferUsizeHint>(),
        std::mem::align_of::<InputBufferUsizeHint>()
    );
}

#[test]
fn test_basic_operations() {
    let mut buf = InputBufferU8::new();
    assert_eq!(buf.len(), 0);
    assert!(buf.push('a').is_ok());
    assert_eq!(buf.len(), 1);
    assert_eq!(buf.get(0), Some(&'a'));
    assert_eq!(buf.pop(), Some('a'));
    assert_eq!(buf.len(), 0);
}

#[test]
fn push_three_letters_then_read() {
    let mut buf = InputBufferU8::new();
    assert_eq!(buf.push('A'), Ok(()));
    assert_eq!(buf.push('B'), Ok(()));
    assert_eq!(buf.push('C'), Ok(()));
    assert_eq!(buf.len(), 3);
    assert_eq!(buf.get(0), Some(&'A'));
    assert_eq!(buf.get(2), Some(&'C'));
    assert_eq!(buf.get(3), None);
}

#[test]
fn fourteenth_push_fails_with_full() {
    let letters: [char; 13] = [
        'A', 'B', 'C', 'D', 'E', 'F', 'G', 'H', 'I', 'J', 'K', 'L', 'M',
    ];
    let mut buf = InputBufferU8::new();
    for i in 0usize..13usize {
        assert_eq!(buf.push(letters[i]), Ok(()));
    }
    assert_eq!(buf.push('N'), Err(()));
    assert_eq!(buf.len(), 13);
    assert_eq!(buf.get(12), Some(&'M'));
}

#[test]
fn pop_on_fresh_buffer_yields_none() {
    let mut buf = InputBufferU8::new();
    assert_eq!(buf.len(), 0);
    assert_eq!(buf.pop(), None);
    assert_eq!(buf.len(), 0);
}

#[test]
fn pop_undoes_push() {
    let mut buf = InputBufferUsize::new();
    assert_eq!(buf.push('x'), Ok(()));
    assert_eq!(buf.push('y'), Ok(()));
    let before: usize = buf.len();
    assert_eq!(buf.push('z'), Ok(()));
    assert_eq!(buf.pop(), Some('z'));
    assert_eq!(buf.len(), before);
    assert_eq!(buf.get(0), Some(&'x'));
    assert_eq!(buf.get(1), Some(&'y'));
}

#[test]
fn read_matches_insertion_order() {
    let letters: [char; 13] = [
        'A', 'B', 'C', 'D', 'E', 'F', 'G', 'H', 'I', 'J', 'K', 'L', 'M',
    ];
    let mut buf = InputBufferUsizeHint::new();
    for i in 0usize..7usize {
        assert_eq!(buf.push(letters[i]), Ok(()));
    }
    for i in 0usize..7usize {
        assert_eq!(buf.get(i), Some(&letters[i]));
    }
    for i in 7usize..20usize {
        assert_eq!(buf.get(i), None);
    }
}

#[test]
fn pop_returns_in_reverse_insertion_order() {
    let mut buf = InputBufferU8Hint::new();
    assert_eq!(buf.push('p'), Ok(()));
    assert_eq!(buf.push('q'), Ok(()));
    assert_eq!(buf.push('r'), Ok(()));
    assert_eq!(buf.pop(), Some('r'));
    assert_eq!(buf.pop(), Some('q'));
    assert_eq!(buf.pop(), Some('p'));
    assert_eq!(buf.pop(), None);
}

#[test]
fn variants_agree_on_fill_then_drain() {
    let mut a = InputBufferU8::new();
    let mut b = InputBufferUsize::new();
    let mut c = InputBufferU8Hint::new();
    let mut d = InputBufferUsizeHint::new();
    for i in 0u32..14u32 {
        let ch: char = char::from_u32(65 + i).unwrap();
        let ra = a.push(ch);
        assert_eq!(ra, b.push(ch));
        assert_eq!(ra, c.push(ch));
        assert_eq!(ra, d.push(ch));
        assert_eq!(a.len(), b.len());
        assert_eq!(a.len(), c.len());
        assert_eq!(a.len(), d.len());
    }
    for i in 0usize..1000usize {
        let idx: usize = (i * 7) % 13;
        let va = a.get(idx);
        assert_eq!(va, b.get(idx));
        assert_eq!(va, c.get(idx));
        assert_eq!(va, d.get(idx));
    }
    for _ in 0u32..14u32 {
        let va = a.pop();
        assert_eq!(va, b.pop());
        assert_eq!(va, c.pop());
        assert_eq!(va, d.pop());
        assert_eq!(a.len(), b.len());
        assert_eq!(a.len(), c.len());
        assert_eq!(a.len(), d.len());
    }
}

#[test]
fn variants_agree_on_mixed_sequence() {
    let mut a = InputBufferU8::new();
    let mut b = InputBufferUsize::new();
    let mut c = InputBufferU8Hint::new();
    let mut d = InputBufferUsizeHint::new();
    let ops: [(u8, char, usize); 12] = [
        (0, 'k', 0),
        (0, 'l', 0),
        (2, ' ', 1),
        (1, ' ', 0),
        (0, 'm', 0),
        (2, ' ', 0),
        (2, ' ', 5),
        (1, ' ', 0),
        (1, ' ', 0),
        (1, ' ', 0),
        (0, 'n', 0),
        (2, ' ', 0),
    ];
    for &(kind, ch, idx) in ops.iter() {
        match kind {
            0 => {
                let ra = a.push(ch);
                assert_eq!(ra, b.push(ch));
                assert_eq!(ra, c.push(ch));
                assert_eq!(ra, d.push(ch));
            }
            1 => {
                let va = a.pop();
                assert_eq!(va, b.pop());
                assert_eq!(va, c.pop());
                assert_eq!(va, d.pop());
            }
            _ => {
                let va = a.get(idx);
                assert_eq!(va, b.get(idx));
                assert_eq!(va, c.get(idx));
                assert_eq!(va, d.get(idx));
            }
        }
        assert_eq!(a.len(), b.len());
        assert_eq!(a.len(), c.len());
        assert_eq!(a.len(), d.len());
    }
}

#[test]
fn default_is_empty() {
    let a: InputBufferU8 = Default::default();
    let b: InputBufferUsize = Default::default();
    let c: InputBufferU8Hint = Default::default();
    let d: InputBufferUsizeHint = Default::default();
    assert_eq!(a.len(), 0);
    assert_eq!(b.len(), 0);
    assert_eq!(c.len(), 0);
    assert_eq!(d.len(), 0);
}

#[test]
fn full_buffer_unchanged_by_failed_push() {
    let mut buf = InputBufferUsize::new();
    for i in 0u32..13u32 {
        let ch: char = char::from_u32(65 + i).unwrap();
        assert_eq!(buf.push(ch), Ok(()));
    }
    assert_eq!(buf.push('Z'), Err(()));
    assert_eq!(buf.len(), 13);
    for i in 0u32..13u32 {
        let ch: char = char::from_u32(65 + i).unwrap();
        assert_eq!(buf.get(i as usize), Some(&ch));
    }
}
