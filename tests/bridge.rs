use luastate::alloc_bridge::{plan, reallocate, word_count, Action, Reply};

const WORD: usize = std::mem::size_of::<usize>();

fn block(r: Reply) -> Vec<usize> {
    match r {
        Reply::Block(v) => v,
        Reply::Null => panic!("expected a live buffer, got the null sentinel"),
        Reply::Unchanged(_) => panic!("expected a live buffer, got a refused grow"),
    }
}

#[test]
fn word_count_rounds_up() {
    assert_eq!(word_count(0), 0);
    assert_eq!(word_count(1), 1);
    assert_eq!(word_count(WORD), 1);
    assert_eq!(word_count(WORD + 1), 2);
    assert_eq!(word_count(64), 64 / WORD);
    assert_eq!(word_count(usize::MAX), usize::MAX / WORD + 1);
}

#[test]
fn fresh_allocation_is_zeroed_and_covers_size() {
    let v = block(reallocate(None, 0, 13));
    assert_eq!(v.len(), word_count(13));
    assert!(v.len() * WORD >= 13);
    assert!(v.iter().all(|w| *w == 0));
}

#[test]
fn fresh_allocation_ignores_old_size() {
    let a = block(reallocate(None, 0, 40));
    let b = block(reallocate(None, 7, 40));
    let c = block(reallocate(None, 12345, 40));
    assert_eq!(a, b);
    assert_eq!(a, c);
}

#[test]
fn free_gives_null() {
    let v = block(reallocate(None, 0, 32));
    assert!(matches!(reallocate(Some(v), 32, 0), Reply::Null));
    assert!(matches!(reallocate(None, 99, 0), Reply::Null));
}

#[test]
fn shrink_keeps_prefix() {
    let v: Vec<usize> = (0..word_count(80)).map(|i| i * 3 + 1).collect();
    let s = block(reallocate(Some(v.clone()), 80, 24));
    assert_eq!(s.len(), word_count(24));
    assert_eq!(&s[..], &v[..word_count(24)]);
}

#[test]
fn shrink_to_same_words_keeps_all() {
    let v: Vec<usize> = vec![5, 6, 7];
    let s = block(reallocate(Some(v.clone()), 3 * WORD, 3 * WORD));
    assert_eq!(s, v);
}

#[test]
fn grow_keeps_prefix_and_zero_fills() {
    let v: Vec<usize> = vec![9, 8];
    let g = block(reallocate(Some(v), 2 * WORD, 5 * WORD));
    assert_eq!(g, vec![9, 8, 0, 0, 0]);
}

#[test]
fn grow_then_shrink_back_restores() {
    let v: Vec<usize> = vec![1, 2, 3, 4];
    let g = block(reallocate(Some(v.clone()), 4 * WORD, 100 * WORD));
    let b = block(reallocate(Some(g), 100 * WORD, 4 * WORD));
    assert_eq!(b, v);
}

#[test]
fn grow_within_last_word_keeps_content() {
    let v: Vec<usize> = vec![11];
    let g = block(reallocate(Some(v.clone()), 1, WORD));
    assert_eq!(g, v);
}

#[test]
fn allocate_grow_shrink_free_scenario() {
    let mut v = block(reallocate(None, 0, 64));
    assert!(v.len() * WORD >= 64);
    for (i, w) in v.iter_mut().enumerate() {
        *w = 1000 + i;
    }
    let first64 = v.clone();

    let g = block(reallocate(Some(v), 64, 256));
    assert!(g.len() * WORD >= 256);
    assert_eq!(&g[..first64.len()], &first64[..]);

    let s = block(reallocate(Some(g), 256, 16));
    assert!(s.len() * WORD >= 16);
    assert_eq!(&s[..], &first64[..word_count(16)]);

    assert!(matches!(reallocate(Some(s), 16, 0), Reply::Null));
}

#[test]
fn resize_sequence_matches_reference() {
    // reference: a plain vector resized by hand at each step
    let sizes = [24usize, 200, 8, 8, 72, 1, 300];
    let mut reference: Vec<usize> = (0..word_count(24)).map(|i| 7 * i + 2).collect();
    let mut buf = reference.clone();
    let mut old = sizes[0];
    for &n in &sizes[1..] {
        buf = block(reallocate(Some(buf), old, n));
        reference.resize(word_count(n), 0);
        assert_eq!(buf, reference);
        old = n;
    }
}

#[test]
fn plan_covers_each_case() {
    assert_eq!(plan(false, 0, 0), Action::Nothing);
    assert_eq!(plan(false, 5, 0), Action::Nothing);
    assert_eq!(plan(true, 64, 0), Action::Free);
    assert_eq!(plan(false, 0, 64), Action::Allocate(64 / WORD));
    assert_eq!(plan(false, 3, 64), Action::Allocate(64 / WORD));
    assert_eq!(plan(true, 64, 256), Action::Grow(256 / WORD));
    assert_eq!(plan(true, 256, 16), Action::Shrink(16 / WORD));
    assert_eq!(plan(true, 16, 16), Action::Shrink(16 / WORD));
    assert_eq!(plan(true, 16, 17), Action::Grow(16 / WORD + 1));
}

#[test]
fn impossible_fresh_allocation_gives_null() {
    assert!(matches!(reallocate(None, 0, usize::MAX), Reply::Null));
}

#[test]
fn impossible_grow_leaves_buffer_untouched() {
    let v: Vec<usize> = vec![4, 5];
    match reallocate(Some(v.clone()), 2 * WORD, usize::MAX) {
        Reply::Unchanged(u) => assert_eq!(u, v),
        Reply::Block(_) => panic!("a grow past the address space cannot succeed"),
        Reply::Null => panic!("a refused grow must hand the buffer back"),
    }
}
