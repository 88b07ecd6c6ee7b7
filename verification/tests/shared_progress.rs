use condor::shared_progress::SharedProgress;

#[test]
fn new_progress_has_nothing_to_report() {
    let mut p = SharedProgress::new(5_u32);
    assert_eq!(p.read_if_dirty(), None);
    assert_eq!(p.read(), 5);
}

#[test]
fn a_change_is_reported_once() {
    let mut p = SharedProgress::new(vec![1_u64]);
    p.apply(|s: &Vec<u64>| {
        let mut next = s.clone();
        next.push(2);
        (next, true)
    });
    assert_eq!(p.read_if_dirty(), Some(vec![1, 2]));
    assert_eq!(p.read_if_dirty(), None);
    assert_eq!(p.read(), vec![1, 2]);
}

#[test]
fn a_change_not_worth_drawing_is_kept_but_not_reported() {
    let mut p = SharedProgress::new(0_i32);
    p.apply(|s: &i32| (*s + 7, false));
    assert_eq!(p.read_if_dirty(), None);
    assert_eq!(p.read(), 7);
    p.apply(|s: &i32| (*s + 1, true));
    p.apply(|s: &i32| (*s + 1, false));
    assert_eq!(p.read_if_dirty(), Some(9));
}

#[test]
fn snapshot_only_after_a_change_since_the_last_one() {
    let mut p = SharedProgress::new(0_u8);
    p.apply(|s: &u8| (*s + 1, false));
    p.apply(|s: &u8| (*s + 1, true));
    p.apply(|s: &u8| (*s + 1, false));
    assert_eq!(p.read_if_dirty(), Some(3));
    p.apply(|s: &u8| (*s + 1, false));
    assert_eq!(p.read_if_dirty(), None);
    assert_eq!(p.read(), 4);
}

#[test]
fn reading_leaves_the_flag_set() {
    let mut p = SharedProgress::new(10_u32);
    p.apply(|s: &u32| (*s * 2, true));
    assert_eq!(p.read(), 20);
    assert_eq!(p.read(), 20);
    assert_eq!(p.read_if_dirty(), Some(20));
    assert_eq!(p.read_if_dirty(), None);
}
