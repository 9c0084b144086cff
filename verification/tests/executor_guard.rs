use current_thread::executor::{enter, try_enter};

#[test]
fn entering_sets_the_flag_and_exiting_clears_it() {
    let mut entered = false;
    let guard = enter(&mut entered);
    assert!(entered);
    guard.exit(&mut entered);
    assert!(!entered);
}

#[test]
fn a_second_concurrent_enter_is_refused() {
    let mut entered = false;
    let guard = match try_enter(&mut entered) {
        Some(g) => g,
        None => panic!("a fresh context must be enterable"),
    };
    assert!(entered);
    assert!(try_enter(&mut entered).is_none());
    assert!(entered);
    guard.exit(&mut entered);
    assert!(try_enter(&mut entered).is_some());
}
