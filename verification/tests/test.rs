use std::time;

use jack::time::get_time;

#[test]
fn time_can_get_time() {
    get_time();
}

#[test]
fn time_is_monotonically_increasing() {
    let initial_t = get_time();
    let waiting_since = time::Instant::now();
    while waiting_since.elapsed() < time::Duration::from_millis(100) {
        std::hint::spin_loop();
    }
    let later_t = get_time();
    assert!(initial_t < later_t);
}
