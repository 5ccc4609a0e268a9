use rust_in_synth::delay_line::DelayLine;

#[test]
fn new_line_holds_fill_value() {
    let line = DelayLine::new(4, 0i32);
    assert_eq!(line.len(), 4);
    for d in 0..=4 {
        assert_eq!(line.read(d), 0);
    }
}

#[test]
fn reads_return_values_written_that_many_writes_ago() {
    let mut line = DelayLine::new(4, 0i32);
    line.write(10);
    assert_eq!(line.read(1), 10);
    line.write(20);
    line.write(30);
    assert_eq!(line.read(1), 30);
    assert_eq!(line.read(2), 20);
    assert_eq!(line.read(3), 10);
    assert_eq!(line.read(4), 0);
    // a delay of zero reads the oldest value, like the full length
    assert_eq!(line.read(0), 0);
    line.write(40);
    line.write(50);
    // 10 has now dropped out of a four-long line
    assert_eq!(line.read(4), 20);
    assert_eq!(line.read(0), 20);
    assert_eq!(line.read(1), 50);
}

#[test]
fn echo_comes_back_after_k_more_writes() {
    let mut line = DelayLine::new(5, -1i32);
    line.write(7);
    for k in 0..4 {
        assert_eq!(line.read(k + 1), 7);
        line.write(100 + k as i32);
    }
    assert_eq!(line.read(5), 7);
    line.write(0);
    assert_ne!(line.read(5), 7);
}

#[test]
fn clear_forgets_history() {
    let mut line = DelayLine::new(3, 0u8);
    line.write(1);
    line.write(2);
    line.clear(9);
    assert_eq!(line.read(1), 9);
    assert_eq!(line.read(3), 9);
    line.write(4);
    assert_eq!(line.read(1), 4);
    assert_eq!(line.read(2), 9);
}

#[test]
fn single_slot_line_is_a_one_sample_delay() {
    let mut line = DelayLine::new(1, 0u16);
    line.write(5);
    assert_eq!(line.read(1), 5);
    assert_eq!(line.read(0), 5);
    line.write(6);
    assert_eq!(line.read(1), 6);
}

#[test]
fn delays_longer_than_the_line_wrap_around() {
    let mut line = DelayLine::new(3, 0i32);
    line.write(1);
    line.write(2);
    line.write(3);
    assert_eq!(line.read(4), line.read(1));
    assert_eq!(line.read(4), 3);
    assert_eq!(line.read(5), 2);
    assert_eq!(line.read(6), line.read(0));
    assert_eq!(line.read(usize::MAX), line.read(usize::MAX % 3));
}
