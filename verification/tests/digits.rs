use stim::digits::DigitBuffer;
use stim::time_spec::TimeSpec;

fn typed(digits: &[u8]) -> DigitBuffer {
    let mut buffer = DigitBuffer::new();
    for &digit in digits {
        buffer.push_digit(digit);
    }
    buffer
}

#[test]
fn new_buffer_is_empty() {
    assert_eq!(DigitBuffer::new().raw(), 0);
}

#[test]
fn pushed_digits_spell_a_number() {
    assert_eq!(typed(&[1, 0, 0]).raw(), 100);
    assert_eq!(typed(&[1, 2, 3, 4, 5, 6]).raw(), 123456);
    assert_eq!(typed(&[0, 0, 7]).raw(), 7);
}

#[test]
fn seventh_digit_drops_the_oldest() {
    assert_eq!(typed(&[1, 2, 3, 4, 5, 6, 7]).raw(), 234567);
    assert_eq!(typed(&[9, 9, 9, 9, 9, 9, 0]).raw(), 999990);
}

#[test]
fn pushes_give_the_value_modulo_a_million() {
    let digits = [3u8, 1, 4, 1, 5, 9, 2, 6, 5, 3];
    let mut buffer = DigitBuffer::new();
    let mut value: u64 = 0;
    for &digit in &digits {
        buffer.push_digit(digit);
        value = value * 10 + digit as u64;
        assert_eq!(buffer.raw() as u64, value % 1_000_000);
        assert!(buffer.raw() < 1_000_000);
    }
}

#[test]
fn pop_drops_the_newest_digit() {
    let mut buffer = typed(&[1, 2, 3]);
    buffer.pop_digit();
    assert_eq!(buffer.raw(), 12);
    buffer.pop_digit();
    buffer.pop_digit();
    assert_eq!(buffer.raw(), 0);
}

#[test]
fn pop_on_empty_stays_empty() {
    let mut buffer = DigitBuffer::new();
    buffer.pop_digit();
    assert_eq!(buffer.raw(), 0);
}

#[test]
fn pop_after_overflow_brings_a_zero_in() {
    let mut buffer = typed(&[1, 2, 3, 4, 5, 6, 7]);
    buffer.pop_digit();
    assert_eq!(buffer.raw(), 23456);
}

#[test]
fn pushes_and_pops_stay_below_a_million() {
    let mut buffer = DigitBuffer::new();
    for round in 0..2000u32 {
        if round % 7 == 3 {
            buffer.pop_digit();
        } else {
            buffer.push_digit((round * 7 % 10) as u8);
        }
        assert!(buffer.raw() < 1_000_000);
    }
}

#[test]
fn add_keeps_the_last_six_digits() {
    let mut buffer = typed(&[1, 0, 0]);
    buffer.add(30);
    assert_eq!(buffer.raw(), 130);
    let mut buffer = typed(&[9, 9, 9, 9, 0, 0]);
    buffer.add(100);
    assert_eq!(buffer.raw(), 0);
    let mut buffer = typed(&[5]);
    buffer.add(u32::MAX);
    assert_eq!(buffer.raw() as u64, (5 + u32::MAX as u64) % 1_000_000);
}

#[test]
fn buffer_reads_as_uncarried_time() {
    assert_eq!(
        typed(&[9, 9, 9, 9]).time_spec(),
        TimeSpec { hours: 0, minutes: 99, seconds: 99 }
    );
    assert_eq!(
        typed(&[1, 2, 3, 4, 5, 6]).time_spec(),
        TimeSpec { hours: 12, minutes: 34, seconds: 56 }
    );
}
