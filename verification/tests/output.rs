use binaryen::{finish_output, output_buffer, MAX_CAPACITY};

#[test]
fn output_buffer_is_zeroed_and_full_size() {
    let buf = output_buffer();
    assert_eq!(buf.len(), MAX_CAPACITY);
    assert_eq!(MAX_CAPACITY, 1024 * 1024 * 2);
    assert!(buf.iter().all(|b| *b == 0));
}

#[test]
fn finish_output_keeps_the_written_prefix() {
    let buf = vec![0u8, 97, 115, 109, 1, 0, 0, 0, 9, 9];
    let out = finish_output(buf, 8).unwrap();
    assert_eq!(out, vec![0u8, 97, 115, 109, 1, 0, 0, 0]);
}

#[test]
fn finish_output_of_nothing_written_is_empty() {
    assert_eq!(finish_output(vec![5u8, 6, 7], 0), Some(Vec::new()));
}

#[test]
fn finish_output_refuses_a_full_buffer() {
    assert_eq!(finish_output(vec![1u8, 2, 3], 3), None);
    assert_eq!(finish_output(output_buffer(), MAX_CAPACITY), None);
}

#[test]
fn finish_output_refuses_a_count_past_the_buffer() {
    assert_eq!(finish_output(vec![1u8, 2, 3], 4), None);
}

#[test]
fn finish_output_just_below_capacity() {
    let out = finish_output(output_buffer(), MAX_CAPACITY - 1).unwrap();
    assert_eq!(out.len(), MAX_CAPACITY - 1);
}
