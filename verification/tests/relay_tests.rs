use simple_tor::relay::forward_data;
use simple_tor::relay::read_chunk;
use simple_tor::relay::write_chunk;
use simple_tor::relay::RELAY_BUFFER_SIZE;

#[test]
fn test_forward_data() {
    let test_data = b"Hello, World!".to_vec();
    let forwarded = forward_data(&test_data);
    assert_eq!(forwarded, test_data);
}

fn patterned(n: usize) -> Vec<u8> {
    let mut data = Vec::with_capacity(n);
    for i in 0..n {
        data.push((i % 251) as u8);
    }
    data
}

#[test]
fn test_forward_data_empty() {
    let data = patterned(0);
    assert_eq!(forward_data(&data), data);
}

#[test]
fn test_forward_data_one_byte() {
    let data = patterned(1);
    assert_eq!(forward_data(&data), data);
}

#[test]
fn test_forward_data_around_buffer_size() {
    // One byte short of a chunk, exactly one chunk, one byte over.
    assert_eq!(RELAY_BUFFER_SIZE, 4096);
    for n in [4095, 4096, 4097] {
        let data = patterned(n);
        assert_eq!(forward_data(&data), data);
    }
}

#[test]
fn test_forward_data_large() {
    let data = patterned(1_000_000);
    assert_eq!(forward_data(&data), data);
}

#[test]
fn test_read_chunk_is_bounded_and_exact() {
    let data = patterned(5000);
    let mut buffer = Vec::new();

    let n = read_chunk(&data, 0, &mut buffer);
    assert_eq!(n, RELAY_BUFFER_SIZE);
    assert_eq!(buffer, data[..4096].to_vec());

    let n = read_chunk(&data, 4096, &mut buffer);
    assert_eq!(n, 904);
    assert_eq!(buffer, data[4096..].to_vec());

    let n = read_chunk(&data, 5000, &mut buffer);
    assert_eq!(n, 0);
    assert!(buffer.is_empty());
}

#[test]
fn test_write_chunk_appends_exactly_n_bytes() {
    let mut out = vec![9, 9];
    let buffer = vec![1, 2, 3, 4, 5];
    write_chunk(&mut out, &buffer, 3);
    assert_eq!(out, vec![9, 9, 1, 2, 3]);
}
