use moviehash::{Error, MovieHash, CHUNK_SIZE};

const CHUNK: usize = CHUNK_SIZE as usize;

/// An independent reference computation of the fingerprint formula:
/// length plus every little-endian 64-bit word of both windows, with
/// wraparound addition.
fn reference_fingerprint(size: u64, head: &[u8], tail: &[u8]) -> u64 {
    let mut acc = size;
    for window in [head, tail] {
        for chunk in window.chunks(8) {
            let mut word = [0u8; 8];
            word.copy_from_slice(chunk);
            acc = acc.wrapping_add(u64::from_le_bytes(word));
        }
    }
    acc
}

fn patterned_window(seed: u64) -> Vec<u8> {
    let mut window = vec![0u8; CHUNK];
    for (i, byte) in window.iter_mut().enumerate() {
        *byte = ((i as u64).wrapping_mul(31).wrapping_add(seed) % 251) as u8;
    }
    window
}

#[test]
fn hex_of_zero_is_sixteen_zeros() {
    assert_eq!(MovieHash::new(0).as_hex(), "0000000000000000");
}

#[test]
fn hex_of_max_value_has_no_sign_extension() {
    assert_eq!(MovieHash::new(u64::MAX).as_hex(), "ffffffffffffffff");
}

#[test]
fn hex_pads_leading_zeros() {
    assert_eq!(MovieHash::new(0xabc).as_hex(), "0000000000000abc");
    assert_eq!(MovieHash::new(1).as_hex(), "0000000000000001");
}

#[test]
fn hex_renders_high_bit_values_lowercase() {
    assert_eq!(MovieHash::new(0x8e245d9679d31e12).as_hex(), "8e245d9679d31e12");
    assert_eq!(
        MovieHash::new(0xDEAD_BEEF_0123_4567).as_hex(),
        "deadbeef01234567"
    );
}

#[test]
fn new_keeps_the_raw_value() {
    let hash = MovieHash::new(42);
    assert_eq!(hash.0, 42);
    assert_eq!(hash, MovieHash::new(42));
}

#[test]
fn small_file_is_rejected_regardless_of_content() {
    // A 10-byte file is rejected before any window is read.
    assert_eq!(
        MovieHash::compute(10, &Vec::new(), &Vec::new()),
        Err(Error::SmallSize)
    );
    // One byte short of a window is still rejected, whatever the windows hold.
    let window = patterned_window(7);
    assert_eq!(
        MovieHash::compute(CHUNK_SIZE - 1, &window, &window),
        Err(Error::SmallSize)
    );
    assert_eq!(MovieHash::compute(0, &Vec::new(), &Vec::new()), Err(Error::SmallSize));
}

#[test]
fn boundary_sized_file_is_valid_and_counts_its_window_twice() {
    // A file of exactly one window: head and tail coincide byte for byte.
    let window = patterned_window(3);
    let result = MovieHash::compute(CHUNK_SIZE, &window, &window).unwrap();
    let expected = reference_fingerprint(CHUNK_SIZE, &window, &window);
    assert_eq!(result.0, expected);
}

#[test]
fn accumulator_matches_reference_computation() {
    let head = patterned_window(11);
    let tail = patterned_window(97);
    let size: u64 = 5_000_000;
    let result = MovieHash::compute(size, &head, &tail).unwrap();
    let expected = reference_fingerprint(size, &head, &tail);
    assert_eq!(result.0, expected);
}

#[test]
fn accumulator_wraps_around_modulo_two_to_the_sixty_four() {
    // All-ones windows force many wraparounds of the 64-bit accumulator.
    let window = vec![0xffu8; CHUNK];
    let size: u64 = u64::MAX;
    let result = MovieHash::compute(size, &window, &window).unwrap();
    let expected = reference_fingerprint(size, &window, &window);
    assert_eq!(result.0, expected);
}

#[test]
fn repeated_computation_on_unchanged_data_is_deterministic() {
    let head = patterned_window(1);
    let tail = patterned_window(2);
    let size: u64 = 123_456_789;
    let first = MovieHash::compute(size, &head, &tail).unwrap();
    let second = MovieHash::compute(size, &head, &tail).unwrap();
    assert_eq!(first, second);
    assert_eq!(first.as_hex(), second.as_hex());
}

#[test]
fn crafted_file_yields_known_fingerprint() {
    // A boundary-sized file whose single window holds one chosen word:
    // the accumulator is CHUNK_SIZE plus twice that word, landing exactly
    // on a known fingerprint.
    let target: u64 = 0x8e245d9679d31e12;
    let word = (target - CHUNK_SIZE) / 2;
    let mut window = vec![0u8; CHUNK];
    window[..8].copy_from_slice(&word.to_le_bytes());
    let result = MovieHash::compute(CHUNK_SIZE, &window, &window).unwrap();
    assert_eq!(result.as_hex(), "8e245d9679d31e12");
}
