use htfs::file::{Error, File};

/// Deterministic pseudo-random generator for fixtures and offsets.
fn next_rand(state: &mut u64) -> u64 {
    *state = state
        .wrapping_mul(6364136223846793005)
        .wrapping_add(1442695040888963407);
    *state >> 16
}

fn fixture(seed: u64, len: usize) -> Vec<u8> {
    let mut state = seed;
    let mut v = Vec::with_capacity(len);
    for _ in 0..len {
        v.push((next_rand(&mut state) >> 8) as u8);
    }
    v
}

/// Drives one modelled read: takes the scratch buffer, plays the worker by
/// filling it from the source at `offset`, and completes the read.
fn read_at(f: &mut File, data: &[u8], offset: usize, len: usize) -> Vec<u8> {
    let mut scratch = f.begin_read(len).unwrap();
    assert_eq!(scratch.len(), len);
    for i in 0..len {
        scratch[i] = data[offset + i];
    }
    let mut out = vec![0u8; len];
    f.complete_read(scratch, len, &mut out);
    out
}

#[test]
fn file_len_is_fixed() {
    let f = File::new(16384);
    assert_eq!(f.len(), 16384);
    let empty = File::new(0);
    assert_eq!(empty.len(), 0);
}

#[test]
fn scenario_random_reads_match_fixture() {
    let data = fixture(0xF00D, 16384);
    let mut f = File::new(16384);
    let mut state: u64 = 0xFACE;
    for _ in 0..200 {
        let offset = (next_rand(&mut state) % (16384 - 1024)) as usize;
        let len = (next_rand(&mut state) % 1024) as usize;
        let out = read_at(&mut f, &data, offset, len);
        assert_eq!(&out[..], &data[offset..offset + len]);
    }
}

#[test]
fn short_read_leaves_tail_unchanged() {
    let mut f = File::new(10);
    let mut scratch = f.begin_read(8).unwrap();
    for i in 0..8 {
        scratch[i] = 100 + i as u8;
    }
    // The worker read only 3 bytes (end of resource): only those reach the
    // caller's buffer.
    let mut out = vec![9u8; 8];
    f.complete_read(scratch, 3, &mut out);
    assert_eq!(&out[..], &[100, 101, 102, 9, 9, 9, 9, 9]);
}

#[test]
fn dead_file_is_sticky() {
    let mut f = File::new(16384);
    // A cancelled read takes the scratch buffer and never returns it.
    let scratch = f.begin_read(64).unwrap();
    drop(scratch);
    for _ in 0..5 {
        let r = f.begin_read(16);
        assert_eq!(r.unwrap_err(), Error::DeadFile);
    }
    // The length is still served; only reads are dead.
    assert_eq!(f.len(), 16384);
}

#[test]
fn failed_read_returns_buffer_and_stays_usable() {
    let data = fixture(0xBEEF, 256);
    let mut f = File::new(256);
    // The worker reported an I/O error: nothing is copied, but the scratch
    // buffer goes back and the next read works.
    let scratch = f.begin_read(32).unwrap();
    f.return_scratch(scratch);
    let out = read_at(&mut f, &data, 10, 20);
    assert_eq!(&out[..], &data[10..30]);
}

#[test]
fn zero_length_read_succeeds() {
    let data = fixture(0xABCD, 64);
    let mut f = File::new(64);
    let out = read_at(&mut f, &data, 5, 0);
    assert_eq!(out.len(), 0);
}
