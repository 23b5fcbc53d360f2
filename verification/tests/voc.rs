use dune::voc::parse;

fn header() -> Vec<u8> {
    let mut d = b"Creative Voice File".to_vec();
    d.push(0x1a);
    while d.len() < 0x1a {
        d.push(0);
    }
    d
}

fn block(d: &mut Vec<u8>, kind: u8, payload: &[u8]) {
    d.push(kind);
    let n = payload.len();
    d.push((n & 0xff) as u8);
    d.push(((n >> 8) & 0xff) as u8);
    d.push(((n >> 16) & 0xff) as u8);
    d.extend_from_slice(payload);
}

#[test]
fn voc_too_short_is_rejected() {
    assert!(parse(b"Creative Voice File").is_none());
    assert!(parse(&[]).is_none());
}

#[test]
fn voc_wrong_signature_is_rejected() {
    let mut d = header();
    d[0] = b'c';
    block(&mut d, 1, &[0x9c, 0, 1, 2, 3]);
    assert!(parse(&d).is_none());
}

#[test]
fn voc_reads_rate_pcm_and_lipsync() {
    let mut d = header();
    block(&mut d, 5, &[0, 0, 1, 2, 3, 0xff, 9]);
    block(&mut d, 1, &[0x9c, 0, 10, 20, 30]);
    d.push(0);
    let v = parse(&d).expect("a data block");
    // 1e6 / (256 - 0x9c) = 1e6 / 100
    assert_eq!(v.rate, 10_000);
    assert_eq!(v.pcm, vec![10, 20, 30]);
    assert_eq!(v.lipsync, vec![1, 2, 3]);
    assert!(!v.looping);
}

#[test]
fn voc_rate_extremes() {
    let mut d = header();
    block(&mut d, 1, &[0x00, 0, 7]);
    assert_eq!(parse(&d).unwrap().rate, 1_000_000 / 256);
    let mut d = header();
    block(&mut d, 1, &[0xff, 0, 7]);
    assert_eq!(parse(&d).unwrap().rate, 1_000_000);
}

#[test]
fn voc_sound_effect_has_no_lipsync() {
    let mut d = header();
    block(&mut d, 1, &[0xa6, 0, 1, 2, 3, 4]);
    let v = parse(&d).unwrap();
    assert_eq!(v.rate, 1_000_000 / 90);
    assert!(v.lipsync.is_empty());
    assert_eq!(v.pcm.len(), 4);
}

#[test]
fn voc_repeat_blocks_mark_looping() {
    let mut d = header();
    block(&mut d, 6, &[0xff, 0xff]);
    block(&mut d, 1, &[0x9c, 0, 1]);
    block(&mut d, 7, &[]);
    assert!(parse(&d).unwrap().looping);
}

#[test]
fn voc_without_audio_is_none() {
    let mut d = header();
    block(&mut d, 5, &[0, 0, 1, 2, 0xff]);
    d.push(0);
    assert!(parse(&d).is_none());
    // a data block too short to carry samples does not count
    let mut d = header();
    block(&mut d, 1, &[0x9c, 0]);
    assert!(parse(&d).is_none());
}

#[test]
fn voc_terminator_stops_the_walk() {
    let mut d = header();
    block(&mut d, 1, &[0x9c, 0, 5, 6]);
    d.push(0);
    block(&mut d, 1, &[0x00, 0, 9]);
    let v = parse(&d).unwrap();
    assert_eq!(v.pcm, vec![5, 6]);
    assert_eq!(v.rate, 10_000);
}

#[test]
fn voc_later_data_block_wins_and_truncated_block_is_cut() {
    let mut d = header();
    block(&mut d, 1, &[0x9c, 0, 5, 6]);
    // a block whose size runs past the end keeps what is there
    d.extend_from_slice(&[1, 0x10, 0, 0, 0x00, 0, 8, 9]);
    let v = parse(&d).unwrap();
    assert_eq!(v.pcm, vec![8, 9]);
    assert_eq!(v.rate, 1_000_000 / 256);
}

#[test]
fn voc_lipsync_never_holds_the_terminator() {
    let mut d = header();
    block(&mut d, 5, &[0, 0, 0xfe, 0x10, 0xff, 0xff, 3]);
    block(&mut d, 1, &[0x10, 0, 1]);
    let v = parse(&d).unwrap();
    assert!(v.lipsync.iter().all(|&b| b != 0xff));
    assert_eq!(v.lipsync, vec![0xfe, 0x10]);
    assert!(v.rate >= 3906 && v.rate <= 1_000_000);
}
