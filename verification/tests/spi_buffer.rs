use bots_firmware::spi_buffer::{SpiBuffer, MAX_TRANSFER};

#[test]
fn small_writes_are_held() {
    let mut b = SpiBuffer::new();
    assert!(b.push(&[1, 2, 3]).is_none());
    assert!(b.push(&[4]).is_none());
    assert_eq!(b.len(), 4);
}

#[test]
fn full_buffer_hands_out_one_transfer() {
    let mut b = SpiBuffer::new();
    let first: Vec<u8> = (0..1000u32).map(|i| i as u8).collect();
    assert!(b.push(&first).is_none());
    let second: Vec<u8> = (0..700u32).map(|i| (i as u8) ^ 0x55).collect();
    let t = b.push(&second).unwrap();
    assert_eq!(t.len(), MAX_TRANSFER);
    assert_eq!(&t[..1000], &first[..]);
    assert_eq!(&t[1000..], &second[..500]);
    assert_eq!(b.len(), 1700);
    b.clear();
    assert_eq!(b.len(), 0);
}

#[test]
fn exactly_full_sends_everything() {
    let mut b = SpiBuffer::new();
    let all = vec![7u8; MAX_TRANSFER];
    let t = b.push(&all).unwrap();
    assert_eq!(t, all);
}

#[test]
fn unsent_transfer_is_offered_again() {
    let mut b = SpiBuffer::new();
    assert!(b.push(&vec![1u8; MAX_TRANSFER]).is_some());
    // the transfer failed, so nothing was cleared
    let again = b.push(&[2]).unwrap();
    assert_eq!(again, vec![1u8; MAX_TRANSFER]);
    assert_eq!(b.len(), MAX_TRANSFER + 1);
}
