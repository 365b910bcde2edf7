use infinitree::chunks::{le32_from, push_le32};
use infinitree::id::ObjectId;
use infinitree::object::{BlockBuffer, Object, ObjectError, ReadBuffer, SeekFrom, WriteObject};
use infinitree::BLOCK_SIZE;

#[test]
fn object_write_then_read_back() {
    let mut o: WriteObject = Object::default();
    assert_eq!(o.capacity(), BLOCK_SIZE);
    assert_eq!(o.position(), 0);
    let n = o.write(&[1u8, 2, 3, 4]).unwrap();
    assert_eq!(n, 4);
    assert_eq!(o.position(), 4);

    o.seek(SeekFrom::Start(0)).unwrap();
    let mut buf: Vec<u8> = vec![0u8; 4];
    let got = o.read(&mut buf).unwrap();
    assert_eq!(got, 4);
    assert_eq!(buf, vec![1u8, 2, 3, 4]);
    assert_eq!(o.position(), 4);
}

#[test]
fn object_write_past_capacity_fails() {
    let mut o: WriteObject = Object::default();
    o.seek(SeekFrom::End(0)).unwrap();
    assert_eq!(o.position(), BLOCK_SIZE);
    assert!(matches!(o.write(&[1u8]), Err(ObjectError::Io)));
}

#[test]
fn object_seek_semantics() {
    let mut o: WriteObject = Object::default();
    assert_eq!(o.seek(SeekFrom::Start(10)).unwrap(), 10);
    assert_eq!(o.seek(SeekFrom::Current(5)).unwrap(), 15);
    assert_eq!(o.seek(SeekFrom::Current(-15)).unwrap(), 0);
    assert_eq!(o.seek(SeekFrom::End(5)).unwrap(), (BLOCK_SIZE - 5) as u64);
    assert!(matches!(
        o.seek(SeekFrom::Start((BLOCK_SIZE + 1) as u64)),
        Err(ObjectError::Io)
    ));
    assert!(matches!(o.seek(SeekFrom::End(-1)), Err(ObjectError::Io)));
    assert!(matches!(
        o.seek(SeekFrom::Current(6)),
        Err(ObjectError::Io)
    ));
    assert_eq!(o.position(), BLOCK_SIZE - 5);
}

#[test]
fn object_clear_zeroes_and_ids_stay() {
    let id = ObjectId::from_bytes((0u8..32u8).collect());
    let mut o = Object::with_id(id, BlockBuffer::new());
    o.write(&[7u8; 16]).unwrap();
    o.clear();
    assert!(o.as_inner().iter().all(|b| *b == 0));
    assert_eq!(o.id().as_bytes(), &(0u8..32u8).collect::<Vec<u8>>());
    assert_eq!(o.position(), 16);
}

#[test]
fn object_reset_id_draws_new_identifier() {
    let mut o: WriteObject = Object::default();
    let before = o.id().as_bytes().clone();
    o.reset_id().unwrap();
    let after = o.id().as_bytes().clone();
    assert_eq!(after.len(), 32);
    assert_ne!(before, after);
}

#[test]
fn object_finalize_randomizes_tail() {
    let mut o: WriteObject = Object::default();
    o.write(&[1u8; 10]).unwrap();
    o.finalize().unwrap();
    let tail = &o.as_inner()[10..];
    assert!(tail.iter().any(|b| *b != 0));
    assert_eq!(&o.as_inner()[..10], &[1u8; 10]);
}

#[test]
fn object_write_head_and_randomize_head() {
    let mut o: WriteObject = Object::default();
    o.write_head(&[9u8; 8]);
    assert_eq!(&o.as_inner()[..8], &[9u8; 8]);
    o.randomize_head(8).unwrap();
    assert_eq!(o.as_inner().len(), BLOCK_SIZE);
}

#[test]
fn object_position_mut_moves_cursor() {
    let mut o: WriteObject = Object::default();
    *o.position_mut() = 42;
    assert_eq!(o.position(), 42);
}

#[test]
fn as_inner_mut_gives_scratch_access() {
    let mut o: WriteObject = Object::default();
    o.as_inner_mut()[0] = 9;
    assert_eq!(o.as_inner()[0], 9);
    assert_eq!(o.as_inner_mut().len(), BLOCK_SIZE);
}

#[test]
fn read_buffer_objects_read_back() {
    let mut data: Vec<u8> = vec![0u8; BLOCK_SIZE];
    data[..4].copy_from_slice(&[1u8, 2, 3, 4]);
    let rb = ReadBuffer::new(data.clone());
    let mut o = Object::with_id(ObjectId::from_bytes(vec![7u8; 32]), rb);
    assert_eq!(o.id().as_bytes(), &vec![7u8; 32]);
    let mut buf: Vec<u8> = vec![0u8; 4];
    o.read(&mut buf).unwrap();
    assert_eq!(buf, vec![1u8, 2, 3, 4]);

    let o2 = Object::new(ReadBuffer::with_inner(data));
    assert_eq!(o2.id().as_bytes(), &vec![0u8; 32]);
    assert_eq!(o2.position(), 0);
}

#[test]
fn le32_round_trips() {
    let mut out: Vec<u8> = Vec::new();
    push_le32(&mut out, 0xDEADBEEF);
    assert_eq!(out, vec![0xEFu8, 0xBE, 0xAD, 0xDE]);
    assert_eq!(le32_from(&out, 0), 0xDEADBEEF);
}
