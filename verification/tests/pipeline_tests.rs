use infinitree::backend::{Backend, MemoryBackend, SharedBackend};
use infinitree::balancer::RoundRobinBalancer;
use infinitree::codec::seal_chunk;
use infinitree::crypto::{ChunkKey, RawKey};
use infinitree::id::ObjectId;
use infinitree::object::ObjectError;
use infinitree::reader::{AEADReader, Reader};
use infinitree::writer::{AEADWriter, Writer};
use infinitree::BLOCK_SIZE;

fn test_chunk_key() -> ChunkKey {
    ChunkKey::new(RawKey::new(vec![5u8; 32]))
}

#[test]
fn chunk_round_trip() {
    let backend = SharedBackend::new();
    let mut w = AEADWriter::new(backend.clone(), test_chunk_key());
    let data: Vec<u8> = (0u8..=255u8).cycle().take(4096).collect();
    let hash: Vec<u8> = vec![1u8; 32];
    let p = w.write_chunk(&hash, &data).unwrap();
    assert_eq!(p.size, 4096);
    assert_eq!(p.hash, hash);
    w.flush().unwrap();

    let mut r = AEADReader::new(backend.clone(), test_chunk_key());
    let mut target: Vec<u8> = vec![0u8; 8192];
    let n = r.read_chunk(&p, &mut target).unwrap();
    assert_eq!(n, 4096);
    assert_eq!(&target[..n], &data[..]);
}

#[test]
fn empty_chunk_round_trip() {
    let backend = SharedBackend::new();
    let mut w = AEADWriter::new(backend.clone(), test_chunk_key());
    let hash: Vec<u8> = vec![2u8; 32];
    let p = w.write_chunk(&hash, &[]).unwrap();
    assert_eq!(p.size, 0);
    w.flush().unwrap();

    let mut r = AEADReader::new(backend.clone(), test_chunk_key());
    let mut target: Vec<u8> = vec![9u8; 4];
    let n = r.read_chunk(&p, &mut target).unwrap();
    assert_eq!(n, 0);
    assert_eq!(target, vec![9u8; 4]);
}

#[test]
fn balancer_thousand_chunks() {
    let backend = SharedBackend::new();
    let w = AEADWriter::new(backend.clone(), test_chunk_key());
    let mut bal = RoundRobinBalancer::new(w, 4).unwrap();

    let mut entries: Vec<(infinitree::chunks::ChunkPointer, Vec<u8>)> = Vec::new();
    for i in 0..1000usize {
        let data: Vec<u8> = vec![(i % 251) as u8; 4096];
        let mut hash: Vec<u8> = vec![0u8; 32];
        hash[0] = (i % 256) as u8;
        hash[1] = (i / 256) as u8;
        let p = bal.write_chunk(&hash, &data).unwrap();
        entries.push((p, data));
    }
    bal.flush().unwrap();

    let mut r = AEADReader::new(backend.clone(), test_chunk_key());
    let mut distinct: Vec<Vec<u8>> = Vec::new();
    for (p, data) in &entries {
        let mut target: Vec<u8> = vec![0u8; 4096];
        let n = r.read_chunk(p, &mut target).unwrap();
        assert_eq!(&target[..n], &data[..]);
        let idb = p.object_id.as_bytes().clone();
        if !distinct.contains(&idb) {
            distinct.push(idb);
        }
    }
    assert!(distinct.len() >= 2);
}

#[test]
fn balancer_stays_usable_after_flush() {
    let backend = SharedBackend::new();
    let w = AEADWriter::new(backend.clone(), test_chunk_key());
    let mut bal = RoundRobinBalancer::new(w, 3).unwrap();
    let hash: Vec<u8> = vec![3u8; 32];
    let mut ptrs: Vec<infinitree::chunks::ChunkPointer> = Vec::new();
    for _ in 0..6usize {
        ptrs.push(bal.write_chunk(&hash, &[1u8, 2, 3]).unwrap());
    }
    bal.flush().unwrap();
    for _ in 0..6usize {
        ptrs.push(bal.write_chunk(&hash, &[4u8, 5]).unwrap());
    }
    bal.flush().unwrap();

    let mut r = AEADReader::new(backend.clone(), test_chunk_key());
    for p in &ptrs {
        let mut target: Vec<u8> = vec![0u8; 16];
        r.read_chunk(p, &mut target).unwrap();
    }
}

#[test]
fn oversized_chunk_is_refused() {
    let backend = SharedBackend::new();
    let mut w = AEADWriter::new(backend, test_chunk_key());
    let hash: Vec<u8> = vec![1u8; 32];
    let data: Vec<u8> = vec![0u8; BLOCK_SIZE + 1];
    match w.write_chunk(&hash, &data) {
        Err(ObjectError::ChunkTooLarge { max_size, size }) => {
            assert_eq!(max_size, BLOCK_SIZE);
            assert_eq!(size, BLOCK_SIZE + 1);
        },
        _ => panic!("expected ChunkTooLarge"),
    }
}

#[test]
fn tampered_object_fails() {
    let mut backend = SharedBackend::new();
    let mut w = AEADWriter::new(backend.clone(), test_chunk_key());
    let hash: Vec<u8> = vec![1u8; 32];
    let data: Vec<u8> = vec![42u8; 128];
    let p = w.write_chunk(&hash, &data).unwrap();
    w.flush().unwrap();

    let mut bytes = backend.read_object(&p.object_id).unwrap();
    bytes[0] ^= 1;
    backend.write_object(&p.object_id, &bytes).unwrap();

    let mut r = AEADReader::new(backend.clone(), test_chunk_key());
    let mut target: Vec<u8> = vec![0u8; 256];
    assert!(matches!(
        r.read_chunk(&p, &mut target),
        Err(ObjectError::AeadFailed)
    ));
}

#[test]
fn tampered_tag_fails() {
    let backend = SharedBackend::new();
    let mut w = AEADWriter::new(backend.clone(), test_chunk_key());
    let hash: Vec<u8> = vec![1u8; 32];
    let mut p = w.write_chunk(&hash, &[7u8; 64]).unwrap();
    w.flush().unwrap();

    p.tag[0] ^= 0x80;
    let mut r = AEADReader::new(backend.clone(), test_chunk_key());
    let mut target: Vec<u8> = vec![0u8; 64];
    assert!(matches!(
        r.read_chunk(&p, &mut target),
        Err(ObjectError::AeadFailed)
    ));
}

#[test]
fn buffer_too_small_reports_needed_size() {
    let backend = SharedBackend::new();
    let mut w = AEADWriter::new(backend.clone(), test_chunk_key());
    let hash: Vec<u8> = vec![1u8; 32];
    let p = w.write_chunk(&hash, &[7u8; 64]).unwrap();
    w.flush().unwrap();

    let mut r = AEADReader::new(backend.clone(), test_chunk_key());
    let mut target: Vec<u8> = vec![0u8; 10];
    match r.read_chunk(&p, &mut target) {
        Err(ObjectError::BufferTooSmall { min_size }) => assert_eq!(min_size, 64),
        _ => panic!("expected BufferTooSmall"),
    }
}

#[test]
fn convergent_ciphertext() {
    let key = test_chunk_key();
    let id = ObjectId::from_bytes(vec![3u8; 32]);
    let hash: Vec<u8> = vec![1u8; 32];
    let data: Vec<u8> = vec![9u8; 100];
    let (ct1, tag1) = seal_chunk(&key, &id, 128, &hash, &data).unwrap();
    let (ct2, tag2) = seal_chunk(&key, &id, 128, &hash, &data).unwrap();
    assert_eq!(ct1, ct2);
    assert_eq!(tag1, tag2);
    assert_ne!(ct1, data);

    let (ct3, _) = seal_chunk(&key, &id, 256, &hash, &data).unwrap();
    assert_ne!(ct1, ct3);
}

#[test]
fn flush_randomizes_tail() {
    let mut backend = SharedBackend::new();
    let mut w = AEADWriter::new(backend.clone(), test_chunk_key());
    let hash: Vec<u8> = vec![1u8; 32];
    let p = w.write_chunk(&hash, &[1u8; 100]).unwrap();
    w.flush().unwrap();

    let bytes = backend.read_object(&p.object_id).unwrap();
    assert_eq!(bytes.len(), BLOCK_SIZE);
    assert!(bytes[100..].iter().any(|b| *b != 0));
}

#[test]
fn memory_backend_latest_write_wins() {
    let mut b = MemoryBackend::new();
    let id = ObjectId::from_bytes(vec![1u8; 32]);
    assert!(matches!(b.read_object(&id), Err(ObjectError::Backend)));
    b.write_object(&id, &[1u8, 2, 3]).unwrap();
    assert_eq!(b.read_object(&id).unwrap(), vec![1u8, 2, 3]);
    b.write_object(&id, &[4u8]).unwrap();
    assert_eq!(b.read_object(&id).unwrap(), vec![4u8]);

    let other = ObjectId::from_bytes(vec![2u8; 32]);
    assert!(matches!(b.read_object(&other), Err(ObjectError::Backend)));
}
