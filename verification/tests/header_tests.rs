use infinitree::chunks::ChunkPointer;
use infinitree::crypto::{CryptoError, RawKey};
use infinitree::header::{
    mode_from_byte, parse_payload, seal_header_with_key, Mode, HEADER_SIZE,
};
use infinitree::id::ObjectId;
use infinitree::laws::{chunk_seal_read_round_trip, header_seal_open_round_trip};
use infinitree::crypto::ChunkKey;
use infinitree::keys::{
    keysource_for_mode, open_root_with_response, yubikey_header_key, CleartextHeader, KeySource,
    Symmetric,
};

fn default_ptr() -> ChunkPointer {
    ChunkPointer {
        object_id: ObjectId::default(),
        offs: 0,
        size: 0,
        hash: vec![0u8; 32],
        tag: vec![0u8; 16],
    }
}

#[test]
fn pointer_wire_round_trip() {
    let id_bytes: Vec<u8> = (0u8..32u8).collect();
    let hash: Vec<u8> = (100u8..132u8).collect();
    let tag: Vec<u8> = vec![9u8; 16];
    let p = ChunkPointer {
        object_id: ObjectId::from_bytes(id_bytes.clone()),
        offs: 0x01020304,
        size: 0xAABBCCDD,
        hash: hash.clone(),
        tag: tag.clone(),
    };
    let bytes = p.serialize();
    assert_eq!(bytes.len(), 88);
    let q = ChunkPointer::parse(&bytes);
    assert_eq!(q.offs, 0x01020304);
    assert_eq!(q.size, 0xAABBCCDD);
    assert_eq!(q.object_id.as_bytes(), &id_bytes);
    assert_eq!(q.hash, hash);
    assert_eq!(q.tag, tag);
}

#[test]
fn credentials_seal_open_round_trip() {
    let ks = Symmetric::with_credentials(b"test", b"test").unwrap();
    let ck1 = ks.expose_convergence_key().unwrap();
    let chunk1 = ks.chunk_key().unwrap();
    let index1 = ks.index_key().unwrap();
    let header = CleartextHeader { root_ptr: default_ptr(), key: ks };
    let sealed = header.key.seal_root(&header).unwrap();
    assert_eq!(sealed.len(), HEADER_SIZE);

    let fresh = Symmetric::with_credentials(b"test", b"test").unwrap();
    let opened = fresh.open_root(&sealed).unwrap();
    assert_eq!(opened.root_ptr.offs, 0);
    assert_eq!(opened.root_ptr.size, 0);
    assert_eq!(opened.root_ptr.object_id.as_bytes(), &vec![0u8; 32]);
    assert_eq!(opened.root_ptr.hash, vec![0u8; 32]);
    assert_eq!(opened.root_ptr.tag, vec![0u8; 16]);
    let ck2 = opened.key.expose_convergence_key().unwrap();
    assert_eq!(ck1.expose_secret(), ck2.expose_secret());
    let chunk2 = opened.key.chunk_key().unwrap();
    let index2 = opened.key.index_key().unwrap();
    assert_eq!(chunk1.expose_secret(), chunk2.expose_secret());
    assert_eq!(index1.expose_secret(), index2.expose_secret());
}

#[test]
fn wrong_password_is_aead_failure() {
    let ks = Symmetric::with_credentials(b"test", b"test").unwrap();
    let header = CleartextHeader { root_ptr: default_ptr(), key: ks };
    let sealed = header.key.seal_root(&header).unwrap();

    let wrong = Symmetric::with_credentials(b"test", b"wrong").unwrap();
    match wrong.open_root(&sealed) {
        Err(CryptoError::AeadFailed) => {},
        other => panic!("expected AeadFailed, got {:?}", other.is_ok()),
    }
}

#[test]
fn distinct_seals_open_to_same_cleartext() {
    let ks = Symmetric::with_credentials(b"test", b"test").unwrap();
    let header = CleartextHeader { root_ptr: default_ptr(), key: ks };
    let sealed1 = header.key.seal_root(&header).unwrap();
    let sealed2 = header.key.seal_root(&header).unwrap();
    assert_ne!(sealed1, sealed2);

    let opened1 = header.key.open_root(&sealed1).unwrap();
    let opened2 = header.key.open_root(&sealed2).unwrap();
    assert_eq!(opened1.root_ptr.offs, opened2.root_ptr.offs);
    assert_eq!(
        opened1.key.expose_convergence_key().unwrap().expose_secret(),
        opened2.key.expose_convergence_key().unwrap().expose_secret()
    );
}

#[test]
fn mode_byte_dispatch() {
    assert!(matches!(mode_from_byte(0), Ok(Mode::Symmetric)));
    assert!(matches!(mode_from_byte(1), Ok(Mode::Yubikey)));
    assert!(matches!(mode_from_byte(2), Err(CryptoError::InvalidHeader)));
    assert!(matches!(mode_from_byte(255), Err(CryptoError::InvalidHeader)));
}

#[test]
fn open_constructs_variant_for_mode() {
    let master = RawKey::new(vec![1u8; 32]);
    let ck = RawKey::new(vec![2u8; 32]);
    let nonce: Vec<u8> = vec![3u8; 12];
    let chall: Vec<u8> = vec![4u8; 64];

    let sealed_sym = seal_header_with_key(
        master.expose_secret(),
        &default_ptr(),
        Mode::Symmetric,
        &ck,
        &nonce,
        &chall,
    )
    .unwrap();
    let sealed_yk = seal_header_with_key(
        master.expose_secret(),
        &default_ptr(),
        Mode::Yubikey,
        &ck,
        &nonce,
        &chall,
    )
    .unwrap();

    let opener = keysource_for_mode(
        Mode::Symmetric,
        RawKey::new(vec![1u8; 32]),
        RawKey::new(vec![9u8; 32]),
    );
    let opened_sym = opener.open_root(&sealed_sym).unwrap();
    assert!(matches!(opened_sym.key, KeySource::Symmetric(_)));
    let opened_yk = opener.open_root(&sealed_yk).unwrap();
    assert!(matches!(opened_yk.key, KeySource::Yubikey(_)));
}

#[test]
fn unknown_mode_byte_is_invalid_header() {
    let mut payload = default_ptr().serialize();
    payload.push(7u8);
    payload.extend_from_slice(&[5u8; 32]);
    while payload.len() < 420 {
        payload.push(0u8);
    }
    assert!(matches!(parse_payload(&payload), Err(CryptoError::InvalidHeader)));
}

#[test]
fn simulated_device_response_round_trip() {
    let master = RawKey::new(vec![1u8; 32]);
    let response: Vec<u8> = vec![7u8; 20];
    let key = yubikey_header_key(&master, &response);
    let ck = RawKey::new(vec![2u8; 32]);
    let sealed = seal_header_with_key(
        &key,
        &default_ptr(),
        Mode::Symmetric,
        &ck,
        &vec![3u8; 12],
        &vec![4u8; 64],
    )
    .unwrap();

    let opened = open_root_with_response(&master, &sealed, &response).unwrap();
    assert!(matches!(opened.key, KeySource::Yubikey(_)));
    assert_eq!(
        opened.key.expose_convergence_key().unwrap().expose_secret(),
        ck.expose_secret()
    );

    let other_device: Vec<u8> = vec![8u8; 20];
    assert!(matches!(
        open_root_with_response(&master, &sealed, &other_device),
        Err(CryptoError::AeadFailed)
    ));
}

#[test]
fn round_trip_laws_run_on_concrete_values() {
    let key: Vec<u8> = vec![11u8; 32];
    let ck = RawKey::new(vec![12u8; 32]);
    let ptr = ChunkPointer {
        object_id: ObjectId::from_bytes(vec![13u8; 32]),
        offs: 77,
        size: 1234,
        hash: vec![14u8; 32],
        tag: vec![15u8; 16],
    };
    assert!(header_seal_open_round_trip(
        &key,
        &ptr,
        &ck,
        &vec![3u8; 12],
        &vec![4u8; 64]
    ));

    let ckey = ChunkKey::new(RawKey::new(vec![5u8; 32]));
    let id = ObjectId::from_bytes(vec![6u8; 32]);
    let data: Vec<u8> = (0u8..=255u8).collect();
    let mut target: Vec<u8> = vec![0u8; 256];
    assert!(chunk_seal_read_round_trip(
        &ckey,
        &id,
        &vec![7u8; 32],
        &data,
        &mut target
    ));
    assert_eq!(target, data);
}

#[test]
fn tampered_header_fails() {
    let ks = Symmetric::with_credentials(b"test", b"test").unwrap();
    let header = CleartextHeader { root_ptr: default_ptr(), key: ks };
    let mut sealed = header.key.seal_root(&header).unwrap();
    sealed[0] ^= 1;
    assert!(matches!(
        header.key.open_root(&sealed),
        Err(CryptoError::AeadFailed)
    ));
}
