//! Sealed root headers: the 512-byte recovery anchor, the mode dispatch,
//! and the key hierarchy reachable from user credentials (with an optional
//! hardware challenge-response second factor).
use vstd::prelude::*;
use crate::chunks::{le32_val, ChunkPointer};
use crate::crypto::{aead_open, aead_seal, gcm_ct, gcm_tag, CryptoError, RawKey};
use crate::KEY_SIZE;

verus! {

/// Total size in bytes of a sealed header.
pub const HEADER_SIZE: usize = 512;

/// Bytes of AEAD payload: everything before the tag.
pub const HEADER_PAYLOAD: usize = 420;

/// Bytes of payload plus tag: everything before the nonce.
pub const HEADER_CYPHERTEXT: usize = 436;

/// Size in bytes of an AEAD nonce.
pub const NONCE_SIZE: usize = 12;

/// Size in bytes of a hardware challenge.
pub const CHALLENGE_SIZE: usize = 64;

/// Size in bytes of a hardware HMAC response.
pub const RESPONSE_SIZE: usize = 20;

/// The persisted discriminator naming which key source variant
/// reconstructs on open.
#[derive(Clone, Copy, Debug, PartialEq, Eq, Structural)]
pub enum Mode {
    Symmetric,
    Yubikey,
}

/// The byte under which a mode is persisted.
pub open spec fn mode_byte(m: Mode) -> u8 {
    match m {
        Mode::Symmetric => 0u8,
        Mode::Yubikey => 1u8,
    }
}

/// Encodes a mode as its persisted byte.
pub fn mode_to_byte(m: Mode) -> (r: u8)
    ensures
        r == mode_byte(m),
{
    match m {
        Mode::Symmetric => 0u8,
        Mode::Yubikey => 1u8,
    }
}

/// Decodes a persisted mode byte; the discriminant space is closed, and any
/// unknown byte is `InvalidHeader`.
pub fn mode_from_byte(b: u8) -> (r: Result<Mode, CryptoError>)
    ensures
        b == 0 ==> r == Ok::<Mode, CryptoError>(Mode::Symmetric),
        b == 1 ==> r == Ok::<Mode, CryptoError>(Mode::Yubikey),
        b != 0 && b != 1 ==> r == Err::<Mode, CryptoError>(CryptoError::InvalidHeader),
        r is Ok ==> mode_byte(r->Ok_0) == b,
{
    if b == 0 {
        Ok(Mode::Symmetric)
    } else if b == 1 {
        Ok(Mode::Yubikey)
    } else {
        Err(CryptoError::InvalidHeader)
    }
}

/// A sequence of `n` zero bytes.
pub open spec fn zeros(n: nat) -> Seq<u8> {
    Seq::new(n, |i: int| 0u8)
}

/// The cleartext header payload:
/// `root_ptr(88) || mode(1) || convergence_key(32) || zero pad` up to
/// `HEADER_PAYLOAD` bytes.
pub open spec fn payload_of(ptr: ChunkPointer, mode: Mode, ck: Seq<u8>) -> Seq<u8> {
    ptr.encoding() + seq![mode_byte(mode)] + ck + zeros(299nat)
}

/// Builds the cleartext payload.
pub fn encode_payload(ptr: &ChunkPointer, mode: Mode, ck: &RawKey) -> (r: Vec<u8>)
    requires
        ptr.wf(),
        ck.wf(),
    ensures
        r@ == payload_of(*ptr, mode, ck@),
        r@.len() == HEADER_PAYLOAD,
{
    let mut out = ptr.serialize();
    out.push(mode_to_byte(mode));
    out.extend_from_slice(ck.expose_secret().as_slice());
    while out.len() < HEADER_PAYLOAD
        invariant
            121 <= out@.len() <= HEADER_PAYLOAD,
            out@.subrange(0, 121) == ptr.encoding() + seq![mode_byte(mode)] + ck@,
            forall|j: int| 121 <= j < out@.len() ==> out@[j] == 0u8,
        decreases HEADER_PAYLOAD - out@.len(),
    {
        out.push(0u8);
        proof {
            assert(out@.subrange(0, 121) =~= ptr.encoding() + seq![mode_byte(mode)] + ck@);
        }
    }
    proof {
        assert(out@ =~= payload_of(*ptr, mode, ck@));
    }
    out
}

/// Parses a cleartext payload back into its parts. Fails with
/// `InvalidHeader` exactly when the mode byte is unknown.
pub fn parse_payload(bytes: &[u8]) -> (r: Result<(ChunkPointer, Mode, RawKey), CryptoError>)
    requires
        bytes@.len() == HEADER_PAYLOAD,
    ensures
        match r {
            Ok(t) => {
                &&& t.0.wf()
                &&& t.2.wf()
                &&& t.0.offs == le32_val(bytes@[0], bytes@[1], bytes@[2], bytes@[3])
                &&& t.0.size == le32_val(bytes@[4], bytes@[5], bytes@[6], bytes@[7])
                &&& t.0.object_id@ == bytes@.subrange(8, 40)
                &&& t.0.hash@ == bytes@.subrange(40, 72)
                &&& t.0.tag@ == bytes@.subrange(72, 88)
                &&& mode_byte(t.1) == bytes@[88]
                &&& t.2@ == bytes@.subrange(89, 121)
            },
            Err(e) => e == CryptoError::InvalidHeader && bytes@[88] != 0 && bytes@[88] != 1,
        },
{
    let ptr = ChunkPointer::parse(bytes);
    let mode = match mode_from_byte(bytes[88]) {
        Ok(m) => m,
        Err(e) => {
            return Err(e);
        },
    };
    let ck_bytes = crate::chunks::copy_range(bytes, 89, 121);
    let ck = RawKey::new(ck_bytes);
    Ok((ptr, mode, ck))
}

/// Encoding and parsing of the payload are inverse: every field parsed from
/// `payload_of(ptr, mode, ck)` is the field it was built from.
pub proof fn lemma_payload_round_trip(ptr: ChunkPointer, mode: Mode, ck: Seq<u8>)
    requires
        ptr.wf(),
        ck.len() == KEY_SIZE,
    ensures
        ({
            let e = payload_of(ptr, mode, ck);
            &&& e.len() == HEADER_PAYLOAD
            &&& le32_val(e[0], e[1], e[2], e[3]) == ptr.offs
            &&& le32_val(e[4], e[5], e[6], e[7]) == ptr.size
            &&& e.subrange(8, 40) == ptr.object_id@
            &&& e.subrange(40, 72) == ptr.hash@
            &&& e.subrange(72, 88) == ptr.tag@
            &&& e[88] == mode_byte(mode)
            &&& e.subrange(89, 121) == ck
        }),
{
    let e = payload_of(ptr, mode, ck);
    assert(e.subrange(0, 88) =~= ptr.encoding());
    crate::chunks::lemma_pointer_round_trip(ptr);
    assert(e.subrange(8, 40) =~= ptr.encoding().subrange(8, 40));
    assert(e.subrange(40, 72) =~= ptr.encoding().subrange(40, 72));
    assert(e.subrange(72, 88) =~= ptr.encoding().subrange(72, 88));
    assert(e.subrange(89, 121) =~= ck);
    assert(e[0] == ptr.encoding()[0]);
    assert(e[1] == ptr.encoding()[1]);
    assert(e[2] == ptr.encoding()[2]);
    assert(e[3] == ptr.encoding()[3]);
    assert(e[4] == ptr.encoding()[4]);
    assert(e[5] == ptr.encoding()[5]);
    assert(e[6] == ptr.encoding()[6]);
    assert(e[7] == ptr.encoding()[7]);
}

/// A sealed header `s` carries the seal of `payload` under `(key, nonce)`
/// with `challenge` in its trailing slot:
/// `ciphertext(420) || tag(16) || nonce(12) || challenge(64)`.
pub open spec fn is_sealed_header(
    s: Seq<u8>,
    key: Seq<u8>,
    nonce: Seq<u8>,
    payload: Seq<u8>,
    challenge: Seq<u8>,
) -> bool {
    &&& s.len() == HEADER_SIZE
    &&& s.subrange(0, 420) == gcm_ct(key, nonce, payload)
    &&& s.subrange(420, 436) == gcm_tag(key, nonce, payload)
    &&& s.subrange(436, 448) == nonce
    &&& s.subrange(448, 512) == challenge
}

/// Seals a root header under `key` with the given nonce and challenge
/// slot; the payload is far below the AEAD's input bound, so sealing
/// always succeeds.
pub fn seal_header_with_key(
    key: &Vec<u8>,
    ptr: &ChunkPointer,
    mode: Mode,
    ck: &RawKey,
    nonce: &Vec<u8>,
    challenge: &Vec<u8>,
) -> (r: Result<Vec<u8>, CryptoError>)
    requires
        key@.len() == KEY_SIZE,
        nonce@.len() == NONCE_SIZE,
        challenge@.len() == CHALLENGE_SIZE,
        ptr.wf(),
        ck.wf(),
    ensures
        r is Ok,
        match r {
            Ok(h) => is_sealed_header(h@, key@, nonce@, payload_of(*ptr, mode, ck@), challenge@),
            Err(e) => e == CryptoError::Fatal,
        },
{
    let mut payload = encode_payload(ptr, mode, ck);
    let tag = match aead_seal(key, nonce, &mut payload) {
        Ok(t) => t,
        Err(e) => {
            return Err(e);
        },
    };
    let mut out = payload;
    out.extend_from_slice(tag.as_slice());
    out.extend_from_slice(nonce.as_slice());
    out.extend_from_slice(challenge.as_slice());
    proof {
        assert(out@.subrange(0, 420) =~= gcm_ct(key@, nonce@, payload_of(*ptr, mode, ck@)));
        assert(out@.subrange(420, 436) =~= gcm_tag(key@, nonce@, payload_of(*ptr, mode, ck@)));
        assert(out@.subrange(436, 448) =~= nonce@);
        assert(out@.subrange(448, 512) =~= challenge@);
    }
    Ok(out)
}

/// Opens a sealed header under `key`.
///
/// Success is owed exactly when the header is the seal of some payload
/// under `key` and its own stored nonce, and the payload's mode byte is
/// known; the parts returned are then the parts that payload was built
/// from. Conversely, success implies the header authenticates under `key`:
/// some payload seals to exactly these bytes, and the returned parts are
/// read from it.
pub fn open_header_with_key(key: &Vec<u8>, sealed: &[u8]) -> (r: Result<
    (ChunkPointer, Mode, RawKey),
    CryptoError,
>)
    requires
        key@.len() == KEY_SIZE,
        sealed@.len() == HEADER_SIZE,
    ensures
        match r {
            Ok(t) => t.0.wf() && t.2.wf() && exists|pl: Seq<u8>|
                #![auto]
                {
                    &&& pl.len() == HEADER_PAYLOAD
                    &&& sealed@.subrange(0, 420) == gcm_ct(key@, sealed@.subrange(436, 448), pl)
                    &&& sealed@.subrange(420, 436) == gcm_tag(
                        key@,
                        sealed@.subrange(436, 448),
                        pl,
                    )
                    &&& t.0.offs == le32_val(pl[0], pl[1], pl[2], pl[3])
                    &&& t.0.size == le32_val(pl[4], pl[5], pl[6], pl[7])
                    &&& t.0.object_id@ == pl.subrange(8, 40)
                    &&& t.0.hash@ == pl.subrange(40, 72)
                    &&& t.0.tag@ == pl.subrange(72, 88)
                    &&& mode_byte(t.1) == pl[88]
                    &&& t.2@ == pl.subrange(89, 121)
                },
            Err(e) => e == CryptoError::AeadFailed || e == CryptoError::InvalidHeader,
        },
        forall|p: ChunkPointer, m: Mode, ck: Seq<u8>|
            p.wf() && ck.len() == KEY_SIZE && sealed@.subrange(0, 420) == gcm_ct(
                key@,
                sealed@.subrange(436, 448),
                payload_of(p, m, ck),
            ) && sealed@.subrange(420, 436) == gcm_tag(
                key@,
                sealed@.subrange(436, 448),
                payload_of(p, m, ck),
            ) ==> r is Ok && {
                let t = r->Ok_0;
                &&& t.0.offs == p.offs
                &&& t.0.size == p.size
                &&& t.0.object_id@ == p.object_id@
                &&& t.0.hash@ == p.hash@
                &&& t.0.tag@ == p.tag@
                &&& t.1 == m
                &&& t.2@ == ck
            },
{
    let ct = crate::chunks::copy_range(sealed, 0, HEADER_PAYLOAD);
    let tag = crate::chunks::copy_range(sealed, HEADER_PAYLOAD, HEADER_CYPHERTEXT);
    let nonce = crate::chunks::copy_range(
        sealed,
        HEADER_CYPHERTEXT,
        HEADER_CYPHERTEXT + NONCE_SIZE,
    );
    let opened = aead_open(key, &nonce, ct.as_slice(), tag.as_slice());
    let payload = match opened {
        Ok(p) => p,
        Err(_) => {
            return Err(CryptoError::AeadFailed);
        },
    };
    let parsed = parse_payload(payload.as_slice());
    match parsed {
        Ok(t) => {
            proof {
                assert(payload@.len() == HEADER_PAYLOAD);
                assert(sealed@.subrange(0, 420) == gcm_ct(
                    key@,
                    sealed@.subrange(436, 448),
                    payload@,
                ));
                assert(sealed@.subrange(420, 436) == gcm_tag(
                    key@,
                    sealed@.subrange(436, 448),
                    payload@,
                ));
                assert forall|p: ChunkPointer, m: Mode, ck: Seq<u8>|
                    p.wf() && ck.len() == KEY_SIZE && payload@ == payload_of(p, m, ck) implies {
                    &&& t.0.offs == p.offs
                    &&& t.0.size == p.size
                    &&& t.0.object_id@ == p.object_id@
                    &&& t.0.hash@ == p.hash@
                    &&& t.0.tag@ == p.tag@
                    &&& t.1 == m
                    &&& t.2@ == ck
                } by {
                    lemma_payload_round_trip(p, m, ck);
                }
            }
            Ok(t)
        },
        Err(e) => {
            proof {
                assert forall|p: ChunkPointer, m: Mode, ck: Seq<u8>|
                    p.wf() && ck.len() == KEY_SIZE && payload@ == payload_of(p, m, ck)
                    implies false by {
                    lemma_payload_round_trip(p, m, ck);
                }
            }
            Err(e)
        },
    }
}

} // verus!
