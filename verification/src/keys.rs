//! The hierarchical-deterministic key model: an extended private key as plain
//! bytes, the trusted single BIP32 child step, and the verified walk that maps
//! a covenant hash to a derivation path and follows it from the master key.

use vstd::prelude::*;

use crate::encoding::{be32, be32_decode, clone_bytes};
use bitcoin::network::constants::Network;
use bitcoin::secp256k1::{Message, PublicKey, Secp256k1, SecretKey};
use bitcoin::util::bip32::{ChainCode, ChildNumber, ExtendedPrivKey};
use bitcoin::PrivateKey;

verus! {

/// The mathematical value of an extended private key: its chain code and its
/// secret key, each 32 bytes.
#[verifier::ext_equal]
pub ghost struct XprivView {
    pub chain_code: Seq<u8>,
    pub secret: Seq<u8>,
}

/// Whether a byte string forms a valid secp256k1 secret key.
pub uninterp spec fn seckey_ok(secret: Seq<u8>) -> bool;

/// The BIP32 non-hardened private child of a parent key at an index, or `None`
/// where the derivation algorithm rejects the step.
pub uninterp spec fn ckd(chain_code: Seq<u8>, secret: Seq<u8>, index: u32) -> Option<XprivView>;

/// An extended private key. Every value holds a 32-byte chain code and a
/// 32-byte valid secret key.
pub struct Xpriv {
    chain_code: Vec<u8>,
    secret: Vec<u8>,
}

impl View for Xpriv {
    type V = XprivView;

    closed spec fn view(&self) -> XprivView {
        XprivView { chain_code: self.chain_code@, secret: self.secret@ }
    }
}

/// Relies on secp256k1::SecretKey::from_slice: it accepts exactly the byte
/// strings that form a valid secret key, and acceptance depends on the bytes
/// alone.
#[verifier::external_body]
fn seckey_check(secret: &Vec<u8>) -> (r: bool)
    ensures
        r == seckey_ok(secret@),
{
    SecretKey::from_slice(&secret[..]).is_ok()
}

/// Relies on bitcoin's ExtendedPrivKey::ckd_priv, the BIP32 non-hardened
/// private child derivation: the child is a function of the parent chain code,
/// the parent secret key and the index alone; it fails exactly where the BIP32
/// algorithm rejects the step; a returned child again carries a 32-byte chain
/// code and a valid 32-byte secret key.
#[verifier::external_body]
fn ckd_priv(parent: &Xpriv, index: u32) -> (r: Option<Xpriv>)
    requires
        index < 0x8000_0000,
    ensures
        match r {
            Some(k) => ckd(parent@.chain_code, parent@.secret, index) == Some(k@),
            None => ckd(parent@.chain_code, parent@.secret, index) is None,
        },
{
    let secp = Secp256k1::new();
    let key = PrivateKey {
        compressed: true, network: Network::Bitcoin,
        key: SecretKey::from_slice(&parent.secret[..]).unwrap(),
    };
    let xk = ExtendedPrivKey {
        network: Network::Bitcoin, depth: 0, parent_fingerprint: Default::default(),
        child_number: ChildNumber::from_normal_idx(0).unwrap(), private_key: key,
        chain_code: ChainCode::from(&parent.chain_code[..]),
    };
    match xk.ckd_priv(&secp, ChildNumber::from_normal_idx(index).unwrap()) {
        Ok(c) => Some(Xpriv { chain_code: c.chain_code.as_bytes().to_vec(), secret: c.private_key.key[..].to_vec() }),
        Err(_) => None,
    }
}

/// Relies on secp256k1::PublicKey::from_secret_key and serialize: the 33-byte
/// compressed encoding of the public key, a function of the secret key alone.
pub uninterp spec fn pubkey_bytes(secret: Seq<u8>) -> Seq<u8>;

/// Relies on secp256k1::PublicKey::from_secret_key and serialize (see
/// `pubkey_bytes`); the secret key of an `Xpriv` is always valid, so the call
/// cannot fail.
#[verifier::external_body]
pub(crate) fn pubkey(key: &Xpriv) -> (r: Vec<u8>)
    ensures
        r@ == pubkey_bytes(key@.secret),
        r@.len() == 33,
{
    let secp = Secp256k1::new();
    let sk = SecretKey::from_slice(&key.secret[..]).unwrap();
    PublicKey::from_secret_key(&secp, &sk).serialize().to_vec()
}

/// The 64-byte compact ECDSA signature of a 32-byte message under a secret
/// key, with the RFC6979 deterministic nonce.
pub uninterp spec fn sig_compact(msg: Seq<u8>, secret: Seq<u8>) -> Seq<u8>;

/// Relies on secp256k1's sign with the RFC6979 nonce function and on
/// Signature::serialize_compact: the 64-byte signature is a deterministic
/// function of the message and the secret key; the secret key of an `Xpriv`
/// is always valid, so the call cannot fail.
#[verifier::external_body]
pub(crate) fn ecdsa_sign_compact(key: &Xpriv, msg: &Vec<u8>) -> (r: Vec<u8>)
    requires
        msg@.len() == 32,
    ensures
        r@ == sig_compact(msg@, key@.secret),
        r@.len() == 64,
{
    let secp = Secp256k1::new();
    let sk = SecretKey::from_slice(&key.secret[..]).unwrap();
    let m = Message::from_slice(&msg[..]).unwrap();
    secp.sign(&m, &sk).serialize_compact().to_vec()
}

impl Xpriv {
    #[verifier::type_invariant]
    spec fn inv(self) -> bool {
        &&& self.chain_code@.len() == 32
        &&& self.secret@.len() == 32
        &&& seckey_ok(self.secret@)
    }

    /// Builds an extended private key from a 32-byte chain code and a 32-byte
    /// valid secret key; rejects anything else.
    pub fn try_new(chain_code: Vec<u8>, secret: Vec<u8>) -> (r: Option<Xpriv>)
        ensures
            r is Some <==> chain_code@.len() == 32 && secret@.len() == 32 && seckey_ok(secret@),
            r matches Some(k) ==> k@ == (XprivView { chain_code: chain_code@, secret: secret@ }),
    {
        if chain_code.len() == 32 && secret.len() == 32 && seckey_check(&secret) {
            Some(Xpriv { chain_code, secret })
        } else {
            None
        }
    }

    /// The chain code, 32 bytes.
    pub fn chain_code_bytes(&self) -> (r: Vec<u8>)
        ensures
            r@ == self@.chain_code,
    {
        clone_bytes(&self.chain_code)
    }

    /// The secret key, 32 bytes.
    pub fn secret_bytes(&self) -> (r: Vec<u8>)
        ensures
            r@ == self@.secret,
    {
        clone_bytes(&self.secret)
    }

    /// A copy of the key.
    pub fn duplicate(&self) -> (r: Xpriv)
        ensures
            r@ == self@,
    {
        proof {
            use_type_invariant(self);
        }
        Xpriv { chain_code: clone_bytes(&self.chain_code), secret: clone_bytes(&self.secret) }
    }
}

/// The derivation path of a covenant hash: the 32 bytes split into eight
/// big-endian 32-bit groups, each cleared of its top bit so that every step is
/// a non-hardened child index.
pub open spec fn path_of(h: Seq<u8>) -> Seq<u32> {
    Seq::new(8, |i: int| (be32(h[4 * i], h[4 * i + 1], h[4 * i + 2], h[4 * i + 3]) % 0x8000_0000) as u32)
}

/// Converts a 32-byte covenant hash into its derivation path.
pub fn hash_to_path(h: &Vec<u8>) -> (r: Vec<u32>)
    requires
        h@.len() == 32,
    ensures
        r@ == path_of(h@),
{
    let mut r: Vec<u32> = Vec::new();
    let mut i: usize = 0;
    while i < 8
        invariant
            h@.len() == 32,
            i <= 8,
            r@.len() == i,
            forall|j: int| 0 <= j < i ==> r@[j] == path_of(h@)[j],
        decreases 8 - i,
    {
        let v = be32_decode(h[4 * i], h[4 * i + 1], h[4 * i + 2], h[4 * i + 3]) % 0x8000_0000;
        r.push(v);
        i += 1;
    }
    proof {
        assert(r@ =~= path_of(h@));
    }
    r
}

/// The key that walking `path` from `key` reaches, or `None` where some BIP32
/// step fails.
pub open spec fn derive_spec(key: XprivView, path: Seq<u32>) -> Option<XprivView>
    decreases path.len(),
{
    if path.len() == 0 {
        Some(key)
    } else {
        match ckd(key.chain_code, key.secret, path[0]) {
            Some(k) => derive_spec(k, path.skip(1)),
            None => None,
        }
    }
}

/// Walks `path` from `root` by repeated BIP32 non-hardened child derivation.
pub fn derive_from(root: &Xpriv, path: &Vec<u32>) -> (r: Option<Xpriv>)
    requires
        forall|j: int| 0 <= j < path@.len() ==> path@[j] < 0x8000_0000,
    ensures
        match r {
            Some(k) => derive_spec(root@, path@) == Some(k@),
            None => derive_spec(root@, path@) is None,
        },
{
    let mut cur = root.duplicate();
    let mut i: usize = 0;
    proof {
        assert(path@.skip(0) =~= path@);
    }
    while i < path.len()
        invariant
            i <= path@.len(),
            forall|j: int| 0 <= j < path@.len() ==> path@[j] < 0x8000_0000,
            derive_spec(root@, path@) == derive_spec(cur@, path@.skip(i as int)),
        decreases path@.len() - i,
    {
        proof {
            assert(path@.skip(i as int).len() > 0);
            assert(path@.skip(i as int)[0] == path@[i as int]);
            assert(path@.skip(i as int).skip(1) =~= path@.skip(i as int + 1));
        }
        match ckd_priv(&cur, path[i]) {
            Some(k) => {
                cur = k;
            },
            None => {
                return None;
            },
        }
        i += 1;
    }
    proof {
        assert(path@.skip(path@.len() as int).len() == 0);
    }
    Some(cur)
}

} // verus!
