//! The oracle: covenant-hash key derivation, the transaction signing engine
//! with its P2WPKH scriptcode fallback, the commit-reveal confirmation
//! handshake, and the request dispatch.

use vstd::prelude::*;

use crate::crypto::{hash160, hash160_of, random_nonce, sha256, sha256_of};
use crate::encoding::{clone_bytes, push_bytes};
use crate::keys::{
    derive_spec, ecdsa_sign_compact, hash_to_path, path_of, pubkey, pubkey_bytes, sig_compact,
    Xpriv, XprivView,
};
use crate::psbt::{insert_sig, insert_sig_spec, psbt_wf, Psbt, PsbtInputView, PsbtView};
use crate::tx::{ctv_hash, sighash_all, sighash_of};

verus! {

/// A failure of the hierarchical-deterministic derivation walk: some BIP32
/// step was invalid.
#[derive(Clone, Copy, Debug, PartialEq, Eq, Structural)]
pub enum DerivationError {
    InvalidHdStep,
}

/// A failure of the signing engine.
#[derive(Clone, Copy, Debug, PartialEq, Eq, Structural)]
pub enum SigningError {
    /// Input 0 of the container carries no witness UTXO.
    MissingWitnessUtxo,
    /// The key derivation walk failed.
    KeyDerivationFailed,
    /// The signature-hash bytes formed no valid signing message; unreachable
    /// in correct operation, kept as the name of that invariant violation.
    InvalidSighashMessage,
}

/// A confirmation of the master key: the signature over the binding digest and
/// the revealed nonce.
pub struct KeyConfirmed {
    pub signature: Vec<u8>,
    pub nonce: Vec<u8>,
}

#[verifier::ext_equal]
pub ghost struct KeyConfirmedView {
    pub signature: Seq<u8>,
    pub nonce: Seq<u8>,
}

impl View for KeyConfirmed {
    type V = KeyConfirmedView;

    open spec fn view(&self) -> KeyConfirmedView {
        KeyConfirmedView { signature: self.signature@, nonce: self.nonce@ }
    }
}

/// A request to the oracle: sign a container, or confirm the master key for a
/// challenge. The first field of `ConfirmKey` is an unused placeholder kept
/// for wire compatibility.
pub enum Request {
    SignPSBT(Psbt),
    ConfirmKey(Vec<u8>, Vec<u8>),
}

/// The oracle's answer: the mutated container, or the key confirmation.
pub enum Response {
    PSBT(Psbt),
    KeyConfirmed(KeyConfirmed),
}

/// The oracle: the master extended private key and a debugging flag.
pub struct HDOracleEmulator {
    root: Xpriv,
    debug: bool,
}

#[verifier::ext_equal]
pub ghost struct OracleView {
    pub root: XprivView,
    pub debug: bool,
}

impl View for HDOracleEmulator {
    type V = OracleView;

    closed spec fn view(&self) -> OracleView {
        OracleView { root: self.root@, debug: self.debug }
    }
}

/// The key that a covenant hash selects under a master key, or `None` where a
/// BIP32 step of the walk fails.
pub open spec fn derive_result(root: XprivView, h: Seq<u8>) -> Option<XprivView> {
    derive_spec(root, path_of(h))
}

/// The canonical P2WPKH scriptcode for a public key hash:
/// OP_DUP OP_HASH160 <20-byte hash> OP_EQUALVERIFY OP_CHECKSIG.
pub open spec fn p2wpkh_script(pkh: Seq<u8>) -> Seq<u8> {
    seq![0x76u8, 0xa9u8, 0x14u8] + pkh + seq![0x88u8, 0xacu8]
}

/// The scriptcode the engine signs against: the input's explicit witness
/// script where present, else the canonical P2WPKH scriptcode synthesized
/// from the derived key.
pub open spec fn scriptcode_of(input: PsbtInputView, secret: Seq<u8>) -> Seq<u8> {
    match input.witness_script {
        Some(s) => s,
        None => p2wpkh_script(hash160_of(pubkey_bytes(secret))),
    }
}

/// The container after the engine has bound the derived public key to its
/// signature in input 0's signature mapping.
pub open spec fn signed_psbt(psbt: PsbtView, pk: Seq<u8>, sig: Seq<u8>) -> PsbtView {
    PsbtView {
        tx: psbt.tx,
        inputs: psbt.inputs.update(
            0,
            PsbtInputView {
                witness_utxo: psbt.inputs[0].witness_utxo,
                witness_script: psbt.inputs[0].witness_script,
                partial_sigs: insert_sig_spec(psbt.inputs[0].partial_sigs, pk, sig),
            },
        ),
    }
}

/// What the signing engine returns for a container under a master key: the
/// covenant hash of input 0 selects the key; the key derives or the request
/// fails; input 0 must carry a witness UTXO; the segwit digest over the
/// scriptcode and the spent value is signed and the signature, with the
/// SIGHASH_ALL trailing byte, is bound to the derived public key.
pub open spec fn sign_result(root: XprivView, psbt: PsbtView) -> Result<PsbtView, SigningError> {
    match derive_result(root, ctv_hash(psbt.tx, 0)) {
        None => Err(SigningError::KeyDerivationFailed),
        Some(key) => match psbt.inputs[0].witness_utxo {
            None => Err(SigningError::MissingWitnessUtxo),
            Some(utxo) => {
                let pk = pubkey_bytes(key.secret);
                let digest = sighash_of(psbt.tx, scriptcode_of(psbt.inputs[0], key.secret), utxo.value);
                Ok(signed_psbt(psbt, pk, sig_compact(digest, key.secret).push(0x01u8)))
            },
        },
    }
}

/// The binding digest of the handshake: the hash of the nonce followed by the
/// challenge.
pub open spec fn binding_digest(nonce: Seq<u8>, challenge: Seq<u8>) -> Seq<u8> {
    sha256_of(nonce + challenge)
}

/// A confirmation is sound for a master key and challenge when it reveals a
/// 32-byte nonce and its signature is the master-key signature over the
/// binding digest.
pub open spec fn confirmed_ok(root: XprivView, challenge: Seq<u8>, r: KeyConfirmedView) -> bool {
    &&& r.nonce.len() == 32
    &&& r.signature.len() == 64
    &&& r.signature == sig_compact(binding_digest(r.nonce, challenge), root.secret)
}

/// Builds the canonical P2WPKH scriptcode for a 20-byte public key hash.
pub fn p2wpkh_scriptcode(pkh: &Vec<u8>) -> (r: Vec<u8>)
    requires
        pkh@.len() == 20,
    ensures
        r@ == p2wpkh_script(pkh@),
{
    let mut r: Vec<u8> = Vec::new();
    r.push(0x76);
    r.push(0xa9);
    r.push(0x14);
    push_bytes(&mut r, pkh);
    r.push(0x88);
    r.push(0xac);
    proof {
        assert(r@ =~= p2wpkh_script(pkh@));
    }
    r
}

impl HDOracleEmulator {
    /// Builds an oracle from its master key and a debugging flag.
    pub fn new(root: Xpriv, debug: bool) -> (r: Self)
        ensures
            r@ == (OracleView { root: root@, debug }),
    {
        HDOracleEmulator { root, debug }
    }

    /// The debugging flag.
    pub fn debug(&self) -> (r: bool)
        ensures
            r == self@.debug,
    {
        self.debug
    }

    /// Derives the one-time child key that a 32-byte covenant hash selects
    /// under the master key.
    pub fn derive(&self, h: &Vec<u8>) -> (r: Result<Xpriv, DerivationError>)
        requires
            h@.len() == 32,
        ensures
            match r {
                Ok(k) => derive_result(self@.root, h@) == Some(k@),
                Err(_) => derive_result(self@.root, h@) is None,
            },
    {
        let path = hash_to_path(h);
        match crate::keys::derive_from(&self.root, &path) {
            Some(k) => Ok(k),
            None => Err(DerivationError::InvalidHdStep),
        }
    }

    /// Signs input 0 of a container: computes the covenant hash, derives the
    /// one-time key, determines the scriptcode (falling back to the canonical
    /// P2WPKH scriptcode of the derived key), signs the segwit digest and
    /// binds the signature to the derived public key. The input container is
    /// left untouched; the signed container is returned.
    pub fn sign(&self, psbt: &Psbt) -> (r: Result<Psbt, SigningError>)
        requires
            psbt_wf(psbt@),
        ensures
            match r {
                Ok(out) => sign_result(self@.root, psbt@) == Ok::<PsbtView, SigningError>(out@),
                Err(e) => sign_result(self@.root, psbt@) == Err::<PsbtView, SigningError>(e),
            },
    {
        let h = psbt.tx.get_ctv_hash(0);
        let key = match self.derive(&h) {
            Ok(k) => k,
            Err(_) => {
                return Err(SigningError::KeyDerivationFailed);
            },
        };
        let utxo_value = match &psbt.inputs[0].witness_utxo {
            Some(u) => u.value,
            None => {
                return Err(SigningError::MissingWitnessUtxo);
            },
        };
        let pk = pubkey(&key);
        let code = match &psbt.inputs[0].witness_script {
            Some(s) => clone_bytes(s),
            None => {
                let pkh = hash160(&pk);
                p2wpkh_scriptcode(&pkh)
            },
        };
        let digest = sighash_all(&psbt.tx, &code, utxo_value);
        let mut sig = ecdsa_sign_compact(&key, &digest);
        sig.push(0x01);
        let mut out = psbt.duplicate();
        let mut input0 = out.inputs.remove(0);
        insert_sig(&mut input0.partial_sigs, pk, sig);
        out.inputs.insert(0, input0);
        proof {
            assert(out@.inputs =~= signed_psbt(psbt@, pubkey_bytes(key@.secret), sig@).inputs);
            assert(out@ =~= signed_psbt(psbt@, pubkey_bytes(key@.secret), sig@));
        }
        Ok(out)
    }

    /// Confirms the master key for a 32-byte challenge with a caller-supplied
    /// 32-byte nonce: signs the binding digest Hash(nonce ‖ challenge) with
    /// the master key and reveals the nonce.
    pub fn confirm_key_with_nonce(&self, challenge: &Vec<u8>, nonce: Vec<u8>) -> (r: KeyConfirmed)
        requires
            challenge@.len() == 32,
            nonce@.len() == 32,
        ensures
            confirmed_ok(self@.root, challenge@, r@),
            r@.nonce == nonce@,
    {
        let mut preimage = clone_bytes(&nonce);
        push_bytes(&mut preimage, challenge);
        let digest = sha256(&preimage);
        let signature = ecdsa_sign_compact(&self.root, &digest);
        KeyConfirmed { signature, nonce }
    }

    /// Confirms the master key for a 32-byte challenge: draws a fresh random
    /// 32-byte nonce, signs the binding digest Hash(nonce ‖ challenge) with
    /// the master key and reveals the nonce.
    pub fn confirm_key(&self, challenge: &Vec<u8>) -> (r: KeyConfirmed)
        requires
            challenge@.len() == 32,
        ensures
            confirmed_ok(self@.root, challenge@, r@),
    {
        let nonce = random_nonce();
        self.confirm_key_with_nonce(challenge, nonce)
    }

    /// Dispatches one decoded request: a signing request runs the signing
    /// engine, a confirmation request runs the handshake. A signing failure
    /// fails the request; the handshake cannot fail.
    pub fn handle(&self, req: &Request) -> (r: Result<Response, SigningError>)
        requires
            match req@ {
                RequestView::SignPSBT(p) => psbt_wf(p),
                RequestView::ConfirmKey(_, c) => c.len() == 32,
            },
        ensures
            match req@ {
                RequestView::SignPSBT(p) => match r {
                    Ok(resp) => resp@ matches ResponseView::PSBT(out) && sign_result(
                        self@.root,
                        p,
                    ) == Ok::<PsbtView, SigningError>(out),
                    Err(e) => sign_result(self@.root, p) == Err::<PsbtView, SigningError>(e),
                },
                RequestView::ConfirmKey(_, c) => r matches Ok(resp) && resp@ matches
                    ResponseView::KeyConfirmed(ck) && confirmed_ok(self@.root, c, ck),
            },
    {
        match req {
            Request::SignPSBT(psbt) => match self.sign(psbt) {
                Ok(out) => Ok(Response::PSBT(out)),
                Err(e) => Err(e),
            },
            Request::ConfirmKey(_, challenge) => Ok(
                Response::KeyConfirmed(self.confirm_key(challenge)),
            ),
        }
    }
}

#[verifier::ext_equal]
pub ghost enum RequestView {
    SignPSBT(PsbtView),
    ConfirmKey(Seq<u8>, Seq<u8>),
}

#[verifier::ext_equal]
pub ghost enum ResponseView {
    PSBT(PsbtView),
    KeyConfirmed(KeyConfirmedView),
}

impl View for Request {
    type V = RequestView;

    open spec fn view(&self) -> RequestView {
        match self {
            Request::SignPSBT(p) => RequestView::SignPSBT(p@),
            Request::ConfirmKey(placeholder, challenge) => RequestView::ConfirmKey(
                placeholder@,
                challenge@,
            ),
        }
    }
}

impl View for Response {
    type V = ResponseView;

    open spec fn view(&self) -> ResponseView {
        match self {
            Response::PSBT(p) => ResponseView::PSBT(p@),
            Response::KeyConfirmed(ck) => ResponseView::KeyConfirmed(ck@),
        }
    }
}

} // verus!
