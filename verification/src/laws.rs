//! The laws of the oracle, stated over the same spec functions that the
//! executable functions' contracts use, and proved once and for all.

use vstd::prelude::*;

use crate::crypto::hash160_of;
use crate::keys::{pubkey_bytes, XprivView};
use crate::oracle::{derive_result, p2wpkh_script, scriptcode_of, sign_result, SigningError};
use crate::psbt::{insert_sig_spec, PsbtInputView, PsbtView};
use crate::tx::ctv_hash;

verus! {

/// Law: key derivation is deterministic — for one master key and one covenant
/// hash, any two derived keys are the same key.
pub proof fn lemma_derive_deterministic(root: XprivView, h: Seq<u8>, k1: XprivView, k2: XprivView)
    requires
        derive_result(root, h) == Some(k1),
        derive_result(root, h) == Some(k2),
    ensures
        k1 == k2,
{
}

/// Law: signing is idempotent — two successful runs of the signing engine on
/// the same container yield the same signed container, in particular the same
/// signature and public key for input 0.
pub proof fn lemma_sign_idempotent(root: XprivView, psbt: PsbtView, o1: PsbtView, o2: PsbtView)
    requires
        sign_result(root, psbt) == Ok::<PsbtView, SigningError>(o1),
        sign_result(root, psbt) == Ok::<PsbtView, SigningError>(o2),
    ensures
        o1 == o2,
{
}

/// Law: when an input carries no explicit witness script, the scriptcode the
/// engine signs against is exactly the canonical P2WPKH scriptcode built from
/// the derived key's hashed public key.
pub proof fn lemma_fallback_scriptcode(input: PsbtInputView, secret: Seq<u8>)
    requires
        input.witness_script is None,
    ensures
        scriptcode_of(input, secret) == p2wpkh_script(hash160_of(pubkey_bytes(secret))),
{
}

/// Law: a container whose input 0 lacks a witness UTXO is rejected with
/// MissingWitnessUtxo exactly when the key derivation walk succeeds, and a
/// rejected request binds no signature (the engine returns only the error).
pub proof fn lemma_missing_utxo(root: XprivView, psbt: PsbtView)
    requires
        psbt.inputs.len() >= 1,
        psbt.inputs[0].witness_utxo is None,
    ensures
        derive_result(root, ctv_hash(psbt.tx, 0)) is Some ==> sign_result(root, psbt) == Err::<
            PsbtView,
            SigningError,
        >(SigningError::MissingWitnessUtxo),
        derive_result(root, ctv_hash(psbt.tx, 0)) is None ==> sign_result(root, psbt) == Err::<
            PsbtView,
            SigningError,
        >(SigningError::KeyDerivationFailed),
{
}

/// Law: the signing engine touches only input 0's signature mapping — the
/// transaction, every other input, and input 0's witness data are those of the
/// submitted container.
pub proof fn lemma_sign_touches_only_sigs(root: XprivView, psbt: PsbtView, out: PsbtView)
    requires
        psbt.inputs.len() >= 1,
        sign_result(root, psbt) == Ok::<PsbtView, SigningError>(out),
    ensures
        out.tx == psbt.tx,
        out.inputs.len() == psbt.inputs.len(),
        forall|i: int| 1 <= i < psbt.inputs.len() ==> out.inputs[i] == psbt.inputs[i],
        out.inputs[0].witness_utxo == psbt.inputs[0].witness_utxo,
        out.inputs[0].witness_script == psbt.inputs[0].witness_script,
{
}

/// Law: binding a signature into an empty mapping yields exactly one entry,
/// the bound pair.
pub proof fn lemma_sign_into_empty(pk: Seq<u8>, sig: Seq<u8>)
    ensures
        insert_sig_spec(Seq::empty(), pk, sig) == seq![(pk, sig)],
{
}

} // verus!
