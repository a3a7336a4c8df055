//! The unsigned-transaction model, the covenant commitment hash over its
//! committed portion, and the trusted segwit signature-hash call.

use vstd::prelude::*;

use crate::crypto::{sha256, sha256_of};
use crate::encoding::{
    clone_bytes, compact_size, le32, le64, push_bytes, push_compact_size, push_le32, push_le64,
};
use bitcoin::hashes::Hash as BtcHash;
use bitcoin::util::bip143::SigHashCache;
use bitcoin::OutPoint;
use bitcoin::Script;
use bitcoin::SigHashType;
use bitcoin::Transaction;
use bitcoin::TxIn as BtcTxIn;
use bitcoin::TxOut as BtcTxOut;
use bitcoin::Txid;

verus! {

/// A transaction output: a value in satoshis and a script.
pub struct TxOut {
    pub value: u64,
    pub script_pubkey: Vec<u8>,
}

/// A transaction input of an unsigned transaction: the spent outpoint and the
/// sequence number; the signature script of an unsigned segwit input is empty.
pub struct TxIn {
    pub prev_txid: Vec<u8>,
    pub prev_vout: u32,
    pub sequence: u32,
}

/// An unsigned transaction.
pub struct Tx {
    pub version: u32,
    pub lock_time: u32,
    pub inputs: Vec<TxIn>,
    pub outputs: Vec<TxOut>,
}

#[verifier::ext_equal]
pub ghost struct TxOutView {
    pub value: u64,
    pub script_pubkey: Seq<u8>,
}

#[verifier::ext_equal]
pub ghost struct TxInView {
    pub prev_txid: Seq<u8>,
    pub prev_vout: u32,
    pub sequence: u32,
}

#[verifier::ext_equal]
pub ghost struct TxView {
    pub version: u32,
    pub lock_time: u32,
    pub inputs: Seq<TxInView>,
    pub outputs: Seq<TxOutView>,
}

impl View for TxOut {
    type V = TxOutView;

    open spec fn view(&self) -> TxOutView {
        TxOutView { value: self.value, script_pubkey: self.script_pubkey@ }
    }
}

impl View for TxIn {
    type V = TxInView;

    open spec fn view(&self) -> TxInView {
        TxInView { prev_txid: self.prev_txid@, prev_vout: self.prev_vout, sequence: self.sequence }
    }
}

impl View for Tx {
    type V = TxView;

    open spec fn view(&self) -> TxView {
        TxView {
            version: self.version,
            lock_time: self.lock_time,
            inputs: Seq::new(self.inputs@.len(), |i: int| self.inputs@[i]@),
            outputs: Seq::new(self.outputs@.len(), |i: int| self.outputs@[i]@),
        }
    }
}

/// A well-formed transaction: counts fit the 32-bit consensus fields and every
/// spent outpoint names a 32-byte transaction id.
pub open spec fn tx_wf(tx: TxView) -> bool {
    &&& tx.inputs.len() <= 0xFFFF_FFFF
    &&& tx.outputs.len() <= 0xFFFF_FFFF
    &&& forall|i: int| 0 <= i < tx.inputs.len() ==> (#[trigger] tx.inputs[i]).prev_txid.len() == 32
}

/// The concatenated little-endian sequence numbers of the inputs.
pub open spec fn sequences_enc(inputs: Seq<TxInView>) -> Seq<u8>
    decreases inputs.len(),
{
    if inputs.len() == 0 {
        Seq::empty()
    } else {
        sequences_enc(inputs.drop_last()) + le32(inputs.last().sequence)
    }
}

/// The consensus encoding of one output: value, script length, script.
pub open spec fn txout_enc(o: TxOutView) -> Seq<u8> {
    le64(o.value) + compact_size(o.script_pubkey.len() as u64) + o.script_pubkey
}

/// The concatenated consensus encodings of the outputs.
pub open spec fn outputs_enc(outputs: Seq<TxOutView>) -> Seq<u8>
    decreases outputs.len(),
{
    if outputs.len() == 0 {
        Seq::empty()
    } else {
        outputs_enc(outputs.drop_last()) + txout_enc(outputs.last())
    }
}

/// The committed portion of a transaction for the covenant hash at an input
/// index: version, locktime, input count, hash of the sequence numbers, output
/// count, hash of the outputs, input index.
pub open spec fn ctv_commitment(tx: TxView, index: u32) -> Seq<u8> {
    le32(tx.version) + le32(tx.lock_time) + le32(tx.inputs.len() as u32) + sha256_of(
        sequences_enc(tx.inputs),
    ) + le32(tx.outputs.len() as u32) + sha256_of(outputs_enc(tx.outputs)) + le32(index)
}

/// The covenant commitment hash: the SHA-256 digest of the committed portion.
pub open spec fn ctv_hash(tx: TxView, index: u32) -> Seq<u8> {
    sha256_of(ctv_commitment(tx, index))
}

impl Tx {
    /// Computes the covenant commitment hash of the transaction at an input
    /// index.
    pub fn get_ctv_hash(&self, index: u32) -> (r: Vec<u8>)
        requires
            tx_wf(self@),
        ensures
            r@ == ctv_hash(self@, index),
            r@.len() == 32,
    {
        let mut seqs: Vec<u8> = Vec::new();
        let mut i: usize = 0;
        proof {
            assert(self@.inputs.take(0) =~= Seq::<TxInView>::empty());
        }
        while i < self.inputs.len()
            invariant
                i <= self.inputs@.len(),
                self@.inputs.len() == self.inputs@.len(),
                forall|j: int| 0 <= j < self.inputs@.len() ==> self@.inputs[j] == self.inputs@[j]@,
                seqs@ == sequences_enc(self@.inputs.take(i as int)),
            decreases self.inputs@.len() - i,
        {
            push_le32(&mut seqs, self.inputs[i].sequence);
            proof {
                assert(self@.inputs.take(i + 1).drop_last() =~= self@.inputs.take(i as int));
                assert(self@.inputs.take(i + 1).last() == self@.inputs[i as int]);
            }
            i += 1;
        }
        proof {
            assert(self@.inputs.take(self.inputs@.len() as int) =~= self@.inputs);
        }
        let seq_hash = sha256(&seqs);

        let mut outs: Vec<u8> = Vec::new();
        let mut k: usize = 0;
        proof {
            assert(self@.outputs.take(0) =~= Seq::<TxOutView>::empty());
        }
        while k < self.outputs.len()
            invariant
                k <= self.outputs@.len(),
                self@.outputs.len() == self.outputs@.len(),
                forall|j: int| 0 <= j < self.outputs@.len() ==> self@.outputs[j] == self.outputs@[j]@,
                outs@ == outputs_enc(self@.outputs.take(k as int)),
            decreases self.outputs@.len() - k,
        {
            push_le64(&mut outs, self.outputs[k].value);
            push_compact_size(&mut outs, self.outputs[k].script_pubkey.len() as u64);
            push_bytes(&mut outs, &self.outputs[k].script_pubkey);
            proof {
                assert(self@.outputs.take(k + 1).drop_last() =~= self@.outputs.take(k as int));
                assert(self@.outputs.take(k + 1).last() == self@.outputs[k as int]);
                assert(outs@ =~= outputs_enc(self@.outputs.take(k + 1)));
            }
            k += 1;
        }
        proof {
            assert(self@.outputs.take(self.outputs@.len() as int) =~= self@.outputs);
        }
        let out_hash = sha256(&outs);

        let mut c: Vec<u8> = Vec::new();
        push_le32(&mut c, self.version);
        push_le32(&mut c, self.lock_time);
        push_le32(&mut c, self.inputs.len() as u32);
        push_bytes(&mut c, &seq_hash);
        push_le32(&mut c, self.outputs.len() as u32);
        push_bytes(&mut c, &out_hash);
        push_le32(&mut c, index);
        proof {
            assert(c@ =~= ctv_commitment(self@, index));
        }
        sha256(&c)
    }

    /// A copy of the transaction.
    pub fn duplicate(&self) -> (r: Tx)
        ensures
            r@ == self@,
    {
        let mut inputs: Vec<TxIn> = Vec::new();
        let mut i: usize = 0;
        while i < self.inputs.len()
            invariant
                i <= self.inputs@.len(),
                inputs@.len() == i,
                forall|j: int| 0 <= j < i ==> inputs@[j]@ == self.inputs@[j]@,
            decreases self.inputs@.len() - i,
        {
            let src = &self.inputs[i];
            inputs.push(
                TxIn {
                    prev_txid: clone_bytes(&src.prev_txid),
                    prev_vout: src.prev_vout,
                    sequence: src.sequence,
                },
            );
            i += 1;
        }
        let mut outputs: Vec<TxOut> = Vec::new();
        let mut k: usize = 0;
        while k < self.outputs.len()
            invariant
                k <= self.outputs@.len(),
                outputs@.len() == k,
                forall|j: int| 0 <= j < k ==> outputs@[j]@ == self.outputs@[j]@,
            decreases self.outputs@.len() - k,
        {
            let src = &self.outputs[k];
            outputs.push(
                TxOut { value: src.value, script_pubkey: clone_bytes(&src.script_pubkey) },
            );
            k += 1;
        }
        let r = Tx { version: self.version, lock_time: self.lock_time, inputs, outputs };
        proof {
            assert(r@.inputs =~= self@.inputs);
            assert(r@.outputs =~= self@.outputs);
            assert(r@ =~= self@);
        }
        r
    }
}

/// The BIP143 segwit signature hash of input 0 of a transaction, for a script
/// code and a spent value, with SIGHASH_ALL semantics.
pub uninterp spec fn sighash_of(tx: TxView, script_code: Seq<u8>, value: u64) -> Seq<u8>;

/// Relies on bitcoin::util::bip143::SigHashCache::signature_hash at input 0
/// with SigHashType::All: the 32-byte digest is a function of the transaction,
/// the script code and the spent value alone.
#[verifier::external_body]
pub(crate) fn sighash_all(tx: &Tx, script_code: &Vec<u8>, value: u64) -> (r: Vec<u8>)
    requires
        tx_wf(tx@),
        tx@.inputs.len() >= 1,
    ensures
        r@ == sighash_of(tx@, script_code@, value),
        r@.len() == 32,
{
    let input = tx.inputs.iter().map(|i| BtcTxIn {
        previous_output: OutPoint { txid: Txid::from_slice(&i.prev_txid[..]).unwrap(), vout: i.prev_vout },
        script_sig: Script::new(), sequence: i.sequence, witness: Vec::new(),
    }).collect();
    let output = tx.outputs.iter().map(|o| BtcTxOut {
        value: o.value, script_pubkey: Script::from(o.script_pubkey.clone()),
    }).collect();
    let t = Transaction { version: tx.version as i32, lock_time: tx.lock_time, input, output };
    let digest = SigHashCache::new(&t).signature_hash(0, &Script::from(script_code.clone()), value, SigHashType::All);
    digest.into_inner().to_vec()
}

} // verus!
