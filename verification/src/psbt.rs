//! The partially-signed-transaction container: the unsigned transaction plus
//! per-input signing metadata, and the signature-map insert that the signing
//! engine performs on input 0.

use vstd::prelude::*;

use crate::encoding::clone_bytes;
use crate::tx::{tx_wf, Tx, TxOut, TxOutView, TxView};

verus! {

/// The per-input signing metadata: the witness UTXO being spent, an optional
/// explicit witness script, and the mapping from public key to signature.
pub struct PsbtInput {
    pub witness_utxo: Option<TxOut>,
    pub witness_script: Option<Vec<u8>>,
    pub partial_sigs: Vec<(Vec<u8>, Vec<u8>)>,
}

/// A partially-signed transaction: the unsigned transaction and one metadata
/// entry per input.
pub struct Psbt {
    pub tx: Tx,
    pub inputs: Vec<PsbtInput>,
}

#[verifier::ext_equal]
pub ghost struct PsbtInputView {
    pub witness_utxo: Option<TxOutView>,
    pub witness_script: Option<Seq<u8>>,
    pub partial_sigs: Seq<(Seq<u8>, Seq<u8>)>,
}

#[verifier::ext_equal]
pub ghost struct PsbtView {
    pub tx: TxView,
    pub inputs: Seq<PsbtInputView>,
}

impl View for PsbtInput {
    type V = PsbtInputView;

    open spec fn view(&self) -> PsbtInputView {
        PsbtInputView {
            witness_utxo: match self.witness_utxo {
                Some(u) => Some(u@),
                None => None,
            },
            witness_script: match self.witness_script {
                Some(s) => Some(s@),
                None => None,
            },
            partial_sigs: Seq::new(
                self.partial_sigs@.len(),
                |i: int| (self.partial_sigs@[i].0@, self.partial_sigs@[i].1@),
            ),
        }
    }
}

impl View for Psbt {
    type V = PsbtView;

    open spec fn view(&self) -> PsbtView {
        PsbtView { tx: self.tx@, inputs: Seq::new(self.inputs@.len(), |i: int| self.inputs@[i]@) }
    }
}

/// A well-formed container: a well-formed transaction with at least one input
/// and exactly one metadata entry per input.
pub open spec fn psbt_wf(p: PsbtView) -> bool {
    &&& tx_wf(p.tx)
    &&& p.tx.inputs.len() >= 1
    &&& p.inputs.len() == p.tx.inputs.len()
}

/// The signature mapping after binding `pk` to `sig`: the first entry keyed by
/// `pk` is replaced; without one, the pair is appended.
pub open spec fn insert_sig_spec(
    sigs: Seq<(Seq<u8>, Seq<u8>)>,
    pk: Seq<u8>,
    sig: Seq<u8>,
) -> Seq<(Seq<u8>, Seq<u8>)>
    decreases sigs.len(),
{
    if sigs.len() == 0 {
        seq![(pk, sig)]
    } else if sigs[0].0 == pk {
        seq![(pk, sig)] + sigs.skip(1)
    } else {
        seq![sigs[0]] + insert_sig_spec(sigs.skip(1), pk, sig)
    }
}

/// Binding a key that already has an entry replaces that entry in place.
proof fn lemma_insert_sig_found(sigs: Seq<(Seq<u8>, Seq<u8>)>, pk: Seq<u8>, sig: Seq<u8>, i: int)
    requires
        0 <= i < sigs.len(),
        sigs[i].0 == pk,
        forall|j: int| 0 <= j < i ==> (#[trigger] sigs[j]).0 != pk,
    ensures
        insert_sig_spec(sigs, pk, sig) == sigs.update(i, (pk, sig)),
    decreases i,
{
    if i == 0 {
        assert(seq![(pk, sig)] + sigs.skip(1) =~= sigs.update(0, (pk, sig)));
    } else {
        assert(forall|j: int| 0 <= j < i - 1 ==> (#[trigger] sigs.skip(1)[j]).0 != pk);
        lemma_insert_sig_found(sigs.skip(1), pk, sig, i - 1);
        assert(seq![sigs[0]] + sigs.skip(1).update(i - 1, (pk, sig)) =~= sigs.update(i, (pk, sig)));
    }
}

/// Binding a key that has no entry appends the pair.
proof fn lemma_insert_sig_absent(sigs: Seq<(Seq<u8>, Seq<u8>)>, pk: Seq<u8>, sig: Seq<u8>)
    requires
        forall|j: int| 0 <= j < sigs.len() ==> (#[trigger] sigs[j]).0 != pk,
    ensures
        insert_sig_spec(sigs, pk, sig) == sigs.push((pk, sig)),
    decreases sigs.len(),
{
    if sigs.len() == 0 {
        assert(insert_sig_spec(sigs, pk, sig) =~= sigs.push((pk, sig)));
    } else {
        assert(forall|j: int| 0 <= j < sigs.skip(1).len() ==> (#[trigger] sigs.skip(1)[j]).0 != pk);
        lemma_insert_sig_absent(sigs.skip(1), pk, sig);
        assert(seq![sigs[0]] + sigs.skip(1).push((pk, sig)) =~= sigs.push((pk, sig)));
    }
}

/// Compares two byte vectors.
pub fn bytes_eq(a: &Vec<u8>, b: &Vec<u8>) -> (r: bool)
    ensures
        r == (a@ == b@),
{
    if a.len() != b.len() {
        proof {
            assert(a@ != b@);
        }
        return false;
    }
    let mut i: usize = 0;
    while i < a.len()
        invariant
            a@.len() == b@.len(),
            i <= a@.len(),
            forall|j: int| 0 <= j < i ==> a@[j] == b@[j],
        decreases a@.len() - i,
    {
        if a[i] != b[i] {
            return false;
        }
        i += 1;
    }
    proof {
        assert(a@ =~= b@);
    }
    true
}

/// Binds `pk` to `sig` in a signature mapping: replaces the first entry with
/// that key, or appends the pair where no entry has it.
pub fn insert_sig(sigs: &mut Vec<(Vec<u8>, Vec<u8>)>, pk: Vec<u8>, sig: Vec<u8>)
    ensures
        sigs_view(*final(sigs)) == insert_sig_spec(sigs_view(*old(sigs)), pk@, sig@),
{
    let ghost orig = sigs_view(*sigs);
    let mut i: usize = 0;
    while i < sigs.len()
        invariant
            sigs_view(*sigs) == orig,
            orig == sigs_view(*old(sigs)),
            i <= sigs@.len(),
            orig.len() == sigs@.len(),
            forall|j: int| 0 <= j < i ==> (#[trigger] orig[j]).0 != pk@,
        decreases sigs@.len() - i,
    {
        if bytes_eq(&sigs[i].0, &pk) {
            proof {
                assert(orig[i as int].0 == pk@);
            }
            let _ = sigs.remove(i);
            sigs.insert(i, (pk, sig));
            proof {
                lemma_insert_sig_found(orig, pk@, sig@, i as int);
                assert(insert_sig_spec(orig, pk@, sig@) == orig.update(i as int, (pk@, sig@)));
                assert(sigs_view(*sigs) =~~= orig.update(i as int, (pk@, sig@)));
            }
            return ;
        }
        i += 1;
    }
    sigs.push((pk, sig));
    proof {
        lemma_insert_sig_absent(orig, pk@, sig@);
        assert(sigs_view(*sigs) =~= orig.push((pk@, sig@)));
    }
}

/// The mathematical value of a signature mapping.
pub open spec fn sigs_view(sigs: Vec<(Vec<u8>, Vec<u8>)>) -> Seq<(Seq<u8>, Seq<u8>)> {
    Seq::new(sigs@.len(), |i: int| (sigs@[i].0@, sigs@[i].1@))
}

impl PsbtInput {
    /// A copy of the metadata entry.
    pub fn duplicate(&self) -> (r: PsbtInput)
        ensures
            r@ == self@,
    {
        let witness_utxo = match &self.witness_utxo {
            Some(u) => Some(TxOut { value: u.value, script_pubkey: clone_bytes(&u.script_pubkey) }),
            None => None,
        };
        let witness_script = match &self.witness_script {
            Some(s) => Some(clone_bytes(s)),
            None => None,
        };
        let mut partial_sigs: Vec<(Vec<u8>, Vec<u8>)> = Vec::new();
        let mut i: usize = 0;
        while i < self.partial_sigs.len()
            invariant
                i <= self.partial_sigs@.len(),
                partial_sigs@.len() == i,
                forall|j: int| 0 <= j < i ==> (#[trigger] partial_sigs@[j]).0@
                    == self.partial_sigs@[j].0@ && partial_sigs@[j].1@ == self.partial_sigs@[j].1@,
            decreases self.partial_sigs@.len() - i,
        {
            let entry = (clone_bytes(&self.partial_sigs[i].0), clone_bytes(&self.partial_sigs[i].1));
            partial_sigs.push(entry);
            i += 1;
        }
        let r = PsbtInput { witness_utxo, witness_script, partial_sigs };
        proof {
            assert(r@.partial_sigs =~= self@.partial_sigs);
            assert(r@ =~= self@);
        }
        r
    }
}

impl Psbt {
    /// A copy of the container.
    pub fn duplicate(&self) -> (r: Psbt)
        ensures
            r@ == self@,
    {
        let mut inputs: Vec<PsbtInput> = Vec::new();
        let mut i: usize = 0;
        while i < self.inputs.len()
            invariant
                i <= self.inputs@.len(),
                inputs@.len() == i,
                forall|j: int| 0 <= j < i ==> (#[trigger] inputs@[j])@ == self.inputs@[j]@,
            decreases self.inputs@.len() - i,
        {
            inputs.push(self.inputs[i].duplicate());
            i += 1;
        }
        let r = Psbt { tx: self.tx.duplicate(), inputs };
        proof {
            assert(r@.inputs =~= self@.inputs);
            assert(r@ =~= self@);
        }
        r
    }
}

} // verus!
