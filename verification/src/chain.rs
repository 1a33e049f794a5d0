//! Bitcoin transactions and scripts, as far as the channel code reads them.

use vstd::prelude::*;

use crate::text::{decimal, digits, join_three};

verus! {

/// A transaction identifier, in the byte order of the hash.
#[derive(Debug, Clone, Copy)]
pub struct Txid {
    pub bytes: [u8; 32],
}

/// An output of a transaction.
#[derive(Debug, Clone, Copy)]
pub struct OutPoint {
    pub txid: Txid,
    pub vout: u32,
}

/// An input of a transaction that is not signed by a witness yet.
#[derive(Debug, Clone)]
pub struct TxIn {
    pub previous_output: OutPoint,
    pub script_sig: Vec<u8>,
    pub sequence: u32,
}

/// An amount in satoshi, locked by a script.
#[derive(Debug, Clone)]
pub struct TxOut {
    pub value: u64,
    pub script_pubkey: Vec<u8>,
}

/// A transaction.
#[derive(Debug, Clone)]
pub struct Transaction {
    pub version: i32,
    pub lock_time: u32,
    pub input: Vec<TxIn>,
    pub output: Vec<TxOut>,
}

/// A transaction that is being put together, with the number of output records that go
/// with it.
#[derive(Debug, Clone)]
pub struct Psbt {
    pub unsigned_tx: Transaction,
    pub output_records: usize,
}

/// What an input says.
pub struct TxInView {
    pub txid: Seq<u8>,
    pub vout: u32,
    pub script_sig: Seq<u8>,
    pub sequence: u32,
}

/// What an output says.
pub struct TxOutView {
    pub value: u64,
    pub script: Seq<u8>,
}

/// What a transaction says.
#[verifier::ext_equal]
pub struct TxView {
    pub version: i32,
    pub lock_time: u32,
    pub input: Seq<TxInView>,
    pub output: Seq<TxOutView>,
}

/// What a transaction that is being put together says.
#[verifier::ext_equal]
pub struct PsbtView {
    pub unsigned_tx: TxView,
    pub output_records: nat,
}

impl View for TxIn {
    type V = TxInView;

    open spec fn view(&self) -> TxInView {
        TxInView {
            txid: self.previous_output.txid.bytes@,
            vout: self.previous_output.vout,
            script_sig: self.script_sig@,
            sequence: self.sequence,
        }
    }
}

impl View for TxOut {
    type V = TxOutView;

    open spec fn view(&self) -> TxOutView {
        TxOutView { value: self.value, script: self.script_pubkey@ }
    }
}

impl View for Transaction {
    type V = TxView;

    open spec fn view(&self) -> TxView {
        TxView {
            version: self.version,
            lock_time: self.lock_time,
            input: Seq::new(self.input@.len(), |i: int| self.input@[i]@),
            output: Seq::new(self.output@.len(), |i: int| self.output@[i]@),
        }
    }
}

impl View for Psbt {
    type V = PsbtView;

    open spec fn view(&self) -> PsbtView {
        PsbtView { unsigned_tx: self.unsigned_tx@, output_records: self.output_records as nat }
    }
}

/// Whether a script is an `OP_RETURN` script.
pub open spec fn is_op_return(script: Seq<u8>) -> bool {
    script.len() > 0 && script[0] == 0x6a
}

/// The `OP_RETURN` script that carries at most 75 bytes of data.
pub open spec fn op_return_script(data: Seq<u8>) -> Seq<u8> {
    seq![0x6au8, data.len() as u8] + data
}

/// The hash by which a transaction is known: the double SHA-256 digest of what it says.
pub uninterp spec fn txid_of(tx: TxView) -> Seq<u8>;

/// The text of a transaction identifier: the bytes in reverse order, in hexadecimal.
pub open spec fn txid_text(bytes: Seq<u8>) -> Seq<char> {
    crate::codec::lower_hex(bytes.reverse())
}

/// The text of an output: the transaction identifier, a colon and the index.
pub open spec fn outpoint_text(txid: Seq<u8>, vout: u32) -> Seq<char> {
    txid_text(txid) + ":"@ + digits(vout as nat)
}

/// The position of the first output whose script is an `OP_RETURN` script, from `at` on.
pub open spec fn op_return_from(outputs: Seq<TxOutView>, at: int) -> Option<int>
    decreases outputs.len() - at,
{
    if at < 0 || at >= outputs.len() {
        None
    } else if is_op_return(outputs[at].script) {
        Some(at)
    } else {
        op_return_from(outputs, at + 1)
    }
}

/// The position of the first output that a script locks, from `at` on.
pub open spec fn script_from(outputs: Seq<TxOutView>, script: Seq<u8>, at: int) -> Option<int>
    decreases outputs.len() - at,
{
    if at < 0 || at >= outputs.len() {
        None
    } else if outputs[at].script == script {
        Some(at)
    } else {
        script_from(outputs, script, at + 1)
    }
}

/// `bitcoin::Script::is_op_return`: whether the first byte of the script is `OP_RETURN`.
#[verifier::external_body]
fn script_is_op_return(script: &[u8]) -> (r: bool)
    ensures
        r == is_op_return(script@),
{
    bitcoin::Script::from_bytes(script).is_op_return()
}

/// `bitcoin::ScriptBuf::new_op_return` of 32 bytes: `OP_RETURN`, the length and the bytes.
#[verifier::external_body]
fn new_op_return(data: &[u8; 32]) -> (r: Vec<u8>)
    ensures
        r@ == op_return_script(data@),
{
    bitcoin::ScriptBuf::new_op_return(data).into_bytes()
}

/// `bitcoin::Transaction::compute_txid`: the hash of the transaction, which is given the name
/// `txid_of`.
#[verifier::external_body]
fn compute_txid_bytes(tx: &Transaction) -> (r: [u8; 32])
    ensures
        r@ == txid_of(tx@),
{
    bitcoin::hashes::Hash::to_byte_array(bitcoin::Transaction {
        version: bitcoin::transaction::Version(tx.version),
        lock_time: bitcoin::absolute::LockTime::from_consensus(tx.lock_time),
        input: tx.input.iter().map(|i| bitcoin::TxIn {
            previous_output: bitcoin::OutPoint::new(
                bitcoin::hashes::Hash::from_byte_array(i.previous_output.txid.bytes), i.previous_output.vout),
            script_sig: i.script_sig.clone().into(),
            sequence: bitcoin::Sequence(i.sequence),
            witness: Default::default(),
        }).collect(),
        output: tx.output.iter().map(|o| bitcoin::TxOut {
            value: bitcoin::Amount::from_sat(o.value), script_pubkey: o.script_pubkey.clone().into(),
        }).collect(),
    }.compute_txid())
}

/// `bitcoin::Txid` displayed: the bytes in reverse order, in lower-case hexadecimal.
#[verifier::external_body]
fn display_txid(bytes: &[u8; 32]) -> (r: String)
    ensures
        r@ == txid_text(bytes@),
{
    let txid: bitcoin::Txid = bitcoin::hashes::Hash::from_byte_array(*bytes);
    txid.to_string()
}

/// A copy of some bytes.
fn copy_bytes(bytes: &Vec<u8>) -> (r: Vec<u8>)
    ensures
        r@ == bytes@,
{
    let mut r: Vec<u8> = Vec::new();
    let mut i: usize = 0;
    while i < bytes.len()
        invariant
            i <= bytes.len(),
            r@ == bytes@.subrange(0, i as int),
        decreases bytes.len() - i,
    {
        r.push(bytes[i]);
        i += 1;
    }
    r
}

impl Txid {
    /// The text of the identifier.
    pub fn text(&self) -> (r: String)
        ensures
            r@ == txid_text(self.bytes@),
    {
        display_txid(&self.bytes)
    }
}

impl OutPoint {
    /// The text of the output.
    pub fn text(&self) -> (r: String)
        ensures
            r@ == outpoint_text(self.txid.bytes@, self.vout),
    {
        join_three(self.txid.text().as_str(), ":", decimal(self.vout as u64).as_str())
    }
}

impl Transaction {
    /// The same transaction.
    pub fn copy(&self) -> (r: Transaction)
        ensures
            r@ == self@,
    {
        let mut input: Vec<TxIn> = Vec::new();
        let mut i: usize = 0;
        while i < self.input.len()
            invariant
                i <= self.input.len(),
                input.len() == i,
                forall|j: int| 0 <= j < i ==> (#[trigger] input@[j])@ == self.input@[j]@,
            decreases self.input.len() - i,
        {
            let script_sig: Vec<u8> = copy_bytes(&self.input[i].script_sig);
            input.push(
                TxIn {
                    previous_output: self.input[i].previous_output,
                    script_sig,
                    sequence: self.input[i].sequence,
                },
            );
            i += 1;
        }
        let mut output: Vec<TxOut> = Vec::new();
        i = 0;
        while i < self.output.len()
            invariant
                i <= self.output.len(),
                output.len() == i,
                forall|j: int| 0 <= j < i ==> (#[trigger] output@[j])@ == self.output@[j]@,
            decreases self.output.len() - i,
        {
            let script_pubkey: Vec<u8> = copy_bytes(&self.output[i].script_pubkey);
            output.push(TxOut { value: self.output[i].value, script_pubkey });
            i += 1;
        }
        let r: Transaction = Transaction {
            version: self.version,
            lock_time: self.lock_time,
            input,
            output,
        };
        assert(r@.input =~= self@.input);
        assert(r@.output =~= self@.output);
        r
    }

    /// The identifier of the transaction.
    pub fn compute_txid(&self) -> (r: Txid)
        ensures
            r.bytes@ == txid_of(self@),
    {
        Txid { bytes: compute_txid_bytes(self) }
    }
}

/// The position of the `OP_RETURN` output, if present.
pub fn op_return_position(tx: &Transaction) -> (r: Option<usize>)
    ensures
        match r {
            Some(i) => op_return_from(tx@.output, 0) == Some(i as int) && i < tx.output.len(),
            None => op_return_from(tx@.output, 0) is None,
        },
{
    let mut i: usize = 0;
    while i < tx.output.len()
        invariant
            i <= tx.output.len(),
            op_return_from(tx@.output, 0) == op_return_from(tx@.output, i as int),
        decreases tx.output.len() - i,
    {
        if script_is_op_return(tx.output[i].script_pubkey.as_slice()) {
            return Some(i);
        }
        i += 1;
    }
    None
}

/// Whether the transaction is colored, that is, has an `OP_RETURN` output.
pub fn is_tx_colored(tx: &Transaction) -> (r: bool)
    ensures
        r == (op_return_from(tx@.output, 0) is Some),
        r == exists|i: int| 0 <= i < tx@.output.len() && is_op_return(#[trigger] tx@.output[i].script),
{
    let r: bool = op_return_position(tx).is_some();
    proof {
        lemma_op_return_from(tx@.output, 0);
    }
    r
}

/// The search for an `OP_RETURN` output finds the first one there is.
pub proof fn lemma_op_return_from(outputs: Seq<TxOutView>, at: int)
    requires
        0 <= at,
    ensures
        match op_return_from(outputs, at) {
            Some(i) => at <= i < outputs.len() && is_op_return(outputs[i].script) && forall|j: int|
                at <= j < i ==> !is_op_return(#[trigger] outputs[j].script),
            None => forall|j: int|
                at <= j < outputs.len() ==> !is_op_return(#[trigger] outputs[j].script),
        },
    decreases outputs.len() - at,
{
    if at < outputs.len() && !is_op_return(outputs[at].script) {
        lemma_op_return_from(outputs, at + 1);
    }
}

/// The search for a script finds the first output that it locks.
pub proof fn lemma_script_from(outputs: Seq<TxOutView>, script: Seq<u8>, at: int)
    requires
        0 <= at,
    ensures
        match script_from(outputs, script, at) {
            Some(i) => at <= i < outputs.len() && outputs[i].script == script && forall|j: int|
                at <= j < i ==> (#[trigger] outputs[j]).script != script,
            None => forall|j: int| at <= j < outputs.len() ==> (#[trigger] outputs[j]).script != script,
        },
    decreases outputs.len() - at,
{
    if at < outputs.len() && outputs[at].script != script {
        lemma_script_from(outputs, script, at + 1);
    }
}

/// Whether two byte strings are the same.
fn same_script(a: &Vec<u8>, b: &Vec<u8>) -> (r: bool)
    ensures
        r == (a@ == b@),
{
    if a.len() != b.len() {
        return false;
    }
    let mut i: usize = 0;
    while i < a.len()
        invariant
            i <= a.len(),
            a.len() == b.len(),
            forall|j: int| 0 <= j < i ==> a@[j] == b@[j],
        decreases a.len() - i,
    {
        if a[i] != b[i] {
            return false;
        }
        i += 1;
    }
    assert(a@ =~= b@);
    true
}

/// The position of the first output that `script` locks.
pub fn script_position(outputs: &Vec<TxOut>, script: &Vec<u8>) -> (r: Option<usize>)
    ensures
        match r {
            Some(i) => script_from(outputs_view(outputs@), script@, 0) == Some(i as int) && i
                < outputs.len(),
            None => script_from(outputs_view(outputs@), script@, 0) is None,
        },
{
    let mut i: usize = 0;
    while i < outputs.len()
        invariant
            i <= outputs.len(),
            script_from(outputs_view(outputs@), script@, 0) == script_from(
                outputs_view(outputs@),
                script@,
                i as int,
            ),
        decreases outputs.len() - i,
    {
        if same_script(&outputs[i].script_pubkey, script) {
            return Some(i);
        }
        i += 1;
    }
    None
}

/// What some outputs say.
pub open spec fn outputs_view(outputs: Seq<TxOut>) -> Seq<TxOutView> {
    Seq::new(outputs.len(), |i: int| outputs[i]@)
}

impl PsbtView {
    /// The transaction with `hash` in its `OP_RETURN` output: in the first one there is, else
    /// in a new output without value at the end.
    pub open spec fn colored(self, hash: Seq<u8>) -> PsbtView {
        let tx = self.unsigned_tx;
        match op_return_from(tx.output, 0) {
            Some(i) => PsbtView {
                unsigned_tx: TxView {
                    output: tx.output.update(
                        i,
                        TxOutView { value: tx.output[i].value, script: op_return_script(hash) },
                    ),
                    ..tx
                },
                output_records: self.output_records,
            },
            None => PsbtView {
                unsigned_tx: TxView {
                    output: tx.output.push(
                        TxOutView { value: 0, script: op_return_script(hash) },
                    ),
                    ..tx
                },
                output_records: tx.output.len() + 1,
            },
        }
    }
}

impl Psbt {
    /// Puts `hash` into the `OP_RETURN` output, and adds that output where there is none.
    pub fn embed(&mut self, hash: &[u8; 32])
        ensures
            final(self)@ == old(self)@.colored(hash@),
    {
        let ghost before = self@;
        let script: Vec<u8> = new_op_return(hash);
        match op_return_position(&self.unsigned_tx) {
            Some(i) => {
                self.unsigned_tx.output[i].script_pubkey = script;
            },
            None => {
                self.unsigned_tx.output.push(TxOut { value: 0, script_pubkey: script });
                self.output_records = self.unsigned_tx.output.len();
            },
        }
        assert(self@.unsigned_tx.output =~= before.colored(hash@).unsigned_tx.output);
        assert(self@.unsigned_tx.input =~= before.unsigned_tx.input);
    }
}

/// Whether no input of a transaction is signed by a script.
pub open spec fn is_unsigned(tx: TxView) -> bool {
    forall|i: int| 0 <= i < tx.input.len() ==> (#[trigger] tx.input[i]).script_sig.len() == 0
}

/// Whether what a transaction spends covers what it pays, as far as is known: the value of an
/// input is not, and without inputs nothing can be paid.
pub open spec fn is_extractable(tx: TxView) -> bool {
    tx.input.len() > 0 || forall|i: int|
        0 <= i < tx.output.len() ==> (#[trigger] tx.output[i]).value == 0
}

impl Psbt {
    /// Begins to put a transaction together; none, where an input is signed already.
    pub fn from_unsigned_tx(tx: Transaction) -> (r: Option<Psbt>)
        ensures
            match r {
                Some(psbt) => is_unsigned(tx@) && psbt.unsigned_tx == tx && psbt.output_records
                    == tx.output.len(),
                None => !is_unsigned(tx@),
            },
    {
        let mut i: usize = 0;
        while i < tx.input.len()
            invariant
                i <= tx.input.len(),
                forall|j: int|
                    0 <= j < i ==> (#[trigger] tx@.input[j]).script_sig.len() == 0,
            decreases tx.input.len() - i,
        {
            if tx.input[i].script_sig.len() != 0 {
                assert(tx@.input[i as int].script_sig.len() != 0);
                return None;
            }
            assert(tx@.input[i as int].script_sig.len() == 0);
            i += 1;
        }
        let output_records: usize = tx.output.len();
        Some(Psbt { unsigned_tx: tx, output_records })
    }

    /// The transaction that was put together; none, where it pays more than it spends.
    pub fn extract_tx(self) -> (r: Option<Transaction>)
        ensures
            match r {
                Some(tx) => is_extractable(self@.unsigned_tx) && tx == self.unsigned_tx,
                None => !is_extractable(self@.unsigned_tx),
            },
    {
        if self.unsigned_tx.input.len() == 0 {
            let mut i: usize = 0;
            while i < self.unsigned_tx.output.len()
                invariant
                    i <= self.unsigned_tx.output.len(),
                    self.unsigned_tx.input.len() == 0,
                    forall|j: int|
                        0 <= j < i ==> (#[trigger] self@.unsigned_tx.output[j]).value == 0,
                decreases self.unsigned_tx.output.len() - i,
            {
                if self.unsigned_tx.output[i].value != 0 {
                    assert(self@.unsigned_tx.output[i as int].value != 0);
                    return None;
                }
                assert(self@.unsigned_tx.output[i as int].value == 0);
                i += 1;
            }
        }
        Some(self.unsigned_tx)
    }
}

/// A colored transaction carries the hash in its first `OP_RETURN` output, keeps every other
/// output, and coloring it again with another hash replaces only that.
pub proof fn law_coloring(psbt: PsbtView, hash: Seq<u8>, again: Seq<u8>)
    ensures
        ({
            let colored = psbt.colored(hash);
            let outputs = psbt.unsigned_tx.output;
            &&& op_return_from(colored.unsigned_tx.output, 0) matches Some(i)
            &&& 0 <= i < colored.unsigned_tx.output.len()
            &&& colored.unsigned_tx.output[i].script == op_return_script(hash)
            &&& forall|j: int|
                0 <= j < outputs.len() && j != i ==> colored.unsigned_tx.output[j] == outputs[j]
            &&& colored.unsigned_tx.input == psbt.unsigned_tx.input
            &&& colored.unsigned_tx.output.len() == if op_return_from(outputs, 0) is Some {
                outputs.len()
            } else {
                outputs.len() + 1
            }
        }),
        psbt.colored(hash).colored(again) == psbt.colored(again),
{
    let outputs = psbt.unsigned_tx.output;
    let colored = psbt.colored(hash).unsigned_tx.output;
    lemma_op_return_from(outputs, 0);
    lemma_op_return_from(colored, 0);
    let place = match op_return_from(outputs, 0) {
        Some(i) => i,
        None => outputs.len() as int,
    };
    assert(is_op_return(op_return_script(hash)));
    assert(is_op_return(colored[place].script));
    assert(forall|j: int| 0 <= j < place ==> colored[j] == outputs[j]);
    if op_return_from(colored, 0) != Some(place) {
        let other = op_return_from(colored, 0)->0;
        assert(other < place);
        assert(!is_op_return(outputs[other].script));
        assert(false);
    }
    assert(psbt.colored(hash).colored(again) =~= psbt.colored(again));
}

/// The hash of a state is carried behind the opcode for unspendable data and the one that pushes
/// 32 bytes. It replaces the script of the first output that is unspendable already, whose value
/// stays; without one, an output of no value goes behind the others. Nothing else changes.
pub proof fn law_hash_carried(psbt: PsbtView, hash: Seq<u8>, at: int)
    requires
        hash.len() == 32,
        0 <= at <= psbt.unsigned_tx.output.len(),
        forall|j: int|
            0 <= j < at ==> (#[trigger] psbt.unsigned_tx.output[j]).script.len() == 0
                || psbt.unsigned_tx.output[j].script[0] != 0x6a,
        at < psbt.unsigned_tx.output.len() ==> psbt.unsigned_tx.output[at].script.len() > 0
            && psbt.unsigned_tx.output[at].script[0] == 0x6a,
    ensures
        ({
            let before = psbt.unsigned_tx.output;
            let tx = psbt.colored(hash).unsigned_tx;
            &&& tx.output.len() == if at < before.len() {
                before.len()
            } else {
                before.len() + 1
            }
            &&& tx.output[at].script.len() == 34
            &&& tx.output[at].script[0] == 0x6a
            &&& tx.output[at].script[1] == 0x20
            &&& tx.output[at].script.subrange(2, 34) == hash
            &&& tx.output[at].value == if at < before.len() {
                before[at].value
            } else {
                0
            }
            &&& forall|j: int| 0 <= j < before.len() && j != at ==> tx.output[j] == before[j]
            &&& tx.input == psbt.unsigned_tx.input
            &&& tx.version == psbt.unsigned_tx.version
            &&& tx.lock_time == psbt.unsigned_tx.lock_time
            &&& psbt.colored(hash).output_records == if at < before.len() {
                psbt.output_records
            } else {
                before.len() + 1
            }
        }),
{
    let before = psbt.unsigned_tx.output;
    lemma_op_return_from(before, 0);
    match op_return_from(before, 0) {
        Some(i) => {
            if i < at {
                assert(before[i].script[0] != 0x6a);
            }
            if at < i {
                assert(!is_op_return(before[at].script));
            }
        },
        None => {
            if at < before.len() {
                assert(!is_op_return(before[at].script));
            }
        },
    }
    assert(op_return_script(hash).subrange(2, 34) =~= hash);
}

/// A transaction's identifier is written with its last byte first, two digits each, and an output
/// as the identifier of its transaction, a colon and its number.
pub proof fn law_txid_text(a: Seq<u8>, b: Seq<u8>, vout: u32)
    ensures
        txid_text(a + b) == txid_text(b) + txid_text(a),
        txid_text(a).len() == 2 * a.len(),
        a.len() == 1 ==> txid_text(a) == crate::codec::lower_hex(a),
        outpoint_text(a, vout) == txid_text(a) + seq![':'] + digits(vout as nat),
{
    reveal_strlit(":");
    assert(":"@ =~= seq![':']);
    assert((a + b).reverse() =~= b.reverse() + a.reverse());
    let x = b.reverse();
    let y = a.reverse();
    assert(crate::codec::lower_hex(x + y) =~= crate::codec::lower_hex(x)
        + crate::codec::lower_hex(y));
    if a.len() == 1 {
        assert(a.reverse() =~= a);
    }
}

/// A transaction is unsigned if and only if no input of it holds a script, whatever it pays.
pub proof fn law_unsigned(tx: TxView, more: TxInView)
    ensures
        tx.input.len() == 0 ==> is_unsigned(tx),
        is_unsigned((TxView { input: tx.input.push(more), ..tx })) <==> is_unsigned(tx)
            && more.script_sig.len() == 0,
{
    let longer = TxView { input: tx.input.push(more), ..tx };
    if is_unsigned(longer) {
        assert forall|i: int| 0 <= i < tx.input.len() implies (#[trigger] tx.input[i]).script_sig.len()
            == 0 by {
            assert(longer.input[i] == tx.input[i]);
        }
        assert(longer.input[tx.input.len() as int] == more);
    }
}

/// A transaction is told in full: every input by the output that it spends, its script and its
/// sequence, and every output by its value and its script, in their order.
pub proof fn law_transaction_told(psbt: Psbt, i: int)
    ensures
        ({
            let tx = psbt.unsigned_tx;
            &&& psbt@.unsigned_tx == tx@
            &&& psbt@.output_records == psbt.output_records
            &&& tx@.version == tx.version
            &&& tx@.lock_time == tx.lock_time
            &&& tx@.input.len() == tx.input@.len()
            &&& tx@.output.len() == tx.output@.len()
            &&& 0 <= i < tx.input@.len() ==> {
                &&& tx@.input[i].txid == tx.input@[i].previous_output.txid.bytes@
                &&& tx@.input[i].vout == tx.input@[i].previous_output.vout
                &&& tx@.input[i].script_sig == tx.input@[i].script_sig@
                &&& tx@.input[i].sequence == tx.input@[i].sequence
            }
            &&& 0 <= i < tx.output@.len() ==> {
                &&& tx@.output[i].value == tx.output@[i].value
                &&& tx@.output[i].script == tx.output@[i].script_pubkey@
                &&& outputs_view(tx.output@)[i] == tx@.output[i]
            }
        }),
{
}

/// A transaction can be taken out whenever it spends something, whatever it pays; one that spends
/// nothing only where it pays nothing.
pub proof fn law_extractable(tx: TxView, i: int)
    ensures
        tx.input.len() > 0 ==> is_extractable(tx),
        tx.input.len() == 0 && 0 <= i < tx.output.len() && tx.output[i].value > 0
            ==> !is_extractable(tx),
        tx.output.len() == 0 ==> is_extractable(tx),
{
}

} // verus!
