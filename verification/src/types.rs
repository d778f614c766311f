use vstd::prelude::*;

verus! {

/// Reference to the output being spent: the id of the transaction that
/// created it and the index of the output within that transaction.
#[derive(Clone, Debug)]
pub struct OutPoint {
    /// 32-byte transaction id.
    pub txid: Vec<u8>,
    /// Index of the output within the referenced transaction.
    pub vout: u32,
}

/// One transaction input: the previous output it spends, the legacy script,
/// the sequence number, and the witness stack (empty while unsigned).
#[derive(Clone, Debug)]
pub struct TxIn {
    pub previous_output: OutPoint,
    pub script_sig: Vec<u8>,
    pub sequence: u32,
    pub witness: Vec<Vec<u8>>,
}

/// One transaction output: its value in satoshis and its locking script.
/// Also used to describe a previous output ("prevout") being spent.
#[derive(Clone, Debug)]
pub struct TxOut {
    pub value: u64,
    pub script_pubkey: Vec<u8>,
}

/// An in-memory transaction: ordered inputs and outputs plus the version and
/// locktime metadata that the signature digests commit to.
#[derive(Clone, Debug)]
pub struct Transaction {
    pub version: u32,
    pub lock_time: u32,
    pub inputs: Vec<TxIn>,
    pub outputs: Vec<TxOut>,
}

/// Mathematical model of an `OutPoint`.
pub ghost struct SpecOutPoint {
    pub txid: Seq<u8>,
    pub vout: u32,
}

/// Mathematical model of a `TxIn`.
pub ghost struct SpecTxIn {
    pub previous_output: SpecOutPoint,
    pub script_sig: Seq<u8>,
    pub sequence: u32,
    pub witness: Seq<Seq<u8>>,
}

/// Mathematical model of a `TxOut`.
pub ghost struct SpecTxOut {
    pub value: u64,
    pub script_pubkey: Seq<u8>,
}

/// Mathematical model of a `Transaction`.
pub ghost struct SpecTransaction {
    pub version: u32,
    pub lock_time: u32,
    pub inputs: Seq<SpecTxIn>,
    pub outputs: Seq<SpecTxOut>,
}

impl View for OutPoint {
    type V = SpecOutPoint;

    open spec fn view(&self) -> SpecOutPoint {
        SpecOutPoint { txid: self.txid@, vout: self.vout }
    }
}

impl View for TxIn {
    type V = SpecTxIn;

    open spec fn view(&self) -> SpecTxIn {
        SpecTxIn {
            previous_output: self.previous_output@,
            script_sig: self.script_sig@,
            sequence: self.sequence,
            witness: self.witness.deep_view(),
        }
    }
}

impl View for TxOut {
    type V = SpecTxOut;

    open spec fn view(&self) -> SpecTxOut {
        SpecTxOut { value: self.value, script_pubkey: self.script_pubkey@ }
    }
}

/// The view of a sequence of inputs, element by element.
pub open spec fn spec_inputs_view(inputs: Seq<TxIn>) -> Seq<SpecTxIn> {
    inputs.map(|i: int, x: TxIn| x@)
}

/// The view of a sequence of outputs, element by element.
pub open spec fn spec_outputs_view(outputs: Seq<TxOut>) -> Seq<SpecTxOut> {
    outputs.map(|i: int, x: TxOut| x@)
}

impl View for Transaction {
    type V = SpecTransaction;

    open spec fn view(&self) -> SpecTransaction {
        SpecTransaction {
            version: self.version,
            lock_time: self.lock_time,
            inputs: spec_inputs_view(self.inputs@),
            outputs: spec_outputs_view(self.outputs@),
        }
    }
}

/// Sighash type for ECDSA (segwit v0) signatures, selecting which transaction
/// fields the digest commits to. `NoOutputs` is the type that commits to no
/// output at all (byte 0x02).
#[derive(Clone, Copy, PartialEq, Eq, Structural, Debug)]
pub enum EcdsaSighashType {
    All,
    NoOutputs,
    Single,
    AllPlusAnyoneCanPay,
    NoOutputsPlusAnyoneCanPay,
    SinglePlusAnyoneCanPay,
}

/// Sighash type for Taproot (Schnorr) signatures. `Default` behaves as `All`
/// but is encoded as zero and omits the trailing type byte in the witness;
/// `NoOutputs` is the type that commits to no output at all (byte 0x02).
#[derive(Clone, Copy, PartialEq, Eq, Structural, Debug)]
pub enum TapSighashType {
    Default,
    All,
    NoOutputs,
    Single,
    AllPlusAnyoneCanPay,
    NoOutputsPlusAnyoneCanPay,
    SinglePlusAnyoneCanPay,
}

/// Everything that can go wrong while computing a digest, signing it, or
/// assembling a witness.
#[derive(Clone, Copy, PartialEq, Eq, Structural, Debug)]
pub enum SignError {
    /// An input (or, for `Single` sighashes, output) index is out of range.
    IndexError,
    /// The Taproot all-prevouts set does not have one entry per input.
    PrevoutCountMismatch,
    /// A locking script does not have the expected P2WPKH shape.
    ScriptError,
    /// The private key bytes are not a valid secp256k1 secret key.
    InvalidKey,
    /// A digest (or leaf hash) is not exactly 32 bytes long.
    InvalidDigestLength,
    /// The Taproot witness stack lacks a required item.
    MissingWitnessItem,
}

} // verus!
