//! The transaction-proof service: its request, response and stored-proof
//! types, and the pure rules its request handlers follow. The handlers'
//! transport — HTTP endpoints and the RPC calls behind them — lives with
//! the surrounding program; everything it decides from the values it
//! reads is here.

use vstd::prelude::*;
use vstd::string::StringExecFns;

verus! {

/// A stored proof that a transaction paid a recipient.
#[derive(Debug, Clone)]
pub struct TransactionProof {
    pub tx_id: String,
    pub tx_key: String,
    pub recipient_address: String,
    pub amount: Option<u64>,
    pub proof_id: String,
}

/// A request to validate a transaction against its key and recipient.
#[derive(Debug, Clone)]
pub struct ValidationRequest {
    pub tx_id: String,
    pub tx_key: String,
    pub recipient_address: String,
}

/// The outcome of a validation request.
#[derive(Debug, Clone)]
pub struct ValidationResponse {
    pub valid: bool,
    pub amount: Option<u64>,
    pub message: String,
}

/// A request to generate a proof for a transaction.
#[derive(Debug, Clone)]
pub struct ProofRequest {
    pub tx_id: String,
    pub recipient_address: String,
}

/// The outcome of a proof-generation request.
#[derive(Debug, Clone)]
pub struct ProofResponse {
    pub proof_id: String,
    pub tx_key: String,
    pub message: String,
}

/// The two RPC endpoints the service talks to: a daemon, and optionally
/// a wallet.
#[derive(Debug, Clone)]
pub struct MoneroService {
    pub daemon_url: String,
    pub wallet_url: Option<String>,
}

impl MoneroService {
    /// Configures the service with its daemon endpoint and, when one is
    /// given, its wallet endpoint.
    pub fn new(daemon_url: &str, wallet_url: Option<&str>) -> (r: MoneroService)
        ensures
            r.daemon_url@ == daemon_url@,
            match (r.wallet_url, wallet_url) {
                (Some(stored), Some(given)) => stored@ == given@,
                (None, None) => true,
                _ => false,
            },
    {
        MoneroService {
            daemon_url: String::from_str(daemon_url),
            wallet_url: match wallet_url {
                Some(url) => Some(String::from_str(url)),
                None => None,
            },
        }
    }
}

/// Whether a stored proof answers a validation request: all three of its
/// identifying fields must match.
pub open spec fn spec_matches(proof: TransactionProof, request: ValidationRequest) -> bool {
    &&& proof.tx_id@ == request.tx_id@
    &&& proof.tx_key@ == request.tx_key@
    &&& proof.recipient_address@ == request.recipient_address@
}

/// Whether `proof` answers `request`.
pub fn proof_matches(proof: &TransactionProof, request: &ValidationRequest) -> (r: bool)
    ensures
        r == spec_matches(*proof, *request),
{
    proof.tx_id == request.tx_id && proof.tx_key == request.tx_key && proof.recipient_address
        == request.recipient_address
}

/// The amount recorded by the first stored proof that answers `request`,
/// if any does.
pub open spec fn spec_local_amount(
    proofs: Seq<TransactionProof>,
    request: ValidationRequest,
) -> Option<u64>
    decreases proofs.len(),
{
    if proofs.len() == 0 {
        None
    } else if spec_matches(proofs[0], request) {
        proofs[0].amount
    } else {
        spec_local_amount(proofs.drop_first(), request)
    }
}

/// The stored proof and the response that one accepted proof-generation
/// request produces, from the transaction key and amount the RPC
/// endpoints reported and the fresh proof identifier.
pub fn assemble_proof(
    request: &ProofRequest,
    tx_key: &str,
    amount: Option<u64>,
    proof_id: &str,
) -> (r: (TransactionProof, ProofResponse))
    ensures
        r.0.tx_id@ == request.tx_id@,
        r.0.tx_key@ == tx_key@,
        r.0.recipient_address@ == request.recipient_address@,
        r.0.amount == amount,
        r.0.proof_id@ == proof_id@,
        r.1.proof_id@ == proof_id@,
        r.1.tx_key@ == tx_key@,
        r.1.message@ == "Proof generated successfully using Monero RPC"@,
{
    let proof = TransactionProof {
        tx_id: request.tx_id.clone(),
        tx_key: String::from_str(tx_key),
        recipient_address: request.recipient_address.clone(),
        amount,
        proof_id: String::from_str(proof_id),
    };
    let response = ProofResponse {
        proof_id: String::from_str(proof_id),
        tx_key: String::from_str(tx_key),
        message: String::from_str("Proof generated successfully using Monero RPC"),
    };
    (proof, response)
}

/// The response to a validation request, given the verdict and amount
/// the daemon reported and the proofs the service has stored: the
/// daemon's amount when it gave one, else the amount of the first stored
/// proof answering the request; and a message that names the verdict.
pub fn resolve_validation(
    valid: bool,
    rpc_amount: Option<u64>,
    proofs: &Vec<TransactionProof>,
    request: &ValidationRequest,
) -> (r: ValidationResponse)
    ensures
        r.valid == valid,
        valid ==> r.message@ == "Transaction validated successfully using Monero RPC"@,
        !valid ==> r.message@ == "Transaction validation failed"@,
        rpc_amount is Some ==> r.amount == rpc_amount,
        rpc_amount is None ==> r.amount == spec_local_amount(proofs@, *request),
{
    let amount: Option<u64> = match rpc_amount {
        Some(a) => Some(a),
        None => local_amount(proofs, request),
    };
    let message = if valid {
        String::from_str("Transaction validated successfully using Monero RPC")
    } else {
        String::from_str("Transaction validation failed")
    };
    ValidationResponse { valid, amount, message }
}

/// The amount of the first stored proof that answers `request`.
fn local_amount(proofs: &Vec<TransactionProof>, request: &ValidationRequest) -> (r: Option<u64>)
    ensures
        r == spec_local_amount(proofs@, *request),
{
    let n = proofs.len();
    let mut i: usize = 0;
    proof {
        assert(proofs@.skip(0) =~= proofs@);
    }
    while i < n
        invariant
            i <= n,
            n == proofs@.len(),
            spec_local_amount(proofs@, *request) == spec_local_amount(
                proofs@.skip(i as int),
                *request,
            ),
        decreases n - i,
    {
        let p = &proofs[i];
        assert(proofs@.skip(i as int)[0] == proofs@[i as int]);
        if proof_matches(p, request) {
            return p.amount;
        }
        proof {
            assert(proofs@.skip(i as int).drop_first() =~= proofs@.skip(i as int + 1));
        }
        i = i + 1;
    }
    proof {
        assert(proofs@.skip(n as int) =~= Seq::<TransactionProof>::empty());
    }
    None
}

} // verus!
