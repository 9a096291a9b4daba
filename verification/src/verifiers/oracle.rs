//! A verifier that checks a price claimed in the proof against an oracle's
//! current price and freshness, read on chain rather than trusted from the
//! proof.
use vstd::prelude::*;
use crate::types::{Address, BPS_DENOMINATOR, KEEPER_VERIFIER_INTERFACE_VERSION};
use crate::bytes::{
    be_i128_at, be_u64_at, be_value, from_twos_complement, lemma_be_value_bound, lemma_pow256_bound,
};

verus! {

/// Errors of the oracle verifier.
#[derive(Clone, Copy, PartialEq, Eq, Structural, Debug)]
pub enum OracleVerifierError {
    AlreadyInitialized,
    NotInitialized,
    InvalidToleranceBps,
}

/// The oracle verifier's configuration.
#[derive(Clone, Copy, PartialEq, Eq, Structural, Debug)]
pub struct OracleConfig {
    /// The oracle read for the current price.
    pub oracle: Address,
    /// Largest accepted deviation of the claimed price, in basis points of
    /// the oracle's price.
    pub tolerance_bps: u32,
    /// Largest accepted age of the oracle's price, in seconds.
    pub staleness_threshold_secs: u64,
}

/// The oracle verifier's state: its configuration once initialized.
pub struct OracleVerifier {
    config: Option<OracleConfig>,
}

impl View for OracleVerifier {
    type V = Option<OracleConfig>;

    closed spec fn view(&self) -> Option<OracleConfig> {
        self.config
    }
}

/// Length of a proof: a 16-byte price and an 8-byte timestamp.
pub const ORACLE_PROOF_LEN: usize = 24;

/// `|claimed - oracle_price| * 10_000 / oracle_price`, with Rust's checked
/// arithmetic: `None` when the difference, its absolute value, the product
/// or the division fails.
pub open spec fn spec_deviation_bps(claimed: i128, oracle_price: i128) -> Option<i128> {
    let diff = claimed - oracle_price;
    if !(i128::MIN < diff <= i128::MAX) {
        None
    } else {
        let n = if diff < 0 { -diff } else { diff };
        if n * 10_000 > i128::MAX {
            None
        } else if oracle_price == 0 {
            None
        } else if oracle_price > 0 {
            Some(((n * 10_000) / (oracle_price as int)) as i128)
        } else {
            Some((-((n * 10_000) / (-oracle_price))) as i128)
        }
    }
}

/// Deviation of `claimed` from `oracle_price`, in basis points of the
/// oracle's price (division truncates toward zero); `None` when any step
/// overflows or the oracle's price is zero.
pub fn deviation_bps(claimed: i128, oracle_price: i128) -> (r: Option<i128>)
    ensures
        r == spec_deviation_bps(claimed, oracle_price),
{
    let diff = match claimed.checked_sub(oracle_price) {
        Some(d) => d,
        None => {
            return None;
        },
    };
    if diff == i128::MIN {
        return None;
    }
    let n = if diff < 0 { -diff } else { diff };
    let scaled = match n.checked_mul(10_000) {
        Some(s) => s,
        None => {
            return None;
        },
    };
    scaled.checked_div(oracle_price)
}

/// What a proof decodes to: `(claimed price, claimed timestamp)` from a
/// 24-byte proof, `None` for any other length.
pub open spec fn spec_decode_proof(proof: Seq<u8>) -> Option<(i128, u64)> {
    if proof.len() != ORACLE_PROOF_LEN {
        None
    } else {
        Some(
            (
                from_twos_complement(be_value(proof.subrange(0, 16))) as i128,
                be_value(proof.subrange(16, 24)) as u64,
            ),
        )
    }
}

/// Decodes a proof: a 16-byte big-endian `i128` price followed by an 8-byte
/// big-endian `u64` timestamp.
pub fn decode_proof(proof: &Vec<u8>) -> (r: Option<(i128, u64)>)
    ensures
        r == spec_decode_proof(proof@),
{
    if proof.len() != ORACLE_PROOF_LEN {
        return None;
    }
    let price = be_i128_at(proof, 0);
    let timestamp = be_u64_at(proof, 16);
    Some((price, timestamp))
}

/// Whether the oracle's price is fresh: its age at `now` (zero if it is
/// from the future) is within the threshold.
pub open spec fn spec_fresh(now: u64, last_updated: u64, threshold: u64) -> bool {
    (if now >= last_updated { now - last_updated } else { 0int }) <= threshold
}

/// Whether a proof is accepted, given the oracle's current price and last update
/// time at `now`.
pub open spec fn spec_oracle_accepts(
    config: Option<OracleConfig>,
    proof: Seq<u8>,
    oracle_price: i128,
    oracle_last_updated: u64,
    now: u64,
) -> bool {
    match config {
        None => false,
        Some(c) => match spec_decode_proof(proof) {
            None => false,
            Some((claimed, _)) => {
                &&& spec_fresh(now, oracle_last_updated, c.staleness_threshold_secs)
                &&& spec_deviation_bps(claimed, oracle_price) matches Some(d)
                &&& d <= c.tolerance_bps
            },
        },
    }
}

/// What the oracle verifier accepts, stated on the raw inputs. Freshness is
/// the oracle's own: whatever timestamp the proof claims, a proof is refused
/// once the oracle's last update lies more than the staleness threshold
/// before `now`. A proof that is not 24 bytes, or a verifier that is not
/// configured, is refused. And a 24-byte proof checked against a fresh,
/// positive oracle price is accepted exactly when its claimed price (the
/// first 16 bytes, big-endian two's complement) deviates from the oracle's
/// price by at most the tolerance: `|claimed - price| * 10_000` fits in an
/// `i128` and, divided by the price (rounded down), is at most
/// `tolerance_bps`.
pub proof fn law_oracle_acceptance(
    c: OracleConfig,
    proof: Seq<u8>,
    price: i128,
    last_updated: u64,
    now: u64,
)
    ensures
        now > last_updated + c.staleness_threshold_secs ==> !spec_oracle_accepts(
            Some(c),
            proof,
            price,
            last_updated,
            now,
        ),
        proof.len() != 24 ==> !spec_oracle_accepts(Some(c), proof, price, last_updated, now),
        !spec_oracle_accepts(None, proof, price, last_updated, now),
        ({
            &&& proof.len() == 24
            &&& price > 0
            &&& now <= last_updated + c.staleness_threshold_secs
        }) ==> {
            let claimed = from_twos_complement(be_value(proof.subrange(0, 16)));
            let dev = if claimed >= price { claimed - price } else { price - claimed };
            spec_oracle_accepts(Some(c), proof, price, last_updated, now) <==> (dev * 10_000
                <= i128::MAX && dev * 10_000 / (price as int) <= c.tolerance_bps)
        },
{
    if proof.len() == 24 && price > 0 && now <= last_updated + c.staleness_threshold_secs {
        let v = be_value(proof.subrange(0, 16));
        lemma_be_value_bound(proof.subrange(0, 16));
        lemma_pow256_bound(16);
        let claimed = from_twos_complement(v);
        assert(i128::MIN <= claimed <= i128::MAX);
        let dev = if claimed >= price { claimed - price } else { price - claimed };
        if dev * 10_000 <= i128::MAX {
            assert(dev * 10_000 / (price as int) <= dev * 10_000) by (nonlinear_arith)
                requires
                    dev >= 0,
                    price >= 1,
            ;
        }
    }
}

impl OracleVerifier {
    /// An unconfigured verifier.
    pub fn new() -> (r: OracleVerifier)
        ensures
            r@ is None,
    {
        OracleVerifier { config: None }
    }

    /// One-time setup. `tolerance_bps` must be at most 10_000.
    pub fn initialize(&mut self, oracle: Address, tolerance_bps: u32, staleness_threshold_secs: u64) -> (r: Result<(), OracleVerifierError>)
        ensures
            match r {
                Ok(()) => {
                    &&& old(self)@ is None
                    &&& tolerance_bps <= BPS_DENOMINATOR
                    &&& final(self)@ == Some(
                        OracleConfig { oracle, tolerance_bps, staleness_threshold_secs },
                    )
                },
                Err(e) => {
                    &&& e == (if old(self)@ is Some {
                        OracleVerifierError::AlreadyInitialized
                    } else {
                        OracleVerifierError::InvalidToleranceBps
                    })
                    &&& (old(self)@ is Some || tolerance_bps > BPS_DENOMINATOR)
                    &&& final(self)@ == old(self)@
                },
            },
    {
        if self.config.is_some() {
            return Err(OracleVerifierError::AlreadyInitialized);
        }
        if tolerance_bps > BPS_DENOMINATOR {
            return Err(OracleVerifierError::InvalidToleranceBps);
        }
        self.config = Some(OracleConfig { oracle, tolerance_bps, staleness_threshold_secs });
        Ok(())
    }

    /// The configured oracle.
    pub fn oracle(&self) -> (r: Result<Address, OracleVerifierError>)
        ensures
            match self@ {
                Some(c) => r == Ok::<Address, OracleVerifierError>(c.oracle),
                None => r == Err::<Address, OracleVerifierError>(OracleVerifierError::NotInitialized),
            },
    {
        match self.config {
            Some(c) => Ok(c.oracle),
            None => Err(OracleVerifierError::NotInitialized),
        }
    }

    /// The configured price tolerance.
    pub fn tolerance_bps(&self) -> (r: Result<u32, OracleVerifierError>)
        ensures
            match self@ {
                Some(c) => r == Ok::<u32, OracleVerifierError>(c.tolerance_bps),
                None => r == Err::<u32, OracleVerifierError>(OracleVerifierError::NotInitialized),
            },
    {
        match self.config {
            Some(c) => Ok(c.tolerance_bps),
            None => Err(OracleVerifierError::NotInitialized),
        }
    }

    /// The configured staleness threshold.
    pub fn staleness_threshold_secs(&self) -> (r: Result<u64, OracleVerifierError>)
        ensures
            match self@ {
                Some(c) => r == Ok::<u64, OracleVerifierError>(c.staleness_threshold_secs),
                None => r == Err::<u64, OracleVerifierError>(OracleVerifierError::NotInitialized),
            },
    {
        match self.config {
            Some(c) => Ok(c.staleness_threshold_secs),
            None => Err(OracleVerifierError::NotInitialized),
        }
    }

    /// The calling-convention version this verifier implements.
    pub fn interface_version(&self) -> (r: u32)
        ensures
            r == KEEPER_VERIFIER_INTERFACE_VERSION,
    {
        KEEPER_VERIFIER_INTERFACE_VERSION
    }

    /// The oracle the host must read before deciding: `None` (refused
    /// outright) when unconfigured or when the proof does not decode.
    pub fn oracle_to_read(&self, proof: &Vec<u8>) -> (r: Option<Address>)
        ensures
            r == (match self@ {
                Some(c) => if spec_decode_proof(proof@) is Some {
                    Some(c.oracle)
                } else {
                    None
                },
                None => None,
            }),
    {
        match self.config {
            None => None,
            Some(c) => match decode_proof(proof) {
                Some(_) => Some(c.oracle),
                None => None,
            },
        }
    }

    /// Decides on `proof` given what the oracle reported: the price must be
    /// fresh at `now` and the claimed price within the tolerance. The
    /// claimed timestamp is carried but not checked.
    pub fn verify(&self, proof: &Vec<u8>, oracle_price: i128, oracle_last_updated: u64, now: u64) -> (r: bool)
        ensures
            r == spec_oracle_accepts(self@, proof@, oracle_price, oracle_last_updated, now),
    {
        let c = match self.config {
            Some(c) => c,
            None => {
                return false;
            },
        };
        let (claimed_price, _claimed_timestamp) = match decode_proof(proof) {
            Some(pair) => pair,
            None => {
                return false;
            },
        };
        if now.saturating_sub(oracle_last_updated) > c.staleness_threshold_secs {
            return false;
        }
        let deviation = match deviation_bps(claimed_price, oracle_price) {
            Some(d) => d,
            None => {
                return false;
            },
        };
        if deviation > c.tolerance_bps as i128 {
            return false;
        }
        true
    }
}

} // verus!
