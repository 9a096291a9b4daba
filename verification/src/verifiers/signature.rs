//! A verifier configured with one ed25519 public key: a proof is accepted
//! when it is a valid signature by that key over the task's identity bytes.
use vstd::prelude::*;
use crate::types::Task;
use crate::verifiers::identity::{spec_task_identity, task_identity};

verus! {

/// Errors of the signature verifier.
#[derive(Clone, Copy, PartialEq, Eq, Structural, Debug)]
pub enum SignatureVerifierError {
    AlreadyInitialized,
    NotInitialized,
}

/// The signature verifier's state: its signer's public key once configured.
pub struct SignatureVerifier {
    signer: Option<[u8; 32]>,
}

impl View for SignatureVerifier {
    type V = Option<Seq<u8>>;

    closed spec fn view(&self) -> Option<Seq<u8>> {
        match self.signer {
            Some(k) => Some(k@),
            None => None,
        }
    }
}

impl SignatureVerifier {
    /// A verifier with no signer configured.
    pub fn new() -> (r: SignatureVerifier)
        ensures
            r@ is None,
    {
        SignatureVerifier { signer: None }
    }

    /// One-time setup with the public key every proof is checked against.
    pub fn initialize(&mut self, signer: [u8; 32]) -> (r: Result<(), SignatureVerifierError>)
        ensures
            match r {
                Ok(()) => old(self)@ is None && final(self)@ == Some(signer@),
                Err(e) => old(self)@ is Some && e == SignatureVerifierError::AlreadyInitialized
                    && final(self)@ == old(self)@,
            },
    {
        if self.signer.is_some() {
            return Err(SignatureVerifierError::AlreadyInitialized);
        }
        self.signer = Some(signer);
        Ok(())
    }

    /// The configured signer.
    pub fn signer(&self) -> (r: Result<[u8; 32], SignatureVerifierError>)
        ensures
            match r {
                Ok(k) => self@ == Some(k@),
                Err(e) => self@ is None && e == SignatureVerifierError::NotInitialized,
            },
    {
        match self.signer {
            Some(k) => Ok(k),
            None => Err(SignatureVerifierError::NotInitialized),
        }
    }

    /// The checks of `verify` made before the cryptographic one: a proof is
    /// rejected when no signer is configured or when it is not 64 bytes
    /// long; otherwise the key it must be a valid signature under.
    pub fn signature_key(&self, proof: &Vec<u8>) -> (r: Option<[u8; 32]>)
        ensures
            match r {
                Some(k) => self@ == Some(k@) && proof@.len() == 64,
                None => self@ is None || proof@.len() != 64,
            },
    {
        let signer = match self.signer {
            Some(k) => k,
            None => {
                return None;
            },
        };
        if proof.len() != 64 {
            return None;
        }
        Some(signer)
    }
}

/// The message a proof must sign for `task`, its owner encoded as
/// `owner_encoding`.
pub fn signed_message(owner_encoding: &Vec<u8>, task: &Task) -> (r: Vec<u8>)
    ensures
        r@ == spec_task_identity(owner_encoding@, *task),
{
    task_identity(owner_encoding, task)
}

} // verus!
