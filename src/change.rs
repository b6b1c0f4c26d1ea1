//! Change detection: a content digest of the source, compared with the
//! digest stored after the last successful compile.
use sha2::Digest;
use vstd::prelude::*;

verus! {

/// The SHA-256 digest of a byte sequence.
pub uninterp spec fn sha256_of(data: Seq<u8>) -> Seq<u8>;

/// Relies on `sha2::Sha256::digest`, which hashes the whole of `data` in one
/// call; the result depends on the bytes alone.
#[verifier::external_body]
fn sha256(data: &[u8]) -> (r: Vec<u8>)
    ensures
        r@ == sha256_of(data@),
{
    sha2::Sha256::digest(data).to_vec()
}

/// Whether the source must be compiled: always when no digest is stored,
/// otherwise exactly when the stored digest differs from the current one.
pub open spec fn needs_compile(digest: Seq<u8>, stored: Option<Seq<u8>>) -> bool {
    match stored {
        Some(h) => h != digest,
        None => true,
    }
}

/// The stored digest, as plain bytes.
pub open spec fn stored_view(stored: Option<Vec<u8>>) -> Option<Seq<u8>> {
    match stored {
        Some(h) => Some(h@),
        None => None,
    }
}

/// The outcome of change detection: the digest to persist after compiling, or
/// `None` when the source is the one last compiled.
pub open spec fn code_state_spec(digest: Seq<u8>, stored: Option<Seq<u8>>) -> Option<Seq<u8>> {
    if needs_compile(digest, stored) {
        Some(digest)
    } else {
        None
    }
}

/// Whether the source changed since the last successful compile.
pub enum CodeState {
    /// It changed (or was never compiled); holds the digest of its content.
    Changed(Vec<u8>),
    /// It is byte for byte the content last compiled.
    Same,
}

impl View for CodeState {
    type V = Option<Seq<u8>>;

    open spec fn view(&self) -> Option<Seq<u8>> {
        match self {
            CodeState::Changed(d) => Some(d@),
            CodeState::Same => None,
        }
    }
}

/// Byte-exact comparison of two digests.
pub fn bytes_equal(a: &[u8], b: &[u8]) -> (r: bool)
    ensures
        r == (a@ == b@),
{
    if a.len() != b.len() {
        return false;
    }
    let mut i: usize = 0;
    while i < a.len()
        invariant
            a@.len() == b@.len(),
            0 <= i <= a@.len(),
            forall|j: int| 0 <= j < i ==> a@[j] == b@[j],
        decreases a@.len() - i,
    {
        if a[i] != b[i] {
            return false;
        }
        i = i + 1;
    }
    assert(a@ =~= b@);
    true
}

/// Decides from the current digest and the stored one (if any) whether the
/// source must be recompiled.
pub fn code_state(digest: Vec<u8>, stored: &Option<Vec<u8>>) -> (r: CodeState)
    ensures
        r@ == code_state_spec(digest@, stored_view(*stored)),
{
    match stored {
        None => CodeState::Changed(digest),
        Some(h) => {
            if bytes_equal(h.as_slice(), digest.as_slice()) {
                CodeState::Same
            } else {
                CodeState::Changed(digest)
            }
        },
    }
}

/// Hashes the source content and compares the digest with the stored one.
pub fn check_code_changed(source: &[u8], stored: &Option<Vec<u8>>) -> (r: CodeState)
    ensures
        r@ == code_state_spec(sha256_of(source@), stored_view(*stored)),
{
    let digest = sha256(source);
    code_state(digest, stored)
}

} // verus!
