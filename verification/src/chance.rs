//! The source of chance for a serve.

use vstd::prelude::*;
use crate::input::Serve;

verus! {

/// Tosses one coin with `fastrand::bool`, which reads and advances the
/// generator of the calling thread. Nothing is claimed of the outcome: it
/// may be either value, and two tosses need not agree.
#[verifier::external_body]
fn coin_flip() -> (heads: bool) {
    fastrand::bool()
}

impl Serve {
    /// Tosses the two coins of a serve, first the horizontal one, then the
    /// vertical one. Any of the four serves may come back.
    pub fn random() -> (serve: Serve) {
        let right = coin_flip();
        let down = coin_flip();
        Serve { right, down }
    }
}

} // verus!
