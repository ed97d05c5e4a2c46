use vstd::prelude::*;

use crate::registry::same_text;

verus! {

/// A signing algorithm that a token header may declare.
#[derive(Clone, Copy, Debug, PartialEq, Eq, Structural)]
pub enum Algorithm {
    HS256,
    HS384,
    HS512,
    ES256,
    ES384,
    RS256,
    RS384,
    PS256,
    PS384,
    PS512,
    RS512,
    EdDSA,
}

/// The identifier under which an algorithm appears in token headers and key sets.
pub open spec fn algorithm_name(algorithm: Algorithm) -> Seq<char> {
    match algorithm {
        Algorithm::HS256 => "HS256"@,
        Algorithm::HS384 => "HS384"@,
        Algorithm::HS512 => "HS512"@,
        Algorithm::ES256 => "ES256"@,
        Algorithm::ES384 => "ES384"@,
        Algorithm::RS256 => "RS256"@,
        Algorithm::RS384 => "RS384"@,
        Algorithm::PS256 => "PS256"@,
        Algorithm::PS384 => "PS384"@,
        Algorithm::PS512 => "PS512"@,
        Algorithm::RS512 => "RS512"@,
        Algorithm::EdDSA => "EdDSA"@,
    }
}

/// The algorithm whose identifier is `name`, if there is one.
pub open spec fn algorithm_named(name: Seq<char>) -> Option<Algorithm> {
    if name == "HS256"@ {
        Some(Algorithm::HS256)
    } else if name == "HS384"@ {
        Some(Algorithm::HS384)
    } else if name == "HS512"@ {
        Some(Algorithm::HS512)
    } else if name == "ES256"@ {
        Some(Algorithm::ES256)
    } else if name == "ES384"@ {
        Some(Algorithm::ES384)
    } else if name == "RS256"@ {
        Some(Algorithm::RS256)
    } else if name == "RS384"@ {
        Some(Algorithm::RS384)
    } else if name == "PS256"@ {
        Some(Algorithm::PS256)
    } else if name == "PS384"@ {
        Some(Algorithm::PS384)
    } else if name == "PS512"@ {
        Some(Algorithm::PS512)
    } else if name == "RS512"@ {
        Some(Algorithm::RS512)
    } else if name == "EdDSA"@ {
        Some(Algorithm::EdDSA)
    } else {
        None
    }
}

pub fn algorithm_to_str(algorithm: &Algorithm) -> (r: &'static str)
    ensures
        r@ == algorithm_name(*algorithm),
{
    match algorithm {
        Algorithm::HS256 => "HS256",
        Algorithm::HS384 => "HS384",
        Algorithm::HS512 => "HS512",
        Algorithm::ES256 => "ES256",
        Algorithm::ES384 => "ES384",
        Algorithm::RS256 => "RS256",
        Algorithm::RS384 => "RS384",
        Algorithm::PS256 => "PS256",
        Algorithm::PS384 => "PS384",
        Algorithm::PS512 => "PS512",
        Algorithm::RS512 => "RS512",
        Algorithm::EdDSA => "EdDSA",
    }
}

/// The algorithm whose identifier is `name`, if there is one.
pub fn algorithm_from_name(name: &str) -> (r: Option<Algorithm>)
    ensures
        r == algorithm_named(name@),
{
    if same_text(name, "HS256") {
        Some(Algorithm::HS256)
    } else if same_text(name, "HS384") {
        Some(Algorithm::HS384)
    } else if same_text(name, "HS512") {
        Some(Algorithm::HS512)
    } else if same_text(name, "ES256") {
        Some(Algorithm::ES256)
    } else if same_text(name, "ES384") {
        Some(Algorithm::ES384)
    } else if same_text(name, "RS256") {
        Some(Algorithm::RS256)
    } else if same_text(name, "RS384") {
        Some(Algorithm::RS384)
    } else if same_text(name, "PS256") {
        Some(Algorithm::PS256)
    } else if same_text(name, "PS384") {
        Some(Algorithm::PS384)
    } else if same_text(name, "PS512") {
        Some(Algorithm::PS512)
    } else if same_text(name, "RS512") {
        Some(Algorithm::RS512)
    } else if same_text(name, "EdDSA") {
        Some(Algorithm::EdDSA)
    } else {
        None
    }
}

} // verus!
