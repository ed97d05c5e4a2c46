//! The key registry: verification keys published by the identity provider,
//! indexed by the signing algorithm they are declared for.
use vstd::prelude::*;

verus! {

/// Key material that a token signature is checked against.
#[derive(Clone, Debug)]
pub enum VerificationKey {
    /// A shared HMAC secret.
    Secret(String),
    /// An RSA public key as base64url-encoded modulus and exponent.
    RsaComponents(String, String),
}

/// The mathematical value of a [`VerificationKey`].
pub enum KeyModel {
    Secret(Seq<char>),
    RsaComponents(Seq<char>, Seq<char>),
}

impl View for VerificationKey {
    type V = KeyModel;

    open spec fn view(&self) -> KeyModel {
        match self {
            VerificationKey::Secret(s) => KeyModel::Secret(s@),
            VerificationKey::RsaComponents(n, e) => KeyModel::RsaComponents(n@, e@),
        }
    }
}

/// One published verification key of a key set document.
#[derive(Clone, Debug)]
pub struct JWKCertificate {
    /// Key identifier.
    pub kid: String,
    /// Key type ("RSA", ...).
    pub kty: String,
    /// The signing algorithm the key is declared for.
    pub alg: String,
    /// What the key is for ("sig", "enc").
    pub used_for: String,
    /// RSA modulus, base64url-encoded.
    pub n: String,
    /// RSA exponent, base64url-encoded.
    pub e: String,
    /// X.509 certificate chain; the first entry is the authoritative one.
    pub x5c: Vec<String>,
    /// X.509 thumbprint (informational).
    pub x5t: String,
    /// SHA-256 X.509 thumbprint (informational).
    pub x5t_hash: String,
}


/// The registry that a list of certificates builds when each one is indexed by its
/// declared algorithm, a later certificate replacing an earlier one of the same algorithm.
pub open spec fn registry_of(certificates: Seq<JWKCertificate>) -> Map<Seq<char>, JWKCertificate>
    decreases certificates.len(),
{
    if certificates.len() == 0 {
        Map::empty()
    } else {
        registry_of(certificates.drop_last()).insert(certificates.last().alg@, certificates.last())
    }
}

/// Returns whether two strings hold the same characters.
pub fn same_text(a: &str, b: &str) -> (r: bool)
    ensures
        r == (a@ == b@),
{
    let x = a.to_owned();
    let y = b.to_owned();
    x == y
}

proof fn lemma_registry_holds(certificates: Seq<JWKCertificate>, algorithm: Seq<char>, i: int)
    requires
        0 <= i < certificates.len(),
        certificates[i].alg@ == algorithm,
        forall|j: int| i < j < certificates.len() ==> certificates[j].alg@ != algorithm,
    ensures
        registry_of(certificates).contains_key(algorithm),
        registry_of(certificates)[algorithm] == certificates[i],
    decreases certificates.len(),
{
    if i < certificates.len() - 1 {
        lemma_registry_holds(certificates.drop_last(), algorithm, i);
    }
}

proof fn lemma_registry_lacks(certificates: Seq<JWKCertificate>, algorithm: Seq<char>)
    requires
        forall|j: int| 0 <= j < certificates.len() ==> certificates[j].alg@ != algorithm,
    ensures
        !registry_of(certificates).contains_key(algorithm),
    decreases certificates.len(),
{
    if certificates.len() > 0 {
        lemma_registry_lacks(certificates.drop_last(), algorithm);
    }
}

/// Verification keys indexed by signing algorithm: one key per algorithm, the
/// latest one added for it.
pub struct KeyRegistry {
    certificates: Vec<JWKCertificate>,
}

impl KeyRegistry {
    pub closed spec fn view(&self) -> Map<Seq<char>, JWKCertificate> {
        registry_of(self.certificates@)
    }

    /// An empty registry.
    pub fn new() -> (r: KeyRegistry)
        ensures
            r@ == Map::<Seq<char>, JWKCertificate>::empty(),
    {
        KeyRegistry { certificates: Vec::new() }
    }

    /// The certificate declared for `algorithm`, if the registry holds one.
    pub fn get(&self, algorithm: &str) -> (r: Option<&JWKCertificate>)
        ensures
            r matches Some(c) ==> self@.contains_key(algorithm@) && self@[algorithm@] == *c,
            r is None ==> !self@.contains_key(algorithm@),
    {
        let mut i: usize = self.certificates.len();
        while i > 0
            invariant
                i <= self.certificates@.len(),
                forall|j: int|
                    i <= j < self.certificates@.len() ==> self.certificates@[j].alg@ != algorithm@,
            decreases i,
        {
            i -= 1;
            if same_text(self.certificates[i].alg.as_str(), algorithm) {
                proof {
                    lemma_registry_holds(self.certificates@, algorithm@, i as int);
                }
                return Some(&self.certificates[i]);
            }
        }
        proof {
            lemma_registry_lacks(self.certificates@, algorithm@);
        }
        None
    }

    /// Indexes `certificate` by its declared algorithm, replacing the key held for it.
    pub fn insert(&mut self, certificate: JWKCertificate)
        ensures
            final(self)@ == old(self)@.insert(certificate.alg@, certificate),
    {
        let ghost before = self.certificates@;
        self.certificates.push(certificate);
        assert(self.certificates@.drop_last() =~= before);
    }

    /// The registry that `certificates` builds, each indexed by its declared algorithm;
    /// of two certificates for one algorithm the later one is kept.
    pub fn from_certificates(certificates: Vec<JWKCertificate>) -> (r: KeyRegistry)
        ensures
            r@ == registry_of(certificates@),
    {
        KeyRegistry { certificates }
    }
}

} // verus!
