use vstd::prelude::*;
use crate::text::{eq_ignore_ascii_case, spec_lower};

verus! {

/// Every character of the string is a lowercase hexadecimal digit.
pub open spec fn is_lower_hex(s: Seq<char>) -> bool {
    forall|i: int|
        0 <= i < s.len() ==> ('0' <= #[trigger] s[i] && s[i] <= '9') || ('a' <= s[i] && s[i]
            <= 'f')
}

/// The supported hash algorithms, told apart by output bit-length.
#[derive(Debug, Hash, Copy, Clone, PartialEq, Eq, Structural)]
pub enum DigestAlgorithm {
    Sha1,
    Sha224,
    Sha256,
    Sha384,
    Sha512,
}

pub uninterp spec fn sha1_hex(data: Seq<u8>) -> Seq<char>;

pub uninterp spec fn sha224_hex(data: Seq<u8>) -> Seq<char>;

pub uninterp spec fn sha256_hex(data: Seq<u8>) -> Seq<char>;

pub uninterp spec fn sha384_hex(data: Seq<u8>) -> Seq<char>;

pub uninterp spec fn sha512_hex(data: Seq<u8>) -> Seq<char>;

/// Relies on shaman::sha1::Sha1 (new, and the Digest trait's input and
/// result_str): the hex digest of a 160-bit hash is 40 lowercase hex
/// characters and a function of the input bytes alone.
#[verifier::external_body]
fn sha1_digest(data: &[u8]) -> (r: String)
    ensures
        r@ == sha1_hex(data@),
        r@.len() == 40,
        is_lower_hex(r@),
{
    let mut d = shaman::sha1::Sha1::new();
    shaman::digest::Digest::input(&mut d, data);
    shaman::digest::Digest::result_str(&mut d)
}

/// Relies on shaman::sha2::Sha224 (new, and the Digest trait's input and
/// result_str): the hex digest of a 224-bit hash is 56 lowercase hex
/// characters and a function of the input bytes alone.
#[verifier::external_body]
fn sha224_digest(data: &[u8]) -> (r: String)
    ensures
        r@ == sha224_hex(data@),
        r@.len() == 56,
        is_lower_hex(r@),
{
    let mut d = shaman::sha2::Sha224::new();
    shaman::digest::Digest::input(&mut d, data);
    shaman::digest::Digest::result_str(&mut d)
}

/// Relies on shaman::sha2::Sha256 (new, and the Digest trait's input and
/// result_str): the hex digest of a 256-bit hash is 64 lowercase hex
/// characters and a function of the input bytes alone.
#[verifier::external_body]
fn sha256_digest(data: &[u8]) -> (r: String)
    ensures
        r@ == sha256_hex(data@),
        r@.len() == 64,
        is_lower_hex(r@),
{
    let mut d = shaman::sha2::Sha256::new();
    shaman::digest::Digest::input(&mut d, data);
    shaman::digest::Digest::result_str(&mut d)
}

/// Relies on shaman::sha2::Sha384 (new, and the Digest trait's input and
/// result_str): the hex digest of a 384-bit hash is 96 lowercase hex
/// characters and a function of the input bytes alone.
#[verifier::external_body]
fn sha384_digest(data: &[u8]) -> (r: String)
    ensures
        r@ == sha384_hex(data@),
        r@.len() == 96,
        is_lower_hex(r@),
{
    let mut d = shaman::sha2::Sha384::new();
    shaman::digest::Digest::input(&mut d, data);
    shaman::digest::Digest::result_str(&mut d)
}

/// Relies on shaman::sha2::Sha512 (new, and the Digest trait's input and
/// result_str): the hex digest of a 512-bit hash is 128 lowercase hex
/// characters and a function of the input bytes alone.
#[verifier::external_body]
fn sha512_digest(data: &[u8]) -> (r: String)
    ensures
        r@ == sha512_hex(data@),
        r@.len() == 128,
        is_lower_hex(r@),
{
    let mut d = shaman::sha2::Sha512::new();
    shaman::digest::Digest::input(&mut d, data);
    shaman::digest::Digest::result_str(&mut d)
}

/// The lowercase hex digest of the given bytes under the given algorithm.
pub open spec fn spec_digest(alg: DigestAlgorithm, data: Seq<u8>) -> Seq<char> {
    match alg {
        DigestAlgorithm::Sha1 => sha1_hex(data),
        DigestAlgorithm::Sha224 => sha224_hex(data),
        DigestAlgorithm::Sha256 => sha256_hex(data),
        DigestAlgorithm::Sha384 => sha384_hex(data),
        DigestAlgorithm::Sha512 => sha512_hex(data),
    }
}

/// How many hex characters each algorithm's digest has: a quarter of its
/// output bit-length.
pub open spec fn spec_digest_len(alg: DigestAlgorithm) -> nat {
    match alg {
        DigestAlgorithm::Sha1 => 40,
        DigestAlgorithm::Sha224 => 56,
        DigestAlgorithm::Sha256 => 64,
        DigestAlgorithm::Sha384 => 96,
        DigestAlgorithm::Sha512 => 128,
    }
}

/// The algorithm an identifier on the command line names, if any: the bare
/// bit-length, or the name in any letter case.
pub open spec fn spec_algorithm_of(name: Seq<char>) -> Option<DigestAlgorithm> {
    let n = spec_lower(name);
    if n == "1"@ || n == "sha1"@ {
        Some(DigestAlgorithm::Sha1)
    } else if n == "224"@ || n == "sha224"@ {
        Some(DigestAlgorithm::Sha224)
    } else if n == "256"@ || n == "sha256"@ {
        Some(DigestAlgorithm::Sha256)
    } else if n == "384"@ || n == "sha384"@ {
        Some(DigestAlgorithm::Sha384)
    } else if n == "512"@ || n == "sha512"@ {
        Some(DigestAlgorithm::Sha512)
    } else {
        None
    }
}

/// A reusable digest engine: one algorithm, and a scratch buffer that is
/// cleared after every hash so nothing leaks into the next file.
#[derive(Debug)]
pub struct Digest {
    pub algorithm: DigestAlgorithm,
    pub buffer: Vec<u8>,
}

/// The canonical alias spellings are already lower case, so folding them
/// changes nothing; stating that lets the matcher compare case-insensitively.
proof fn lemma_alias_literals_are_lowercase()
    ensures
        spec_lower("1"@) == "1"@,
        spec_lower("sha1"@) == "sha1"@,
        spec_lower("224"@) == "224"@,
        spec_lower("sha224"@) == "sha224"@,
        spec_lower("256"@) == "256"@,
        spec_lower("sha256"@) == "sha256"@,
        spec_lower("384"@) == "384"@,
        spec_lower("sha384"@) == "sha384"@,
        spec_lower("512"@) == "512"@,
        spec_lower("sha512"@) == "sha512"@,
{
    reveal_strlit("1");
    reveal_strlit("sha1");
    reveal_strlit("224");
    reveal_strlit("sha224");
    reveal_strlit("256");
    reveal_strlit("sha256");
    reveal_strlit("384");
    reveal_strlit("sha384");
    reveal_strlit("512");
    reveal_strlit("sha512");
    assert(spec_lower("1"@) =~= "1"@);
    assert(spec_lower("sha1"@) =~= "sha1"@);
    assert(spec_lower("224"@) =~= "224"@);
    assert(spec_lower("sha224"@) =~= "sha224"@);
    assert(spec_lower("256"@) =~= "256"@);
    assert(spec_lower("sha256"@) =~= "sha256"@);
    assert(spec_lower("384"@) =~= "384"@);
    assert(spec_lower("sha384"@) =~= "sha384"@);
    assert(spec_lower("512"@) =~= "512"@);
    assert(spec_lower("sha512"@) =~= "sha512"@);
}

/// Resolves an algorithm identifier from the command line, accepting any
/// letter case.
pub fn algorithm_of_name(name: &str) -> (r: Option<DigestAlgorithm>)
    ensures
        r == spec_algorithm_of(name@),
{
    proof {
        lemma_alias_literals_are_lowercase();
    }
    if eq_ignore_ascii_case(name, "1") || eq_ignore_ascii_case(name, "sha1") {
        Some(DigestAlgorithm::Sha1)
    } else if eq_ignore_ascii_case(name, "224") || eq_ignore_ascii_case(name, "sha224") {
        Some(DigestAlgorithm::Sha224)
    } else if eq_ignore_ascii_case(name, "256") || eq_ignore_ascii_case(name, "sha256") {
        Some(DigestAlgorithm::Sha256)
    } else if eq_ignore_ascii_case(name, "384") || eq_ignore_ascii_case(name, "sha384") {
        Some(DigestAlgorithm::Sha384)
    } else if eq_ignore_ascii_case(name, "512") || eq_ignore_ascii_case(name, "sha512") {
        Some(DigestAlgorithm::Sha512)
    } else {
        None
    }
}

impl Digest {
    /// An engine for the named algorithm; nothing when the name is not a
    /// supported identifier.
    pub fn new(name: &str) -> (r: Option<Self>)
        ensures
            match spec_algorithm_of(name@) {
                Some(a) => r matches Some(d) && d.algorithm == a && d.buffer@.len() == 0,
                None => r is None,
            },
    {
        match algorithm_of_name(name) {
            Some(algorithm) => Some(Digest { algorithm, buffer: Vec::new() }),
            None => None,
        }
    }

    /// An engine for an already resolved algorithm.
    pub fn with_algorithm(algorithm: DigestAlgorithm) -> (r: Self)
        ensures
            r.algorithm == algorithm,
            r.buffer@.len() == 0,
    {
        Digest { algorithm, buffer: Vec::new() }
    }

    /// Digests one file's bytes: stages them in the scratch buffer, feeds the
    /// active algorithm, and leaves the buffer cleared so the engine can be
    /// reused for the next file.
    pub fn hash(&mut self, data: &[u8]) -> (r: String)
        ensures
            r@ == spec_digest(old(self).algorithm, data@),
            r@.len() == spec_digest_len(old(self).algorithm),
            is_lower_hex(r@),
            final(self).algorithm == old(self).algorithm,
            final(self).buffer@.len() == 0,
    {
        self.buffer.clear();
        self.buffer.extend_from_slice(data);
        proof {
            assert(self.buffer@ =~= data@);
        }
        let r = match self.algorithm {
            DigestAlgorithm::Sha1 => sha1_digest(self.buffer.as_slice()),
            DigestAlgorithm::Sha224 => sha224_digest(self.buffer.as_slice()),
            DigestAlgorithm::Sha256 => sha256_digest(self.buffer.as_slice()),
            DigestAlgorithm::Sha384 => sha384_digest(self.buffer.as_slice()),
            DigestAlgorithm::Sha512 => sha512_digest(self.buffer.as_slice()),
        };
        self.buffer.clear();
        r
    }
}

/// Hashing the same bytes twice through a reused engine yields the same
/// digest both times: `hash` leaves the algorithm it was built with in place,
/// and the digest is a function of the algorithm and the bytes alone.
pub proof fn lemma_engine_reuse(before: Digest, after: Digest, data: Seq<u8>)
    requires
        after.algorithm == before.algorithm,
    ensures
        spec_digest(after.algorithm, data) == spec_digest(before.algorithm, data),
{
}

} // verus!
