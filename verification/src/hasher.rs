//! The credential hasher: salted, memory-hard password hashes in a record that
//! describes itself (algorithm, parameters, salt and digest), and their
//! verification.

use vstd::prelude::*;

verus! {

/// The shortest salt a password is hashed with.
pub const MIN_SALT_LENGTH: usize = 16;

/// The longest password or salt that Argon2 takes, in bytes.
pub const MAX_INPUT_LENGTH: usize = 0xFFFF_FFFF;

/// The cost parameters of Argon2id. They are chosen once and then used for
/// every hash.
#[derive(Debug, Clone, Copy, PartialEq, Eq, Structural)]
pub struct HashParams {
    /// Memory, in KiB.
    pub mem_cost: u32,
    /// Number of passes.
    pub time_cost: u32,
    /// Degree of parallelism.
    pub lanes: u32,
    /// Length of the digest, in bytes.
    pub hash_length: u32,
}

impl HashParams {
    /// The parameters that Argon2 accepts on every target: at least one lane
    /// and at most 2^24 - 1, at least 8 KiB of memory for each lane and at most
    /// 2 GiB in all, at least one pass, and a digest of at least 4 bytes.
    pub open spec fn valid(&self) -> bool {
        &&& 1 <= self.lanes <= 0x00FF_FFFF
        &&& 8 * self.lanes <= self.mem_cost <= 0x0020_0000
        &&& 1 <= self.time_cost
        &&& 4 <= self.hash_length
    }

    pub fn is_valid(&self) -> (r: bool)
        ensures
            r == self.valid(),
    {
        1 <= self.lanes && self.lanes <= 0x00FF_FFFF && 8 * self.lanes <= self.mem_cost
            && self.mem_cost <= 0x0020_0000 && 1 <= self.time_cost && 4 <= self.hash_length
    }

    /// 64 MiB, ten passes, four lanes and a digest of 64 bytes.
    pub fn reference() -> (r: HashParams)
        ensures
            r.valid(),
            r == (HashParams { mem_cost: 65536, time_cost: 10, lanes: 4, hash_length: 64 }),
    {
        HashParams { mem_cost: 65536, time_cost: 10, lanes: 4, hash_length: 64 }
    }
}

/// Why a password could not be hashed or a record could not be checked.
#[derive(Debug, Clone, Copy, PartialEq, Eq, Structural)]
pub enum HashError {
    /// The salt has fewer than `MIN_SALT_LENGTH` bytes.
    SaltTooShort,
    /// The salt has more than `MAX_INPUT_LENGTH` bytes.
    SaltTooLong,
    /// The password has more than `MAX_INPUT_LENGTH` bytes.
    PasswordTooLong,
    /// The stored record is not an Argon2 record that can be checked.
    MalformedRecord,
}

/// The record that `argon2::hash_encoded` returns for Argon2id, version 1.3,
/// with the given costs, no secret and no associated data.
pub uninterp spec fn argon2id_encoded(
    mem_cost: int,
    time_cost: int,
    lanes: int,
    hash_length: int,
    password: Seq<u8>,
    salt: Seq<u8>,
) -> Seq<char>;

/// What `argon2::verify_encoded` returns for a record and a candidate
/// password on a machine whose pointers have `pointer_bits` bits: `Some` of
/// whether they match, `None` where it fails. (The width counts for records
/// that ask for more than 2 GiB, which a machine of 32 bits refuses.)
pub uninterp spec fn argon2_verdict(
    record: Seq<char>,
    candidate: Seq<u8>,
    pointer_bits: int,
) -> Option<bool>;

/// The Argon2id record of `password` and `salt` under `params`.
pub open spec fn encoded_under(params: HashParams, password: Seq<u8>, salt: Seq<u8>) -> Seq<char> {
    argon2id_encoded(
        params.mem_cost as int,
        params.time_cost as int,
        params.lanes as int,
        params.hash_length as int,
        password,
        salt,
    )
}

/// The result of hashing `password` with `salt` under `params`.
pub open spec fn hash_spec(params: HashParams, password: Seq<u8>, salt: Seq<u8>) -> Result<
    Seq<char>,
    HashError,
> {
    if salt.len() < MIN_SALT_LENGTH {
        Err(HashError::SaltTooShort)
    } else if salt.len() > MAX_INPUT_LENGTH {
        Err(HashError::SaltTooLong)
    } else if password.len() > MAX_INPUT_LENGTH {
        Err(HashError::PasswordTooLong)
    } else {
        Ok(encoded_under(params, password, salt))
    }
}

/// The result of checking `candidate` against `record` on this machine.
pub open spec fn verify_spec(candidate: Seq<u8>, record: Seq<char>) -> Result<bool, HashError> {
    if candidate.len() > MAX_INPUT_LENGTH {
        Err(HashError::PasswordTooLong)
    } else {
        match argon2_verdict(record, candidate, usize::BITS as int) {
            Some(matches) => Ok(matches),
            None => Err(HashError::MalformedRecord),
        }
    }
}

/// Calls `argon2::hash_encoded` with Argon2id, version 1.3, the costs of
/// `params`, no secret and no associated data.
///
/// Assumed of it: on parameters and lengths inside the limits that the crate
/// documents it returns a record; that record is not empty (it starts with
/// `$argon2id$`); `argon2::verify_encoded` accepts the same password for it,
/// as the crate's documentation shows; and, as the record holds the salt in
/// base64 between two `$`, another salt gives another record.
#[verifier::external_body]
fn argon2_hash_encoded(params: &HashParams, password: &[u8], salt: &[u8]) -> (r: Option<String>)
    requires
        params.valid(),
        8 <= salt@.len() <= 0xFFFF_FFFF,
        password@.len() <= 0xFFFF_FFFF,
    ensures
        r is Some,
        r matches Some(record) ==> record@ == argon2id_encoded(params.mem_cost as int, params.time_cost as int, params.lanes as int, params.hash_length as int, password@, salt@),
        r matches Some(record) ==> record@.len() > 0,
        r matches Some(record) ==> argon2_verdict(record@, password@, usize::BITS as int) == Some(true),
        r matches Some(record) ==> forall|other: Seq<u8>| other != salt@ && 8 <= other.len() <= 0xFFFF_FFFF ==> record@ != #[trigger] argon2id_encoded(params.mem_cost as int, params.time_cost as int, params.lanes as int, params.hash_length as int, password@, other),
{
    let config = argon2::Config {
        variant: argon2::Variant::Argon2id,
        version: argon2::Version::Version13,
        mem_cost: params.mem_cost,
        time_cost: params.time_cost,
        lanes: params.lanes,
        secret: &[],
        ad: &[],
        hash_length: params.hash_length,
    };
    argon2::hash_encoded(password, salt, &config).ok()
}

/// Calls `argon2::verify_encoded`, which reads algorithm, costs, salt and
/// digest out of the record, hashes the candidate in the same way and compares
/// the two digests in constant time.
#[verifier::external_body]
fn argon2_verify_encoded(record: &str, candidate: &[u8]) -> (r: Option<bool>)
    ensures
        r == argon2_verdict(record@, candidate@, usize::BITS as int),
{
    argon2::verify_encoded(record, candidate).ok()
}

/// Hashes and checks passwords with one fixed set of parameters.
pub struct Hasher {
    params: HashParams,
}

impl Hasher {
    #[verifier::type_invariant]
    spec fn well_formed(&self) -> bool {
        self.params.valid()
    }

    /// The parameters this hasher was made with.
    pub closed spec fn params(&self) -> HashParams {
        self.params
    }

    /// A hasher for `params`, if Argon2 accepts them.
    pub fn new(params: HashParams) -> (r: Option<Hasher>)
        ensures
            r is Some <==> params.valid(),
            r matches Some(hasher) ==> hasher.params() == params,
    {
        if params.is_valid() {
            Some(Hasher { params })
        } else {
            None
        }
    }

    /// A hasher with the reference parameters.
    pub fn reference() -> (r: Hasher)
        ensures
            r.params() == (HashParams { mem_cost: 65536, time_cost: 10, lanes: 4, hash_length: 64 }),
    {
        Hasher { params: HashParams::reference() }
    }

    /// Hashes `password` with `salt`. The record that comes back holds the
    /// parameters, the salt and the digest; `verify` accepts `password` for
    /// it; and the same password under any other salt has another record.
    pub fn hash(&self, password: &[u8], salt: &[u8]) -> (r: Result<String, HashError>)
        ensures
            match r {
                Ok(record) => hash_spec(self.params(), password@, salt@) == Ok::<
                    Seq<char>,
                    HashError,
                >(record@),
                Err(e) => hash_spec(self.params(), password@, salt@) == Err::<Seq<char>, HashError>(
                    e,
                ),
            },
            r matches Ok(record) ==> record@.len() > 0 && verify_spec(password@, record@) == Ok::<
                bool,
                HashError,
            >(true),
            r matches Ok(record) ==> forall|other: Seq<u8>|
                other != salt@ ==> #[trigger] hash_spec(self.params(), password@, other) != Ok::<
                    Seq<char>,
                    HashError,
                >(record@),
    {
        proof {
            use_type_invariant(self);
        }
        if salt.len() < MIN_SALT_LENGTH {
            return Err(HashError::SaltTooShort);
        }
        if salt.len() > MAX_INPUT_LENGTH {
            return Err(HashError::SaltTooLong);
        }
        if password.len() > MAX_INPUT_LENGTH {
            return Err(HashError::PasswordTooLong);
        }
        match argon2_hash_encoded(&self.params, password, salt) {
            Some(record) => Ok(record),
            // not reached: parameters and lengths are within the limits of Argon2
            None => Err(HashError::MalformedRecord),
        }
    }

    /// Whether `candidate` is the password that `record` was made from. A
    /// password that does not match is `Ok(false)`; only a record that cannot
    /// be read is an error.
    pub fn verify(candidate: &[u8], record: &str) -> (r: Result<bool, HashError>)
        ensures
            r == verify_spec(candidate@, record@),
    {
        if candidate.len() > MAX_INPUT_LENGTH {
            return Err(HashError::PasswordTooLong);
        }
        match argon2_verify_encoded(record, candidate) {
            Some(matches) => Ok(matches),
            None => Err(HashError::MalformedRecord),
        }
    }
}

} // verus!
