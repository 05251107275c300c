//! The PIN hasher and verifier: self-describing hash strings made and checked
//! by Argon2.
//!
//! The hashing itself is the `argon2` crate's. What it computes is not
//! restated here: each call's result has a name, and the contracts of this
//! module say what the library does with it.

use password_hash::PasswordHasher;
use vstd::prelude::*;
use vstd::string::*;
use crate::status::{ErrorKind, Failure, FailureView};

verus! {

/// `password_hash::Error`, carried through as it comes and never looked into.
#[verifier::external_type_specification]
#[verifier::external_body]
pub struct ExPasswordHashError(password_hash::Error);

/// `argon2::Error`, carried through as it comes and never looked into.
#[verifier::external_type_specification]
#[verifier::external_body]
pub struct ExArgon2Error(argon2::Error);

/// The normal form that `password_hash::PasswordHashString::new` gives a hash
/// string, or `None` where it refuses the string.
pub uninterp spec fn phc_canonical(text: Seq<char>) -> Option<Seq<char>>;

/// Whether `password_hash::PasswordHash::verify_password`, with Argon2 as the
/// only algorithm, accepts `secret` for the hash string `hash`. It is asked
/// only of strings whose lanes fit, see [`lanes_fit`].
pub uninterp spec fn phc_accepts(hash: Seq<char>, secret: Seq<u8>) -> bool;

/// The parameters of a hash string in the order in which it names them, as
/// `password_hash::PasswordHash::new` and `ParamsString::iter` read them:
/// each with its name and, where `Value::decimal` reads its value as a
/// number, with that number. `None` for a text that is no hash string. A
/// hash string may name a parameter more than once.
pub uninterp spec fn phc_numbers(hash: Seq<char>) -> Option<Seq<(Seq<char>, Option<u32>)>>;

/// Whether `argon2::Argon2::hash_password` takes a text for a salt:
/// `password_hash::SaltString::from_b64` accepts it, and it decodes to at
/// least 8 bytes.
pub uninterp spec fn salt_usable(salt: Seq<char>) -> bool;

/// The largest number of lanes whose product with 8 still fits `u32`.
pub const MAX_FITTING_LANES: u32 = 0x1FFF_FFFF;

/// The lanes that a list of parameters asks for: the number of the last
/// parameter named `p`, which is the one that Argon2 goes by. `None` where
/// no parameter has that name, and where the last one that has it is no
/// number.
pub open spec fn lanes_of(params: Seq<(Seq<char>, Option<u32>)>) -> Option<u32>
    decreases params.len(),
{
    if params.len() == 0 {
        None
    } else if params.last().0 == "p"@ {
        params.last().1
    } else {
        lanes_of(params.drop_last())
    }
}

/// Whether the lanes that a list of parameters asks for can be multiplied by
/// 8 in `u32`. A list that asks for none fits.
pub open spec fn lanes_usable(params: Seq<(Seq<char>, Option<u32>)>) -> bool {
    match lanes_of(params) {
        Some(lanes) => lanes <= MAX_FITTING_LANES,
        None => true,
    }
}

/// Whether the lanes that a hash string names can be multiplied by 8 in
/// `u32`, as Argon2 does before it looks at how many they are. A text that
/// is no hash string fits, and so does a hash string that names no lanes.
pub open spec fn lanes_fit(hash: Seq<char>) -> bool {
    match phc_numbers(hash) {
        Some(params) => lanes_usable(params),
        None => true,
    }
}

/// The parameters that a hash string names when it was made with these
/// costs: memory, time and lanes, in that order.
pub open spec fn cost_numbers(cost: CostParams) -> Seq<(Seq<char>, Option<u32>)> {
    seq![("m"@, Some(cost.memory)), ("t"@, Some(cost.time)), ("p"@, Some(cost.parallelism))]
}

/// Whether `secret` is let in by the hash string `hash`: its lanes fit, and
/// Argon2 accepts the secret for it.
pub open spec fn accepts(hash: Seq<char>, secret: Seq<u8>) -> bool {
    lanes_fit(hash) && phc_accepts(hash, secret)
}

/// The hash string that Argon2d, in its default version, makes of a secret
/// under a salt and three costs, or `None` where it refuses them.
pub uninterp spec fn argon2d_phc(
    secret: Seq<u8>,
    salt: Seq<char>,
    memory: u32,
    time: u32,
    parallelism: u32,
) -> Option<Seq<char>>;

/// The cost of one hash: memory in KiB, passes over it, and lanes.
#[derive(Clone, Copy, Debug, PartialEq, Eq, Structural)]
pub struct CostParams {
    pub memory: u32,
    pub time: u32,
    pub parallelism: u32,
}

impl CostParams {
    /// The costs that Argon2 accepts: at least 8 KiB of memory and 8 KiB for
    /// each lane, at least one pass, and between 1 and 2^24 - 1 lanes.
    pub open spec fn valid(self) -> bool {
        &&& self.memory >= 8
        &&& self.memory >= 8 * self.parallelism
        &&& self.time >= 1
        &&& 1 <= self.parallelism <= 0xFF_FFFF
    }
}

/// The largest number of lanes that Argon2 accepts.
pub const MAX_PARALLELISM: u32 = 0xFF_FFFF;

/// Calls `argon2::Params::default` and reads its three costs, which the crate
/// documents as 19 MiB, 2 passes and 1 lane.
#[verifier::external_body]
pub(crate) fn argon2_defaults() -> (cost: CostParams)
    ensures
        cost == (CostParams { memory: 19456, time: 2, parallelism: 1 }),
{
    let params = argon2::Params::default();
    CostParams {
        memory: params.m_cost(),
        time: params.t_cost(),
        parallelism: params.p_cost(),
    }
}

/// Calls `argon2::ParamsBuilder::build` on a builder with the three costs set.
/// The crate accepts them exactly when they are [`CostParams::valid`], and
/// hands them back unchanged. It multiplies the lanes by 8 in `u32` before it
/// looks at their upper bound, so that product must fit.
#[verifier::external_body]
pub(crate) fn argon2_build(memory: u32, time: u32, parallelism: u32) -> (built: Result<
    CostParams,
    argon2::Error,
>)
    requires
        parallelism * 8 <= u32::MAX,
    ensures
        built is Ok <==> (CostParams { memory, time, parallelism }).valid(),
        built matches Ok(cost) ==> cost == (CostParams { memory, time, parallelism }),
{
    argon2::ParamsBuilder::new()
        .m_cost(memory)
        .t_cost(time)
        .p_cost(parallelism)
        .build()
        .map(|params| CostParams {
            memory: params.m_cost(),
            time: params.t_cost(),
            parallelism: params.p_cost(),
        })
}

/// Calls `password_hash::SaltString::generate` on the operating system's
/// random number generator. Each call gives another salt; every one of them
/// is 16 random bytes in Base64, which Argon2 takes for a salt.
#[verifier::external_body]
pub(crate) fn fresh_salt() -> (salt: String)
    ensures
        salt_usable(salt@),
{
    password_hash::SaltString::generate(&mut password_hash::rand_core::OsRng).as_str().to_owned()
}

/// Calls `argon2::Argon2::hash_password` for Argon2d in its default version
/// and serializes the hash. The result is a function of the arguments, named
/// [`argon2d_phc`]. Verification recomputes the digest from the parameters
/// and the salt in the string, so the crate accepts the same secret for a
/// hash it has just made, and the string names the costs it was made with.
/// The crate makes a hash whenever the costs are valid, the salt is usable
/// and the secret has at most 2^32 - 1 bytes. The lanes are multiplied by 8
/// in `u32` on the way, so that product must fit. The crate allocates the
/// memory cost at once.
#[verifier::external_body]
pub(crate) fn argon2d_hash(secret: &[u8], salt: &str, cost: &CostParams) -> (hashed: Result<
    String,
    password_hash::Error,
>)
    requires
        cost.parallelism * 8 <= u32::MAX,
    ensures
        hashed matches Ok(text) ==> argon2d_phc(
            secret@,
            salt@,
            cost.memory,
            cost.time,
            cost.parallelism,
        ) == Some(text@) && phc_accepts(text@, secret@) && phc_numbers(text@) == Some(
            cost_numbers(*cost),
        ),
        hashed is Err ==> argon2d_phc(secret@, salt@, cost.memory, cost.time, cost.parallelism)
            is None,
        cost.valid() && salt_usable(salt@) && secret@.len() <= u32::MAX ==> hashed is Ok,
{
    let params = argon2::Params::new(cost.memory, cost.time, cost.parallelism, None)?;
    let salt = password_hash::SaltString::from_b64(salt)?;
    argon2::Argon2::new(argon2::Algorithm::Argon2d, argon2::Version::default(), params)
        .hash_password(secret, &salt)
        .map(|hash| hash.serialize().as_str().to_owned())
}

/// Calls `password_hash::PasswordHash::new`, then
/// `password_hash::ParamsString::iter` on the parameters of the parsed string
/// and `password_hash::Value::decimal` on each value. The result is a
/// function of the text, named [`phc_numbers`].
#[verifier::external_body]
pub(crate) fn phc_params(hash: &str) -> (params: Option<Vec<(String, Option<u32>)>>)
    ensures
        params matches Some(list) ==> phc_numbers(hash@) == Some(list.deep_view()),
        params is None ==> phc_numbers(hash@) is None,
{
    let parsed = password_hash::PasswordHash::new(hash).ok()?;
    Some(
        parsed.params.iter().map(
            |(name, value)| (name.as_str().to_owned(), value.decimal().ok()),
        ).collect(),
    )
}

/// Calls `password_hash::PasswordHash::new` and then `verify_password` with a
/// default `argon2::Argon2` as the only algorithm. The result is a function
/// of the arguments, named [`phc_accepts`]. The crate refuses a string that
/// does not begin with `$` before it computes anything. It builds Argon2's
/// parameters from the string, going by the last value where a parameter is
/// named twice, and multiplies the lanes by 8 in `u32` before it looks at how
/// many they are, so that product must fit. It allocates the memory cost that
/// the string names.
#[verifier::external_body]
pub(crate) fn phc_verify(hash: &str, secret: &[u8]) -> (verified: Result<
    (),
    password_hash::Error,
>)
    requires
        lanes_fit(hash@),
    ensures
        verified is Ok <==> phc_accepts(hash@, secret@),
        verified is Ok ==> hash@.len() > 0 && hash@[0] == '$',
{
    password_hash::PasswordHash::new(hash)?.verify_password(&[&argon2::Argon2::default()], secret)
}

/// Calls `password_hash::PasswordHashString::new` and hands out the string it
/// holds. The result is a function of the argument, named [`phc_canonical`].
/// The crate refuses a string that does not begin with `$`.
#[verifier::external_body]
pub(crate) fn phc_parse(text: &str) -> (parsed: Result<String, password_hash::Error>)
    ensures
        parsed matches Ok(canonical) ==> phc_canonical(text@) == Some(canonical@),
        parsed is Err ==> phc_canonical(text@) is None,
        parsed is Ok ==> text@.len() > 0 && text@[0] == '$',
{
    password_hash::PasswordHashString::new(text).map(|hash| hash.as_str().to_owned())
}

/// A string that is no hash string.
#[derive(Clone, Copy, Debug, PartialEq, Eq, Structural)]
pub struct MalformedHash;

/// A self-describing hash string: algorithm, version, costs, salt and digest
/// in one text.
#[derive(Clone, Debug, PartialEq, Eq)]
pub struct PinHash {
    text: String,
}

impl View for PinHash {
    type V = Seq<char>;

    closed spec fn view(&self) -> Seq<char> {
        self.text@
    }
}

impl PinHash {
    /// Reads a hash string. It is kept in its normal form.
    pub fn new(text: &str) -> (parsed: Result<PinHash, MalformedHash>)
        ensures
            match parsed {
                Ok(hash) => phc_canonical(text@) == Some(hash@),
                Err(_) => phc_canonical(text@) is None,
            },
            (text@.len() == 0 || text@[0] != '$') ==> parsed is Err,
    {
        match phc_parse(text) {
            Ok(canonical) => Ok(PinHash { text: canonical }),
            Err(_) => Err(MalformedHash),
        }
    }

    pub fn as_str(&self) -> (text: &str)
        ensures
            text@ == self@,
    {
        self.text.as_str()
    }

    /// A second value for the same hash string.
    pub fn duplicate(&self) -> (hash: PinHash)
        ensures
            hash@ == self@,
    {
        PinHash { text: self.text.clone() }
    }
}

/// What a verification comes to.
pub open spec fn verdict(accepted: bool) -> Result<(), FailureView> {
    if accepted {
        Ok(())
    } else {
        Err(FailureView::bare(ErrorKind::CryptoVerifyFailure))
    }
}

/// Settles a verification from whether the hash accepted the secret: every
/// refusal is the same failure, whatever its reason.
pub fn settle(accepted: bool) -> (verified: Result<(), Failure>)
    ensures
        crate::status::result_view(verified) == verdict(accepted),
{
    if accepted {
        Ok(())
    } else {
        Err(Failure::new(ErrorKind::CryptoVerifyFailure))
    }
}

/// The lanes that a list of parameters asks for, see [`lanes_of`].
pub fn named_lanes(params: &[(String, Option<u32>)]) -> (lanes: Option<u32>)
    ensures
        lanes == lanes_of(params.deep_view()),
{
    let ghost all = params.deep_view();
    let wanted = String::from_str("p");
    let mut found: Option<u32> = None;
    let mut i: usize = 0;
    assert(all.take(0).len() == 0);
    while i < params.len()
        invariant
            i <= params.len(),
            all == params.deep_view(),
            all.len() == params.len(),
            wanted@ == "p"@,
            found == lanes_of(all.take(i as int)),
        decreases params.len() - i,
    {
        let ghost upto = all.take(i + 1);
        assert(upto.last() == all[i as int]);
        assert(upto.drop_last() =~= all.take(i as int));
        assert(all[i as int] == params[i as int].deep_view());
        if params[i].0 == wanted {
            found = params[i].1;
        }
        i = i + 1;
    }
    assert(all.take(i as int) =~= all);
    found
}

/// Whether the lanes that a list of parameters asks for can be multiplied by
/// 8 in `u32`, see [`lanes_usable`].
pub fn lanes_can_be_used(params: &[(String, Option<u32>)]) -> (usable: bool)
    ensures
        usable == lanes_usable(params.deep_view()),
{
    match named_lanes(params) {
        Some(lanes) => lanes <= MAX_FITTING_LANES,
        None => true,
    }
}

/// Checks a secret against a stored hash. A mismatch and a hash that cannot
/// be used are the same failure; a hash that names more lanes than can be
/// multiplied by 8 is one that cannot be used, and is not handed to Argon2.
pub fn verify_pin(hash: &PinHash, pin: &[u8]) -> (verified: Result<(), Failure>)
    ensures
        crate::status::result_view(verified) == verdict(accepts(hash@, pin@)),
{
    let text = hash.as_str();
    let fit = match phc_params(text) {
        Some(params) => lanes_can_be_used(params.as_slice()),
        None => true,
    };
    if !fit {
        return settle(false);
    }
    settle(phc_verify(text, pin).is_ok())
}

/// Whether `secret` verifies against the text `hash_string`: the text must be
/// a hash string, and its normal form must accept the secret.
pub open spec fn verifies(hash_string: Seq<char>, secret: Seq<u8>) -> bool {
    match phc_canonical(hash_string) {
        Some(canonical) => accepts(canonical, secret),
        None => false,
    }
}

/// Checks a secret against a hash string. A string that is no hash string
/// fails like a mismatch does; in particular every string that does not begin
/// with `$` fails.
pub fn verify(hash_string: &str, secret: &[u8]) -> (verified: Result<(), Failure>)
    ensures
        crate::status::result_view(verified) == verdict(verifies(hash_string@, secret@)),
        (hash_string@.len() == 0 || hash_string@[0] != '$') ==> verified is Err,
{
    match PinHash::new(hash_string) {
        Ok(hash) => verify_pin(&hash, secret),
        Err(_) => Err(Failure::new(ErrorKind::CryptoVerifyFailure)),
    }
}

/// What hashing a secret under a given salt comes to: the hash string that
/// Argon2d makes, if the lanes are no more than Argon2 allows and it makes one.
pub open spec fn hashed(secret: Seq<u8>, salt: Seq<char>, cost: CostParams) -> Option<Seq<char>> {
    if cost.parallelism > MAX_PARALLELISM {
        None
    } else {
        argon2d_phc(secret, salt, cost.memory, cost.time, cost.parallelism)
    }
}

/// The hashing failed: the costs, the salt or the secret were refused.
#[derive(Clone, Copy, Debug, PartialEq, Eq, Structural)]
pub struct HashFailed;

/// Hashes a secret under the given salt. A hash is made whenever the costs
/// are valid, the salt is usable and the secret has at most 2^32 - 1 bytes.
/// The hash that comes back lets the secret in that it was made of.
pub fn hash_with_salt(secret: &[u8], salt: &str, cost: &CostParams) -> (made: Result<
    PinHash,
    HashFailed,
>)
    ensures
        match made {
            Ok(hash) => hashed(secret@, salt@, *cost) == Some(hash@),
            Err(_) => hashed(secret@, salt@, *cost) is None,
        },
        made matches Ok(hash) ==> accepts(hash@, secret@),
        cost.valid() && salt_usable(salt@) && secret@.len() <= u32::MAX ==> made is Ok,
{
    if cost.parallelism > MAX_PARALLELISM {
        return Err(HashFailed);
    }
    match argon2d_hash(secret, salt, cost) {
        Ok(text) => Ok(PinHash { text }),
        Err(_) => Err(HashFailed),
    }
}

/// Hashes a secret under a salt that is drawn afresh for this call. A hash is
/// made whenever the costs are valid and the secret has at most 2^32 - 1
/// bytes. What comes back is what [`hash_with_salt`] gives under some salt: a
/// hash that lets the secret in that it was made of, or a failure where
/// Argon2d makes no hash under that salt.
pub fn hash(secret: &[u8], cost: &CostParams) -> (made: Result<PinHash, HashFailed>)
    ensures
        exists|salt: Seq<char>|
            match made {
                Ok(hash) => #[trigger] hashed(secret@, salt, *cost) == Some(hash@),
                Err(_) => #[trigger] hashed(secret@, salt, *cost) is None,
            },
        made matches Ok(hash) ==> accepts(hash@, secret@),
        cost.valid() && secret@.len() <= u32::MAX ==> made is Ok,
        cost.parallelism > MAX_PARALLELISM ==> made is Err,
{
    let salt = fresh_salt();
    hash_with_salt(secret, salt.as_str(), cost)
}

} // verus!
