use vstd::prelude::*;

use crate::error::Error;
use vstd::string::StringSliceAdditionalSpecFns;

verus! {

/// A key pair of the external crypto collaborator; opaque to this core,
/// which only ever derives identifier strings from it.
#[verifier::external_type_specification]
#[verifier::external_body]
pub struct ExDalekKeyPair(stellar_base::crypto::DalekKeyPair);

/// An ed25519 public key of the external crypto collaborator; opaque to
/// this core, which uses it only as proof that an account id parsed.
#[verifier::external_type_specification]
#[verifier::external_body]
pub struct ExPublicKey(stellar_base::crypto::PublicKey);

/// The account id string decodes as a valid strkey account id.
pub uninterp spec fn account_id_ok(s: Seq<char>) -> bool;

/// The seed string decodes as a valid strkey secret seed.
pub uninterp spec fn secret_seed_ok(s: Seq<char>) -> bool;

/// Relies on stellar_base::PublicKey::from_account_id: decoding an
/// account id is a function of the string alone, and succeeds exactly on
/// valid strkey account ids.
#[verifier::external_body]
pub(crate) fn parse_public_key(account_id: &str) -> (r: Result<stellar_base::crypto::PublicKey, Error>)
    ensures
        r is Ok <==> account_id_ok(account_id@),
        r matches Err(e) ==> e matches Error::Validation(_),
{
    match stellar_base::crypto::PublicKey::from_account_id(account_id) {
        Ok(pk) => Ok(pk),
        Err(_) => Err(Error::Validation(account_id.to_owned())),
    }
}

/// Relies on stellar_base::DalekKeyPair::from_secret_seed: decoding a
/// secret seed is a function of the string alone, and succeeds exactly
/// on valid strkey secret seeds.
#[verifier::external_body]
pub(crate) fn keypair_from_seed(seed: &str) -> (r: Result<stellar_base::crypto::DalekKeyPair, Error>)
    ensures
        r is Ok <==> secret_seed_ok(seed@),
        r matches Err(e) ==> e matches Error::Validation(_),
{
    match stellar_base::crypto::DalekKeyPair::from_secret_seed(seed) {
        Ok(kp) => Ok(kp),
        Err(_) => Err(Error::Validation(seed.to_owned())),
    }
}

/// Relies on stellar_base::DalekKeyPair::random: generating a fresh key
/// pair from the system's randomness never fails, and nothing else is
/// assumed of the value that comes back.
#[verifier::external_body]
pub(crate) fn keypair_random() -> (r: Result<stellar_base::crypto::DalekKeyPair, Error>)
    ensures
        r is Ok,
{
    match stellar_base::crypto::DalekKeyPair::random() {
        Ok(kp) => Ok(kp),
        Err(_) => Err(Error::Validation(String::new())),
    }
}

/// Relies on stellar_base's DalekKeyPair::public_key and
/// PublicKey::account_id: the strkey account id of the key pair's public
/// half, used by this core only as an opaque identifier string.
#[verifier::external_body]
pub(crate) fn keypair_account_id(keypair: &stellar_base::crypto::DalekKeyPair) -> String {
    keypair.public_key().account_id()
}

/// Relies on stellar_base's DalekKeyPair::secret_key and
/// SecretKey::secret_seed: the strkey seed of the key pair's secret
/// half, used by this core only as an opaque identifier string.
#[verifier::external_body]
pub(crate) fn keypair_secret_seed(keypair: &stellar_base::crypto::DalekKeyPair) -> String {
    keypair.secret_key().secret_seed()
}

/// A credit asset code is acceptable: between 1 and 12 bytes long.
pub open spec fn credit_code_ok(code: &str) -> bool {
    1 <= code.spec_bytes().len() <= 12
}

/// Relies on stellar_base::Asset::new_credit (through CreditAsset::new):
/// the constructor succeeds exactly when the code is 1 to 12 bytes long,
/// whatever the issuer.
#[verifier::external_body]
pub(crate) fn check_credit_asset(code: &str, issuer: stellar_base::crypto::PublicKey) -> (r: bool)
    ensures
        r <==> credit_code_ok(code),
{
    stellar_base::Asset::new_credit(code, issuer).is_ok()
}

} // verus!
