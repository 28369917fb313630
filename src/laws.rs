//! Properties that hold across the gateway's operations.

use crate::gateway::{auth_outcome, credential_outcome, login_error_text, status_of, AuthDecision};
use crate::hasher::HashError;
use crate::store::CredentialError;
use vstd::prelude::*;

verus! {

/// A correct username with a wrong password fails exactly as an unknown
/// username does, with the same error and the same text shown to the user.
pub proof fn lemma_wrong_password_looks_like_unknown_user(stored_hash: String, password: Seq<char>)
    requires
        crate::hasher::verify_outcome(password, stored_hash@) == Ok::<bool, HashError>(false),
    ensures
        credential_outcome(Ok(Some(stored_hash)), password)
            == credential_outcome(Ok::<Option<String>, CredentialError>(None), password),
        credential_outcome(Ok(Some(stored_hash)), password) matches Err(e)
            && login_error_text(e) == login_error_text(
            crate::gateway::LoginError::InvalidCredentials,
        ),
{
}

/// Every forward-auth answer is 200 exactly when it carries a username, and
/// every denial of a session, for whatever reason, is the same 401 answer.
pub proof fn lemma_denials_are_uniform(found: Option<String>)
    ensures
        status_of(auth_outcome(found)) == 200 <==> auth_outcome(found) is Allow,
        found is None ==> auth_outcome(found) == AuthDecision::Deny && status_of(auth_outcome(found)) == 401,
{
}

} // verus!
