use vstd::prelude::*;
use vstd::utf8::{decode_utf8, valid_utf8};
use crate::io_error::IoError;
use crate::pam_errors::{
    Authenticate, GetUser, PamErrorCode, PAM_CONV_AGAIN, PAM_SUCCESS,
};
use crate::text::utf8_string;

verus! {

/// PAM returned a code its documentation does not allow.
#[derive(PartialEq, Eq, Structural, Clone, Copy, Debug)]
pub enum CriticalError {
    InvalidEnumVariant,
}

/// What to do after one call of `pam_get_user`.
#[derive(Clone, Copy, Debug)]
pub enum GetUserStep {
    /// The user name is available.
    Found,
    /// The conversation is not finished yet: call again.
    Retry,
    /// The call failed, with an allowed error or an unexpected code.
    Failed(Result<GetUser, CriticalError>),
}

/// Interprets the return code of `pam_get_user`.
pub fn get_user_step(status: i32) -> (s: GetUserStep)
    ensures
        status == PAM_SUCCESS ==> s == GetUserStep::Found,
        status == PAM_CONV_AGAIN ==> s == GetUserStep::Retry,
        status != PAM_SUCCESS && status != PAM_CONV_AGAIN ==> s == GetUserStep::Failed(
            match GetUser::spec_from_code(status) {
                Ok(e) => Ok(e),
                Err(()) => Err(CriticalError::InvalidEnumVariant),
            },
        ),
{
    if status == PAM_SUCCESS {
        GetUserStep::Found
    } else if status == PAM_CONV_AGAIN {
        GetUserStep::Retry
    } else {
        match GetUser::from_code(status) {
            Ok(e) => GetUserStep::Failed(Ok(e)),
            Err(()) => GetUserStep::Failed(Err(CriticalError::InvalidEnumVariant)),
        }
    }
}

/// The PAM return code of a module entry point's result.
pub fn convert_result<E: PamErrorCode>(result: Result<(), E>) -> (c: i32)
    ensures
        match result {
            Ok(()) => c == PAM_SUCCESS,
            Err(e) => c == e.spec_code(),
        },
{
    match result {
        Ok(()) => PAM_SUCCESS,
        Err(e) => e.code(),
    }
}

/// The PAM module that authenticates users with their USB device.
pub struct Pamusb;

impl Pamusb {
    /// The user to authenticate, from the outcome of asking PAM for the
    /// user name (the name's bytes on success). An unexpected PAM code is
    /// an authentication error; a failed request or a name that is not
    /// UTF-8 is an unknown user.
    pub fn user_from_lookup(lookup: Result<Result<Vec<u8>, GetUser>, CriticalError>) -> (r: Result<
        String,
        Authenticate,
    >)
        ensures
            match lookup {
                Err(_) => r == Err::<String, Authenticate>(Authenticate::PAM_AUTH_ERR),
                Ok(Err(_)) => r == Err::<String, Authenticate>(Authenticate::PAM_USER_UNKNOWN),
                Ok(Ok(name)) => if valid_utf8(name@) {
                    r matches Ok(user) && user@ == decode_utf8(name@)
                } else {
                    r == Err::<String, Authenticate>(Authenticate::PAM_USER_UNKNOWN)
                },
            },
    {
        match lookup {
            Err(_) => Err(Authenticate::PAM_AUTH_ERR),
            Ok(Err(_)) => Err(Authenticate::PAM_USER_UNKNOWN),
            Ok(Ok(name)) => match utf8_string(name) {
                Some(user) => Ok(user),
                None => Err(Authenticate::PAM_USER_UNKNOWN),
            },
        }
    }

    /// The result of authentication, from the outcome of running the
    /// privileged checker: success if it authenticated the user, "no
    /// authentication information" if it refused, an authentication error
    /// if it could not be run.
    pub fn authentication_result(check: Result<bool, IoError>) -> (r: Result<(), Authenticate>)
        ensures
            match check {
                Ok(true) => r is Ok,
                Ok(false) => r == Err::<(), Authenticate>(Authenticate::PAM_AUTHINFO_UNAVAIL),
                Err(_) => r == Err::<(), Authenticate>(Authenticate::PAM_AUTH_ERR),
            },
            r is Ok <==> check matches Ok(true),
    {
        match check {
            Ok(true) => Ok(()),
            Ok(false) => Err(Authenticate::PAM_AUTHINFO_UNAVAIL),
            Err(_) => Err(Authenticate::PAM_AUTH_ERR),
        }
    }
}

} // verus!
