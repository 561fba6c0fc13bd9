use vstd::prelude::*;

verus! {

// Return codes of the PAM interface, with the values of Linux-PAM.
pub const PAM_SUCCESS: i32 = 0;
pub const PAM_OPEN_ERR: i32 = 1;
pub const PAM_SYMBOL_ERR: i32 = 2;
pub const PAM_SERVICE_ERR: i32 = 3;
pub const PAM_SYSTEM_ERR: i32 = 4;
pub const PAM_BUF_ERR: i32 = 5;
pub const PAM_PERM_DENIED: i32 = 6;
pub const PAM_AUTH_ERR: i32 = 7;
pub const PAM_CRED_INSUFFICIENT: i32 = 8;
pub const PAM_AUTHINFO_UNAVAIL: i32 = 9;
pub const PAM_USER_UNKNOWN: i32 = 10;
pub const PAM_MAXTRIES: i32 = 11;
pub const PAM_NEW_AUTHTOK_REQD: i32 = 12;
pub const PAM_ACCT_EXPIRED: i32 = 13;
pub const PAM_SESSION_ERR: i32 = 14;
pub const PAM_CRED_UNAVAIL: i32 = 15;
pub const PAM_CRED_EXPIRED: i32 = 16;
pub const PAM_CRED_ERR: i32 = 17;
pub const PAM_NO_MODULE_DATA: i32 = 18;
pub const PAM_CONV_ERR: i32 = 19;
pub const PAM_AUTHTOK_ERR: i32 = 20;
pub const PAM_AUTHTOK_RECOVERY_ERR: i32 = 21;
pub const PAM_AUTHTOK_LOCK_BUSY: i32 = 22;
pub const PAM_AUTHTOK_DISABLE_AGING: i32 = 23;
pub const PAM_TRY_AGAIN: i32 = 24;
pub const PAM_IGNORE: i32 = 25;
pub const PAM_ABORT: i32 = 26;
pub const PAM_AUTHTOK_EXPIRED: i32 = 27;
pub const PAM_MODULE_UNKNOWN: i32 = 28;
pub const PAM_BAD_ITEM: i32 = 29;
pub const PAM_CONV_AGAIN: i32 = 30;
pub const PAM_INCOMPLETE: i32 = 31;

// Flags passed to the module's entry points, with the values of Linux-PAM.
pub const PAM_SILENT: i32 = 32768;
pub const PAM_DISALLOW_NULL_AUTHTOK: i32 = 1;
pub const PAM_ESTABLISH_CRED: i32 = 2;
pub const PAM_DELETE_CRED: i32 = 4;
pub const PAM_REINITIALIZE_CRED: i32 = 8;
pub const PAM_REFRESH_CRED: i32 = 16;
pub const PAM_CHANGE_EXPIRED_AUTHTOK: i32 = 32;
pub const PAM_UPDATE_AUTHTOK: i32 = 8192;
pub const PAM_PRELIM_CHECK: i32 = 16384;

/// An error type of the PAM interface: each value stands for one PAM
/// return code.
pub trait PamErrorCode: Sized {
    spec fn spec_code(&self) -> i32;

    /// The PAM return code of this error.
    fn code(&self) -> (c: i32)
        ensures
            c == self.spec_code(),
    ;
}

/// The errors PAM allows when authenticating a user.
#[allow(non_camel_case_types)]
#[derive(PartialEq, Eq, Structural, Clone, Copy, Debug)]
pub enum Authenticate {
    PAM_AUTH_ERR,
    PAM_CRED_INSUFFICIENT,
    PAM_AUTHINFO_UNAVAIL,
    PAM_USER_UNKNOWN,
    PAM_MAXTRIES,
}

impl Authenticate {
    /// The error whose PAM return code is `c`, if there is one.
    pub open spec fn spec_from_code(c: i32) -> Result<Authenticate, ()> {
        if c == PAM_AUTH_ERR {
            Ok(Authenticate::PAM_AUTH_ERR)
        } else if c == PAM_CRED_INSUFFICIENT {
            Ok(Authenticate::PAM_CRED_INSUFFICIENT)
        } else if c == PAM_AUTHINFO_UNAVAIL {
            Ok(Authenticate::PAM_AUTHINFO_UNAVAIL)
        } else if c == PAM_USER_UNKNOWN {
            Ok(Authenticate::PAM_USER_UNKNOWN)
        } else if c == PAM_MAXTRIES {
            Ok(Authenticate::PAM_MAXTRIES)
        } else {
            Err(())
        }
    }

    /// The error whose PAM return code is `c`, or `Err(())` for any other code.
    pub fn from_code(c: i32) -> (r: Result<Authenticate, ()>)
        ensures
            r == Authenticate::spec_from_code(c),
    {
        if c == PAM_AUTH_ERR {
            Ok(Authenticate::PAM_AUTH_ERR)
        } else if c == PAM_CRED_INSUFFICIENT {
            Ok(Authenticate::PAM_CRED_INSUFFICIENT)
        } else if c == PAM_AUTHINFO_UNAVAIL {
            Ok(Authenticate::PAM_AUTHINFO_UNAVAIL)
        } else if c == PAM_USER_UNKNOWN {
            Ok(Authenticate::PAM_USER_UNKNOWN)
        } else if c == PAM_MAXTRIES {
            Ok(Authenticate::PAM_MAXTRIES)
        } else {
            Err(())
        }
    }
}

impl PamErrorCode for Authenticate {
    open spec fn spec_code(&self) -> i32 {
        match self {
            Authenticate::PAM_AUTH_ERR => PAM_AUTH_ERR,
            Authenticate::PAM_CRED_INSUFFICIENT => PAM_CRED_INSUFFICIENT,
            Authenticate::PAM_AUTHINFO_UNAVAIL => PAM_AUTHINFO_UNAVAIL,
            Authenticate::PAM_USER_UNKNOWN => PAM_USER_UNKNOWN,
            Authenticate::PAM_MAXTRIES => PAM_MAXTRIES,
        }
    }

    fn code(&self) -> (c: i32) {
        match self {
            Authenticate::PAM_AUTH_ERR => PAM_AUTH_ERR,
            Authenticate::PAM_CRED_INSUFFICIENT => PAM_CRED_INSUFFICIENT,
            Authenticate::PAM_AUTHINFO_UNAVAIL => PAM_AUTHINFO_UNAVAIL,
            Authenticate::PAM_USER_UNKNOWN => PAM_USER_UNKNOWN,
            Authenticate::PAM_MAXTRIES => PAM_MAXTRIES,
        }
    }
}

/// Converting a `Authenticate` error to its code and back gives the same error,
/// and a code that converts to an error is that error's code.
pub proof fn lemma_authenticate_code_round_trip(e: Authenticate, c: i32)
    ensures
        Authenticate::spec_from_code(e.spec_code()) == Ok::<Authenticate, ()>(e),
        Authenticate::spec_from_code(c) matches Ok(f) ==> f.spec_code() == c,
{
}

/// The errors PAM allows when setting credentials.
#[allow(non_camel_case_types)]
#[derive(PartialEq, Eq, Structural, Clone, Copy, Debug)]
pub enum Setcred {
    PAM_CRED_UNAVAIL,
    PAM_CRED_EXPIRED,
    PAM_CRED_ERR,
    PAM_USER_UNKNOWN,
}

impl Setcred {
    /// The error whose PAM return code is `c`, if there is one.
    pub open spec fn spec_from_code(c: i32) -> Result<Setcred, ()> {
        if c == PAM_CRED_UNAVAIL {
            Ok(Setcred::PAM_CRED_UNAVAIL)
        } else if c == PAM_CRED_EXPIRED {
            Ok(Setcred::PAM_CRED_EXPIRED)
        } else if c == PAM_CRED_ERR {
            Ok(Setcred::PAM_CRED_ERR)
        } else if c == PAM_USER_UNKNOWN {
            Ok(Setcred::PAM_USER_UNKNOWN)
        } else {
            Err(())
        }
    }

    /// The error whose PAM return code is `c`, or `Err(())` for any other code.
    pub fn from_code(c: i32) -> (r: Result<Setcred, ()>)
        ensures
            r == Setcred::spec_from_code(c),
    {
        if c == PAM_CRED_UNAVAIL {
            Ok(Setcred::PAM_CRED_UNAVAIL)
        } else if c == PAM_CRED_EXPIRED {
            Ok(Setcred::PAM_CRED_EXPIRED)
        } else if c == PAM_CRED_ERR {
            Ok(Setcred::PAM_CRED_ERR)
        } else if c == PAM_USER_UNKNOWN {
            Ok(Setcred::PAM_USER_UNKNOWN)
        } else {
            Err(())
        }
    }
}

impl PamErrorCode for Setcred {
    open spec fn spec_code(&self) -> i32 {
        match self {
            Setcred::PAM_CRED_UNAVAIL => PAM_CRED_UNAVAIL,
            Setcred::PAM_CRED_EXPIRED => PAM_CRED_EXPIRED,
            Setcred::PAM_CRED_ERR => PAM_CRED_ERR,
            Setcred::PAM_USER_UNKNOWN => PAM_USER_UNKNOWN,
        }
    }

    fn code(&self) -> (c: i32) {
        match self {
            Setcred::PAM_CRED_UNAVAIL => PAM_CRED_UNAVAIL,
            Setcred::PAM_CRED_EXPIRED => PAM_CRED_EXPIRED,
            Setcred::PAM_CRED_ERR => PAM_CRED_ERR,
            Setcred::PAM_USER_UNKNOWN => PAM_USER_UNKNOWN,
        }
    }
}

/// Converting a `Setcred` error to its code and back gives the same error,
/// and a code that converts to an error is that error's code.
pub proof fn lemma_setcred_code_round_trip(e: Setcred, c: i32)
    ensures
        Setcred::spec_from_code(e.spec_code()) == Ok::<Setcred, ()>(e),
        Setcred::spec_from_code(c) matches Ok(f) ==> f.spec_code() == c,
{
}

/// The errors PAM allows when account management.
#[allow(non_camel_case_types)]
#[derive(PartialEq, Eq, Structural, Clone, Copy, Debug)]
pub enum AcctMgmt {
    PAM_ACCT_EXPIRED,
    PAM_AUTH_ERR,
    PAM_NEW_AUTHTOK_REQD,
    PAM_PERM_DENIED,
    PAM_USER_UNKNOWN,
}

impl AcctMgmt {
    /// The error whose PAM return code is `c`, if there is one.
    pub open spec fn spec_from_code(c: i32) -> Result<AcctMgmt, ()> {
        if c == PAM_ACCT_EXPIRED {
            Ok(AcctMgmt::PAM_ACCT_EXPIRED)
        } else if c == PAM_AUTH_ERR {
            Ok(AcctMgmt::PAM_AUTH_ERR)
        } else if c == PAM_NEW_AUTHTOK_REQD {
            Ok(AcctMgmt::PAM_NEW_AUTHTOK_REQD)
        } else if c == PAM_PERM_DENIED {
            Ok(AcctMgmt::PAM_PERM_DENIED)
        } else if c == PAM_USER_UNKNOWN {
            Ok(AcctMgmt::PAM_USER_UNKNOWN)
        } else {
            Err(())
        }
    }

    /// The error whose PAM return code is `c`, or `Err(())` for any other code.
    pub fn from_code(c: i32) -> (r: Result<AcctMgmt, ()>)
        ensures
            r == AcctMgmt::spec_from_code(c),
    {
        if c == PAM_ACCT_EXPIRED {
            Ok(AcctMgmt::PAM_ACCT_EXPIRED)
        } else if c == PAM_AUTH_ERR {
            Ok(AcctMgmt::PAM_AUTH_ERR)
        } else if c == PAM_NEW_AUTHTOK_REQD {
            Ok(AcctMgmt::PAM_NEW_AUTHTOK_REQD)
        } else if c == PAM_PERM_DENIED {
            Ok(AcctMgmt::PAM_PERM_DENIED)
        } else if c == PAM_USER_UNKNOWN {
            Ok(AcctMgmt::PAM_USER_UNKNOWN)
        } else {
            Err(())
        }
    }
}

impl PamErrorCode for AcctMgmt {
    open spec fn spec_code(&self) -> i32 {
        match self {
            AcctMgmt::PAM_ACCT_EXPIRED => PAM_ACCT_EXPIRED,
            AcctMgmt::PAM_AUTH_ERR => PAM_AUTH_ERR,
            AcctMgmt::PAM_NEW_AUTHTOK_REQD => PAM_NEW_AUTHTOK_REQD,
            AcctMgmt::PAM_PERM_DENIED => PAM_PERM_DENIED,
            AcctMgmt::PAM_USER_UNKNOWN => PAM_USER_UNKNOWN,
        }
    }

    fn code(&self) -> (c: i32) {
        match self {
            AcctMgmt::PAM_ACCT_EXPIRED => PAM_ACCT_EXPIRED,
            AcctMgmt::PAM_AUTH_ERR => PAM_AUTH_ERR,
            AcctMgmt::PAM_NEW_AUTHTOK_REQD => PAM_NEW_AUTHTOK_REQD,
            AcctMgmt::PAM_PERM_DENIED => PAM_PERM_DENIED,
            AcctMgmt::PAM_USER_UNKNOWN => PAM_USER_UNKNOWN,
        }
    }
}

/// Converting a `AcctMgmt` error to its code and back gives the same error,
/// and a code that converts to an error is that error's code.
pub proof fn lemma_acct_mgmt_code_round_trip(e: AcctMgmt, c: i32)
    ensures
        AcctMgmt::spec_from_code(e.spec_code()) == Ok::<AcctMgmt, ()>(e),
        AcctMgmt::spec_from_code(c) matches Ok(f) ==> f.spec_code() == c,
{
}

/// The errors PAM allows when opening or closing a session.
#[allow(non_camel_case_types)]
#[derive(PartialEq, Eq, Structural, Clone, Copy, Debug)]
pub enum Session {
    PAM_SESSION_ERR,
}

impl Session {
    /// The error whose PAM return code is `c`, if there is one.
    pub open spec fn spec_from_code(c: i32) -> Result<Session, ()> {
        if c == PAM_SESSION_ERR {
            Ok(Session::PAM_SESSION_ERR)
        } else {
            Err(())
        }
    }

    /// The error whose PAM return code is `c`, or `Err(())` for any other code.
    pub fn from_code(c: i32) -> (r: Result<Session, ()>)
        ensures
            r == Session::spec_from_code(c),
    {
        if c == PAM_SESSION_ERR {
            Ok(Session::PAM_SESSION_ERR)
        } else {
            Err(())
        }
    }
}

impl PamErrorCode for Session {
    open spec fn spec_code(&self) -> i32 {
        match self {
            Session::PAM_SESSION_ERR => PAM_SESSION_ERR,
        }
    }

    fn code(&self) -> (c: i32) {
        match self {
            Session::PAM_SESSION_ERR => PAM_SESSION_ERR,
        }
    }
}

/// Converting a `Session` error to its code and back gives the same error,
/// and a code that converts to an error is that error's code.
pub proof fn lemma_session_code_round_trip(e: Session, c: i32)
    ensures
        Session::spec_from_code(e.spec_code()) == Ok::<Session, ()>(e),
        Session::spec_from_code(c) matches Ok(f) ==> f.spec_code() == c,
{
}

/// The errors PAM allows when changing an authentication token.
#[allow(non_camel_case_types)]
#[derive(PartialEq, Eq, Structural, Clone, Copy, Debug)]
pub enum Chauthtok {
    PAM_AUTHTOK_ERR,
    PAM_AUTHTOK_RECOVERY_ERR,
    PAM_AUTHTOK_LOCK_BUSY,
    PAM_AUTHTOK_DISABLE_AGING,
    PAM_PERM_DENIED,
    PAM_TRY_AGAIN,
    PAM_USER_UNKNOWN,
}

impl Chauthtok {
    /// The error whose PAM return code is `c`, if there is one.
    pub open spec fn spec_from_code(c: i32) -> Result<Chauthtok, ()> {
        if c == PAM_AUTHTOK_ERR {
            Ok(Chauthtok::PAM_AUTHTOK_ERR)
        } else if c == PAM_AUTHTOK_RECOVERY_ERR {
            Ok(Chauthtok::PAM_AUTHTOK_RECOVERY_ERR)
        } else if c == PAM_AUTHTOK_LOCK_BUSY {
            Ok(Chauthtok::PAM_AUTHTOK_LOCK_BUSY)
        } else if c == PAM_AUTHTOK_DISABLE_AGING {
            Ok(Chauthtok::PAM_AUTHTOK_DISABLE_AGING)
        } else if c == PAM_PERM_DENIED {
            Ok(Chauthtok::PAM_PERM_DENIED)
        } else if c == PAM_TRY_AGAIN {
            Ok(Chauthtok::PAM_TRY_AGAIN)
        } else if c == PAM_USER_UNKNOWN {
            Ok(Chauthtok::PAM_USER_UNKNOWN)
        } else {
            Err(())
        }
    }

    /// The error whose PAM return code is `c`, or `Err(())` for any other code.
    pub fn from_code(c: i32) -> (r: Result<Chauthtok, ()>)
        ensures
            r == Chauthtok::spec_from_code(c),
    {
        if c == PAM_AUTHTOK_ERR {
            Ok(Chauthtok::PAM_AUTHTOK_ERR)
        } else if c == PAM_AUTHTOK_RECOVERY_ERR {
            Ok(Chauthtok::PAM_AUTHTOK_RECOVERY_ERR)
        } else if c == PAM_AUTHTOK_LOCK_BUSY {
            Ok(Chauthtok::PAM_AUTHTOK_LOCK_BUSY)
        } else if c == PAM_AUTHTOK_DISABLE_AGING {
            Ok(Chauthtok::PAM_AUTHTOK_DISABLE_AGING)
        } else if c == PAM_PERM_DENIED {
            Ok(Chauthtok::PAM_PERM_DENIED)
        } else if c == PAM_TRY_AGAIN {
            Ok(Chauthtok::PAM_TRY_AGAIN)
        } else if c == PAM_USER_UNKNOWN {
            Ok(Chauthtok::PAM_USER_UNKNOWN)
        } else {
            Err(())
        }
    }
}

impl PamErrorCode for Chauthtok {
    open spec fn spec_code(&self) -> i32 {
        match self {
            Chauthtok::PAM_AUTHTOK_ERR => PAM_AUTHTOK_ERR,
            Chauthtok::PAM_AUTHTOK_RECOVERY_ERR => PAM_AUTHTOK_RECOVERY_ERR,
            Chauthtok::PAM_AUTHTOK_LOCK_BUSY => PAM_AUTHTOK_LOCK_BUSY,
            Chauthtok::PAM_AUTHTOK_DISABLE_AGING => PAM_AUTHTOK_DISABLE_AGING,
            Chauthtok::PAM_PERM_DENIED => PAM_PERM_DENIED,
            Chauthtok::PAM_TRY_AGAIN => PAM_TRY_AGAIN,
            Chauthtok::PAM_USER_UNKNOWN => PAM_USER_UNKNOWN,
        }
    }

    fn code(&self) -> (c: i32) {
        match self {
            Chauthtok::PAM_AUTHTOK_ERR => PAM_AUTHTOK_ERR,
            Chauthtok::PAM_AUTHTOK_RECOVERY_ERR => PAM_AUTHTOK_RECOVERY_ERR,
            Chauthtok::PAM_AUTHTOK_LOCK_BUSY => PAM_AUTHTOK_LOCK_BUSY,
            Chauthtok::PAM_AUTHTOK_DISABLE_AGING => PAM_AUTHTOK_DISABLE_AGING,
            Chauthtok::PAM_PERM_DENIED => PAM_PERM_DENIED,
            Chauthtok::PAM_TRY_AGAIN => PAM_TRY_AGAIN,
            Chauthtok::PAM_USER_UNKNOWN => PAM_USER_UNKNOWN,
        }
    }
}

/// Converting a `Chauthtok` error to its code and back gives the same error,
/// and a code that converts to an error is that error's code.
pub proof fn lemma_chauthtok_code_round_trip(e: Chauthtok, c: i32)
    ensures
        Chauthtok::spec_from_code(e.spec_code()) == Ok::<Chauthtok, ()>(e),
        Chauthtok::spec_from_code(c) matches Ok(f) ==> f.spec_code() == c,
{
}

/// The errors PAM allows when asking PAM for the user name.
#[allow(non_camel_case_types)]
#[derive(PartialEq, Eq, Structural, Clone, Copy, Debug)]
pub enum GetUser {
    PAM_SYSTEM_ERR,
    PAM_CONV_ERR,
    PAM_BUF_ERR,
    PAM_ABORT,
}

impl GetUser {
    /// The error whose PAM return code is `c`, if there is one.
    pub open spec fn spec_from_code(c: i32) -> Result<GetUser, ()> {
        if c == PAM_SYSTEM_ERR {
            Ok(GetUser::PAM_SYSTEM_ERR)
        } else if c == PAM_CONV_ERR {
            Ok(GetUser::PAM_CONV_ERR)
        } else if c == PAM_BUF_ERR {
            Ok(GetUser::PAM_BUF_ERR)
        } else if c == PAM_ABORT {
            Ok(GetUser::PAM_ABORT)
        } else {
            Err(())
        }
    }

    /// The error whose PAM return code is `c`, or `Err(())` for any other code.
    pub fn from_code(c: i32) -> (r: Result<GetUser, ()>)
        ensures
            r == GetUser::spec_from_code(c),
    {
        if c == PAM_SYSTEM_ERR {
            Ok(GetUser::PAM_SYSTEM_ERR)
        } else if c == PAM_CONV_ERR {
            Ok(GetUser::PAM_CONV_ERR)
        } else if c == PAM_BUF_ERR {
            Ok(GetUser::PAM_BUF_ERR)
        } else if c == PAM_ABORT {
            Ok(GetUser::PAM_ABORT)
        } else {
            Err(())
        }
    }
}

impl PamErrorCode for GetUser {
    open spec fn spec_code(&self) -> i32 {
        match self {
            GetUser::PAM_SYSTEM_ERR => PAM_SYSTEM_ERR,
            GetUser::PAM_CONV_ERR => PAM_CONV_ERR,
            GetUser::PAM_BUF_ERR => PAM_BUF_ERR,
            GetUser::PAM_ABORT => PAM_ABORT,
        }
    }

    fn code(&self) -> (c: i32) {
        match self {
            GetUser::PAM_SYSTEM_ERR => PAM_SYSTEM_ERR,
            GetUser::PAM_CONV_ERR => PAM_CONV_ERR,
            GetUser::PAM_BUF_ERR => PAM_BUF_ERR,
            GetUser::PAM_ABORT => PAM_ABORT,
        }
    }
}

/// Converting a `GetUser` error to its code and back gives the same error,
/// and a code that converts to an error is that error's code.
pub proof fn lemma_get_user_code_round_trip(e: GetUser, c: i32)
    ensures
        GetUser::spec_from_code(e.spec_code()) == Ok::<GetUser, ()>(e),
        GetUser::spec_from_code(c) matches Ok(f) ==> f.spec_code() == c,
{
}

/// Each `Authenticate` error stands for the Linux-PAM return code of the same name.
pub proof fn lemma_authenticate_codes_are_pam_constants()
    ensures
        Authenticate::PAM_AUTH_ERR.spec_code() == PAM_AUTH_ERR,
        Authenticate::PAM_CRED_INSUFFICIENT.spec_code() == PAM_CRED_INSUFFICIENT,
        Authenticate::PAM_AUTHINFO_UNAVAIL.spec_code() == PAM_AUTHINFO_UNAVAIL,
        Authenticate::PAM_USER_UNKNOWN.spec_code() == PAM_USER_UNKNOWN,
        Authenticate::PAM_MAXTRIES.spec_code() == PAM_MAXTRIES,
{
}

/// Each `Setcred` error stands for the Linux-PAM return code of the same name.
pub proof fn lemma_setcred_codes_are_pam_constants()
    ensures
        Setcred::PAM_CRED_UNAVAIL.spec_code() == PAM_CRED_UNAVAIL,
        Setcred::PAM_CRED_EXPIRED.spec_code() == PAM_CRED_EXPIRED,
        Setcred::PAM_CRED_ERR.spec_code() == PAM_CRED_ERR,
        Setcred::PAM_USER_UNKNOWN.spec_code() == PAM_USER_UNKNOWN,
{
}

/// Each `AcctMgmt` error stands for the Linux-PAM return code of the same name.
pub proof fn lemma_acct_mgmt_codes_are_pam_constants()
    ensures
        AcctMgmt::PAM_ACCT_EXPIRED.spec_code() == PAM_ACCT_EXPIRED,
        AcctMgmt::PAM_AUTH_ERR.spec_code() == PAM_AUTH_ERR,
        AcctMgmt::PAM_NEW_AUTHTOK_REQD.spec_code() == PAM_NEW_AUTHTOK_REQD,
        AcctMgmt::PAM_PERM_DENIED.spec_code() == PAM_PERM_DENIED,
        AcctMgmt::PAM_USER_UNKNOWN.spec_code() == PAM_USER_UNKNOWN,
{
}

/// Each `Session` error stands for the Linux-PAM return code of the same name.
pub proof fn lemma_session_codes_are_pam_constants()
    ensures
        Session::PAM_SESSION_ERR.spec_code() == PAM_SESSION_ERR,
{
}

/// Each `Chauthtok` error stands for the Linux-PAM return code of the same name.
pub proof fn lemma_chauthtok_codes_are_pam_constants()
    ensures
        Chauthtok::PAM_AUTHTOK_ERR.spec_code() == PAM_AUTHTOK_ERR,
        Chauthtok::PAM_AUTHTOK_RECOVERY_ERR.spec_code() == PAM_AUTHTOK_RECOVERY_ERR,
        Chauthtok::PAM_AUTHTOK_LOCK_BUSY.spec_code() == PAM_AUTHTOK_LOCK_BUSY,
        Chauthtok::PAM_AUTHTOK_DISABLE_AGING.spec_code() == PAM_AUTHTOK_DISABLE_AGING,
        Chauthtok::PAM_PERM_DENIED.spec_code() == PAM_PERM_DENIED,
        Chauthtok::PAM_TRY_AGAIN.spec_code() == PAM_TRY_AGAIN,
        Chauthtok::PAM_USER_UNKNOWN.spec_code() == PAM_USER_UNKNOWN,
{
}

/// Each `GetUser` error stands for the Linux-PAM return code of the same name.
pub proof fn lemma_get_user_codes_are_pam_constants()
    ensures
        GetUser::PAM_SYSTEM_ERR.spec_code() == PAM_SYSTEM_ERR,
        GetUser::PAM_CONV_ERR.spec_code() == PAM_CONV_ERR,
        GetUser::PAM_BUF_ERR.spec_code() == PAM_BUF_ERR,
        GetUser::PAM_ABORT.spec_code() == PAM_ABORT,
{
}

/// The Linux-PAM return codes, as `_pam_types.h` defines them.
pub proof fn lemma_pam_constant_values()
    ensures
        PAM_SUCCESS == 0,
        PAM_SYSTEM_ERR == 4,
        PAM_BUF_ERR == 5,
        PAM_PERM_DENIED == 6,
        PAM_AUTH_ERR == 7,
        PAM_CRED_INSUFFICIENT == 8,
        PAM_AUTHINFO_UNAVAIL == 9,
        PAM_USER_UNKNOWN == 10,
        PAM_MAXTRIES == 11,
        PAM_NEW_AUTHTOK_REQD == 12,
        PAM_ACCT_EXPIRED == 13,
        PAM_SESSION_ERR == 14,
        PAM_CRED_UNAVAIL == 15,
        PAM_CRED_EXPIRED == 16,
        PAM_CRED_ERR == 17,
        PAM_CONV_ERR == 19,
        PAM_AUTHTOK_ERR == 20,
        PAM_AUTHTOK_RECOVERY_ERR == 21,
        PAM_AUTHTOK_LOCK_BUSY == 22,
        PAM_AUTHTOK_DISABLE_AGING == 23,
        PAM_TRY_AGAIN == 24,
        PAM_ABORT == 26,
        PAM_CONV_AGAIN == 30,
{
}

} // verus!
