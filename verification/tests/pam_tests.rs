use pamusb::io_error::{IoError, IoErrorKind};
use pamusb::pam::{convert_result, get_user_step, CriticalError, GetUserStep, Pamusb};
use pamusb::pam_errors::{
    AcctMgmt, Authenticate, Chauthtok, GetUser, PamErrorCode, Session, Setcred, PAM_ABORT,
    PAM_AUTH_ERR, PAM_CONV_AGAIN, PAM_CONV_ERR, PAM_MAXTRIES, PAM_SUCCESS,
};

#[test]
fn codes_round_trip() {
    for e in [
        Authenticate::PAM_AUTH_ERR,
        Authenticate::PAM_CRED_INSUFFICIENT,
        Authenticate::PAM_AUTHINFO_UNAVAIL,
        Authenticate::PAM_USER_UNKNOWN,
        Authenticate::PAM_MAXTRIES,
    ] {
        assert_eq!(Authenticate::from_code(e.code()), Ok(e));
    }
    assert_eq!(Authenticate::PAM_AUTH_ERR.code(), 7);
    assert_eq!(Authenticate::from_code(0), Err(()));
    assert_eq!(GetUser::from_code(PAM_CONV_ERR), Ok(GetUser::PAM_CONV_ERR));
    assert_eq!(GetUser::from_code(PAM_AUTH_ERR), Err(()));
    assert_eq!(Session::from_code(14), Ok(Session::PAM_SESSION_ERR));
    assert_eq!(Setcred::PAM_CRED_ERR.code(), 17);
    assert_eq!(AcctMgmt::from_code(13), Ok(AcctMgmt::PAM_ACCT_EXPIRED));
    assert_eq!(Chauthtok::from_code(24), Ok(Chauthtok::PAM_TRY_AGAIN));
}

#[test]
fn get_user_steps() {
    assert!(matches!(get_user_step(PAM_SUCCESS), GetUserStep::Found));
    assert!(matches!(get_user_step(PAM_CONV_AGAIN), GetUserStep::Retry));
    assert!(matches!(get_user_step(PAM_ABORT), GetUserStep::Failed(Ok(GetUser::PAM_ABORT))));
    assert!(matches!(
        get_user_step(PAM_MAXTRIES),
        GetUserStep::Failed(Err(CriticalError::InvalidEnumVariant))
    ));
}

#[test]
fn result_codes() {
    assert_eq!(convert_result::<Authenticate>(Ok(())), 0);
    assert_eq!(convert_result(Err(Authenticate::PAM_USER_UNKNOWN)), 10);
    assert_eq!(convert_result(Err(Session::PAM_SESSION_ERR)), 14);
}

#[test]
fn authentication_decisions() {
    assert_eq!(Pamusb::user_from_lookup(Ok(Ok(b"alice".to_vec()))).unwrap(), "alice");
    assert_eq!(
        Pamusb::user_from_lookup(Ok(Ok(vec![0xff]))).unwrap_err(),
        Authenticate::PAM_USER_UNKNOWN
    );
    assert_eq!(
        Pamusb::user_from_lookup(Ok(Err(GetUser::PAM_BUF_ERR))).unwrap_err(),
        Authenticate::PAM_USER_UNKNOWN
    );
    assert_eq!(
        Pamusb::user_from_lookup(Err(CriticalError::InvalidEnumVariant)).unwrap_err(),
        Authenticate::PAM_AUTH_ERR
    );
    assert!(Pamusb::authentication_result(Ok(true)).is_ok());
    assert_eq!(
        Pamusb::authentication_result(Ok(false)).unwrap_err(),
        Authenticate::PAM_AUTHINFO_UNAVAIL
    );
    assert_eq!(
        Pamusb::authentication_result(Err(IoError::new(IoErrorKind::NotFound, String::new())))
            .unwrap_err(),
        Authenticate::PAM_AUTH_ERR
    );
}
