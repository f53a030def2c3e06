//! The remote face of the authentication flows: each call runs a flow and
//! turns its failure into the status that the caller is told. The code of the
//! status goes by the class of the failure, the text names the call.

use crate::error::{error_text, AppResult, Error, ErrorView};
use crate::grpc::transport::{Authorization, AuthorizationView, Code, Status, StatusView};
use crate::models::player::{
    EnhancedLoginResponse, LoginRequest, PasswordChangeRequest, PlayerView, RefreshRequest,
    RefreshResponse,
};
use crate::services::credential_store::CredentialStore;
use crate::services::player_service::{
    change_password_post, login_post, refresh_post, request_verdict, PlayerService,
};
use std::sync::Arc;
use vstd::prelude::*;

verus! {

/// The status code for each class of failure: a token that is not accepted
/// and credentials that are wrong leave the caller unauthenticated, a missing
/// account is not found, a broken rule is an invalid argument, and a failure
/// of signing or storage is internal.
pub open spec fn error_code(error: ErrorView) -> Code {
    match error {
        ErrorView::Unauthorized => Code::Unauthenticated,
        ErrorView::WrongCredentials => Code::Unauthenticated,
        ErrorView::NotFound => Code::NotFound,
        ErrorView::CustomValidationError(_) => Code::InvalidArgument,
        ErrorView::InternalError(_) => Code::Internal,
    }
}

/// The status for a failed login or refresh.
pub open spec fn authentication_failed(error: Error) -> StatusView {
    StatusView {
        code: error_code(error@),
        message: "Authentication failed: "@ + error_text(error@),
    }
}

/// The status for a failed password change.
pub open spec fn password_change_failed(error: Error) -> StatusView {
    StatusView {
        code: error_code(error@),
        message: "Password change failed: "@ + error_text(error@),
    }
}

/// Each call tells a failure with the code of its class, so that a missing
/// account and a broken rule are told apart from a caller that is not
/// authenticated, and all three from a failure of the service.
pub proof fn lemma_codes_by_class(error: Error)
    ensures
        authentication_failed(error).code == error_code(error@),
        password_change_failed(error).code == error_code(error@),
        error_code(error@) == Code::Unauthenticated <==> (error@ is Unauthorized || error@
            is WrongCredentials),
        error_code(error@) == Code::NotFound <==> error@ is NotFound,
        error_code(error@) == Code::InvalidArgument <==> error@ is CustomValidationError,
        error_code(error@) == Code::Internal <==> error@ is InternalError,
{
}

/// `true` where `reply` hands the response of a login on, or tells its
/// failure with the code of its class.
pub open spec fn is_login_reply(
    result: AppResult<EnhancedLoginResponse>,
    reply: Result<EnhancedLoginResponse, Status>,
) -> bool {
    match result {
        Ok(response) => reply matches Ok(given) && given == response,
        Err(error) => reply matches Err(status) && status@ == authentication_failed(error),
    }
}

/// `true` where `reply` hands the response of a refresh on, or tells its
/// failure with the code of its class.
pub open spec fn is_refresh_reply(
    result: AppResult<RefreshResponse>,
    reply: Result<RefreshResponse, Status>,
) -> bool {
    match result {
        Ok(response) => reply matches Ok(given) && given == response,
        Err(error) => reply matches Err(status) && status@ == authentication_failed(error),
    }
}

/// `true` where `reply` hands the response of a password change on, or tells
/// its failure with the code of its class.
pub open spec fn is_password_change_reply(
    result: AppResult<EnhancedLoginResponse>,
    reply: Result<EnhancedLoginResponse, Status>,
) -> bool {
    match result {
        Ok(response) => reply matches Ok(given) && given == response,
        Err(error) => reply matches Err(status) && status@ == password_change_failed(error),
    }
}

/// What [`GrpcAuthenticationService::change_password`] does to the store and
/// replies: a call that is not authenticated for changing the password is
/// told why and changes nothing; any other call changes the password of the
/// account that its token is for.
pub open spec fn change_password_call(
    secret: Seq<char>,
    before: Seq<PlayerView>,
    after: Seq<PlayerView>,
    authorization: AuthorizationView,
    password: Seq<char>,
    now: i64,
    reply: Result<EnhancedLoginResponse, Status>,
) -> bool {
    match request_verdict(secret, before, authorization, true, now) {
        Err(status) => {
            &&& after == before
            &&& reply matches Err(given) && given@ == status
        },
        Ok(claims) => exists|result: AppResult<EnhancedLoginResponse>|
            #![auto]
            change_password_post(secret, before, after, claims.sub, password, now, result)
                && is_password_change_reply(result, reply),
    }
}

/// Serves the authentication flows to remote callers.
pub struct GrpcAuthenticationService {
    player_service: Arc<PlayerService>,
}

impl GrpcAuthenticationService {
    /// The service that this value serves.
    pub closed spec fn service(&self) -> PlayerService {
        *self.player_service
    }

    /// Wraps the shared service.
    pub fn new(player_service: Arc<PlayerService>) -> (served: Self)
        ensures
            served.service() == *player_service,
    {
        Self { player_service }
    }

    /// The status code for the class of `error`.
    pub fn code_of(error: &Error) -> (code: Code)
        ensures
            code == error_code(error@),
    {
        match error {
            Error::Unauthorized => Code::Unauthenticated,
            Error::WrongCredentials => Code::Unauthenticated,
            Error::NotFound => Code::NotFound,
            Error::CustomValidationError(_) => Code::InvalidArgument,
            Error::InternalError(_) => Code::Internal,
        }
    }

    /// Tells the caller of a login what came of it.
    pub fn login_reply(result: AppResult<EnhancedLoginResponse>) -> (reply: Result<
        EnhancedLoginResponse,
        Status,
    >)
        ensures
            is_login_reply(result, reply),
    {
        match result {
            Ok(response) => Ok(response),
            Err(error) => Err(
                Status {
                    code: Self::code_of(&error),
                    message: String::from_str("Authentication failed: ").concat(
                        error.message().as_str(),
                    ),
                },
            ),
        }
    }

    /// Tells the caller of a refresh what came of it.
    pub fn refresh_reply(result: AppResult<RefreshResponse>) -> (reply: Result<
        RefreshResponse,
        Status,
    >)
        ensures
            is_refresh_reply(result, reply),
    {
        match result {
            Ok(response) => Ok(response),
            Err(error) => Err(
                Status {
                    code: Self::code_of(&error),
                    message: String::from_str("Authentication failed: ").concat(
                        error.message().as_str(),
                    ),
                },
            ),
        }
    }

    /// Tells the caller of a password change what came of it.
    pub fn change_password_reply(result: AppResult<EnhancedLoginResponse>) -> (reply: Result<
        EnhancedLoginResponse,
        Status,
    >)
        ensures
            is_password_change_reply(result, reply),
    {
        match result {
            Ok(response) => Ok(response),
            Err(error) => Err(
                Status {
                    code: Self::code_of(&error),
                    message: String::from_str("Password change failed: ").concat(
                        error.message().as_str(),
                    ),
                },
            ),
        }
    }

    /// The login call.
    pub fn login(&self, store: &mut CredentialStore, request: LoginRequest, now: i64) -> (reply:
        Result<EnhancedLoginResponse, Status>)
        ensures
            exists|result: AppResult<EnhancedLoginResponse>|
                #![auto]
                login_post(
                    self.service().secret(),
                    old(store)@,
                    final(store)@,
                    request.username@,
                    request.password@,
                    now,
                    result,
                ) && is_login_reply(result, reply),
    {
        let result = self.player_service.login_user(store, request, now);
        let ghost witness = result;
        let reply = Self::login_reply(result);
        assert(is_login_reply(witness, reply));
        reply
    }

    /// The refresh call.
    pub fn refresh(&self, store: &CredentialStore, request: RefreshRequest, now: i64) -> (reply:
        Result<RefreshResponse, Status>)
        ensures
            exists|result: AppResult<RefreshResponse>|
                #![auto]
                refresh_post(self.service().secret(), store@, request.refresh_token@, now, result)
                    && is_refresh_reply(result, reply),
    {
        let result = self.player_service.refresh_user(store, request, now);
        let ghost witness = result;
        let reply = Self::refresh_reply(result);
        assert(is_refresh_reply(witness, reply));
        reply
    }

    /// The call that changes the password. The caller is authenticated by
    /// its authorization header; a password-change token is good enough.
    pub fn change_password(
        &self,
        store: &mut CredentialStore,
        authorization: &Authorization,
        request: PasswordChangeRequest,
        now: i64,
    ) -> (reply: Result<EnhancedLoginResponse, Status>)
        ensures
            change_password_call(
                self.service().secret(),
                old(store)@,
                final(store)@,
                authorization@,
                request.new_password@,
                now,
                reply,
            ),
    {
        let claims = match self.player_service.verify_request_allow_password_change(
            store,
            authorization,
            now,
        ) {
            Ok(claims) => claims,
            Err(status) => { return Err(status); },
        };
        let result = self.player_service.change_password(store, claims.sub, request, now);
        let ghost witness = result;
        let reply = Self::change_password_reply(result);
        assert(is_password_change_reply(witness, reply));
        reply
    }
}

} // verus!
