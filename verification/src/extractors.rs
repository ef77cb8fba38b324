//! The decisions behind recognising who makes a request.

use vstd::prelude::*;
use crate::errors::ServiceError;
use crate::handlers::UserRequest;
use crate::serializers::{SuperuserInfo, UserId, UserInfo, spec_superuser_info};

verus! {

/// The token that identifies the requester, from the identity store of the
/// request: where the service has no identity store, an internal error;
/// where the requester has no identity, unauthorized.
pub fn identity_token(identity: Option<Option<String>>) -> (res: Result<String, ServiceError>)
    ensures
        match identity {
            None => res matches Err(ServiceError::InternalServerError),
            Some(None) => res matches Err(ServiceError::Unauthorized),
            Some(Some(token)) => res == Ok::<String, ServiceError>(token),
        },
{
    match identity {
        Some(identity) => match identity {
            Some(token) => Ok(token),
            None => Err(ServiceError::Unauthorized),
        },
        None => Err(ServiceError::InternalServerError),
    }
}

/// The request for the requester's account: where the service has no
/// application data, an internal error; where the requester is not
/// identified, unauthorized.
pub fn user_request(has_app_data: bool, user_id: Option<UserId>) -> (res: Result<UserRequest, ServiceError>)
    ensures
        !has_app_data ==> res matches Err(ServiceError::InternalServerError),
        has_app_data ==> match user_id {
            None => res matches Err(ServiceError::Unauthorized),
            Some(u) => res == Ok::<UserRequest, ServiceError>(UserRequest(u.id)),
        },
{
    if !has_app_data {
        return Err(ServiceError::InternalServerError);
    }
    match user_id {
        Some(user_id) => Ok(UserRequest(user_id.id)),
        None => Err(ServiceError::Unauthorized),
    }
}

/// The requester as a superuser, from the requester's account (or the error
/// that finding it gave): an ordinary account is forbidden with the message
/// "must be a superuser".
pub fn superuser_info(user_info: Result<UserInfo, ServiceError>) -> (res: Result<SuperuserInfo, ServiceError>)
    ensures
        match user_info {
            Err(e) => res == Err::<SuperuserInfo, ServiceError>(e),
            Ok(info) => match spec_superuser_info(info) {
                Ok(s) => res == Ok::<SuperuserInfo, ServiceError>(s),
                Err(_) => res matches Err(ServiceError::Forbidden(m)) && m@ == "must be a superuser"@,
            },
        },
{
    match user_info {
        Ok(info) => match SuperuserInfo::try_from(info) {
            Ok(s) => Ok(s),
            Err(e) => Err(e.into()),
        },
        Err(e) => Err(e),
    }
}

} // verus!
