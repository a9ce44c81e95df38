//! Request handlers behind the gates: the admin dashboard payload and
//! the user profile payload.

use vstd::prelude::*;

use crate::gate::AuthBearer;
use crate::identity::IdentityStore;
use crate::manager::AuthError;

verus! {

/// Payload of the admin dashboard.
#[derive(Debug)]
pub struct AdminDashboardResponse {
    pub message: String,
    pub user_id: u64,
}

/// Build the dashboard payload for a verified bearer credential,
/// refusing any role but `"Admin"`.
pub fn admin_dashboard(bearer: &AuthBearer) -> (r: Result<AdminDashboardResponse, AuthError>)
    ensures
        (match r {
            Ok(resp) => bearer.0@.role == "Admin"@ && resp.message@
                == "Welcome to the admin dashboard!"@ && resp.user_id == bearer.0@.sub,
            Err(e) => e == AuthError::Forbidden && bearer.0@.role != "Admin"@,
        }),
{
    let role_owned: String = bearer.0.role.clone();
    let admin: String = "Admin".to_owned();
    if role_owned == admin {
        Ok(
            AdminDashboardResponse {
                message: "Welcome to the admin dashboard!".to_owned(),
                user_id: bearer.0.sub,
            },
        )
    } else {
        Err(AuthError::Forbidden)
    }
}

/// A profile as serialized to its owner: everything but the password
/// hash.
#[derive(Debug)]
pub struct UserProfileData {
    pub id: u64,
    pub name: String,
    pub email: String,
    pub role: String,
}

/// Envelope of the profile payload; a missing identity is reported in
/// the body rather than as a transport error.
#[derive(Debug)]
pub struct UserProfileResponse {
    pub status: String,
    pub code: u16,
    pub data: Option<UserProfileData>,
}

/// Look the identity up and shape its profile payload: a success body
/// with the public fields when it exists, an error body otherwise.
pub fn profile<I: IdentityStore>(ids: &I, id: u64) -> (r: Result<UserProfileResponse, AuthError>)
    ensures
        (match r {
            Ok(resp) => if ids.by_id().contains_key(id) {
                ({
                    let u = ids.by_id()[id];
                    &&& resp.status@ == "success"@
                    &&& resp.code == 200
                    &&& (match resp.data {
                        Some(d) => d.id == u.id && d.name@ == u.name && d.email@ == u.email
                            && d.role@ == u.role,
                        None => false,
                    })
                })
            } else {
                resp.status@ == "error"@ && resp.code == 404 && resp.data is None
            },
            Err(e) => e == AuthError::Internal,
        }),
{
    let user = match ids.find_by_id(id) {
        Ok(u) => u,
        Err(_) => {
            return Err(AuthError::Internal);
        },
    };
    match user {
        Some(u) => Ok(
            UserProfileResponse {
                status: "success".to_owned(),
                code: 200,
                data: Some(
                    UserProfileData { id: u.id, name: u.name, email: u.email, role: u.role },
                ),
            },
        ),
        None => Ok(UserProfileResponse { status: "error".to_owned(), code: 404, data: None }),
    }
}

} // verus!
