use crate::errors::{blank, ValidationError};
use vstd::prelude::*;

verus! {

/// Body of an invitation to join a company.
pub struct InviteTeamMemberRequest {
    pub email: String,
    pub role: String,
    pub company_id: i64,
}

/// Body of the request that accepts an invitation.
pub struct AcceptInviteRequest {
    pub token: String,
    pub firstname: String,
    pub lastname: String,
    pub password: String,
}

/// A member of a company's team.
pub struct TeamMemberResponse {
    pub id: i64,
    pub email: String,
    pub firstname: Option<String>,
    pub lastname: Option<String>,
    pub role: String,
    pub created_at: String,
}

/// Answer to a sent invitation.
pub struct InviteResponse {
    pub message: String,
    pub invite_link: String,
}

/// Team invitations and membership.
pub struct TeamController;

impl InviteTeamMemberRequest {
    /// Email and role must be given.
    pub fn validate(&self) -> (r: Result<(), ValidationError>)
        ensures
            r is Ok <==> (self.email@.len() > 0 && self.role@.len() > 0),
            r matches Err(e) ==> e.message@ == "Email and role are required"@,
    {
        if blank(&self.email) || blank(&self.role) {
            return Err(ValidationError::new("Email and role are required"));
        }
        Ok(())
    }
}

impl AcceptInviteRequest {
    /// First name, last name and password must be given.
    pub fn validate(&self) -> (r: Result<(), ValidationError>)
        ensures
            r is Ok <==> (self.firstname@.len() > 0 && self.lastname@.len() > 0
                && self.password@.len() > 0),
            r matches Err(e) ==> e.message@ == "All fields are required"@,
    {
        if blank(&self.firstname) || blank(&self.lastname) || blank(&self.password) {
            return Err(ValidationError::new("All fields are required"));
        }
        Ok(())
    }
}

} // verus!
