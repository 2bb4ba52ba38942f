use vstd::prelude::*;

use crate::action::{OcppRequest, OcppResponse};
use crate::enums::AuthorizationStatus;
use crate::messages::Timestamp;

verus! {

/// Authorization status of an idTag, with its optional expiry and parent.
#[derive(Debug, PartialEq)]
pub struct IdTagInfo {
    pub status: AuthorizationStatus,
    /// When the authorization expires.
    pub expiry_date: Option<Timestamp>,
    pub parent_id_tag: Option<String>,
}

impl IdTagInfo {
    /// A copy of this authorization.
    pub fn duplicate(&self) -> (r: IdTagInfo)
        ensures
            r == *self,
    {
        IdTagInfo {
            status: self.status,
            expiry_date: self.expiry_date,
            parent_id_tag: match &self.parent_id_tag {
                Some(p) => Some(p.clone()),
                None => None,
            },
        }
    }
}

impl Clone for IdTagInfo {
    fn clone(&self) -> (r: Self)
        ensures
            r == *self,
    {
        self.duplicate()
    }
}

#[derive(Debug, Clone, PartialEq)]
pub struct AuthorizeRequest {
    pub id_tag: String,
}

#[derive(Debug, Clone, PartialEq)]
pub struct AuthorizeResponse {
    pub id_tag_info: IdTagInfo,
}

impl OcppRequest for AuthorizeRequest {
    type Response = AuthorizeResponse;

    const ACTION: &'static str = "Authorize";
}

impl OcppResponse for AuthorizeResponse {}

} // verus!
