//! Types of the `/api/permissions` endpoints.
use vstd::prelude::*;

verus! {

/// A permission grant: the configure/write/read regular expressions a user
/// holds within a virtual host.
#[derive(Debug, Clone)]
pub struct Permission {
    /// Name of the user the permission is granted to.
    pub user: String,
    /// Virtual host the permission applies to.
    pub vhost: String,
    /// Regular expression for the resources the user may configure
    /// (declare/delete).
    pub configure: String,
    /// Regular expression for the resources the user may write (publish) to.
    pub write: String,
    /// Regular expression for the resources the user may read (consume)
    /// from.
    pub read: String,
}

} // verus!
