//! The operations a caller can perform, each with its optional bearer
//! token passed in explicitly.

use vstd::prelude::*;
use crate::policy::UpdateRule;
use crate::records::posts::PostStore;
use crate::records::settings::SettingsStore;
use crate::records::users::UserStore;

pub mod authorization;
pub mod posts;
pub mod settings;

verus! {

/// The whole state the operations work on.
pub struct Blog {
    pub users: UserStore,
    pub posts: PostStore,
    pub settings: SettingsStore,
    /// Who may update a post.
    pub update_rule: UpdateRule,
}

impl Blog {
    pub open spec fn wf(&self) -> bool {
        &&& self.users.wf()
        &&& self.posts.wf()
        &&& self.settings.wf()
    }

    /// An empty blog whose posts may be updated as `update_rule` says.
    pub fn new(update_rule: UpdateRule) -> (r: Blog)
        ensures
            r.wf(),
            r.users.users@.len() == 0,
            r.users.sessions@.len() == 0,
            r.posts.posts@.len() == 0,
            r.settings.settings@.len() == 0,
            r.update_rule == update_rule,
    {
        Blog {
            users: UserStore::new(),
            posts: PostStore::new(),
            settings: SettingsStore::new(),
            update_rule,
        }
    }
}

} // verus!
