//! Site settings: key and value pairs, kept in order of addition.

use vstd::prelude::*;
use crate::errors::{ApiError, InternalError};
use crate::records::users::MAX_ID;

verus! {

/// One stored setting.
#[derive(Debug)]
pub struct Settings {
    pub id: i32,
    pub key: String,
    pub value: String,
    /// Seconds since the Unix epoch at which the setting was added.
    pub created_at: i64,
}

/// The settings, in order of addition. A key may occur more than once; the
/// latest occurrence wins.
pub struct SettingsStore {
    pub settings: Vec<Settings>,
}

impl SettingsStore {
    /// Ids run from 1 in order of addition.
    pub open spec fn wf(&self) -> bool {
        &&& self.settings@.len() <= MAX_ID
        &&& forall|i: int| 0 <= i < self.settings@.len() ==> #[trigger] self.settings@[i].id == i + 1
    }

    /// An empty store.
    pub fn new() -> (r: Self)
        ensures
            r.wf(),
            r.settings@.len() == 0,
    {
        SettingsStore { settings: Vec::new() }
    }
}

/// The value of the latest setting with `key` in `s`, if any.
pub open spec fn latest_value(s: Seq<Settings>, key: Seq<char>) -> Option<Seq<char>>
    decreases s.len(),
{
    if s.len() == 0 {
        None
    } else if s.last().key@ == key {
        Some(s.last().value@)
    } else {
        latest_value(s.drop_last(), key)
    }
}

impl Settings {
    /// A field-by-field copy.
    pub fn copy(&self) -> (r: Self)
        ensures
            r == *self,
    {
        Settings {
            id: self.id,
            key: self.key.clone(),
            value: self.value.clone(),
            created_at: self.created_at,
        }
    }

    /// Every stored setting, in order of addition.
    pub fn all(store: &SettingsStore) -> (r: Vec<Settings>)
        ensures
            r@ == store.settings@,
    {
        let mut out: Vec<Settings> = Vec::new();
        let mut i: usize = 0;
        while i < store.settings.len()
            invariant
                i <= store.settings@.len(),
                out@ == store.settings@.subrange(0, i as int),
            decreases store.settings@.len() - i,
        {
            out.push(store.settings[i].copy());
            i += 1;
            assert(out@ =~= store.settings@.subrange(0, i as int));
        }
        assert(out@ =~= store.settings@);
        out
    }
}

/// A setting about to be stored.
#[derive(Debug)]
pub struct NewSetting {
    pub key: String,
    pub value: String,
}

impl NewSetting {
    /// A setting of `key` to `value`.
    pub fn new(key: &str, value: &str) -> (r: NewSetting)
        ensures
            r.key@ == key@,
            r.value@ == value@,
    {
        NewSetting { key: key.to_owned(), value: value.to_owned() }
    }

    /// Stores the setting under the next id, stamped with `now`; refused
    /// only when the ids are used up.
    pub fn insert(&self, store: &mut SettingsStore, now: i64) -> (r: Result<Settings, ApiError>)
        requires
            old(store).wf(),
        ensures
            final(store).wf(),
            old(store).settings@.len() < MAX_ID ==> match r {
                Ok(s) => s.id == old(store).settings@.len() + 1 && s.key == self.key && s.value
                    == self.value && s.created_at == now && final(store).settings@ == old(store).settings@.push(s),
                Err(_) => false,
            },
            old(store).settings@.len() >= MAX_ID ==> r == Err::<Settings, ApiError>(
                ApiError::Internal(InternalError::SettingNotInserted),
            ) && *final(store) == *old(store),
    {
        if store.settings.len() >= MAX_ID {
            return Err(ApiError::Internal(InternalError::SettingNotInserted));
        }
        let setting = Settings {
            id: (store.settings.len() + 1) as i32,
            key: self.key.clone(),
            value: self.value.clone(),
            created_at: now,
        };
        store.settings.push(setting.copy());
        Ok(setting)
    }
}

} // verus!
