//! Reading and adding site settings.

use vstd::prelude::*;
use crate::errors::{ApiError, InternalError};
use crate::records::settings::{latest_value, NewSetting, Settings};
use crate::records::users::MAX_ID;
use crate::schema::Blog;

verus! {

/// `pairs` holds each key of `s` once, with the value of its latest setting.
pub open spec fn is_settings_map(pairs: Seq<(String, String)>, s: Seq<Settings>) -> bool {
    &&& forall|i: int, j: int|
        0 <= i < pairs.len() && 0 <= j < pairs.len() && i != j ==> #[trigger] pairs[i].0@
            != #[trigger] pairs[j].0@
    &&& forall|i: int| 0 <= i < pairs.len() ==> latest_value(s, #[trigger] pairs[i].0@) == Some(pairs[i].1@)
    &&& forall|k: Seq<char>|
        #[trigger] latest_value(s, k) is Some ==> exists|i: int| 0 <= i < pairs.len() && #[trigger] pairs[i].0@ == k
}

proof fn lemma_latest_value_step(s: Seq<Settings>, n: int, k: Seq<char>)
    requires
        0 <= n < s.len(),
    ensures
        latest_value(s.subrange(0, n + 1), k) == if s[n].key@ == k {
            Some(s[n].value@)
        } else {
            latest_value(s.subrange(0, n), k)
        },
{
    assert(s.subrange(0, n + 1).drop_last() =~= s.subrange(0, n));
}

/// The settings as a map from key to value: each key once, with the value
/// it was last set to.
pub fn get_all(blog: &Blog) -> (r: Vec<(String, String)>)
    ensures
        is_settings_map(r@, blog.settings.settings@),
{
    let s = &blog.settings.settings;
    let mut out: Vec<(String, String)> = Vec::new();
    let mut n: usize = 0;
    while n < s.len()
        invariant
            n <= s@.len(),
            is_settings_map(out@, s@.subrange(0, n as int)),
        decreases s@.len() - n,
    {
        let key = s[n].key.clone();
        let value = s[n].value.clone();
        let ghost prev = out@;
        let mut j: usize = 0;
        let mut found: Option<usize> = None;
        while j < out.len() && found.is_none()
            invariant
                out@ == prev,
                j <= out@.len(),
                found matches Some(f) ==> f < out@.len() && out@[f as int].0@ == key@,
                found is None ==> forall|i: int| 0 <= i < j ==> #[trigger] out@[i].0@ != key@,
            decreases out@.len() - j,
        {
            if out[j].0 == key {
                found = Some(j);
            }
            j += 1;
        }
        proof {
            assert forall|k: Seq<char>| true implies latest_value(s@.subrange(0, n + 1), k) == if s@[n as int].key@ == k {
                Some(s@[n as int].value@)
            } else {
                latest_value(s@.subrange(0, n as int), k)
            } by {
                lemma_latest_value_step(s@, n as int, k);
            }
        }
        match found {
            Some(j) => {
                out.set(j, (key, value));
            },
            None => {
                out.push((key, value));
            },
        }
        proof {
            let t = s@.subrange(0, n + 1);
            assert forall|i: int| 0 <= i < out@.len() implies latest_value(t, #[trigger] out@[i].0@)
                == Some(out@[i].1@) by {
                match found {
                    Some(f) => {
                        if i != f {
                            assert(prev[i].0@ != prev[f as int].0@);
                        }
                    },
                    None => {
                        if i < prev.len() {
                            assert(prev[i].0@ != key@);
                        }
                    },
                }
            }
            assert forall|i: int, i2: int|
                0 <= i < out@.len() && 0 <= i2 < out@.len() && i != i2 implies #[trigger] out@[i].0@
                    != #[trigger] out@[i2].0@ by {
                match found {
                    Some(f) => {
                        if i == f {
                            assert(prev[i2].0@ != prev[f as int].0@);
                        } else if i2 == f {
                            assert(prev[i].0@ != prev[f as int].0@);
                        }
                    },
                    None => {
                        if i == prev.len() {
                            assert(prev[i2].0@ != key@);
                        } else if i2 == prev.len() {
                            assert(prev[i].0@ != key@);
                        }
                    },
                }
            }
            assert forall|k: Seq<char>| #[trigger] latest_value(t, k) is Some implies exists|i: int|
                0 <= i < out@.len() && #[trigger] out@[i].0@ == k by {
                if s@[n as int].key@ == k {
                    match found {
                        Some(j) => assert(out@[j as int].0@ == k),
                        None => assert(out@[out@.len() - 1].0@ == k),
                    }
                } else {
                    assert(latest_value(s@.subrange(0, n as int), k) is Some);
                    let i = choose|i: int| 0 <= i < prev.len() && #[trigger] prev[i].0@ == k;
                    assert(out@[i].0@ == k);
                }
            }
        }
        n += 1;
    }
    assert(s@.subrange(0, s@.len() as int) =~= s@);
    out
}

/// Adds a setting of `key` to `value`, stamped with `now`. Answers "OK".
pub fn add(blog: &mut Blog, key: &str, value: &str, now: i64) -> (r: Result<&'static str, ApiError>)
    requires
        old(blog).wf(),
    ensures
        final(blog).wf(),
        final(blog).users == old(blog).users,
        final(blog).posts == old(blog).posts,
        final(blog).update_rule == old(blog).update_rule,
        old(blog).settings.settings@.len() < MAX_ID ==> (r matches Ok(s) && s@ == "OK"@
            && final(blog).settings.settings@.len() == old(blog).settings.settings@.len() + 1
            && final(blog).settings.settings@.drop_last() == old(blog).settings.settings@
            && final(blog).settings.settings@.last().key@ == key@
            && final(blog).settings.settings@.last().value@ == value@
            && final(blog).settings.settings@.last().created_at == now),
        old(blog).settings.settings@.len() >= MAX_ID ==> r == Err::<&'static str, ApiError>(
            ApiError::Internal(InternalError::SettingNotInserted),
        ) && final(blog).settings == old(blog).settings,
{
    let new_setting = NewSetting::new(key, value);
    let ghost before = blog.settings;
    new_setting.insert(&mut blog.settings, now)?;
    assert(blog.settings.settings@.drop_last() =~= before.settings@);
    Ok("OK")
}

} // verus!
