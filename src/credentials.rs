//! Sign-up input rules: the shape of an e-mail address and the strength of a
//! password.

use vstd::prelude::*;

verus! {

/// An ASCII letter or digit.
pub open spec fn is_alnum(c: char) -> bool {
    ('a' <= c && c <= 'z') || ('A' <= c && c <= 'Z') || ('0' <= c && c <= '9')
}

/// A character allowed before the `@` of an address.
pub open spec fn is_local_char(c: char) -> bool {
    is_alnum(c) || c == '_' || c == '.' || c == '+' || c == '-'
}

/// A character allowed in the domain label between `@` and the first dot.
pub open spec fn is_label_char(c: char) -> bool {
    is_alnum(c) || c == '-'
}

/// A character allowed after the first dot of the domain.
pub open spec fn is_suffix_char(c: char) -> bool {
    is_alnum(c) || c == '-' || c == '.'
}

/// `s` reads `local@label.suffix`: a non-empty local part of local
/// characters, one `@`, a non-empty label without dots, a dot, and a
/// non-empty suffix of suffix characters, with nothing before or after.
pub open spec fn is_valid_email(s: Seq<char>) -> bool {
    exists|at: int, dot: int| is_email_split(s, at, dot)
}

/// The `@` of `s` stands at `at` and the dot after the label at `dot`.
pub open spec fn is_email_split(s: Seq<char>, at: int, dot: int) -> bool {
    &&& 0 < at
    &&& at + 1 < dot
    &&& dot + 1 < s.len()
    &&& s[at] == '@'
    &&& s[dot] == '.'
    &&& forall|k: int| 0 <= k < at ==> is_local_char(#[trigger] s[k])
    &&& forall|k: int| at < k < dot ==> is_label_char(#[trigger] s[k])
    &&& forall|k: int| dot < k < s.len() ==> is_suffix_char(#[trigger] s[k])
}

/// The least length of a password.
pub const MIN_PASSWORD_LEN: usize = 8;

/// `s` has at least eight characters, each an ASCII letter or digit.
pub open spec fn is_strong_password(s: Seq<char>) -> bool {
    &&& s.len() >= MIN_PASSWORD_LEN
    &&& forall|k: int| 0 <= k < s.len() ==> is_alnum(#[trigger] s[k])
}

fn alnum(c: char) -> (r: bool)
    ensures
        r == is_alnum(c),
{
    ('a' <= c && c <= 'z') || ('A' <= c && c <= 'Z') || ('0' <= c && c <= '9')
}

/// Whether `password` meets the strength rule.
pub fn password_is_strong(password: &str) -> (r: bool)
    ensures
        r == is_strong_password(password@),
{
    let n = password.unicode_len();
    if n < MIN_PASSWORD_LEN {
        return false;
    }
    let mut i: usize = 0;
    while i < n
        invariant
            n == password@.len(),
            i <= n,
            forall|k: int| 0 <= k < i ==> is_alnum(#[trigger] password@[k]),
        decreases n - i,
    {
        if !alnum(password.get_char(i)) {
            return false;
        }
        i += 1;
    }
    true
}

fn local_char(c: char) -> (r: bool)
    ensures
        r == is_local_char(c),
{
    alnum(c) || c == '_' || c == '.' || c == '+' || c == '-'
}

fn label_char(c: char) -> (r: bool)
    ensures
        r == is_label_char(c),
{
    alnum(c) || c == '-'
}

fn suffix_char(c: char) -> (r: bool)
    ensures
        r == is_suffix_char(c),
{
    alnum(c) || c == '-' || c == '.'
}

/// `at` ends the longest run of local characters at the start of `s`, and
/// `dot` the longest run of label characters after it: every split of `s`
/// must then fall on exactly these two places.
proof fn lemma_split_is_forced(s: Seq<char>, at: int, dot: int)
    requires
        0 <= at <= s.len(),
        forall|k: int| 0 <= k < at ==> is_local_char(#[trigger] s[k]),
        at == s.len() || !is_local_char(s[at]),
        at < dot <= s.len(),
        forall|k: int| at < k < dot ==> is_label_char(#[trigger] s[k]),
        dot == s.len() || !is_label_char(s[dot]),
    ensures
        forall|a: int, d: int| #[trigger] is_email_split(s, a, d) ==> a == at && d == dot,
{
    assert forall|a: int, d: int| #[trigger] is_email_split(s, a, d) implies a == at && d == dot by {
        if a < at {
            assert(is_local_char(s[a]));
        } else if a > at {
            assert(is_local_char(s[at]));
        }
        if d < dot {
            assert(is_label_char(s[d]));
        } else if d > dot {
            assert(is_label_char(s[dot]));
        }
    }
}

/// Whether `email` has the shape of an address.
pub fn email_is_valid(email: &str) -> (r: bool)
    ensures
        r == is_valid_email(email@),
{
    let ghost s = email@;
    let n = email.unicode_len();
    let mut at: usize = 0;
    while at < n && local_char(email.get_char(at))
        invariant
            s == email@,
            n == s.len(),
            at <= n,
            forall|k: int| 0 <= k < at ==> is_local_char(#[trigger] s[k]),
        decreases n - at,
    {
        at += 1;
    }
    if at == n || at == 0 || email.get_char(at) != '@' {
        proof {
            if at < n {
                assert(!is_local_char(s[at as int]));
            }
            assert forall|a: int, d: int| !is_email_split(s, a, d) by {
                if is_email_split(s, a, d) {
                    if a < at {
                        assert(is_local_char(s[a]));
                    } else if a > at {
                        assert(is_local_char(s[at as int]));
                    }
                }
            }
        }
        return false;
    }
    let mut dot: usize = at + 1;
    while dot < n && label_char(email.get_char(dot))
        invariant
            s == email@,
            n == s.len(),
            at < dot <= n,
            forall|k: int| at < k < dot ==> is_label_char(#[trigger] s[k]),
        decreases n - dot,
    {
        dot += 1;
    }
    proof {
        assert(!is_local_char('@'));
        lemma_split_is_forced(s, at as int, dot as int);
    }
    if dot == n || dot == at + 1 || email.get_char(dot) != '.' || dot + 1 == n {
        proof {
            assert forall|a: int, d: int| !is_email_split(s, a, d) by {
                if is_email_split(s, a, d) {
                    assert(a == at && d == dot);
                }
            }
        }
        return false;
    }
    let mut k: usize = dot + 1;
    while k < n
        invariant
            s == email@,
            n == s.len(),
            0 < at < dot < k <= n,
            forall|a: int, d: int| #[trigger] is_email_split(s, a, d) ==> a == at && d == dot,
            forall|j: int| dot < j < k ==> is_suffix_char(#[trigger] s[j]),
        decreases n - k,
    {
        if !suffix_char(email.get_char(k)) {
            proof {
                assert forall|a: int, d: int| !is_email_split(s, a, d) by {
                    if is_email_split(s, a, d) {
                        assert(a == at && d == dot);
                        assert(is_suffix_char(s[k as int]));
                    }
                }
            }
            return false;
        }
        k += 1;
    }
    assert(is_email_split(s, at as int, dot as int));
    true
}

} // verus!
