//! The syntax analyzer: parses `local@domain`, extracts the normalized
//! fields, and flags role-based prefixes and disposable-provider domains.

use vstd::prelude::*;
use vstd::string::*;

use crate::output::{MiscDetails, SyntaxDetails};
use crate::strutil::str_eq;

verus! {

/// An ASCII letter or digit.
pub open spec fn is_alnum(c: char) -> bool {
    ('a' <= c && c <= 'z') || ('A' <= c && c <= 'Z') || ('0' <= c && c <= '9')
}

/// A character allowed in the local part of an address: the atom characters
/// of the SMTP grammar, and the dot.
pub open spec fn is_local_char(c: char) -> bool {
    is_alnum(c) || c == '!' || c == '#' || c == '$' || c == '%' || c == '&' || c == '\'' || c
        == '*' || c == '+' || c == '-' || c == '/' || c == '=' || c == '?' || c == '^' || c == '_'
        || c == '`' || c == '{' || c == '|' || c == '}' || c == '~' || c == '.'
}

/// A character allowed in a domain: letters, digits, hyphens and dots.
pub open spec fn is_domain_char(c: char) -> bool {
    is_alnum(c) || c == '-' || c == '.'
}

/// A valid local part: between 1 and 64 allowed characters, neither
/// starting nor ending with a dot, with no two dots in a row.
pub open spec fn spec_valid_local(s: Seq<char>) -> bool {
    1 <= s.len() <= 64 && (forall|i: int| 0 <= i < s.len() ==> is_local_char(#[trigger] s[i]))
        && s[0] != '.' && s[s.len() - 1] != '.' && (forall|i: int|
        0 <= i < s.len() - 1 ==> !(s[i] == '.' && #[trigger] s[i + 1] == '.'))
}

/// A valid domain: between 1 and 255 allowed characters, starting and
/// ending with a letter or digit, holding at least one dot, with no two
/// dots in a row.
pub open spec fn spec_valid_domain(s: Seq<char>) -> bool {
    1 <= s.len() <= 255 && (forall|i: int| 0 <= i < s.len() ==> is_domain_char(#[trigger] s[i]))
        && is_alnum(s[0]) && is_alnum(s[s.len() - 1]) && (exists|i: int|
        0 <= i < s.len() && s[i] == '.') && (forall|i: int|
        0 <= i < s.len() - 1 ==> !(s[i] == '.' && #[trigger] s[i + 1] == '.'))
}

/// The position of the last `@` in `s`, or -1 when there is none.
pub open spec fn last_at(s: Seq<char>) -> int
    decreases s.len(),
{
    if s.len() == 0 {
        -1
    } else if s[s.len() - 1] == '@' {
        s.len() - 1
    } else {
        last_at(s.drop_last())
    }
}

/// A valid address: split at the last `@`, a valid local part before it
/// and a valid domain after it.
pub open spec fn spec_valid_email(s: Seq<char>) -> bool {
    0 <= last_at(s) && spec_valid_local(s.subrange(0, last_at(s))) && spec_valid_domain(
        s.subrange(last_at(s) + 1, s.len() as int),
    )
}

/// Whatever `last_at` points at is an `@`, and nothing after it is one.
pub proof fn lemma_last_at(s: Seq<char>)
    ensures
        -1 <= last_at(s) < s.len(),
        last_at(s) >= 0 ==> s[last_at(s)] == '@',
        forall|j: int| last_at(s) < j < s.len() ==> s[j] != '@',
    decreases s.len(),
{
    if s.len() > 0 && s[s.len() - 1] != '@' {
        lemma_last_at(s.drop_last());
        assert(forall|j: int| 0 <= j < s.len() - 1 ==> s[j] == s.drop_last()[j]);
    }
}

/// Finds the position of the last `@` of `s`, if any.
fn find_last_at(s: &str) -> (r: Option<usize>)
    ensures
        r matches Some(i) ==> i == last_at(s@),
        r is None ==> last_at(s@) == -1,
{
    let n = s.unicode_len();
    proof {
        assert(s@.subrange(0, n as int) =~= s@);
    }
    let mut i: usize = n;
    while i > 0
        invariant
            n == s@.len(),
            0 <= i <= n,
            last_at(s@) == last_at(s@.subrange(0, i as int)),
        decreases i,
    {
        i -= 1;
        if s.get_char(i) == '@' {
            proof {
                let pre = s@.subrange(0, i + 1 as int);
                assert(pre[pre.len() - 1] == s@[i as int]);
                assert(last_at(pre) == i);
            }
            return Some(i);
        }
        proof {
            let pre = s@.subrange(0, i + 1 as int);
            assert(pre[pre.len() - 1] == s@[i as int]);
            assert(pre.drop_last() =~= s@.subrange(0, i as int));
        }
    }
    proof {
        assert(s@.subrange(0, 0) =~= Seq::<char>::empty());
    }
    None
}

/// Decides whether one character may stand in a local part.
fn is_local_char_exec(c: char) -> (b: bool)
    ensures
        b == is_local_char(c),
{
    ('a' <= c && c <= 'z') || ('A' <= c && c <= 'Z') || ('0' <= c && c <= '9') || c == '!' || c
        == '#' || c == '$' || c == '%' || c == '&' || c == '\'' || c == '*' || c == '+' || c == '-'
        || c == '/' || c == '=' || c == '?' || c == '^' || c == '_' || c == '`' || c == '{' || c
        == '|' || c == '}' || c == '~' || c == '.'
}

/// Decides whether one character may stand in a domain.
fn is_domain_char_exec(c: char) -> (b: bool)
    ensures
        b == is_domain_char(c),
{
    ('a' <= c && c <= 'z') || ('A' <= c && c <= 'Z') || ('0' <= c && c <= '9') || c == '-' || c
        == '.'
}

/// Decides whether one character is an ASCII letter or digit.
fn is_alnum_exec(c: char) -> (b: bool)
    ensures
        b == is_alnum(c),
{
    ('a' <= c && c <= 'z') || ('A' <= c && c <= 'Z') || ('0' <= c && c <= '9')
}

/// Decides whether the slice `s[from..to]` is a valid local part.
fn check_local(s: &str, from: usize, to: usize) -> (b: bool)
    requires
        from <= to <= s@.len(),
    ensures
        b == spec_valid_local(s@.subrange(from as int, to as int)),
{
    let ghost part = s@.subrange(from as int, to as int);
    if to - from < 1 || to - from > 64 {
        return false;
    }
    if s.get_char(from) == '.' || s.get_char(to - 1) == '.' {
        return false;
    }
    let mut i: usize = from;
    while i < to
        invariant
            from <= i <= to <= s@.len(),
            part == s@.subrange(from as int, to as int),
            forall|j: int| 0 <= j < i - from ==> is_local_char(#[trigger] part[j]),
            forall|j: int|
                0 <= j < i - from - 1 ==> !(part[j] == '.' && #[trigger] part[j + 1] == '.'),
        decreases to - i,
    {
        let c = s.get_char(i);
        if !is_local_char_exec(c) {
            assert(part[i - from] == c);
            return false;
        }
        if c == '.' && i > from && s.get_char(i - 1) == '.' {
            proof {
                let j = i - from - 1;
                assert(part[j] == s@[i - 1] && part[j + 1] == c);
                assert(!spec_valid_local(part));
            }
            return false;
        }
        i += 1;
    }
    true
}

/// Decides whether the slice `s[from..to]` is a valid domain.
fn check_domain(s: &str, from: usize, to: usize) -> (b: bool)
    requires
        from <= to <= s@.len(),
    ensures
        b == spec_valid_domain(s@.subrange(from as int, to as int)),
{
    let ghost part = s@.subrange(from as int, to as int);
    if to - from < 1 || to - from > 255 {
        return false;
    }
    if !is_alnum_exec(s.get_char(from)) || !is_alnum_exec(s.get_char(to - 1)) {
        return false;
    }
    let mut has_dot = false;
    let mut i: usize = from;
    while i < to
        invariant
            from <= i <= to <= s@.len(),
            part == s@.subrange(from as int, to as int),
            forall|j: int| 0 <= j < i - from ==> is_domain_char(#[trigger] part[j]),
            has_dot == (exists|j: int| 0 <= j < i - from && part[j] == '.'),
            forall|j: int|
                0 <= j < i - from - 1 ==> !(part[j] == '.' && #[trigger] part[j + 1] == '.'),
        decreases to - i,
    {
        let c = s.get_char(i);
        if !is_domain_char_exec(c) {
            assert(part[i - from] == c);
            return false;
        }
        if c == '.' && i > from && s.get_char(i - 1) == '.' {
            proof {
                let j = i - from - 1;
                assert(part[j] == s@[i - 1] && part[j + 1] == c);
                assert(!spec_valid_domain(part));
            }
            return false;
        }
        if c == '.' {
            proof {
                assert(part[i - from] == c);
            }
            has_dot = true;
        }
        i += 1;
    }
    has_dot
}

/// Parses `to_email` into its normalized fields: on a valid address, the
/// echo of the address with the local part and the domain on either side of
/// the last `@`; on an invalid one, an empty record whose
/// `is_valid_syntax` is false.
pub fn check_syntax(email: &str) -> (r: SyntaxDetails)
    ensures
        r.is_valid_syntax == spec_valid_email(email@),
        r.suggestion is None,
        spec_valid_email(email@) ==> r.address@ == email@ && r.username@ == email@.subrange(
            0,
            last_at(email@),
        ) && r.domain@ == email@.subrange(last_at(email@) + 1, email@.len() as int),
        !spec_valid_email(email@) ==> r.address@ == Seq::<char>::empty() && r.username@
            == Seq::<char>::empty() && r.domain@ == Seq::<char>::empty(),
{
    let n = s_len(email);
    match find_last_at(email) {
        Some(i) => {
            proof {
                lemma_last_at(email@);
            }
            if check_local(email, 0, i) && check_domain(email, i + 1, n) {
                SyntaxDetails {
                    address: String::from_str(email),
                    domain: String::from_str(email.substring_char(i + 1, n)),
                    is_valid_syntax: true,
                    username: String::from_str(email.substring_char(0, i)),
                    suggestion: None,
                }
            } else {
                SyntaxDetails::default()
            }
        },
        None => SyntaxDetails::default(),
    }
}

/// The character length of a string slice.
fn s_len(s: &str) -> (n: usize)
    ensures
        n == s@.len(),
{
    s.unicode_len()
}

/// A role-based prefix: an address of a function, not a person.
pub open spec fn spec_is_role_username(u: Seq<char>) -> bool {
    u == "admin"@ || u == "administrator"@ || u == "billing"@ || u == "contact"@ || u == "help"@
        || u == "hr"@ || u == "info"@ || u == "jobs"@ || u == "marketing"@ || u == "noreply"@ || u
        == "no-reply"@ || u == "office"@ || u == "postmaster"@ || u == "sales"@ || u == "security"@
        || u == "support"@ || u == "team"@ || u == "webmaster"@
}

/// Flags the local parts that name a function rather than a person.
pub fn is_role_username(u: &str) -> (b: bool)
    ensures
        b == spec_is_role_username(u@),
{
    str_eq(u, "admin") || str_eq(u, "administrator") || str_eq(u, "billing") || str_eq(
        u,
        "contact",
    ) || str_eq(u, "help") || str_eq(u, "hr") || str_eq(u, "info") || str_eq(u, "jobs") || str_eq(
        u,
        "marketing",
    ) || str_eq(u, "noreply") || str_eq(u, "no-reply") || str_eq(u, "office") || str_eq(
        u,
        "postmaster",
    ) || str_eq(u, "sales") || str_eq(u, "security") || str_eq(u, "support") || str_eq(u, "team")
        || str_eq(u, "webmaster")
}

/// A domain of a disposable-address provider.
pub open spec fn spec_is_disposable_domain(d: Seq<char>) -> bool {
    d == "mailinator.com"@ || d == "guerrillamail.com"@ || d == "10minutemail.com"@ || d
        == "yopmail.com"@ || d == "temp-mail.org"@ || d == "throwawaymail.com"@ || d
        == "getnada.com"@ || d == "maildrop.cc"@ || d == "discard.email"@ || d == "tempmail.dev"@
}

/// Flags the domains of disposable-address providers.
pub fn is_disposable_domain(d: &str) -> (b: bool)
    ensures
        b == spec_is_disposable_domain(d@),
{
    str_eq(d, "mailinator.com") || str_eq(d, "guerrillamail.com") || str_eq(d, "10minutemail.com")
        || str_eq(d, "yopmail.com") || str_eq(d, "temp-mail.org") || str_eq(d, "throwawaymail.com")
        || str_eq(d, "getnada.com") || str_eq(d, "maildrop.cc") || str_eq(d, "discard.email")
        || str_eq(d, "tempmail.dev")
}

/// Builds the auxiliary signals from the parse and the optional probe
/// results: role and disposable flags come from the parsed fields, the
/// probe results are echoed.
pub fn build_misc_details(
    syntax: &SyntaxDetails,
    gravatar_url: Option<String>,
    haveibeenpwned: Option<bool>,
) -> (m: MiscDetails)
    ensures
        m.is_disposable == spec_is_disposable_domain(syntax.domain@),
        m.is_role_account == spec_is_role_username(syntax.username@),
        m.gravatar_url == gravatar_url,
        m.haveibeenpwned == haveibeenpwned,
{
    MiscDetails {
        is_disposable: is_disposable_domain(syntax.domain.as_str()),
        is_role_account: is_role_username(syntax.username.as_str()),
        gravatar_url,
        haveibeenpwned,
    }
}

} // verus!
