//! The session-check support: reading the account listing the CLI hands
//! back, and deciding whether the target subscription needs to be changed.

use vstd::prelude::*;
use crate::json::{get_string_at, json_string_at};
use crate::resource::view_opt_string;

verus! {

broadcast use vstd::string::group_string_axioms;

/// The failures of the session layer.
#[derive(Debug, Clone, Copy, PartialEq, Eq, Structural)]
pub enum AzCliError {
    Unknown,
    CliMissing,
    NoParameters,
    InvalidJsonError,
    RegexError,
    JsonDeserializationError,
    CommandFailure,
    NotLoggedIn,
    MissingTemplate,
    TemplateFailed,
}

/// The account the CLI reports as current.
#[derive(Debug, Clone, PartialEq, Eq, Default)]
pub struct AzAccountInfo {
    pub subscription_name: Option<String>,
    pub subscription_id: Option<String>,
    pub tenant_id: Option<String>,
}

#[verifier::ext_equal]
pub struct AzAccountInfoView {
    pub subscription_name: Option<Seq<char>>,
    pub subscription_id: Option<Seq<char>>,
    pub tenant_id: Option<Seq<char>>,
}

impl View for AzAccountInfo {
    type V = AzAccountInfoView;

    open spec fn view(&self) -> AzAccountInfoView {
        AzAccountInfoView {
            subscription_name: view_opt_string(self.subscription_name),
            subscription_id: view_opt_string(self.subscription_id),
            tenant_id: view_opt_string(self.tenant_id),
        }
    }
}

/// The needle occurs in the haystack starting at position `i`.
pub open spec fn contains_at(h: Seq<char>, n: Seq<char>, i: int) -> bool {
    0 <= i && i + n.len() <= h.len() && h.subrange(i, i + n.len()) == n
}

/// The needle occurs somewhere in the haystack.
pub open spec fn spec_contains_str(h: Seq<char>, n: Seq<char>) -> bool {
    exists|i: int| contains_at(h, n, i)
}

/// Whether the needle sits in the haystack exactly at position `i`.
fn prefix_matches(hay: &str, needle: &str, i: usize) -> (r: bool)
    requires
        i + needle@.len() <= hay@.len(),
        hay@.len() <= usize::MAX,
    ensures
        r == (hay@.subrange(i as int, i + needle@.len()) == needle@),
{
    let nl = needle.unicode_len();
    let mut eq = true;
    let mut j: usize = 0;
    while j < nl
        invariant
            0 <= j <= nl,
            nl == needle@.len(),
            i + nl <= hay@.len(),
            hay@.len() <= usize::MAX,
            eq == (forall|jj: int| 0 <= jj < j ==> hay@[i + jj] == needle@[jj]),
        decreases nl - j,
    {
        if hay.get_char(i + j) != needle.get_char(j) {
            eq = false;
        }
        j = j + 1;
    }
    proof {
        if eq {
            assert(hay@.subrange(i as int, i + nl) =~= needle@) by {
                assert forall|jj: int| 0 <= jj < nl implies hay@.subrange(i as int, i + nl)[jj]
                    == needle@[jj] by {
                    assert(hay@.subrange(i as int, i + nl)[jj] == hay@[i + jj]);
                }
            }
        } else {
            let jj = choose|jj: int| 0 <= jj < nl && hay@[i + jj] != needle@[jj];
            assert(hay@.subrange(i as int, i + nl)[jj] == hay@[i + jj]);
            assert(hay@.subrange(i as int, i + nl) != needle@);
        }
    }
    eq
}

/// Whether one string occurs inside another.
pub fn contains_substr(hay: &str, needle: &str) -> (r: bool)
    ensures
        r == spec_contains_str(hay@, needle@),
{
    let hl = hay.unicode_len();
    let nl = needle.unicode_len();
    if nl > hl {
        proof {
            assert forall|i: int| !contains_at(hay@, needle@, i) by {}
        }
        return false;
    }
    if nl == 0 {
        proof {
            assert(hay@.subrange(0, 0) =~= needle@);
            assert(contains_at(hay@, needle@, 0));
        }
        return true;
    }
    let mut i: usize = 0;
    while i <= hl - nl
        invariant
            1 <= nl <= hl,
            hl == hay@.len(),
            nl == needle@.len(),
            0 <= i <= hl - nl + 1,
            forall|ii: int| 0 <= ii < i ==> !contains_at(hay@, needle@, ii),
        decreases hl - nl + 1 - i,
    {
        if prefix_matches(hay, needle, i) {
            proof {
                assert(contains_at(hay@, needle@, i as int));
            }
            return true;
        }
        proof {
            assert(!contains_at(hay@, needle@, i as int));
        }
        i = i + 1;
    }
    proof {
        assert forall|ii: int| !contains_at(hay@, needle@, ii) by {
            if 0 <= ii <= hl - nl {
                assert(!contains_at(hay@, needle@, ii));
            }
        }
    }
    false
}

/// The string with every leading quote removed.
pub open spec fn trim_leading_quotes(s: Seq<char>) -> Seq<char>
    decreases s.len(),
{
    if s.len() > 0 && s[0] == '"' {
        trim_leading_quotes(s.skip(1))
    } else {
        s
    }
}

/// The string with every trailing quote removed.
pub open spec fn trim_trailing_quotes(s: Seq<char>) -> Seq<char>
    decreases s.len(),
{
    if s.len() > 0 && s[s.len() - 1] == '"' {
        trim_trailing_quotes(s.drop_last())
    } else {
        s
    }
}

/// The string with quotes removed from both ends, as the CLI's quoted
/// subscription names require.
pub open spec fn spec_trim_quotes(s: Seq<char>) -> Seq<char> {
    trim_trailing_quotes(trim_leading_quotes(s))
}

/// Strips leading and trailing double quotes.
pub fn trim_quotes(s: &str) -> (r: String)
    ensures
        r@ == spec_trim_quotes(s@),
{
    let n = s.unicode_len();
    let mut i: usize = 0;
    proof {
        assert(s@.skip(0) =~= s@);
    }
    while i < n && s.get_char(i) == '"'
        invariant
            0 <= i <= n,
            n == s@.len(),
            trim_leading_quotes(s@) == trim_leading_quotes(s@.skip(i as int)),
        decreases n - i,
    {
        proof {
            let rest = s@.skip(i as int);
            assert(rest[0] == s@[i as int]);
            assert(rest.skip(1) =~= s@.skip(i as int + 1));
        }
        i = i + 1;
    }
    proof {
        let rest = s@.skip(i as int);
        if i < n {
            assert(rest[0] == s@[i as int]);
        }
        assert(trim_leading_quotes(s@) == rest);
        assert(rest =~= s@.subrange(i as int, n as int));
    }
    let mut j: usize = n;
    while j > i && s.get_char(j - 1) == '"'
        invariant
            i <= j <= n,
            n == s@.len(),
            trim_leading_quotes(s@) == s@.subrange(i as int, n as int),
            trim_trailing_quotes(s@.subrange(i as int, n as int)) == trim_trailing_quotes(
                s@.subrange(i as int, j as int),
            ),
        decreases j,
    {
        proof {
            let cur = s@.subrange(i as int, j as int);
            assert(cur[cur.len() - 1] == s@[j - 1]);
            assert(cur.drop_last() =~= s@.subrange(i as int, j - 1));
        }
        j = j - 1;
    }
    proof {
        let cur = s@.subrange(i as int, j as int);
        if j > i {
            assert(cur[cur.len() - 1] == s@[j - 1]);
        }
        assert(trim_trailing_quotes(cur) == cur);
    }
    let r = String::from_str(s.substring_char(i, j));
    proof {
        assert(r@ == s@.subrange(i as int, j as int));
    }
    r
}

/// The login prompt the CLI prints when no session exists.
pub open spec fn spec_login_prompt() -> Seq<char> {
    "Please run 'az login' to setup account."@
}

/// The account information read from the session check's output: the login
/// prompt means no session, otherwise the `id`, `name` and `tenantId`
/// fields of the account listing, where present as strings.
pub open spec fn spec_account_info(s: Seq<char>) -> Result<AzAccountInfoView, AzCliError> {
    if spec_contains_str(s, spec_login_prompt()) {
        Err(AzCliError::NotLoggedIn)
    } else {
        Ok(
            AzAccountInfoView {
                subscription_name: json_string_at(s, "/name"@),
                subscription_id: json_string_at(s, "/id"@),
                tenant_id: json_string_at(s, "/tenantId"@),
            },
        )
    }
}

/// Reads the account listing that the session check captured.
pub fn parse_account_info(stdout: &str) -> (r: Result<AzAccountInfo, AzCliError>)
    ensures
        (match r {
            Ok(a) => Ok::<AzAccountInfoView, AzCliError>(a@),
            Err(e) => Err(e),
        }) == spec_account_info(stdout@),
{
    if contains_substr(stdout, "Please run 'az login' to setup account.") {
        return Err(AzCliError::NotLoggedIn);
    }
    Ok(
        AzAccountInfo {
            subscription_name: get_string_at(stdout, "/name"),
            subscription_id: get_string_at(stdout, "/id"),
            tenant_id: get_string_at(stdout, "/tenantId"),
        },
    )
}

/// Whether the configured account already is the wanted subscription: the
/// reported name, quotes stripped, equals the target.
pub fn subscription_matches(account_subscription: &str, target: &str) -> (r: bool)
    ensures
        r == (spec_trim_quotes(account_subscription@) == target@),
{
    let trimmed = trim_quotes(account_subscription);
    trimmed == String::from_str(target)
}

/// Whether the session needs its subscription changed: a target was named,
/// the account reports a current subscription, and the two differ.
pub fn needs_subscription_change(account: &AzAccountInfo, target: Option<&str>) -> (r: bool)
    ensures
        r == (account@.subscription_name matches Some(n) && target matches Some(t)
            && spec_trim_quotes(n) != t@),
{
    match (&account.subscription_name, target) {
        (Some(name), Some(t)) => !subscription_matches(name.as_str(), t),
        _ => false,
    }
}

} // verus!
