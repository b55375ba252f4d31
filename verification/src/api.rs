//! The metric source: the upstream request that the production source
//! issues, reduced to its computable parts — base-URL normalization,
//! request-URL and authorization-header construction, and the mapping from
//! an HTTP status to the pipeline's error taxonomy — together with the
//! deterministic test double used to exercise every pipeline branch.

use vstd::prelude::*;
use vstd::string::StrSliceExecFns;
use vstd::string::StringExecFns;
use crate::errors::MyError;

verus! {

/// The kind of metric a badge reports, which picks the upstream endpoint
/// suffix and the classification rule.
#[derive(Debug, Clone, Copy, PartialEq, Eq, Structural)]
pub enum MetricKind {
    Coverage,
    Issues,
}

impl MetricKind {
    /// The endpoint suffix for this kind.
    pub open spec fn spec_slug(self) -> Seq<char> {
        match self {
            MetricKind::Coverage => "coverage"@,
            MetricKind::Issues => "issues"@,
        }
    }

    pub fn slug(&self) -> (r: &'static str)
        ensures
            r@ == self.spec_slug(),
    {
        match *self {
            MetricKind::Coverage => "coverage",
            MetricKind::Issues => "issues",
        }
    }
}

/// A sequence with every trailing `/` removed.
pub open spec fn trimmed_slashes(s: Seq<char>) -> Seq<char>
    decreases s.len(),
{
    if s.len() > 0 && s.last() == '/' {
        trimmed_slashes(s.drop_last())
    } else {
        s
    }
}

/// The production metric source's configuration: the upstream base URL
/// (normalized, no trailing slash) and the bearer service token. The HTTP
/// call itself is I/O and lives outside this library; everything the call
/// is built from is computed here.
pub struct RealApi {
    pub url: String,
    pub token: String,
}

impl RealApi {
    /// Build the configuration, stripping any trailing slashes from the
    /// base URL.
    pub fn new(url: String, token: String) -> (r: RealApi)
        ensures
            r.url@ == trimmed_slashes(url@),
            r.token == token,
    {
        let len = url.as_str().unicode_len();
        proof {
            assert(url@.subrange(0, len as int) =~= url@);
        }
        let mut k = len;
        while k > 0 && url.as_str().get_char(k - 1) == '/'
            invariant
                k <= len,
                len == url@.len(),
                trimmed_slashes(url@) == trimmed_slashes(url@.subrange(0, k as int)),
            decreases k,
        {
            proof {
                assert(url@.subrange(0, k as int).drop_last()
                    =~= url@.subrange(0, k - 1 as int));
            }
            k -= 1;
        }
        proof {
            assert(url@.subrange(0, len as int) =~= url@);
            let p = url@.subrange(0, k as int);
            assert(p.len() == 0 || p.last() != '/');
            assert(trimmed_slashes(p) == p);
        }
        let trimmed = url.as_str().substring_char(0, k).to_owned();
        RealApi { url: trimmed, token }
    }

    /// The URL of the upstream read for a repository and metric kind.
    pub fn request_url(&self, repo: &str, kind: MetricKind) -> (r: String)
        ensures
            r@ == self.url@ + "/v1/repositories/"@ + repo@ + "/badges/"@ + kind.spec_slug(),
    {
        let mut r = self.url.clone();
        r.append("/v1/repositories/");
        r.append(repo);
        r.append("/badges/");
        r.append(kind.slug());
        r
    }

    /// The value of the authorization header sent with every upstream read.
    pub fn auth_header(&self) -> (r: String)
        ensures
            r@ == "bearer "@ + self.token@,
    {
        let mut r = String::from_str("bearer ");
        r.append(self.token.as_str());
        r
    }
}

/// How an upstream HTTP status is read: not-found maps to NotFound, any
/// other non-success status to InternalError, and a success status means
/// the response body is the raw metric value.
pub fn classify_status(status: u16) -> (r: Result<(), MyError>)
    ensures
        status == 404 ==> r == Result::<(), MyError>::Err(MyError::NotFound),
        status != 404 && !(200 <= status < 300) ==> r == Result::<(), MyError>::Err(
            MyError::InternalError,
        ),
        200 <= status < 300 ==> r == Result::<(), MyError>::Ok(()),
{
    if status == 404 {
        Err(MyError::NotFound)
    } else if !(200 <= status && status < 300) {
        Err(MyError::InternalError)
    } else {
        Ok(())
    }
}

/// The deterministic metric source double the test suite is built
/// against: canned values keyed by repository id, no side effects.
pub struct FakeApi();

impl FakeApi {
    /// The fallback shared by both kinds: repository "u" succeeds with the
    /// value "unknown", "404" is missing upstream, and any other
    /// repository simulates a transport fault.
    pub fn common_behaviour(&self, repo: String) -> (r: Result<String, MyError>)
        ensures
            repo@ == "u"@ ==> r is Ok && r->Ok_0@ == "unknown"@,
            repo@ == "404"@ ==> r == Result::<String, MyError>::Err(MyError::NotFound),
            repo@ != "u"@ && repo@ != "404"@ ==> r == Result::<String, MyError>::Err(
                MyError::InternalError,
            ),
    {
        proof {
            reveal_strlit("u");
            reveal_strlit("404");
            assert("u"@.len() == 1);
            assert("404"@.len() == 3);
        }
        if repo == String::from_str("u") {
            Ok(String::from_str("unknown"))
        } else if repo == String::from_str("404") {
            Err(MyError::NotFound)
        } else {
            Err(MyError::InternalError)
        }
    }

    /// Coverage for repository "90" is "90"; anything else follows the
    /// common fallback.
    pub fn coverage_for(&self, repo: String) -> (r: Result<String, MyError>)
        ensures
            repo@ == "90"@ ==> r is Ok && r->Ok_0@ == "90"@,
            repo@ != "90"@ && repo@ == "u"@ ==> r is Ok && r->Ok_0@ == "unknown"@,
            repo@ != "90"@ && repo@ == "404"@ ==> r == Result::<String, MyError>::Err(
                MyError::NotFound,
            ),
            repo@ != "90"@ && repo@ != "u"@ && repo@ != "404"@ ==> r == Result::<
                String,
                MyError,
            >::Err(MyError::InternalError),
    {
        proof {
            reveal_strlit("u");
            reveal_strlit("404");
            reveal_strlit("90");
            assert("u"@.len() == 1);
            assert("404"@.len() == 3);
            assert("90"@.len() == 2);
        }
        if repo == String::from_str("90") {
            Ok(String::from_str("90"))
        } else {
            self.common_behaviour(repo)
        }
    }

    /// The issue count for repository "1" is "1"; anything else follows
    /// the common fallback.
    pub fn issues_for(&self, repo: String) -> (r: Result<String, MyError>)
        ensures
            repo@ == "1"@ ==> r is Ok && r->Ok_0@ == "1"@,
            repo@ != "1"@ && repo@ == "u"@ ==> r is Ok && r->Ok_0@ == "unknown"@,
            repo@ != "1"@ && repo@ == "404"@ ==> r == Result::<String, MyError>::Err(
                MyError::NotFound,
            ),
            repo@ != "1"@ && repo@ != "u"@ && repo@ != "404"@ ==> r == Result::<
                String,
                MyError,
            >::Err(MyError::InternalError),
    {
        proof {
            reveal_strlit("u");
            reveal_strlit("404");
            reveal_strlit("1");
            assert("u"@.len() == 1);
            assert("404"@.len() == 3);
            assert("1"@.len() == 1);
            assert("u"@[0] == 'u' && "1"@[0] == '1');
        }
        if repo == String::from_str("1") {
            Ok(String::from_str("1"))
        } else {
            self.common_behaviour(repo)
        }
    }
}

} // verus!
