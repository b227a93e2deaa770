//! The decisions of the service's request handlers: which requests are
//! rejected and with what, and what is sent on to the backend services.
//!
//! The caller parses request bodies, reads the session and talks to the
//! source-control provider and the routing layer; it hands the results to
//! these functions and sends what they return.

use vstd::prelude::*;
use crate::notify::FileFetch;
use crate::plan::{Plan, ProjectId, identity, plan_of_text};
use crate::project::{JobSpec, Project};
use crate::requests::{ProjectCreateReq, ProjectUpdateReq};
use crate::text::utf8_lossy;

verus! {

/// The response status of a rejected request.
#[derive(Clone, Copy, Debug, PartialEq, Eq, Structural)]
pub enum Status {
    BadRequest,
    Forbidden,
    UnprocessableEntity,
}

/// A rejected request: its status and the body of the response.
#[derive(Debug)]
pub struct Rejection {
    pub status: Status,
    pub body: String,
}

/// Code of a project creation whose repository could not be looked up.
pub const CREATE_REPO_UNKNOWN: &'static str = "rg:pc:1";

/// Code of a project update whose repository could not be looked up.
pub const UPDATE_REPO_UNKNOWN: &'static str = "rg:pu:1";

/// `r` rejects with `status` and body `body`.
pub open spec fn rejects(r: Rejection, status: Status, body: Seq<char>) -> bool {
    r.status == status && r.body@ == body
}

/// An unprocessable-entity rejection with the given body.
pub fn unprocessable(body: &str) -> (r: Rejection)
    ensures
        rejects(r, Status::UnprocessableEntity, body@),
{
    Rejection { status: Status::UnprocessableEntity, body: body.to_owned() }
}

fn rejection(status: Status) -> (r: Rejection)
    ensures
        rejects(r, status, Seq::empty()),
{
    Rejection { status, body: String::new() }
}

/// The body of the rejection of a project request, where the origin (for a
/// creation), the plan path, the organization or the repository is empty,
/// checked in that order.
pub open spec fn missing_field(
    origin: Option<Seq<char>>,
    plan_path: Seq<char>,
    organization: Seq<char>,
    repo: Seq<char>,
) -> Option<Seq<char>> {
    if origin is Some && origin->0.len() == 0 {
        Some("Missing value for field: `origin`"@)
    } else if plan_path.len() == 0 {
        Some("Missing value for field: `plan_path`"@)
    } else if organization.len() == 0 {
        Some("Missing value for field: `github.organization`"@)
    } else if repo.len() == 0 {
        Some("Missing value for field: `github.repo`"@)
    } else {
        None
    }
}

/// `r` is success where `m` is nothing, and else the rejection with body `m`.
pub open spec fn validated(r: Result<(), Rejection>, m: Option<Seq<char>>) -> bool {
    match r {
        Ok(_) => m is None,
        Err(e) => m is Some && rejects(e, Status::UnprocessableEntity, m->0),
    }
}

/// Rejects a project creation with an empty field.
pub fn validate_project_create(req: &ProjectCreateReq) -> (r: Result<(), Rejection>)
    ensures
        validated(
            r,
            missing_field(
                Some(req.origin@),
                req.plan_path@,
                req.github.organization@,
                req.github.repo@,
            ),
        ),
{
    if req.origin.as_str().unicode_len() == 0 {
        return Err(unprocessable("Missing value for field: `origin`"));
    }
    check_common_fields(&req.plan_path, &req.github.organization, &req.github.repo)
}

/// Rejects a project update with an empty field.
pub fn validate_project_update(req: &ProjectUpdateReq) -> (r: Result<(), Rejection>)
    ensures
        validated(
            r,
            missing_field(None, req.plan_path@, req.github.organization@, req.github.repo@),
        ),
{
    check_common_fields(&req.plan_path, &req.github.organization, &req.github.repo)
}

fn check_common_fields(plan_path: &String, organization: &String, repo: &String) -> (r: Result<
    (),
    Rejection,
>)
    ensures
        validated(r, missing_field(None, plan_path@, organization@, repo@)),
{
    if plan_path.as_str().unicode_len() == 0 {
        return Err(unprocessable("Missing value for field: `plan_path`"));
    }
    if organization.as_str().unicode_len() == 0 {
        return Err(unprocessable("Missing value for field: `github.organization`"));
    }
    if repo.as_str().unicode_len() == 0 {
        return Err(unprocessable("Missing value for field: `github.repo`"));
    }
    Ok(())
}

/// The plan that a project request fetched, or the code that rejects it:
/// one code each for a plan that could not be fetched, could not be decoded,
/// or does not read.
pub open spec fn plan_outcome(
    plan: FileFetch,
    unavailable: Seq<char>,
    malformed: Seq<char>,
    undecodable: Seq<char>,
) -> Result<(Seq<char>, Seq<char>), Seq<char>> {
    match plan {
        FileFetch::Unavailable => Err(unavailable),
        FileFetch::Undecodable => Err(undecodable),
        FileFetch::Contents(b) => match plan_of_text(utf8_lossy(b@)) {
            Some(p) => Ok(p),
            None => Err(malformed),
        },
    }
}

/// `r` holds the plan that `m` holds, or the rejection with its code.
pub open spec fn plan_read_is(r: Result<Plan, Rejection>, m: Result<(Seq<char>, Seq<char>), Seq<char>>) -> bool {
    match r {
        Ok(p) => m == Ok::<(Seq<char>, Seq<char>), Seq<char>>((p.origin@, p.name@)),
        Err(e) => m is Err && rejects(e, Status::UnprocessableEntity, m->Err_0),
    }
}

fn read_plan(plan: &FileFetch, unavailable: &str, malformed: &str, undecodable: &str) -> (r: Result<
    Plan,
    Rejection,
>)
    ensures
        plan_read_is(r, plan_outcome(*plan, unavailable@, malformed@, undecodable@)),
{
    match plan {
        FileFetch::Unavailable => Err(unprocessable(unavailable)),
        FileFetch::Undecodable => Err(unprocessable(undecodable)),
        FileFetch::Contents(bytes) => match Plan::from_bytes(bytes.as_slice()) {
            Ok(p) => Ok(p),
            Err(_) => Err(unprocessable(malformed)),
        },
    }
}

/// The plan fetched for a project creation, or its rejection.
pub fn create_plan(plan: &FileFetch) -> (r: Result<Plan, Rejection>)
    ensures
        plan_read_is(r, plan_outcome(*plan, "rg:pc:2"@, "rg:pc:3"@, "rg:pc:4"@)),
{
    read_plan(plan, "rg:pc:2", "rg:pc:3", "rg:pc:4")
}

/// The plan fetched for a project update, or its rejection.
pub fn update_plan(plan: &FileFetch) -> (r: Result<Plan, Rejection>)
    ensures
        plan_read_is(r, plan_outcome(*plan, "rg:pu:5"@, "rg:pu:3"@, "rg:pu:4"@)),
{
    read_plan(plan, "rg:pu:5", "rg:pu:3", "rg:pu:4")
}

/// The identity `origin/name` of a project.
pub fn project_ident(origin: &str, name: &str) -> (r: String)
    ensures
        r@ == identity(origin@, name@),
{
    let mut r = origin.to_owned();
    r.append("/");
    r.append(name);
    r
}

/// The project that a creation registers: named after the origin it is
/// created in and the plan's package name, owned by the caller.
pub fn project_create(
    req: &ProjectCreateReq,
    caller_id: u64,
    clone_url: String,
    origin_name: &str,
    plan: &Plan,
) -> (r: Project)
    ensures
        r.id@ == identity(origin_name@, plan.name@),
        r.plan_path@ == req.plan_path@,
        r.owner_id == caller_id,
        r.vcs_url == clone_url,
{
    Project {
        id: project_ident(origin_name, plan.name.as_str()),
        plan_path: req.plan_path.clone(),
        owner_id: caller_id,
        vcs_url: clone_url,
    }
}

/// The project that an update of `origin/name` stores, or its rejection
/// where the plan names another package.
pub fn project_update(
    req: &ProjectUpdateReq,
    caller_id: u64,
    clone_url: String,
    origin: &str,
    name: &str,
    plan: &Plan,
) -> (r: Result<Project, Rejection>)
    ensures
        plan.name@ != name@ ==> (r is Err && rejects(r->Err_0, Status::UnprocessableEntity, "rg:pu:2"@)),
        plan.name@ == name@ ==> (r matches Ok(p) && p.id@ == identity(origin@, name@)
            && p.plan_path@ == req.plan_path@ && p.owner_id == caller_id && p.vcs_url == clone_url),
{
    let n = name.to_owned();
    if plan.name != n {
        return Err(unprocessable("rg:pu:2"));
    }
    Ok(
        Project {
            id: project_ident(origin, name),
            plan_path: req.plan_path.clone(),
            owner_id: caller_id,
            vcs_url: clone_url,
        },
    )
}

/// A request to delete a project.
#[derive(Debug)]
pub struct ProjectDelete {
    pub id: String,
    pub requestor_id: u64,
}

/// The deletion of `origin/name` that the caller asks for.
pub fn project_delete(origin: &str, name: &str, caller_id: u64) -> (r: ProjectDelete)
    ensures
        r.id@ == identity(origin@, name@),
        r.requestor_id == caller_id,
{
    ProjectDelete { id: project_ident(origin, name), requestor_id: caller_id }
}

/// A build that the caller asks for: it runs for the caller, with no trigger
/// check.
pub fn job_create(caller_id: u64, project: Project) -> (r: JobSpec)
    ensures
        r.owner_id == caller_id,
        r.project == project,
{
    JobSpec { owner_id: caller_id, project }
}

/// The value of a decimal numeral of ASCII digits.
pub open spec fn digits_value(s: Seq<char>) -> int
    decreases s.len(),
{
    if s.len() == 0 {
        0
    } else {
        digits_value(s.drop_last()) * 10 + (s.last() as int - '0' as int)
    }
}

/// Whether every character is an ASCII digit.
pub open spec fn all_digits(s: Seq<char>) -> bool {
    forall|i: int| 0 <= i < s.len() ==> '0' <= #[trigger] s[i] <= '9'
}

/// The number that `u64`'s `FromStr` reads: an optional `+` and at least one
/// digit, of a value that fits.
pub open spec fn parse_u64(s: Seq<char>) -> Option<u64> {
    let d = if s.len() > 0 && s[0] == '+' {
        s.drop_first()
    } else {
        s
    };
    if d.len() > 0 && all_digits(d) && digits_value(d) <= u64::MAX {
        Some(digits_value(d) as u64)
    } else {
        None
    }
}

proof fn lemma_digits_value_monotone(s: Seq<char>, k: int)
    requires
        all_digits(s),
        0 <= k <= s.len(),
    ensures
        0 <= digits_value(s.subrange(0, k)) <= digits_value(s),
    decreases s.len() - k,
{
    if k < s.len() {
        lemma_digits_value_monotone(s, k + 1);
        assert(s.subrange(0, k + 1).drop_last() =~= s.subrange(0, k));
        assert(all_digits(s.subrange(0, k))) by {
            assert forall|i: int| 0 <= i < k implies '0' <= #[trigger] s.subrange(0, k)[i] <= '9' by {
                assert(s.subrange(0, k)[i] == s[i]);
            }
        }
        lemma_digits_value_nonneg(s.subrange(0, k));
    } else {
        assert(s.subrange(0, k) =~= s);
        lemma_digits_value_nonneg(s);
    }
}

proof fn lemma_digits_value_nonneg(s: Seq<char>)
    requires
        all_digits(s),
    ensures
        digits_value(s) >= 0,
    decreases s.len(),
{
    if s.len() > 0 {
        assert(all_digits(s.drop_last())) by {
            assert forall|i: int| 0 <= i < s.len() - 1 implies '0' <= #[trigger] s.drop_last()[i] <= '9' by {
                assert(s.drop_last()[i] == s[i]);
            }
        }
        lemma_digits_value_nonneg(s.drop_last());
    }
}

/// Reads a decimal identifier as `u64`'s `FromStr` does.
pub fn parse_id(text: &str) -> (r: Option<u64>)
    ensures
        r == parse_u64(text@),
{
    let n = text.unicode_len();
    let mut i: usize = 0;
    if n > 0 && text.get_char(0) == '+' {
        i = 1;
    }
    let ghost d = if text@.len() > 0 && text@[0] == '+' {
        text@.drop_first()
    } else {
        text@
    };
    let start = i;
    assert(d =~= text@.subrange(start as int, n as int));
    if i == n {
        return None;
    }
    let mut value: u64 = 0;
    while i < n
        invariant
            start <= i <= n,
            n == text@.len(),
            d =~= text@.subrange(start as int, n as int),
            d == (if text@.len() > 0 && text@[0] == '+' {
                text@.drop_first()
            } else {
                text@
            }),
            all_digits(text@.subrange(start as int, i as int)),
            value as int == digits_value(text@.subrange(start as int, i as int)),
        decreases n - i,
    {
        let c = text.get_char(i);
        let ghost pre = text@.subrange(start as int, i as int);
        let ghost post = text@.subrange(start as int, i + 1);
        assert(post.drop_last() =~= pre);
        if c < '0' || c > '9' {
            assert(!all_digits(d)) by {
                assert(d[i - start] == c);
            }
            return None;
        }
        let digit = (c as u32 - '0' as u32) as u64;
        assert(all_digits(post)) by {
            assert forall|k: int| 0 <= k < post.len() implies '0' <= #[trigger] post[k] <= '9' by {
                if k < pre.len() {
                    assert(post[k] == pre[k]);
                }
            }
        }
        if value > (u64::MAX - digit) / 10 {
            proof {
                assert(digits_value(post) > u64::MAX) by (nonlinear_arith)
                    requires
                        digits_value(post) == value * 10 + digit,
                        value > (u64::MAX - digit) / 10,
                        digit <= 9,
                ;
                if all_digits(d) {
                    assert(post =~= d.subrange(0, i + 1 - start));
                    lemma_digits_value_monotone(d, i + 1 - start);
                }
            }
            return None;
        }
        assert(value * 10 + digit <= u64::MAX) by (nonlinear_arith)
            requires
                value <= (u64::MAX - digit) / 10,
                digit <= 9,
        ;
        value = value * 10 + digit;
        i = i + 1;
    }
    Some(value)
}

/// What the caller of `job_show` asks to see: the job id, or a bad request.
pub fn job_show(id: &str) -> (r: Result<u64, Rejection>)
    ensures
        match parse_u64(id@) {
            Some(v) => r == Ok::<u64, Rejection>(v),
            None => r is Err && rejects(r->Err_0, Status::BadRequest, Seq::empty()),
        },
{
    match parse_id(id) {
        Some(v) => Ok(v),
        None => Err(rejection(Status::BadRequest)),
    }
}

/// An answer to an invitation into an origin.
#[derive(Debug, Clone, Copy, PartialEq, Eq, Structural)]
pub struct InvitationAnswer {
    pub invite_id: u64,
    pub account_id: u64,
    /// `true` to ignore the invitation, `false` to accept it.
    pub ignore: bool,
}

fn answer_invitation(caller_id: u64, invitation_id: &str, ignore: bool) -> (r: Result<
    InvitationAnswer,
    Rejection,
>)
    ensures
        match parse_u64(invitation_id@) {
            Some(v) => r == Ok::<InvitationAnswer, Rejection>(
                InvitationAnswer { invite_id: v, account_id: caller_id, ignore },
            ),
            None => r is Err && rejects(r->Err_0, Status::BadRequest, Seq::empty()),
        },
{
    match parse_id(invitation_id) {
        Some(v) => Ok(InvitationAnswer { invite_id: v, account_id: caller_id, ignore }),
        None => Err(rejection(Status::BadRequest)),
    }
}

/// The caller accepts invitation `invitation_id`.
pub fn accept_invitation(caller_id: u64, invitation_id: &str) -> (r: Result<
    InvitationAnswer,
    Rejection,
>)
    ensures
        match parse_u64(invitation_id@) {
            Some(v) => r == Ok::<InvitationAnswer, Rejection>(
                InvitationAnswer { invite_id: v, account_id: caller_id, ignore: false },
            ),
            None => r is Err && rejects(r->Err_0, Status::BadRequest, Seq::empty()),
        },
{
    answer_invitation(caller_id, invitation_id, false)
}

/// The caller ignores invitation `invitation_id`.
pub fn ignore_invitation(caller_id: u64, invitation_id: &str) -> (r: Result<
    InvitationAnswer,
    Rejection,
>)
    ensures
        match parse_u64(invitation_id@) {
            Some(v) => r == Ok::<InvitationAnswer, Rejection>(
                InvitationAnswer { invite_id: v, account_id: caller_id, ignore: true },
            ),
            None => r is Err && rejects(r->Err_0, Status::BadRequest, Seq::empty()),
        },
{
    answer_invitation(caller_id, invitation_id, true)
}

} // verus!
