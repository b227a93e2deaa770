//! A project's plan: the manifest that names the package it builds.

use vstd::prelude::*;
use crate::text::{decode_lossy, utf8_lossy};

verus! {

/// Something that has a project identity of the form `origin/name`.
pub trait ProjectId {
    spec fn spec_project_id(&self) -> Seq<char>;

    fn project_id(&self) -> (r: String)
        ensures
            r@ == self.spec_project_id(),
    ;
}

/// The identity that a plan declares.
#[derive(Clone, Debug)]
pub struct Plan {
    pub name: String,
    pub origin: String,
}

/// Why a plan could not be read.
#[derive(Clone, Copy, Debug, PartialEq, Eq, Structural)]
pub enum PlanError {
    /// The plan does not assign both `pkg_origin` and `pkg_name`.
    Malformed,
}

/// The identity `origin/name`.
pub open spec fn identity(origin: Seq<char>, name: Seq<char>) -> Seq<char> {
    origin + "/"@ + name
}

impl ProjectId for Plan {
    open spec fn spec_project_id(&self) -> Seq<char> {
        identity(self.origin@, self.name@)
    }

    fn project_id(&self) -> (r: String) {
        let mut r = self.origin.clone();
        r.append("/");
        r.append(self.name.as_str());
        r
    }
}

/// A line without the carriage return that may end it.
pub open spec fn strip_cr(l: Seq<char>) -> Seq<char> {
    if l.len() > 0 && l.last() == '\r' {
        l.drop_last()
    } else {
        l
    }
}

/// The lines that end in a newline in `t`, and the text after the last newline.
pub open spec fn split_acc(t: Seq<char>) -> (Seq<Seq<char>>, Seq<char>)
    decreases t.len(),
{
    if t.len() == 0 {
        (Seq::empty(), Seq::empty())
    } else {
        let (done, cur) = split_acc(t.drop_last());
        if t.last() == '\n' {
            (done.push(strip_cr(cur)), Seq::empty())
        } else {
            (done, cur.push(t.last()))
        }
    }
}

/// The lines of a text, as `BufRead::lines` yields them: split at each
/// newline, each without a trailing carriage return, and a last line only
/// where text follows the last newline.
pub open spec fn text_lines(t: Seq<char>) -> Seq<Seq<char>> {
    let (done, cur) = split_acc(t);
    if cur.len() > 0 {
        done.push(strip_cr(cur))
    } else {
        done
    }
}

/// The position of the first `=` in a line.
pub open spec fn first_eq(l: Seq<char>) -> Option<int>
    decreases l.len(),
{
    if l.len() == 0 {
        None
    } else if l[0] == '=' {
        Some(0)
    } else {
        match first_eq(l.drop_first()) {
            Some(k) => Some(k + 1),
            None => None,
        }
    }
}

/// The value that a line `key=value` assigns to `key`.
pub open spec fn assignment_of(l: Seq<char>, key: Seq<char>) -> Option<Seq<char>> {
    match first_eq(l) {
        Some(k) => if l.subrange(0, k) == key {
            Some(l.subrange(k + 1, l.len() as int))
        } else {
            None
        },
        None => None,
    }
}

/// The value of the last of `lines` that assigns `key`.
pub open spec fn last_assignment(lines: Seq<Seq<char>>, key: Seq<char>) -> Option<Seq<char>>
    decreases lines.len(),
{
    if lines.len() == 0 {
        None
    } else {
        match assignment_of(lines.last(), key) {
            Some(v) => Some(v),
            None => last_assignment(lines.drop_last(), key),
        }
    }
}

/// The origin and name that a plan's text declares, where it declares both.
pub open spec fn plan_of_text(t: Seq<char>) -> Option<(Seq<char>, Seq<char>)> {
    let lines = text_lines(t);
    match (last_assignment(lines, "pkg_origin"@), last_assignment(lines, "pkg_name"@)) {
        (Some(origin), Some(name)) => Some((origin, name)),
        _ => None,
    }
}

/// `r` is the plan that `m` describes, or the error where `m` is nothing.
pub open spec fn plan_result_is(r: Result<Plan, PlanError>, m: Option<(Seq<char>, Seq<char>)>) -> bool {
    match r {
        Ok(p) => m == Some((p.origin@, p.name@)),
        Err(_) => m is None,
    }
}

/// The view of an optional string.
pub open spec fn opt_view(o: Option<String>) -> Option<Seq<char>> {
    match o {
        Some(s) => Some(s@),
        None => None,
    }
}

/// The value that `line` assigns to `key`, if it does.
fn assignment(line: &str, key: &String) -> (r: Option<String>)
    ensures
        opt_view(r) == assignment_of(line@, key@),
{
    let n = line.unicode_len();
    let mut k: usize = 0;
    assert(line@.skip(0) =~= line@);
    while k < n && line.get_char(k) != '='
        invariant
            k <= n,
            n == line@.len(),
            first_eq(line@) == (match first_eq(line@.skip(k as int)) {
                Some(j) => Some(j + k),
                None => None,
            }),
        decreases n - k,
    {
        assert(line@.skip(k as int).drop_first() =~= line@.skip(k + 1));
        k = k + 1;
    }
    if k == n {
        assert(line@.skip(k as int).len() == 0);
        return None;
    }
    assert(line@.skip(k as int)[0] == '=');
    let head = line.substring_char(0, k).to_owned();
    if head == *key {
        Some(line.substring_char(k + 1, n).to_owned())
    } else {
        None
    }
}

impl Plan {
    /// Reads a plan's text: the values of the last `pkg_origin=` and
    /// `pkg_name=` lines. Both are required.
    pub fn from_str(text: &str) -> (r: Result<Plan, PlanError>)
        ensures
            plan_result_is(r, plan_of_text(text@)),
    {
        let name_key = "pkg_name".to_owned();
        let origin_key = "pkg_origin".to_owned();
        let n = text.unicode_len();
        let mut name: Option<String> = None;
        let mut origin: Option<String> = None;
        let mut start: usize = 0;
        let mut i: usize = 0;
        assert(text@.subrange(0, 0) =~= Seq::<char>::empty());
        while i < n
            invariant
                n == text@.len(),
                start <= i <= n,
                name_key@ == "pkg_name"@,
                origin_key@ == "pkg_origin"@,
                split_acc(text@.subrange(0, i as int)).1 == text@.subrange(start as int, i as int),
                opt_view(name) == last_assignment(split_acc(text@.subrange(0, i as int)).0, "pkg_name"@),
                opt_view(origin) == last_assignment(
                    split_acc(text@.subrange(0, i as int)).0,
                    "pkg_origin"@,
                ),
            decreases n - i,
        {
            let c = text.get_char(i);
            let ghost prev = split_acc(text@.subrange(0, i as int));
            assert(text@.subrange(0, i + 1).drop_last() =~= text@.subrange(0, i as int));
            if c == '\n' {
                let mut end = i;
                if end > start && text.get_char(end - 1) == '\r' {
                    end = end - 1;
                }
                let line = text.substring_char(start, end);
                assert(line@ =~= strip_cr(text@.subrange(start as int, i as int)));
                let ghost lines = prev.0.push(line@);
                assert(lines.drop_last() =~= prev.0);
                match assignment(line, &name_key) {
                    Some(v) => name = Some(v),
                    None => {},
                }
                match assignment(line, &origin_key) {
                    Some(v) => origin = Some(v),
                    None => {},
                }
                start = i + 1;
                assert(text@.subrange(start as int, i + 1) =~= Seq::<char>::empty());
            } else {
                assert(text@.subrange(start as int, i + 1) =~= text@.subrange(
                    start as int,
                    i as int,
                ).push(c));
            }
            i = i + 1;
        }
        assert(text@.subrange(0, n as int) =~= text@);
        if start < n {
            let mut end = n;
            if text.get_char(end - 1) == '\r' {
                end = end - 1;
            }
            let line = text.substring_char(start, end);
            assert(line@ =~= strip_cr(text@.subrange(start as int, n as int)));
            let ghost lines = split_acc(text@).0.push(line@);
            assert(lines.drop_last() =~= split_acc(text@).0);
            match assignment(line, &name_key) {
                Some(v) => name = Some(v),
                None => {},
            }
            match assignment(line, &origin_key) {
                Some(v) => origin = Some(v),
                None => {},
            }
        }
        match (origin, name) {
            (Some(origin), Some(name)) => Ok(Plan { name, origin }),
            _ => Err(PlanError::Malformed),
        }
    }

    /// Reads a plan from the bytes of its file, as UTF-8 text.
    pub fn from_bytes(bytes: &[u8]) -> (r: Result<Plan, PlanError>)
        ensures
            plan_result_is(r, plan_of_text(utf8_lossy(bytes@))),
    {
        let text = decode_lossy(bytes);
        Plan::from_str(text.as_str())
    }
}

} // verus!
