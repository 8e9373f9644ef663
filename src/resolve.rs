//! The two-attempt resolution of a command line: as written, then as an implicit `client`.
use crate::cli::parse_attempt;
use crate::invocation::{values_fit, Invocation};
use crate::mode::{mode_from_name, spec_mode_name, Mode};
use vstd::prelude::*;

verus! {

/// The outcome of one attempt at matching a command line.
#[derive(Debug)]
pub enum Attempt {
    Matched(Invocation),
    HelpRequested,
    Rejected,
}

/// How a command line was finally resolved.
#[derive(Debug)]
pub enum Resolution {
    /// A mode was matched.
    Resolved(Invocation),
    /// Help was asked for; the caller shows it and exits successfully.
    HelpRequested,
    /// Neither attempt matched; the caller reports the error of the command line as written.
    Failed,
}

/// What to do after matching the command line as written.
#[derive(Debug)]
pub enum Step {
    Done(Resolution),
    RetryAsClient,
}

/// A rejected command line is retried as an implicit `client` where `retry_allowed`, and fails
/// otherwise; a match or a request for help is final.
pub fn after_direct(first: Attempt, retry_allowed: bool) -> (r: Step)
    ensures
        first matches Attempt::Matched(inv) ==> r matches Step::Done(Resolution::Resolved(x))
            && x@ == inv@,
        first is HelpRequested ==> r matches Step::Done(Resolution::HelpRequested),
        first is Rejected && retry_allowed ==> r is RetryAsClient,
        first is Rejected && !retry_allowed ==> r matches Step::Done(Resolution::Failed),
{
    match first {
        Attempt::Matched(inv) => Step::Done(Resolution::Resolved(inv)),
        Attempt::HelpRequested => Step::Done(Resolution::HelpRequested),
        Attempt::Rejected => if retry_allowed {
            Step::RetryAsClient
        } else {
            Step::Done(Resolution::Failed)
        },
    }
}

/// The word after the program name selects a mode.
pub open spec fn first_word_names_mode(argv: Seq<String>) -> bool {
    argv.len() >= 2 && exists|m: Mode| spec_mode_name(m) == argv[1]@
}

/// Whether the word after the program name selects a mode. A command line that names its mode
/// is never reread as an implicit `client`: its own error is the one to report.
pub fn names_mode_first(argv: &Vec<String>) -> (r: bool)
    ensures
        r == first_word_names_mode(argv@),
{
    if argv.len() < 2 {
        return false;
    }
    match mode_from_name(&argv[1]) {
        Some(_) => true,
        None => false,
    }
}

/// The implicit `client` retry is the last chance: only a match resolves.
pub fn after_retry(second: Attempt) -> (r: Resolution)
    ensures
        second matches Attempt::Matched(inv) ==> r matches Resolution::Resolved(x) && x@ == inv@,
        !(second is Matched) ==> r is Failed,
{
    match second {
        Attempt::Matched(inv) => Resolution::Resolved(inv),
        _ => Resolution::Failed,
    }
}

/// The views of a list of strings.
pub open spec fn strings_view(v: Seq<String>) -> Seq<Seq<char>> {
    v.map_values(|s: String| s@)
}

/// The command line with the word `client` put right after the program name.
pub fn with_implicit_client(argv: &Vec<String>) -> (r: Vec<String>)
    requires
        argv@.len() >= 1,
    ensures
        strings_view(r@) == strings_view(argv@).insert(1, "client"@),
{
    let mut r: Vec<String> = Vec::new();
    r.push(argv[0].clone());
    r.push("client".to_owned());
    let mut k: usize = 1;
    while k < argv.len()
        invariant
            1 <= k <= argv@.len(),
            r@.len() == k + 1,
            r@[0]@ == argv@[0]@,
            r@[1]@ == "client"@,
            forall|j: int| 1 <= j < k ==> (#[trigger] r@[j + 1])@ == argv@[j]@,
        decreases argv@.len() - k,
    {
        r.push(argv[k].clone());
        k = k + 1;
    }
    assert(strings_view(r@) =~= strings_view(argv@).insert(1, "client"@)) by {
        assert forall|j: int| 2 <= j < r@.len() implies #[trigger] r@[j]@ == argv@[j - 1]@ by {
            assert(r@[(j - 1) + 1] == r@[j]);
        }
    }
    r
}

/// Resolves a command line, program name first: as written, then, where that is rejected and
/// its first word names no mode, as an implicit `client` invocation.
pub fn resolve(argv: &Vec<String>, version: &'static str, author: &'static str) -> (r: Resolution)
    requires
        argv@.len() >= 1,
    ensures
        r matches Resolution::Resolved(inv) ==> values_fit(inv@.0, inv@.1),
        r matches Resolution::Resolved(inv) ==> (first_word_names_mode(argv@)
            ==> spec_mode_name(inv@.0) == argv@[1]@),
{
    let retry_allowed = !names_mode_first(argv);
    let r = match after_direct(parse_attempt(argv, version, author), retry_allowed) {
        Step::Done(r) => r,
        Step::RetryAsClient => after_retry(
            parse_attempt(&with_implicit_client(argv), version, author),
        ),
    };
    if let Resolution::Resolved(inv) = &r {
        proof { use_type_invariant(inv); }
    }
    r
}

} // verus!
