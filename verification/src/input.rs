//! Entry filtering and the password-source decision.

use vstd::prelude::*;
use crate::otp::Entry;
use crate::text::{contains_str, is_substring_of, lower_of, lowercase, trim_str, trimmed};

verus! {

/// Optional case-insensitive substring filters on the issuer and the
/// name of an entry.
pub struct EntryFilter {
    pub issuer: Option<String>,
    pub name: Option<String>,
}

/// An entry passes the filter when each given pattern occurs, case
/// folded, inside the corresponding field.
pub open spec fn filter_accepts(f: EntryFilter, e: Entry) -> bool {
    &&& (f.issuer matches Some(pat) ==> is_substring_of(lower_of(pat@), lower_of(e.issuer@)))
    &&& (f.name matches Some(pat) ==> is_substring_of(lower_of(pat@), lower_of(e.name@)))
}

impl EntryFilter {
    /// Decides whether an entry passes the filter.
    pub fn matches(&self, entry: &Entry) -> (b: bool)
        ensures
            b == filter_accepts(*self, *entry),
    {
        if let Some(pat) = &self.issuer {
            let pat_low = lowercase(pat.as_str());
            let issuer_low = lowercase(entry.issuer.as_str());
            if !contains_str(issuer_low.as_str(), pat_low.as_str()) {
                return false;
            }
        }
        if let Some(pat) = &self.name {
            let pat_low = lowercase(pat.as_str());
            let name_low = lowercase(entry.name.as_str());
            if !contains_str(name_low.as_str(), pat_low.as_str()) {
                return false;
            }
        }
        true
    }
}

/// Keeps exactly the entries that pass the filter, in their original
/// order.
pub fn filter_entries(entries: Vec<Entry>, filter: &EntryFilter) -> (kept: Vec<Entry>)
    ensures
        kept@ == entries@.filter(|e: Entry| filter_accepts(*filter, e)),
{
    let ghost accepted = |e: Entry| filter_accepts(*filter, e);
    let mut rest = entries;
    let mut kept: Vec<Entry> = Vec::new();
    let ghost done: Seq<Entry> = Seq::empty();
    proof {
        assert(done.filter(accepted) =~= Seq::<Entry>::empty());
        assert(done + rest@ =~= rest@);
    }
    while rest.len() > 0
        invariant
            kept@ == done.filter(accepted),
            done + rest@ == entries@,
            accepted == (|e: Entry| filter_accepts(*filter, e)),
        decreases rest@.len(),
    {
        let ghost done_pre = done;
        let e = rest.remove(0);
        if filter.matches(&e) {
            kept.push(e);
        }
        proof {
            done = done_pre.push(e);
            Seq::<Entry>::filter_distributes_over_add(done_pre, seq![e], accepted);
            assert(done_pre.push(e) =~= done_pre + seq![e]);
            reveal_with_fuel(Seq::filter, 2);
            assert(seq![e].drop_last() =~= Seq::<Entry>::empty());
            assert(seq![e].filter(accepted) == (
                if accepted(e) {
                    seq![e]
                } else {
                    Seq::<Entry>::empty()
                }
            ));
            assert(done + rest@ =~= entries@);
            assert(kept@ =~= done.filter(accepted));
        }
    }
    proof {
        assert(done =~= entries@);
    }
    kept
}

/// Where the vault password comes from: a value given up front, a
/// password file, or an interactive prompt.
#[derive(Clone, Copy, Debug, PartialEq, Eq, Structural)]
pub enum PasswordSource {
    Provided,
    FromFile,
    Prompt,
}

/// Decides the password source: a provided password alone is used as is,
/// a password file alone is read, and every other combination falls back
/// to the interactive prompt.
pub fn password_source(has_password: bool, has_pwfile: bool) -> (s: PasswordSource)
    ensures
        has_password && !has_pwfile ==> s is Provided,
        !has_password && has_pwfile ==> s is FromFile,
        (has_password == has_pwfile) ==> s is Prompt,
{
    if has_password && !has_pwfile {
        PasswordSource::Provided
    } else if !has_password && has_pwfile {
        PasswordSource::FromFile
    } else {
        PasswordSource::Prompt
    }
}

/// Normalizes password-file contents: surrounding whitespace, such as a
/// trailing newline, is removed.
pub fn normalize_password(raw: &str) -> (p: String)
    ensures
        p@ == trimmed(raw@),
{
    let t = trim_str(raw);
    t.to_owned()
}

} // verus!
