//! The alias listing.
use vstd::prelude::*;
use crate::config::{Config, JobAlias};
use crate::listing::{sort_by_name, sorted_by_name};
use crate::text::concat3;

verus! {

/// Copies of the configured aliases, in insertion order.
fn copy_aliases(config: &Config) -> (r: Vec<(String, JobAlias)>)
    ensures
        r@ == config.job_aliases.entries_view(),
{
    let entries = config.job_aliases.entries();
    let mut r: Vec<(String, JobAlias)> = Vec::new();
    let mut i: usize = 0;
    while i < entries.len()
        invariant
            entries@ == config.job_aliases.entries_view(),
            i <= entries@.len(),
            r@ == entries@.subrange(0, i as int),
        decreases entries@.len() - i,
    {
        let name = entries[i].0.clone();
        let alias = entries[i].1.clone();
        r.push((name, alias));
        assert(entries@.subrange(0, i + 1) == entries@.subrange(0, i as int).push(entries@[i as int]));
        i = i + 1;
    }
    assert(entries@.subrange(0, entries@.len() as int) == entries@);
    r
}

/// The configured aliases in order of their names, for listing.
pub fn execute_list(config: &Config) -> (r: Vec<(String, JobAlias)>)
    ensures
        r@.to_multiset() == config.job_aliases.entries_view().to_multiset(),
        sorted_by_name(r@),
{
    sort_by_name(copy_aliases(config))
}

/// How an alias is shown: its job path, and its host when it has one.
pub open spec fn alias_text(a: JobAlias) -> Seq<char> {
    match a.jenkins {
        Some(j) => a.job_name@ + " (Jenkins: "@ + j@ + ")"@,
        None => a.job_name@,
    }
}

/// The text an alias is shown with.
pub fn alias_display(alias: &JobAlias) -> (r: String)
    ensures
        r@ == alias_text(*alias),
{
    match &alias.jenkins {
        Some(j) => {
            let mut r = concat3(alias.job_name.as_str(), " (Jenkins: ", j.as_str());
            r.append(")");
            r
        },
        None => alias.job_name.clone(),
    }
}

} // verus!
