//! The host listing and the choice of host.
use vstd::prelude::*;
use crate::config::{Config, ConfigError, JenkinsHost};
use crate::listing::{sort_by_name, sorted_by_name};

verus! {

/// Copies of the configured hosts, in insertion order.
fn copy_hosts(config: &Config) -> (r: Vec<(String, JenkinsHost)>)
    ensures
        r@ == config.jenkins.entries_view(),
{
    let entries = config.jenkins.entries();
    let mut r: Vec<(String, JenkinsHost)> = Vec::new();
    let mut i: usize = 0;
    while i < entries.len()
        invariant
            entries@ == config.jenkins.entries_view(),
            i <= entries@.len(),
            r@ == entries@.subrange(0, i as int),
        decreases entries@.len() - i,
    {
        let name = entries[i].0.clone();
        let host = entries[i].1.clone();
        r.push((name, host));
        assert(entries@.subrange(0, i + 1) == entries@.subrange(0, i as int).push(entries@[i as int]));
        i = i + 1;
    }
    assert(entries@.subrange(0, entries@.len() as int) == entries@);
    r
}

/// The configured hosts in order of their names, for listing.
pub fn execute_list(config: &Config) -> (r: Vec<(String, JenkinsHost)>)
    ensures
        r@.to_multiset() == config.jenkins.entries_view().to_multiset(),
        sorted_by_name(r@),
{
    sort_by_name(copy_hosts(config))
}

/// Which host a command may use when none is named.
#[derive(Debug, Clone, PartialEq)]
pub enum HostChoice {
    /// The only configured host, used without asking.
    Only(String),
    /// Several hosts, in order of their names, for the user to pick from.
    Pick(Vec<(String, JenkinsHost)>),
}

/// Decides how a host is picked: no host configured is an error, a single
/// one is taken as it is, several are offered in order of their names.
pub fn host_choices(config: &Config) -> (r: Result<HostChoice, ConfigError>)
    requires
        config.wf(),
    ensures
        config.jenkins@.len() == 0 <==> r == Err::<HostChoice, ConfigError>(
            ConfigError::NoHostsConfigured),
        config.jenkins@.len() == 1 ==> (r matches Ok(HostChoice::Only(n))
            && config.jenkins@.contains_key(n@)),
        config.jenkins@.len() > 1 ==> (r matches Ok(HostChoice::Pick(hosts))
            && hosts@.to_multiset() == config.jenkins.entries_view().to_multiset()
            && sorted_by_name(hosts@)),
{
    let n = config.jenkins.len();
    if n == 0 {
        return Err(ConfigError::NoHostsConfigured);
    }
    let hosts = execute_list(config);
    if n == 1 {
        proof {
            config.jenkins.lemma_entries_named();
        }
        let only = config.jenkins.entries()[0].0.clone();
        Ok(HostChoice::Only(only))
    } else {
        Ok(HostChoice::Pick(hosts))
    }
}

} // verus!
