//! The configuration store: named server hosts and job aliases.
use vstd::prelude::*;
use crate::table::NameTable;
use crate::text::concat3;

verus! {

/// A server and the credentials to reach it with.
#[derive(Debug, PartialEq)]
pub struct JenkinsHost {
    pub host: String,
    pub user: String,
    pub token: String,
}

impl Clone for JenkinsHost {
    fn clone(&self) -> (r: Self)
        ensures
            r == *self,
    {
        JenkinsHost { host: self.host.clone(), user: self.user.clone(), token: self.token.clone() }
    }
}

/// A short name for a job path, optionally tied to one host.
#[derive(Debug, PartialEq)]
pub struct JobAlias {
    pub job_name: String,
    pub jenkins: Option<String>,
}

impl Clone for JobAlias {
    fn clone(&self) -> (r: Self)
        ensures
            r == *self,
    {
        let jenkins = match &self.jenkins {
            Some(j) => Some(j.clone()),
            None => None,
        };
        JobAlias { job_name: self.job_name.clone(), jenkins }
    }
}

/// Why a configuration lookup or change failed.
#[derive(Debug, Clone, PartialEq)]
pub enum ConfigError {
    /// No host of this name is configured.
    HostNotFound(String),
    /// No alias of this name is configured.
    AliasNotFound(String),
    /// No host is configured at all.
    NoHostsConfigured,
    /// No host was named where one is needed.
    NoHostSpecified,
}

impl ConfigError {
    /// The message shown to the user.
    pub fn to_string(&self) -> (r: String)
        ensures
            match self {
                ConfigError::HostNotFound(n) => r@ == "Jenkins '"@ + n@ + "' not found"@,
                ConfigError::AliasNotFound(n) => r@ == "Job alias '"@ + n@ + "' not found"@,
                ConfigError::NoHostsConfigured => r@
                    == "No Jenkins configured. Use 'jenkins config add' to add one."@,
                ConfigError::NoHostSpecified => r@ == "No Jenkins host specified"@,
            },
    {
        match self {
            ConfigError::HostNotFound(n) => concat3("Jenkins '", n.as_str(), "' not found"),
            ConfigError::AliasNotFound(n) => concat3("Job alias '", n.as_str(), "' not found"),
            ConfigError::NoHostsConfigured => String::from_str(
                "No Jenkins configured. Use 'jenkins config add' to add one.",
            ),
            ConfigError::NoHostSpecified => String::from_str("No Jenkins host specified"),
        }
    }
}

/// The error is `HostNotFound` for the name `n`.
pub open spec fn is_host_not_found(e: ConfigError, n: Seq<char>) -> bool {
    match e {
        ConfigError::HostNotFound(m) => m@ == n,
        _ => false,
    }
}

/// The error is `AliasNotFound` for the name `n`.
pub open spec fn is_alias_not_found(e: ConfigError, n: Seq<char>) -> bool {
    match e {
        ConfigError::AliasNotFound(m) => m@ == n,
        _ => false,
    }
}

/// What a name given on the command line stands for: the aliased job path
/// with the alias's host, or the name itself.
pub open spec fn resolved_name(aliases: Map<Seq<char>, JobAlias>, name: Seq<char>) -> (
    Seq<char>,
    bool,
    Option<Seq<char>>,
) {
    if aliases.contains_key(name) {
        let a = aliases[name];
        (
            a.job_name@,
            true,
            match a.jenkins {
                Some(j) => Some(j@),
                None => None,
            },
        )
    } else {
        (name, false, None)
    }
}

/// The configured hosts and job aliases.
#[derive(Debug)]
pub struct Config {
    pub jenkins: NameTable<JenkinsHost>,
    pub job_aliases: NameTable<JobAlias>,
}

impl Default for Config {
    fn default() -> (r: Self)
        ensures
            r.wf(),
            r.jenkins@ == Map::<Seq<char>, JenkinsHost>::empty(),
            r.job_aliases@ == Map::<Seq<char>, JobAlias>::empty(),
    {
        Config { jenkins: NameTable::new(), job_aliases: NameTable::new() }
    }
}

impl Config {
    /// Both tables are well formed.
    pub open spec fn wf(&self) -> bool {
        self.jenkins.wf() && self.job_aliases.wf()
    }

    /// Stores `host` under `name`, replacing any host of that name.
    pub fn add_jenkins(&mut self, name: String, host: JenkinsHost)
        requires
            old(self).wf(),
        ensures
            final(self).wf(),
            final(self).jenkins@ == old(self).jenkins@.insert(name@, host),
            final(self).job_aliases@ == old(self).job_aliases@,
    {
        self.jenkins.insert(name, host);
    }

    /// Removes the host `name`; `HostNotFound` when there is none.
    pub fn remove_jenkins(&mut self, name: &str) -> (r: Result<(), ConfigError>)
        requires
            old(self).wf(),
        ensures
            final(self).wf(),
            r is Ok == old(self).jenkins@.contains_key(name@),
            r is Err ==> is_host_not_found(r->Err_0, name@),
            final(self).jenkins@ == old(self).jenkins@.remove(name@),
            final(self).job_aliases@ == old(self).job_aliases@,
    {
        match self.jenkins.remove(name) {
            Some(_) => Ok(()),
            None => Err(ConfigError::HostNotFound(String::from_str(name))),
        }
    }

    /// The host `name`; `HostNotFound` when there is none.
    pub fn get_jenkins(&self, name: &str) -> (r: Result<&JenkinsHost, ConfigError>)
        requires
            self.wf(),
        ensures
            r is Ok == self.jenkins@.contains_key(name@),
            r is Ok ==> *r->Ok_0 == self.jenkins@[name@],
            r is Err ==> is_host_not_found(r->Err_0, name@),
    {
        match self.jenkins.get(name) {
            Some(h) => Ok(h),
            None => Err(ConfigError::HostNotFound(String::from_str(name))),
        }
    }

    /// Stores the alias `alias` for `job_name`, tied to host `jenkins` when
    /// one is given, replacing any alias of that name.
    pub fn add_job_alias(&mut self, alias: String, job_name: String, jenkins: Option<String>)
        requires
            old(self).wf(),
        ensures
            final(self).wf(),
            final(self).job_aliases@ == old(self).job_aliases@.insert(
                alias@,
                JobAlias { job_name, jenkins },
            ),
            final(self).jenkins@ == old(self).jenkins@,
    {
        self.job_aliases.insert(alias, JobAlias { job_name, jenkins });
    }

    /// Removes the alias `alias`; `AliasNotFound` when there is none.
    pub fn remove_job_alias(&mut self, alias: &str) -> (r: Result<(), ConfigError>)
        requires
            old(self).wf(),
        ensures
            final(self).wf(),
            r is Ok == old(self).job_aliases@.contains_key(alias@),
            r is Err ==> is_alias_not_found(r->Err_0, alias@),
            final(self).job_aliases@ == old(self).job_aliases@.remove(alias@),
            final(self).jenkins@ == old(self).jenkins@,
    {
        match self.job_aliases.remove(alias) {
            Some(_) => Ok(()),
            None => Err(ConfigError::AliasNotFound(String::from_str(alias))),
        }
    }

    /// The job path that `alias_or_name` stands for.
    pub fn get_job_name(&self, alias_or_name: &str) -> (r: String)
        requires
            self.wf(),
        ensures
            r@ == resolved_name(self.job_aliases@, alias_or_name@).0,
    {
        match self.job_aliases.get(alias_or_name) {
            Some(a) => a.job_name.clone(),
            None => String::from_str(alias_or_name),
        }
    }

    /// The job path that `alias_or_name` stands for, whether it is an
    /// alias, and the host the alias is tied to.
    pub fn resolve_job_name(&self, alias_or_name: &str) -> (r: (String, bool, Option<String>))
        requires
            self.wf(),
        ensures
            (r.0@, r.1, match r.2 {
                Some(j) => Some(j@),
                None => None,
            }) == resolved_name(self.job_aliases@, alias_or_name@),
    {
        match self.job_aliases.get(alias_or_name) {
            Some(a) => {
                let j = match &a.jenkins {
                    Some(j) => Some(j.clone()),
                    None => None,
                };
                (a.job_name.clone(), true, j)
            },
            None => (String::from_str(alias_or_name), false, None),
        }
    }
}

/// The host to use: the one named, looked up in the configuration.
pub fn resolve_jenkins_host(config: &Config, jenkins_name: Option<String>) -> (r: Result<
    JenkinsHost,
    ConfigError,
>)
    requires
        config.wf(),
    ensures
        match jenkins_name {
            None => r == Err::<JenkinsHost, ConfigError>(ConfigError::NoHostSpecified),
            Some(n) => {
                &&& r is Ok == config.jenkins@.contains_key(n@)
                &&& r is Ok ==> r->Ok_0 == config.jenkins@[n@]
                &&& r is Err ==> is_host_not_found(r->Err_0, n@)
            },
        },
{
    match jenkins_name {
        None => Err(ConfigError::NoHostSpecified),
        Some(n) => match config.get_jenkins(n.as_str()) {
            Ok(h) => Ok(h.clone()),
            Err(e) => Err(e),
        },
    }
}

/// The host for a command on `job_name`: the one named explicitly, else
/// the one its alias is tied to; `None` when the user is to pick one.
pub fn jenkins_for_job(config: &Config, job_name: Option<&str>, jenkins_name: Option<String>) -> (r:
    Option<String>)
    requires
        config.wf(),
    ensures
        match jenkins_name {
            Some(n) => r == Some(n),
            None => match job_name {
                Some(j) => match resolved_name(config.job_aliases@, j@).2 {
                    Some(a) => r is Some && r->Some_0@ == a,
                    None => r is None,
                },
                None => r is None,
            },
        },
{
    match jenkins_name {
        Some(n) => Some(n),
        None => match job_name {
            Some(j) => {
                let (_, _, alias_jenkins) = config.resolve_job_name(j);
                alias_jenkins
            },
            None => None,
        },
    }
}

} // verus!
