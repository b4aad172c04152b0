use jenkins_cli::commands::alias::{alias_display, execute_list as alias_list};
use jenkins_cli::commands::config::{execute_list as host_list, host_choices, HostChoice};
use jenkins_cli::config::{jenkins_for_job, resolve_jenkins_host, Config, ConfigError, JenkinsHost, JobAlias};

fn create_test_host(name: &str) -> JenkinsHost {
    JenkinsHost {
        host: format!("https://jenkins-{}.example.com", name),
        user: format!("user-{}", name),
        token: format!("token-{}", name),
    }
}

#[test]
fn test_config_default() {
    let config = Config::default();
    assert!(config.jenkins.is_empty());
}

#[test]
fn test_add_jenkins() {
    let mut config = Config::default();
    let host = create_test_host("prod");

    config.add_jenkins("prod".to_string(), host.clone());

    assert_eq!(config.jenkins.len(), 1);
    assert!(config.jenkins.contains_key("prod"));
    assert_eq!(config.jenkins.get("prod").unwrap().host, host.host);
}

#[test]
fn test_remove_jenkins() {
    let mut config = Config::default();
    config.add_jenkins("prod".to_string(), create_test_host("prod"));
    config.add_jenkins("dev".to_string(), create_test_host("dev"));

    let result = config.remove_jenkins("prod");
    assert!(result.is_ok());
    assert_eq!(config.jenkins.len(), 1);
    assert!(!config.jenkins.contains_key("prod"));
    assert!(config.jenkins.contains_key("dev"));
}

#[test]
fn test_remove_nonexistent_jenkins() {
    let mut config = Config::default();
    let result = config.remove_jenkins("nonexistent");
    assert!(result.is_err());
    assert_eq!(result.unwrap_err().to_string(), "Jenkins 'nonexistent' not found");
}

#[test]
fn test_get_jenkins() {
    let mut config = Config::default();
    config.add_jenkins("prod".to_string(), create_test_host("prod"));

    let result = config.get_jenkins("prod");
    assert!(result.is_ok());
    assert_eq!(result.unwrap().host, "https://jenkins-prod.example.com");
}

#[test]
fn test_add_job_alias() {
    let mut config = Config::default();
    config.add_job_alias("my-job".to_string(), "my-very-long-job-name".to_string(), None);

    assert_eq!(config.job_aliases.len(), 1);
    let alias = config.job_aliases.get("my-job").unwrap();
    assert_eq!(alias.job_name, "my-very-long-job-name");
    assert_eq!(alias.jenkins, None);
}

#[test]
fn test_remove_job_alias() {
    let mut config = Config::default();
    config.add_job_alias("my-job".to_string(), "my-very-long-job-name".to_string(), None);

    let result = config.remove_job_alias("my-job");
    assert!(result.is_ok());
    assert!(config.job_aliases.is_empty());
}

#[test]
fn test_remove_nonexistent_job_alias() {
    let mut config = Config::default();
    let result = config.remove_job_alias("nonexistent");
    assert!(result.is_err());
    assert_eq!(result.unwrap_err().to_string(), "Job alias 'nonexistent' not found");
}

#[test]
fn test_get_job_name_with_alias() {
    let mut config = Config::default();
    config.add_job_alias("my-job".to_string(), "my-very-long-job-name".to_string(), None);

    assert_eq!(config.get_job_name("my-job"), "my-very-long-job-name");
}

#[test]
fn test_get_job_name_without_alias() {
    let config = Config::default();
    assert_eq!(config.get_job_name("actual-job-name"), "actual-job-name");
}

#[test]
fn test_resolve_job_name_with_alias() {
    let mut config = Config::default();
    config.add_job_alias("my-job".to_string(), "my-very-long-job-name".to_string(), None);

    let (job_name, is_alias, jenkins) = config.resolve_job_name("my-job");
    assert_eq!(job_name, "my-very-long-job-name");
    assert!(is_alias);
    assert_eq!(jenkins, None);
}

#[test]
fn test_resolve_job_name_without_alias() {
    let config = Config::default();
    let (job_name, is_alias, jenkins) = config.resolve_job_name("actual-job-name");
    assert_eq!(job_name, "actual-job-name");
    assert!(!is_alias);
    assert_eq!(jenkins, None);
}

#[test]
fn test_add_job_alias_with_jenkins() {
    let mut config = Config::default();
    config.add_job_alias("my-job".to_string(), "my-very-long-job-name".to_string(), Some("dev".to_string()));

    assert_eq!(config.job_aliases.len(), 1);
    let alias = config.job_aliases.get("my-job").unwrap();
    assert_eq!(alias.job_name, "my-very-long-job-name");
    assert_eq!(alias.jenkins, Some("dev".to_string()));
}

#[test]
fn test_resolve_job_name_with_jenkins() {
    let mut config = Config::default();
    config.add_job_alias("my-job".to_string(), "my-very-long-job-name".to_string(), Some("dev".to_string()));

    let (job_name, is_alias, jenkins) = config.resolve_job_name("my-job");
    assert_eq!(job_name, "my-very-long-job-name");
    assert!(is_alias);
    assert_eq!(jenkins, Some("dev".to_string()));
}

#[test]
fn adding_a_host_twice_replaces_it() {
    let mut config = Config::default();
    config.add_jenkins("prod".to_string(), create_test_host("prod"));
    config.add_jenkins("prod".to_string(), create_test_host("other"));
    assert_eq!(config.jenkins.len(), 1);
    assert_eq!(config.get_jenkins("prod").unwrap().host, "https://jenkins-other.example.com");
}

#[test]
fn removing_a_host_keeps_the_aliases() {
    let mut config = Config::default();
    config.add_jenkins("prod".to_string(), create_test_host("prod"));
    config.add_job_alias("a".to_string(), "job-a".to_string(), Some("prod".to_string()));
    config.remove_jenkins("prod").unwrap();
    assert!(config.jenkins.is_empty());
    assert_eq!(config.job_aliases.len(), 1);
    assert!(config.remove_jenkins("prod").is_err());
}

#[test]
fn get_missing_host_reports_its_name() {
    let config = Config::default();
    let err = config.get_jenkins("nowhere").unwrap_err();
    assert_eq!(err, ConfigError::HostNotFound("nowhere".to_string()));
    assert_eq!(err.to_string(), "Jenkins 'nowhere' not found");
}

#[test]
fn resolve_host_by_name_or_fail() {
    let mut config = Config::default();
    config.add_jenkins("prod".to_string(), create_test_host("prod"));
    let host = resolve_jenkins_host(&config, Some("prod".to_string())).unwrap();
    assert_eq!(host.user, "user-prod");
    assert_eq!(host.token, "token-prod");
    assert_eq!(
        resolve_jenkins_host(&config, Some("dev".to_string())).unwrap_err(),
        ConfigError::HostNotFound("dev".to_string())
    );
    assert_eq!(
        resolve_jenkins_host(&config, None).unwrap_err(),
        ConfigError::NoHostSpecified
    );
}

#[test]
fn host_for_a_job_prefers_explicit_then_alias() {
    let mut config = Config::default();
    config.add_job_alias("a".to_string(), "job-a".to_string(), Some("dev".to_string()));
    config.add_job_alias("b".to_string(), "job-b".to_string(), None);
    assert_eq!(
        jenkins_for_job(&config, Some("a"), Some("prod".to_string())),
        Some("prod".to_string())
    );
    assert_eq!(jenkins_for_job(&config, Some("a"), None), Some("dev".to_string()));
    assert_eq!(jenkins_for_job(&config, Some("b"), None), None);
    assert_eq!(jenkins_for_job(&config, Some("plain"), None), None);
    assert_eq!(jenkins_for_job(&config, None, None), None);
}

#[test]
fn host_choices_by_count() {
    let mut config = Config::default();
    assert_eq!(host_choices(&config).unwrap_err(), ConfigError::NoHostsConfigured);
    assert_eq!(
        ConfigError::NoHostsConfigured.to_string(),
        "No Jenkins configured. Use 'jenkins config add' to add one."
    );
    config.add_jenkins("staging".to_string(), create_test_host("staging"));
    assert_eq!(host_choices(&config).unwrap(), HostChoice::Only("staging".to_string()));
    config.add_jenkins("dev".to_string(), create_test_host("dev"));
    config.add_jenkins("prod".to_string(), create_test_host("prod"));
    match host_choices(&config).unwrap() {
        HostChoice::Pick(hosts) => {
            let names: Vec<&str> = hosts.iter().map(|(n, _)| n.as_str()).collect();
            assert_eq!(names, vec!["dev", "prod", "staging"]);
            assert_eq!(hosts[1].1.host, "https://jenkins-prod.example.com");
        }
        other => panic!("expected a pick, got {:?}", other),
    }
}

#[test]
fn listings_are_in_name_order() {
    let mut config = Config::default();
    config.add_jenkins("zeta".to_string(), create_test_host("zeta"));
    config.add_jenkins("Alpha".to_string(), create_test_host("Alpha"));
    config.add_jenkins("alpha".to_string(), create_test_host("alpha"));
    let names: Vec<String> = host_list(&config).into_iter().map(|(n, _)| n).collect();
    assert_eq!(names, vec!["Alpha", "alpha", "zeta"]);

    config.add_job_alias("web".to_string(), "web-build".to_string(), None);
    config.add_job_alias("api".to_string(), "api-build".to_string(), Some("prod".to_string()));
    let aliases = alias_list(&config);
    assert_eq!(aliases.len(), 2);
    assert_eq!(aliases[0].0, "api");
    assert_eq!(aliases[1].0, "web");
    assert_eq!(alias_display(&aliases[0].1), "api-build (Jenkins: prod)");
    assert_eq!(alias_display(&aliases[1].1), "web-build");
}

#[test]
fn alias_display_forms() {
    let bare = JobAlias { job_name: "x".to_string(), jenkins: None };
    let tied = JobAlias { job_name: "x".to_string(), jenkins: Some("h".to_string()) };
    assert_eq!(alias_display(&bare), "x");
    assert_eq!(alias_display(&tied), "x (Jenkins: h)");
}
