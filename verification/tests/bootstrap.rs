use bootstrap::cache::ConfigCache;
use bootstrap::config::{some_path, Config};
use bootstrap::supervisor::{Outcome, Phase, Status, Supervisor};
use bootstrap::task::TickTask;

#[test]
fn test_config() {
    let pairs = vec![("APP_SOME_PATH".to_string(), "/some/path".to_string())];
    let conf = Config::from_pairs(&pairs);
    assert_eq!(conf.some_path, "/some/path".to_string());
}

#[test]
fn config_env_value_overrides_default() {
    let pairs = vec![
        ("OTHER".to_string(), "x".to_string()),
        ("APP_SOME_PATH".to_string(), "/custom".to_string()),
        ("APP_UNRELATED".to_string(), "y".to_string()),
    ];
    let conf = Config::from_pairs(&pairs);
    assert_eq!(conf.some_path, "/custom".to_string());
}

#[test]
fn config_default_when_absent() {
    let pairs: Vec<(String, String)> = Vec::new();
    let conf = Config::from_pairs(&pairs);
    assert_eq!(conf.some_path, "/some/path".to_string());
}

#[test]
fn config_default_ignores_unrelated_names() {
    let pairs = vec![
        ("SOME_PATH".to_string(), "/unprefixed".to_string()),
        ("APP_SOME_PATHX".to_string(), "/wrong".to_string()),
    ];
    let conf = Config::from_pairs(&pairs);
    assert_eq!(conf.some_path, "/some/path".to_string());
}

#[test]
fn default_some_path_value() {
    assert_eq!(some_path(), "/some/path".to_string());
}

#[test]
fn cache_keeps_first_load() {
    let mut cache = ConfigCache::new();
    let first_env = vec![("APP_SOME_PATH".to_string(), "/first".to_string())];
    let changed_env = vec![("APP_SOME_PATH".to_string(), "/second".to_string())];
    let first = cache.get(&first_env);
    assert_eq!(first.some_path, "/first".to_string());
    let second = cache.get(&changed_env);
    assert_eq!(second.some_path, "/first".to_string());
}

#[test]
fn cache_loads_default_once() {
    let mut cache = ConfigCache::new();
    let empty: Vec<(String, String)> = Vec::new();
    let set = vec![("APP_SOME_PATH".to_string(), "/late".to_string())];
    assert_eq!(cache.get(&empty).some_path, "/some/path".to_string());
    assert_eq!(cache.get(&set).some_path, "/some/path".to_string());
}

#[test]
fn supervisor_clean_run() {
    let mut sup = Supervisor::new(vec!["app1".to_string()]);
    assert_eq!(sup.phase, Phase::Running);
    sup.request_shutdown();
    assert_eq!(sup.phase, Phase::ShuttingDown);
    sup.subsystem_finished(0, true);
    assert_eq!(sup.phase, Phase::Stopped(Outcome::Completed));
    assert!(sup.run_result().is_ok());
}

#[test]
fn supervisor_signal_then_timeout() {
    let mut sup = Supervisor::new(vec!["app1".to_string()]);
    sup.request_shutdown();
    assert_eq!(sup.phase, Phase::ShuttingDown);
    sup.timeout_elapsed();
    assert_eq!(sup.phase, Phase::Stopped(Outcome::Failed));
    let err = sup.run_result().unwrap_err();
    assert_eq!(err.timed_out, vec!["app1".to_string()]);
    assert!(err.failed.is_empty());
}

#[test]
fn supervisor_repeated_shutdown_request() {
    let mut sup = Supervisor::new(vec!["a".to_string(), "b".to_string()]);
    sup.request_shutdown();
    let after_first = sup.clone();
    sup.request_shutdown();
    assert_eq!(sup.phase, after_first.phase);
    assert_eq!(sup.subs.len(), after_first.subs.len());
    for (s, t) in sup.subs.iter().zip(after_first.subs.iter()) {
        assert_eq!(s.name, t.name);
        assert_eq!(s.status, t.status);
    }
    sup.subsystem_finished(0, true);
    sup.subsystem_finished(1, true);
    assert_eq!(sup.phase, Phase::Stopped(Outcome::Completed));
}

#[test]
fn supervisor_subsystem_failure() {
    let mut sup = Supervisor::new(vec!["app1".to_string()]);
    sup.subsystem_finished(0, false);
    assert_eq!(sup.phase, Phase::Stopped(Outcome::Failed));
    let err = sup.run_result().unwrap_err();
    assert_eq!(err.failed, vec!["app1".to_string()]);
    assert!(err.timed_out.is_empty());
}

#[test]
fn supervisor_failure_triggers_shutdown_of_siblings() {
    let mut sup = Supervisor::new(vec!["a".to_string(), "b".to_string()]);
    sup.subsystem_finished(0, false);
    assert_eq!(sup.phase, Phase::ShuttingDown);
    assert_eq!(sup.subs[1].status, Status::Running);
    sup.subsystem_finished(1, true);
    assert_eq!(sup.phase, Phase::Stopped(Outcome::Failed));
    let err = sup.run_result().unwrap_err();
    assert_eq!(err.failed, vec!["a".to_string()]);
    assert!(err.timed_out.is_empty());
}

#[test]
fn tick_task_counts_down() {
    let mut task = TickTask::new(3);
    let mut ticks = 0;
    while task.tick() {
        ticks += 1;
    }
    assert_eq!(ticks, 3);
    assert_eq!(task.remaining, 0);
    assert!(!task.tick());
}
