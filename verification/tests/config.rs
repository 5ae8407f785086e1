use igniter::config::{select_processes, Config, Process};

fn launch(program: &str) -> Process {
    Process { program: program.to_string(), args: vec!["-v".to_string()] }
}

fn sample() -> Config {
    let mut config = Config::new();
    config.insert("web".to_string(), launch("nginx"));
    config.insert("db".to_string(), launch("postgres"));
    config.insert("cache".to_string(), launch("redis"));
    config
}

#[test]
fn empty_config_declares_nothing() {
    let config = Config::new();
    assert_eq!(config.len(), 0);
    assert!(config.get(&"web".to_string()).is_none());
    assert_eq!(config.position(&"web".to_string()), None);
    assert!(select_processes(None, &config).is_empty());
}

#[test]
fn insert_then_get() {
    let config = sample();
    assert_eq!(config.len(), 3);
    assert_eq!(config.get(&"db".to_string()).unwrap().program, "postgres");
    assert_eq!(config.position(&"cache".to_string()), Some(2));
    assert!(config.get(&"mail".to_string()).is_none());
}

#[test]
fn insert_under_a_known_name_replaces_in_place() {
    let mut config = sample();
    config.insert("db".to_string(), launch("mysql"));
    assert_eq!(config.len(), 3);
    assert_eq!(config.position(&"db".to_string()), Some(1));
    assert_eq!(config.get(&"db".to_string()).unwrap().program, "mysql");
    assert_eq!(config.get(&"web".to_string()).unwrap().program, "nginx");
}

#[test]
fn select_without_name_gives_all_in_order() {
    let config = sample();
    let all = select_processes(None, &config);
    let names: Vec<&str> = all.iter().map(|(name, _)| name.as_str()).collect();
    let programs: Vec<&str> = all.iter().map(|(_, p)| p.program.as_str()).collect();
    assert_eq!(names, vec!["web", "db", "cache"]);
    assert_eq!(programs, vec!["nginx", "postgres", "redis"]);
}

#[test]
fn select_with_name_gives_that_one() {
    let config = sample();
    let name = "db".to_string();
    let one = select_processes(Some(&name), &config);
    assert_eq!(one.len(), 1);
    assert_eq!(one[0].0, "db");
    assert_eq!(one[0].1.program, "postgres");
    assert_eq!(one[0].1.args, vec!["-v".to_string()]);
}

#[test]
fn clone_copies_program_and_args() {
    let first = Process {
        program: "sleep".to_string(),
        args: vec!["1".to_string(), "2".to_string()],
    };
    let copy = first.clone();
    assert_eq!(copy.program, "sleep");
    assert_eq!(copy.args, first.args);
}
