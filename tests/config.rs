use consumer_pool::config::{parse_usize, AppConfig};
use consumer_pool::models::{CronjobConfig, PageQuery, ProjectSearch};

#[test]
fn config_defaults_and_overrides() {
    let c = AppConfig::from_values("postgres://db".to_string(), "redis://r".to_string(), None, None);
    assert_eq!(c.postgresql_conn_str, "postgres://db");
    assert_eq!(c.redis.redis_conn_str, "redis://r");
    assert_eq!(c.redis.max_consumer_count, 5);
    assert_eq!(c.redis.max_redis_pool_size, 16);
    let c = AppConfig::from_values(String::new(), String::new(), Some("+3".to_string()), Some("32".to_string()));
    assert_eq!(c.redis.max_consumer_count, 3);
    assert_eq!(c.redis.max_redis_pool_size, 32);
    let c = AppConfig::from_values(String::new(), String::new(), Some("three".to_string()), Some("-1".to_string()));
    assert_eq!(c.redis.max_consumer_count, 5);
    assert_eq!(c.redis.max_redis_pool_size, 16);
    let c = AppConfig::from_values(String::new(), String::new(), Some("0".to_string()), Some(" 8".to_string()));
    assert_eq!(c.redis.max_consumer_count, 0);
    assert_eq!(c.redis.max_redis_pool_size, 16);
}

#[test]
fn page_query_validation() {
    assert!(PageQuery { page_index: 1, page_size: 20 }.validate());
    assert!(PageQuery { page_index: 3, page_size: 100 }.validate());
    assert!(!PageQuery { page_index: 0, page_size: 20 }.validate());
    assert!(!PageQuery { page_index: 1, page_size: 0 }.validate());
    assert!(!PageQuery { page_index: 1, page_size: 101 }.validate());
}

#[test]
fn project_search_validation() {
    let page = || PageQuery { page_index: 1, page_size: 10 };
    assert!(ProjectSearch { project_name: None, page_query: page() }.validate());
    assert!(ProjectSearch { project_name: Some("foo".to_string()), page_query: page() }.validate());
    assert!(!ProjectSearch { project_name: Some(String::new()), page_query: page() }.validate());
    assert!(!ProjectSearch { project_name: Some("x".repeat(101)), page_query: page() }.validate());
    assert!(ProjectSearch { project_name: Some("é".repeat(100)), page_query: page() }.validate());
    assert!(!ProjectSearch { project_name: Some("foo".to_string()), page_query: PageQuery { page_index: 0, page_size: 10 } }.validate());
}

#[test]
fn cronjob_config_default() {
    let c = CronjobConfig::default();
    assert_eq!(c.redis_url, "redis://localhost:6379");
    assert_eq!(c.queue_name, "task_queue");
    assert_eq!(c.heartbeat_interval_secs, 30);
}

#[test]
fn usize_parsing_follows_std() {
    for s in ["0", "7", "+7", "007", "18446744073709551615", "", "+", "-1", "-0", " 1", "1 ", "1a", "١", "18446744073709551616", "99999999999999999999999"] {
        assert_eq!(parse_usize(s), s.parse::<usize>().ok(), "input {:?}", s);
    }
    assert_eq!(parse_usize("+42"), Some(42));
}
