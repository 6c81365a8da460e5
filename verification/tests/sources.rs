use drift::sources::git::{detect_changes, FileStatus, GitConfig, GitSettings, GitState};
use drift::sources::price::{build_url as price_url, PriceConfig, PriceSettings};
use drift::sources::system::SystemConfig;
use drift::sources::weather::{
    build_url as weather_url, SettingsError, WeatherConfig, WeatherSettings,
};
use std::time::Duration;

#[test]
fn weather_test_build_url() {
    let config = WeatherConfig {
        api_key: "abc123".to_string(),
        location: "Austin,TX".to_string(),
        interval_secs: 300,
        metric: true,
    };
    let url = weather_url(&config);
    assert!(url.contains("api.openweathermap.org"));
    assert!(url.contains("abc123"));
    assert!(url.contains("Austin"));
    assert!(url.contains("metric"));
}

#[test]
fn test_build_url_imperial() {
    let config = WeatherConfig {
        api_key: "abc123".to_string(),
        location: "Austin,TX".to_string(),
        interval_secs: 300,
        metric: false,
    };
    let url = weather_url(&config);
    assert!(url.contains("imperial"));
}

#[test]
fn weather_url_is_exact_and_encodes_the_location() {
    let config = WeatherConfig {
        api_key: "abc123".to_string(),
        location: "Austin,TX".to_string(),
        interval_secs: 300,
        metric: true,
    };
    // Fails if the location were handed through unencoded.
    assert_eq!(
        weather_url(&config),
        "https://api.openweathermap.org/data/2.5/weather?q=Austin%2CTX&appid=abc123&units=metric"
    );
    let config = WeatherConfig {
        api_key: "k-1".to_string(),
        location: "S\u{e3}o Paulo ~_.-".to_string(),
        interval_secs: 1,
        metric: false,
    };
    assert_eq!(
        weather_url(&config),
        "https://api.openweathermap.org/data/2.5/weather?q=S%C3%A3o%20Paulo%20~_.-&appid=k-1&units=imperial"
    );
}

#[test]
fn price_test_build_url() {
    let symbols = vec!["bitcoin".to_string(), "ethereum".to_string()];
    let url = price_url(&symbols);

    assert!(url.contains("bitcoin,ethereum"));
    assert!(url.contains("include_24hr_vol=true"));
    assert!(url.contains("include_24hr_change=true"));
}

#[test]
fn price_url_is_exact() {
    let config = PriceConfig {
        symbols: vec!["bitcoin".to_string(), "ethereum".to_string(), "solana".to_string()],
        interval_secs: 60,
    };
    assert_eq!(
        price_url(&config.symbols),
        "https://api.coingecko.com/api/v3/simple/price?ids=bitcoin,ethereum,solana&vs_currencies=usd&include_24hr_vol=true&include_24hr_change=true"
    );
    assert_eq!(
        price_url(&["bitcoin".to_string()]),
        "https://api.coingecko.com/api/v3/simple/price?ids=bitcoin&vs_currencies=usd&include_24hr_vol=true&include_24hr_change=true"
    );
    assert_eq!(
        price_url(&[]),
        "https://api.coingecko.com/api/v3/simple/price?ids=&vs_currencies=usd&include_24hr_vol=true&include_24hr_change=true"
    );
}

#[test]
fn test_detect_changes_commit() {
    let old = GitState {
        head_commit: Some("abc123".to_string()),
        ..Default::default()
    };
    let new = GitState {
        head_commit: Some("def456".to_string()),
        ..Default::default()
    };

    let events = detect_changes(&old, &new);
    assert!(events.contains(&"commit".to_string()));
}

#[test]
fn test_detect_changes_branch() {
    let old = GitState {
        branch: Some("main".to_string()),
        ..Default::default()
    };
    let new = GitState {
        branch: Some("feature".to_string()),
        ..Default::default()
    };

    let events = detect_changes(&old, &new);
    assert!(events.contains(&"branch_change".to_string()));
}

#[test]
fn test_detect_changes_files() {
    let old = GitState {
        modified_count: 0,
        ..Default::default()
    };
    let new = GitState {
        modified_count: 3,
        ..Default::default()
    };

    let events = detect_changes(&old, &new);
    assert!(events.contains(&"file_change".to_string()));
}

#[test]
fn detect_changes_reports_all_in_order() {
    let old = GitState {
        head_commit: Some("abc123".to_string()),
        branch: Some("main".to_string()),
        modified_count: 1,
        staged_count: 0,
        commit_count: 4,
    };
    let new = GitState {
        head_commit: Some("def456".to_string()),
        branch: None,
        modified_count: 2,
        staged_count: 1,
        commit_count: 5,
    };
    assert_eq!(
        detect_changes(&old, &new),
        vec!["commit", "branch_change", "staged", "file_change"]
    );
}

#[test]
fn detect_changes_is_silent_without_change() {
    let state = GitState {
        head_commit: Some("abc123".to_string()),
        branch: Some("main".to_string()),
        modified_count: 2,
        staged_count: 3,
        commit_count: 7,
    };
    assert!(detect_changes(&state, &state.clone()).is_empty());
    // Fewer files and a lost head are no events; a lost branch is one.
    let emptied = GitState { head_commit: None, modified_count: 0, staged_count: 0, ..state.clone() };
    assert!(detect_changes(&state, &emptied).is_empty());
    let first = GitState::default();
    assert_eq!(detect_changes(&first, &state), vec!["commit", "branch_change", "staged", "file_change"]);
}

#[test]
fn git_activity_score() {
    let mut state = GitState::default();
    assert_eq!(state.activity(), 0);
    state.modified_count = 2;
    state.staged_count = 1;
    assert_eq!(state.activity(), 30);
    state.staged_count = 7;
    assert_eq!(state.activity(), 90);
    state.staged_count = 8;
    assert_eq!(state.activity(), 100);
    state.modified_count = usize::MAX;
    state.staged_count = usize::MAX;
    assert_eq!(state.activity(), 100);
}

#[test]
fn test_weather_config_from_settings() {
    let settings = WeatherSettings {
        api_key: Some("test123".to_string()),
        location: Some("London,UK".to_string()),
        interval_secs: Some(600),
        metric: Some(true),
    };

    let config = WeatherConfig::from_settings(settings).unwrap();
    assert_eq!(config.api_key, "test123");
    assert_eq!(config.location, "London,UK");
    assert_eq!(Duration::from_secs(config.interval_secs), Duration::from_secs(600));
    assert!(config.metric);
}

#[test]
fn test_weather_config_defaults() {
    let settings = WeatherSettings {
        api_key: Some("test".to_string()),
        location: None,
        interval_secs: None,
        metric: None,
    };

    let config = WeatherConfig::from_settings(settings).unwrap();
    assert_eq!(config.location, "Austin,TX,US");
    assert_eq!(Duration::from_secs(config.interval_secs), Duration::from_secs(300));
    assert!(config.metric);
}

#[test]
fn test_weather_config_missing_api_key() {
    let settings =
        WeatherSettings { api_key: None, location: None, interval_secs: None, metric: None };
    let result = WeatherConfig::from_settings(settings);
    assert!(result.is_err());
}

#[test]
fn weather_config_missing_api_key_is_named() {
    let settings = WeatherSettings {
        api_key: None,
        location: Some("London,UK".to_string()),
        interval_secs: Some(1),
        metric: Some(false),
    };
    let error = WeatherConfig::from_settings(settings).unwrap_err();
    assert_eq!(error, SettingsError::MissingApiKey);
    assert_eq!(error.message(), "weather source requires 'api_key' setting");
    let config = WeatherConfig::from_settings(WeatherSettings {
        api_key: Some("k".to_string()),
        location: None,
        interval_secs: None,
        metric: Some(false),
    })
    .unwrap();
    assert!(!config.metric);
}

#[test]
fn test_price_config_from_settings() {
    let settings = PriceSettings {
        symbols: Some(vec!["bitcoin".to_string(), "ethereum".to_string()]),
        interval_secs: Some(30),
    };

    let config = PriceConfig::from_settings(settings);
    assert_eq!(config.symbols, vec!["bitcoin", "ethereum"]);
    assert_eq!(Duration::from_secs(config.interval_secs), Duration::from_secs(30));
}

#[test]
fn test_price_config_defaults() {
    let settings = PriceSettings { symbols: None, interval_secs: None };
    let config = PriceConfig::from_settings(settings);

    assert_eq!(config.symbols, vec!["bitcoin"]);
    assert_eq!(Duration::from_secs(config.interval_secs), Duration::from_secs(60));
}

#[test]
fn test_git_config_from_settings() {
    let settings = GitSettings {
        path: Some("/tmp/repo".to_string()),
        interval_ms: Some(1000),
        watch: Some(true),
    };

    let config = GitConfig::from_settings(settings).unwrap();
    assert_eq!(std::path::PathBuf::from(&config.path), std::path::PathBuf::from("/tmp/repo"));
    assert_eq!(Duration::from_millis(config.interval_ms), Duration::from_millis(1000));
    assert!(config.watch_files);
}

#[test]
fn test_git_config_defaults() {
    let settings = GitSettings { path: Some("/tmp/repo".to_string()), interval_ms: None, watch: None };

    let config = GitConfig::from_settings(settings).unwrap();
    assert_eq!(Duration::from_millis(config.interval_ms), Duration::from_millis(5000));
    assert!(config.watch_files);
}

#[test]
fn test_git_config_missing_path() {
    let settings = GitSettings { path: None, interval_ms: None, watch: None };
    let result = GitConfig::from_settings(settings);
    assert!(result.is_err());
}

#[test]
fn git_config_missing_path_is_named() {
    let settings = GitSettings { path: None, interval_ms: Some(10), watch: Some(false) };
    let error = GitConfig::from_settings(settings).unwrap_err();
    assert_eq!(error, SettingsError::MissingPath);
    assert_eq!(error.message(), "git source requires 'path' setting");
    let config = GitConfig::from_settings(GitSettings {
        path: Some(".".to_string()),
        interval_ms: None,
        watch: Some(false),
    })
    .unwrap();
    assert!(!config.watch_files);
    assert_eq!(config.path, ".");
}

#[test]
fn test_system_config_from_settings() {
    let config = SystemConfig::from_settings(Some(500));
    assert_eq!(Duration::from_millis(config.interval_ms), Duration::from_millis(500));
}

#[test]
fn test_system_config_defaults() {
    let config = SystemConfig::from_settings(None);
    assert_eq!(Duration::from_millis(config.interval_ms), Duration::from_millis(1000));
    assert_eq!(SystemConfig::default(), config);
}

#[test]
fn git_file_counts() {
    let mut state = GitState { commit_count: 3, ..Default::default() };
    let files = vec![
        FileStatus { staged: true, modified: false },
        FileStatus { staged: false, modified: true },
        FileStatus { staged: true, modified: true },
        FileStatus { staged: false, modified: false },
        FileStatus { staged: false, modified: true },
    ];
    state.count_files(&files);
    assert_eq!(state.staged_count, 2);
    assert_eq!(state.modified_count, 3);
    assert_eq!(state.commit_count, 3);
    assert_eq!(state.activity(), 50);
    state.count_files(&Vec::new());
    assert_eq!((state.staged_count, state.modified_count), (0, 0));
}

#[test]
fn test_price_history_max_size() {
    let mut history = drift::sources::price::PriceHistory::new(3);

    history.push(1.0);
    history.push(2.0);
    history.push(3.0);
    history.push(4.0);

    assert_eq!(history.prices().len(), 3);
    assert_eq!(history.prices(), vec![2.0, 3.0, 4.0]);
}

#[test]
fn price_history_fills_before_it_drops() {
    let mut history = drift::sources::price::PriceHistory::new(2);
    assert!(history.prices().is_empty());
    assert_eq!(history.max_size(), 2);
    history.push(7u32);
    assert_eq!(history.prices(), &[7]);
    history.push(8);
    assert_eq!(history.prices(), &[7, 8]);
    history.push(9);
    assert_eq!(history.prices(), &[8, 9]);
    let mut single = drift::sources::price::PriceHistory::new(1);
    single.push('a');
    single.push('b');
    assert_eq!(single.prices(), &['b']);
}
