use codex_usage_proxy::app::{
    App, AppConfig, DisplayConfig, ServerConfig, SessionsConfig, StorageConfig,
};
use codex_usage_proxy::proxy::{proxy_placeholder, NOT_IMPLEMENTED};
use codex_usage_proxy::time::Timestamp;
use codex_usage_proxy::tui::{dashboard_lines, overview_line};

fn config(poll_interval_secs: u64) -> AppConfig {
    AppConfig {
        server: ServerConfig {
            listen_addr: "127.0.0.1:8787".to_string(),
            upstream_base_url: "https://api.openai.com/v1".to_string(),
        },
        storage: StorageConfig { database_path: "usage.db".to_string() },
        display: DisplayConfig { recent_events_capacity: 500 },
        sessions: SessionsConfig { root_dir: "/sessions".to_string(), poll_interval_secs },
    }
}

#[test]
fn the_application_has_its_settings() {
    let app = App::new(config(5));
    assert_eq!(app.config.server.listen_addr, "127.0.0.1:8787");
    assert_eq!(app.config.storage.database_path, "usage.db");
    assert_eq!(app.config.display.recent_events_capacity, 500);
    assert_eq!(app.config.sessions.root_dir, "/sessions");
}

#[test]
fn logs_are_scanned_at_most_once_a_second() {
    assert_eq!(config(0).sessions.poll_secs(), 1);
    assert_eq!(config(1).sessions.poll_secs(), 1);
    assert_eq!(config(30).sessions.poll_secs(), 30);
}

#[test]
fn requests_are_answered_with_a_placeholder() {
    let now = Timestamp::from_parts(1_000, 5).unwrap();
    let (event, reply) = proxy_placeholder("https://api.openai.com/v1", now);
    assert_eq!(NOT_IMPLEMENTED, 501);
    assert_eq!(reply.status, 501);
    assert_eq!(
        reply.body,
        "codex-usage-proxy scaffold running. Upstream target: https://api.openai.com/v1"
    );
    assert_eq!(event.timestamp, now);
    assert_eq!(event.model, "proxy-placeholder");
    assert_eq!((event.prompt_tokens, event.completion_tokens, event.total_tokens), (0, 0, 0));
    assert_eq!(f64::from_bits(event.cost_usd_bits), 0.0);
}

#[test]
fn the_overview_names_both_addresses() {
    let server = config(5).server;
    assert_eq!(
        overview_line(&server),
        "[tui] Listening on 127.0.0.1:8787 and proxying to https://api.openai.com/v1 \
         (TUI coming soon)"
    );
    assert_eq!(
        dashboard_lines(&server),
        vec![
            "codex-usage-proxy",
            "Listen: 127.0.0.1:8787   Upstream: https://api.openai.com/v1",
            "Usage dashboard coming soon...",
        ]
    );
}
