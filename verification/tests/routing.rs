use undertone::routing::{
    remove_app_route, routes_after_profile_load, set_app_route, PatternType, RouteRule,
};

fn rule(pattern: &str, channel: &str, priority: i32) -> RouteRule {
    RouteRule::new(pattern.to_string(), PatternType::Prefix, channel.to_string(), priority)
}

fn patterns(routes: &[RouteRule]) -> Vec<String> {
    routes.iter().map(|r| r.pattern.clone()).collect()
}

#[test]
fn removing_a_route_keeps_the_others_in_order() {
    let mut routes = vec![
        rule("firefox", "browser", 50),
        rule("discord", "voice", 50),
        rule("spotify", "music", 50),
        rule("discord", "game", 10),
    ];
    remove_app_route(&mut routes, "discord");
    assert_eq!(patterns(&routes), vec!["firefox".to_string(), "spotify".to_string()]);
    assert_eq!(routes[1].channel, "music");
}

#[test]
fn removing_an_unknown_route_changes_nothing() {
    let mut routes = vec![rule("firefox", "browser", 50)];
    remove_app_route(&mut routes, "chrome");
    assert_eq!(patterns(&routes), vec!["firefox".to_string()]);
}

#[test]
fn setting_a_route_replaces_earlier_rules() {
    let mut routes = vec![
        rule("discord", "voice", 50),
        rule("firefox", "browser", 50),
    ];
    let created = set_app_route(&mut routes, "discord", "game");
    assert_eq!(created.pattern, "discord");
    assert_eq!(created.channel, "game");
    assert_eq!(created.pattern_type, PatternType::Exact);
    assert_eq!(created.priority, 100);
    assert_eq!(patterns(&routes), vec!["firefox".to_string(), "discord".to_string()]);
    let last = routes.last().unwrap();
    assert_eq!(last.channel, "game");
    assert_eq!(last.pattern_type, PatternType::Exact);
    assert_eq!(last.priority, 100);
    assert_eq!(routes.iter().filter(|r| r.pattern == "discord").count(), 1);
}

#[test]
fn profile_without_routes_keeps_current_routes() {
    let current = vec![rule("firefox", "browser", 50)];
    let kept = routes_after_profile_load(current, Vec::new());
    assert_eq!(patterns(&kept), vec!["firefox".to_string()]);

    let current = vec![rule("firefox", "browser", 50)];
    let replaced = routes_after_profile_load(current, vec![rule("obs", "system", 5)]);
    assert_eq!(patterns(&replaced), vec!["obs".to_string()]);
}

use undertone::migrations::{migration_for, migration_plan, Migration, MigrationError, CURRENT_VERSION};

#[test]
fn fresh_store_runs_every_migration_in_order() {
    let plan = migration_plan(0).unwrap();
    assert_eq!(
        plan,
        vec![
            Migration::InitialSchema,
            Migration::ProfileMixerState,
            Migration::DeviceSettingsColumns,
            Migration::MicChainTable,
        ]
    );
    let versions: Vec<i32> = plan.iter().map(|m| m.version()).collect();
    assert_eq!(versions, vec![1, 2, 3, CURRENT_VERSION]);
}

#[test]
fn partly_migrated_store_runs_the_rest() {
    assert_eq!(
        migration_plan(2).unwrap(),
        vec![Migration::DeviceSettingsColumns, Migration::MicChainTable]
    );
    assert!(migration_plan(CURRENT_VERSION).unwrap().is_empty());
    assert!(migration_plan(7).unwrap().is_empty());
}

#[test]
fn unknown_migration_version_is_refused() {
    assert_eq!(migration_plan(-3), Err(MigrationError::UnknownVersion(-2)));
    assert_eq!(migration_for(0), None);
    assert_eq!(migration_for(5), None);
    assert_eq!(migration_for(3), Some(Migration::DeviceSettingsColumns));
}

use undertone::routing::{any_rule_matches_app, find_channel_for_app};

#[test]
fn rules_match_by_pattern_type() {
    let exact = RouteRule::new("spotify".into(), PatternType::Exact, "music".into(), 100);
    let prefix = RouteRule::new("chrom".into(), PatternType::Prefix, "browser".into(), 50);
    let regex = RouteRule::new(r"regex-\d+".into(), PatternType::Regex, "game".into(), 100);
    assert!(exact.matches("spotify"));
    assert!(!exact.matches("spotify2"));
    assert!(prefix.matches("chromium"));
    assert!(!prefix.matches("chro"));
    assert!(!regex.matches("regex-1"));
    assert!(exact.matches_app("Music", &Some("spotify".into())));
}

#[test]
fn highest_priority_rule_decides_the_channel() {
    let routes = vec![
        RouteRule::new("disc".into(), PatternType::Prefix, "system".into(), 10),
        RouteRule::new("discord".into(), PatternType::Prefix, "voice".into(), 100),
        RouteRule::new("discord".into(), PatternType::Exact, "game".into(), 100),
    ];
    assert_eq!(find_channel_for_app("discord", &None, &routes), "voice");
    assert_eq!(find_channel_for_app("discus", &None, &routes), "system");
    assert_eq!(find_channel_for_app("mpv", &None, &routes), "system");
    assert_eq!(find_channel_for_app("x", &Some("discord".into()), &routes), "voice");
    assert!(any_rule_matches_app(&routes, "discus", &None));
    assert!(!any_rule_matches_app(&routes, "mpv", &None));
}
