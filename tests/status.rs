use odin_status::extensions::{BepInExInfo, ModInfo};
use odin_status::jobs::{Config, JobInfo, AUTO_BACKUP_JOB, AUTO_UPDATE_JOB};
use odin_status::keywords::keyword_value;
use odin_status::metrics::invoke;
use odin_status::status::{QueryFailure, QueryInfo, ServerInfo};

fn config(name: Option<&str>) -> Config {
    Config {
        name: name.map(|n| n.to_string()),
        auto_update_schedule: "0 1 * * *".to_string(),
        auto_backup_schedule: "*/15 * * * *".to_string(),
    }
}

fn response(keywords: Option<&str>) -> QueryInfo {
    QueryInfo {
        name: "My Server".to_string(),
        players: 3,
        max_players: 10,
        map: "Meadows".to_string(),
        keywords: keywords.map(|k| k.to_string()),
    }
}

fn mods(names: &[&str]) -> Vec<ModInfo> {
    names.iter().map(|n| ModInfo { name: n.to_string() }).collect()
}

#[test]
fn parses_both_versions() {
    let status = ServerInfo::new(
        Ok(response(Some("gameversion=\"0.217\",networkversion=\"29\""))),
        BepInExInfo::disabled(),
        &config(None),
    );
    assert!(status.online);
    assert_eq!(status.name, "My Server");
    assert_eq!(status.map, "Meadows");
    assert_eq!(status.game_version, "0.217");
    assert_eq!(status.network_version, "29");
    assert_eq!(status.players, 3);
    assert_eq!(status.max_players, 10);
    let metrics = invoke(&status);
    assert!(metrics.contains(
        "valheim_current_player_count{name=\"My Server\",game_version=\"0.217\",network_version=\"29\",map=\"Meadows\"} 3\n"
    ));
    assert!(metrics.contains(
        "valheim_max_player_count{name=\"My Server\",game_version=\"0.217\",network_version=\"29\",map=\"Meadows\"} 10\n"
    ));
}

#[test]
fn parsed_status_lists_known_jobs() {
    let status = ServerInfo::from_query(response(Some("")), BepInExInfo::disabled(), &config(None));
    assert_eq!(status.jobs.len(), 2);
    assert_eq!(status.jobs[0].name, AUTO_UPDATE_JOB);
    assert_eq!(status.jobs[0].schedule, "0 1 * * *");
    assert_eq!(status.jobs[1].name, AUTO_BACKUP_JOB);
    assert_eq!(status.jobs[1].schedule, "*/15 * * * *");
}

#[test]
fn failed_query_gives_offline_record() {
    let status = ServerInfo::new(
        Err(QueryFailure::Request),
        BepInExInfo::from_probe(true, mods(&["A"])),
        &config(Some("Fallback")),
    );
    assert!(!status.online);
    assert_eq!(status.name, "Fallback");
    assert_eq!(status.map, "Fallback");
    assert_eq!(status.game_version, "Unknown");
    assert_eq!(status.network_version, "Unknown");
    assert_eq!(status.players, 0);
    assert_eq!(status.max_players, 0);
    assert!(status.jobs.is_empty());
    assert!(!status.bepinex.enabled);
    assert!(status.bepinex.mods.is_empty());
    assert!(status.render_text().contains("Players: 0/0"));
}

#[test]
fn client_failure_gives_offline_record() {
    let status = ServerInfo::new(Err(QueryFailure::Client), BepInExInfo::disabled(), &config(None));
    assert!(!status.online);
    assert_eq!(status.name, "Unknown");
    assert_eq!(status.map, "Unknown");
}

#[test]
fn offline_without_configured_name() {
    let status = ServerInfo::offline(&config(None));
    assert_eq!(status.name, "Unknown");
    assert_eq!(status.map, "Unknown");
    assert_eq!(status.players, 0);
    assert!(status.jobs.is_empty());
}

#[test]
fn missing_network_version_is_unknown() {
    let status = ServerInfo::from_query(
        response(Some("gameversion=\"0.217\",other=\"x\"")),
        BepInExInfo::disabled(),
        &config(None),
    );
    assert_eq!(status.network_version, "Unknown");
    assert_eq!(status.game_version, "0.217");
    assert_eq!(status.name, "My Server");
    assert_eq!(status.players, 3);
}

#[test]
fn missing_keyword_string_gives_unknown_versions() {
    let status = ServerInfo::from_query(response(None), BepInExInfo::disabled(), &config(None));
    assert!(status.online);
    assert_eq!(status.game_version, "Unknown");
    assert_eq!(status.network_version, "Unknown");
    assert_eq!(status.max_players, 10);
}

#[test]
fn enabled_extensions_are_listed() {
    let status = ServerInfo::from_query(
        response(Some("gameversion=\"0.217\",networkversion=\"29\"")),
        BepInExInfo::from_probe(true, mods(&["A", "B"])),
        &config(None),
    );
    let text = status.render_text();
    assert!(text.ends_with("\nBepInEx Mods: A, B"));
    assert!(invoke(&status).contains("valheim_bepinex_installed{name=\"My Server\",game_version=\"0.217\",network_version=\"29\",map=\"Meadows\"} 1\n"));
}

#[test]
fn render_text_exact() {
    let status = ServerInfo::from_query(
        response(Some("gameversion=\"0.217\",networkversion=\"29\"")),
        BepInExInfo::from_probe(true, mods(&["A", "B", "C"])),
        &config(None),
    );
    assert_eq!(
        status.render_text(),
        "Name: My Server\nGame Version: 0.217\nNetwork Version: 29\nPlayers: 3/10\nMap: Meadows\nBepInEx Enabled: true\nBepInEx Mods: A, B, C"
    );
}

#[test]
fn enabled_without_extensions_has_empty_list() {
    let status = ServerInfo::from_query(response(None), BepInExInfo::from_probe(true, Vec::new()), &config(None));
    assert!(status.render_text().ends_with("BepInEx Enabled: true\nBepInEx Mods: "));
}

#[test]
fn disabled_extensions_have_no_mods_line() {
    let status = ServerInfo::from_query(
        response(Some("gameversion=\"0.217\"")),
        BepInExInfo::disabled(),
        &config(None),
    );
    let text = status.render_text();
    assert!(!text.contains("BepInEx Mods"));
    assert_eq!(text.lines().count(), 6);
    assert!(text.ends_with("BepInEx Enabled: false"));
}

#[test]
fn probe_disabled_drops_listed_extensions() {
    let info = BepInExInfo::from_probe(false, mods(&["A"]));
    assert!(!info.enabled);
    assert!(info.mods.is_empty());
}

#[test]
fn metrics_exact() {
    let status = ServerInfo::offline(&config(Some("Fallback")));
    assert_eq!(
        invoke(&status),
        "valheim_online{name=\"Fallback\",game_version=\"Unknown\",network_version=\"Unknown\",map=\"Fallback\"} 0\n\
valheim_current_player_count{name=\"Fallback\",game_version=\"Unknown\",network_version=\"Unknown\",map=\"Fallback\"} 0\n\
valheim_max_player_count{name=\"Fallback\",game_version=\"Unknown\",network_version=\"Unknown\",map=\"Fallback\"} 0\n\
valheim_bepinex_installed{name=\"Fallback\",game_version=\"Unknown\",network_version=\"Unknown\",map=\"Fallback\"} 0\n"
    );
}

#[test]
fn metrics_have_four_lines_with_empty_fields() {
    let status = ServerInfo::from_query(
        QueryInfo {
            name: String::new(),
            players: 255,
            max_players: 0,
            map: String::new(),
            keywords: Some("gameversion=,networkversion=\"\"".to_string()),
        },
        BepInExInfo::disabled(),
        &config(None),
    );
    assert_eq!(status.game_version, "");
    assert_eq!(status.network_version, "");
    let metrics = invoke(&status);
    assert_eq!(metrics.matches('\n').count(), 4);
    assert!(metrics.ends_with('\n'));
    assert!(metrics.contains("valheim_current_player_count{name=\"\",game_version=\"\",network_version=\"\",map=\"\"} 255\n"));
}

#[test]
fn rendering_twice_gives_same_output() {
    let status = ServerInfo::from_query(
        response(Some("gameversion=\"0.217\",networkversion=\"29\"")),
        BepInExInfo::from_probe(true, mods(&["A"])),
        &config(None),
    );
    assert_eq!(status.render_text(), status.render_text());
    assert_eq!(invoke(&status), invoke(&status));
}

#[test]
fn keyword_first_match_wins() {
    assert_eq!(
        keyword_value("gameversion=\"1\",gameversion=\"2\"", "gameversion"),
        Some("1".to_string())
    );
}

#[test]
fn keyword_matches_by_substring() {
    assert_eq!(keyword_value("xgameversionx=\"7\"", "gameversion"), Some("7".to_string()));
}

#[test]
fn keyword_value_after_last_equals() {
    assert_eq!(keyword_value("gameversion=a=\"b\"", "gameversion"), Some("b".to_string()));
}

#[test]
fn keyword_without_equals_is_whole_entry() {
    assert_eq!(keyword_value("a,\"gameversion\",b", "gameversion"), Some("gameversion".to_string()));
}

#[test]
fn keyword_quotes_trimmed_only_at_ends() {
    assert_eq!(keyword_value("k=\"\"a\"b\"\"", "k"), Some("a\"b".to_string()));
    assert_eq!(keyword_value("k=\"\"\"", "k"), Some(String::new()));
}

#[test]
fn keyword_absent() {
    assert_eq!(keyword_value("gameversion=\"1\"", "networkversion"), None);
    assert_eq!(keyword_value("", "networkversion"), None);
    assert_eq!(keyword_value(",,", "gameversion"), None);
}

#[test]
fn keyword_in_last_entry() {
    assert_eq!(keyword_value("a=1,,networkversion=\"29\"", "networkversion"), Some("29".to_string()));
}

#[test]
fn job_from_identifier() {
    let cfg = config(None);
    let job = JobInfo::from_identifier(AUTO_BACKUP_JOB, &cfg).ok().unwrap();
    assert_eq!(job.name, "AUTO_BACKUP");
    assert_eq!(job.schedule, "*/15 * * * *");
    let job = JobInfo::from_identifier("AUTO_UPDATE", &cfg).ok().unwrap();
    assert_eq!(job.schedule, "0 1 * * *");
}

#[test]
fn job_unknown_identifier_fails() {
    let err = JobInfo::from_identifier("AUTO_RESTART", &config(None)).err().unwrap();
    assert_eq!(err.identifier, "AUTO_RESTART");
    assert!(JobInfo::from_identifier("", &config(None)).is_err());
    assert!(JobInfo::from_identifier("AUTO_UPDATEX", &config(None)).is_err());
}

#[test]
fn player_counts_in_decimal() {
    let mut info = response(None);
    info.players = 7;
    info.max_players = 100;
    let status = ServerInfo::from_query(info, BepInExInfo::disabled(), &config(None));
    assert!(status.render_text().contains("\nPlayers: 7/100\n"));
    assert!(invoke(&status).contains("} 100\n"));
}
