use rtfm::api::{
    already_learned, classify_learn_failure, command_not_found, decimal, default_section,
    default_source, empty_metadata, import_outcome, learn_all_summary, learned, no_help,
    nothing_to_learn, release_info, reset_done, resolve_source, select_targets, update_info,
    CommandQuery, FileUpload, ItemOutcome, LearnAllQuery, LearnFailure, LearnQuery, ListQuery,
    SearchQuery,
};
use rtfm::capture::LearnStep;
use rtfm::config::AppConfig;
use rtfm::listing::list_path_commands;
use rtfm::maintenance::{
    backup_name, backup_readme, confirms, fresh_metadata, is_restored, render_command,
    update_is_due,
};
use rtfm::query::{
    command_detail, detail_langs, lookup_langs, lookup_names, no_results_hint,
    normalize_command_name, truncate, truncate_checked,
};
use rtfm::storage::{key_matches_lang, keys_of_lang, record_key, Command, Example};

#[test]
fn test_default_config() {
    let config = AppConfig::default();
    assert_eq!(config.server.port, 3030);
    assert_eq!(config.server.bind, "127.0.0.1");
    assert_eq!(config.search.default_limit, 20);
    assert_eq!(config.search.max_limit, 100);
}

#[test]
fn default_config_has_every_value() {
    let config = AppConfig::default();
    assert_eq!(config.server.max_upload_size, 100 * 1024 * 1024);
    assert_eq!(config.search.index_buffer_size, 50_000_000);
    assert_eq!(config.search.default_lang, "en");
    assert_eq!(config.tui.poll_timeout_ms, 100);
    assert_eq!(config.tui.log_buffer_size, 100);
    assert_eq!(config.tui.scroll_step, 1);
    assert_eq!(config.storage.data_dir, None);
    assert_eq!(config.storage.db_filename, "data.redb");
    assert_eq!(config.storage.index_dirname, "index");
    assert_eq!(config.storage.log_dirname, "logs");
    assert_eq!(config.logging.level, "info");
    assert_eq!(config.logging.debug_level, "debug,tantivy=info");
    assert_eq!(config.update.fallback_version, "v2.3");
    assert_eq!(config.update.languages, vec!["en".to_string(), "zh".to_string()]);
    assert!(config.update.download_url_template.contains("{version}"));
}

#[test]
fn config_sources_in_order() {
    let mut current = AppConfig::default();
    current.server.port = 1;
    let mut data = AppConfig::default();
    data.server.port = 2;
    assert_eq!(AppConfig::load_default(Some(Some(current.clone())), Some(Some(data.clone()))).server.port, 1);
    assert_eq!(AppConfig::load_default(Some(None), Some(Some(data.clone()))).server.port, 3030);
    assert_eq!(AppConfig::load_default(None, Some(Some(data))).server.port, 2);
    assert_eq!(AppConfig::load_default(None, Some(None)).server.port, 3030);
    assert_eq!(AppConfig::load_default(None, None).server.port, 3030);
    assert_eq!(AppConfig::load(Some(current)).server.port, 1);
    assert_eq!(AppConfig::load(None).server.port, 3030);
}

#[test]
fn data_directory_in_order() {
    let mut config = AppConfig::default();
    assert_eq!(config.get_data_dir(None, "/d/rtfm".to_string()), "/d/rtfm");
    assert_eq!(config.get_data_dir(Some("/env".to_string()), "/d/rtfm".to_string()), "/env");
    config.storage.data_dir = Some("/own".to_string());
    assert_eq!(config.get_data_dir(Some("/env".to_string()), "/d/rtfm".to_string()), "/own");
}

#[test]
fn test_command_name_normalization() {
    let input = "docker cp";
    let normalized = normalize_command_name(input);
    assert_eq!(normalized, "docker-cp");
}

#[test]
fn test_truncate_string() {
    assert_eq!(truncate("hello", 10), "hello");
    assert_eq!(truncate("hello world", 8), "hello...");
    assert_eq!(truncate("中文测试字符串", 5), "中文...");
}

#[test]
fn truncate_at_the_edges() {
    assert_eq!(truncate("abc", 3), "abc");
    assert_eq!(truncate("abcd", 3), "...");
    assert_eq!(truncate("", 0), "");
    assert_eq!(truncate_checked("abcd", 2), "abcd");
    assert_eq!(truncate_checked("abcd", 3), "...");
    assert_eq!(truncate_checked("ab", 2), "ab");
}

#[test]
fn lookups_in_order() {
    assert_eq!(lookup_names("  docker cp "), vec!["docker cp".to_string(), "docker-cp".to_string()]);
    assert_eq!(lookup_names("tar"), vec!["tar".to_string()]);
    assert_eq!(
        no_results_hint("zzz"),
        "No results for 'zzz'.\nTry 'rtfm update' to download the latest cheatsheets."
    );
    assert_eq!(lookup_langs("fr"), vec!["fr".to_string(), "en".to_string(), "zh".to_string()]);
    assert_eq!(detail_langs("fr"), vec!["fr".to_string(), "zh".to_string(), "en".to_string()]);
}

#[test]
fn detail_text_of_a_command() {
    let cmd = Command {
        name: "tar".to_string(),
        description: "Archive.".to_string(),
        category: "common".to_string(),
        platform: "common".to_string(),
        lang: "en".to_string(),
        examples: vec![
            Example { description: "Pack".to_string(), code: "tar c".to_string() },
            Example { description: "Unpack".to_string(), code: "tar x".to_string() },
        ],
        content: String::new(),
    };
    assert_eq!(
        command_detail(&cmd),
        "# tar\n\nArchive.\n\n## Pack\n```\ntar c\n```\n\n## Unpack\n```\ntar x\n```\n\n"
    );
}

#[test]
fn keys_carry_the_language() {
    assert_eq!(record_key("en", "docker"), "en:docker");
    assert_eq!(record_key("zh", ""), "zh:");
    assert!(key_matches_lang("en:docker", "en"));
    assert!(!key_matches_lang("en:docker", "e"));
    assert!(!key_matches_lang("enx:docker", "en"));
    assert!(!key_matches_lang("zh:en:docker", "en"));
    assert!(!key_matches_lang("en", "en"));
}

#[test]
fn listing_takes_only_its_language() {
    let keys = vec![
        record_key("en", "tar"),
        record_key("zh", "tar"),
        record_key("en", "zh:odd"),
        record_key("local", "en"),
        record_key("en", ""),
    ];
    assert_eq!(keys_of_lang(&keys, "en"), vec![0, 2, 4]);
    assert_eq!(keys_of_lang(&keys, "zh"), vec![1]);
    assert_eq!(keys_of_lang(&keys, "local"), vec![3]);
    assert_eq!(keys_of_lang(&keys, "fr"), Vec::<usize>::new());
}

#[test]
fn numbers_in_decimal() {
    let text = |n: usize| decimal(n).into_iter().collect::<String>();
    assert_eq!(text(0), "0");
    assert_eq!(text(9), "9");
    assert_eq!(text(10), "10");
    assert_eq!(text(1203), "1203");
    assert_eq!(text(usize::MAX), usize::MAX.to_string());
}

#[test]
fn request_defaults() {
    assert_eq!(default_section(), "1");
    assert_eq!(default_source(), "auto");
    assert_eq!(ListQuery { lang: None }.language(), "zh");
    assert_eq!(CommandQuery { lang: Some("en".to_string()) }.language(), "en");
    let query = SearchQuery { q: "x".to_string(), lang: None, limit: None };
    assert_eq!(query.effective_limit(20, 100), 20);
    assert_eq!(query.effective_limit(200, 100), 100);
    let query = SearchQuery { q: "x".to_string(), lang: None, limit: Some(500) };
    assert_eq!(query.effective_limit(20, 100), 100);
    let query = SearchQuery { q: "x".to_string(), lang: None, limit: Some(5) };
    assert_eq!(query.effective_limit(20, 100), 5);
    let meta = empty_metadata();
    assert_eq!(meta.version, "0.0.0");
    assert_eq!(meta.command_count, 0);
    assert_eq!(meta.last_update, "never");
    assert!(meta.languages.is_empty());
}

#[test]
fn answers_in_words() {
    assert_eq!(command_not_found("x").error, "Command 'x' not found");
    let ok = import_outcome(12, 3).unwrap();
    assert_eq!(ok.imported, 12);
    assert_eq!(ok.skipped, 3);
    assert_eq!(ok.message, "Successfully imported 12 commands");
    assert!(import_outcome(0, 3).unwrap_err().error.starts_with("No valid Markdown files found."));
    let reset = reset_done();
    assert!(reset.success);
    assert_eq!(reset.deleted, vec!["commands", "metadata", "search_index"]);
    let known = already_learned("ls");
    assert!(!known.success);
    assert_eq!(known.source, "");
    assert_eq!(known.message, "Command 'ls' already learned. Use force=true to re-learn.");
    let fresh = learned("ls", "man".to_string());
    assert!(fresh.success);
    assert_eq!(fresh.source, "man");
    assert_eq!(fresh.message, "Learned 'ls' successfully");
    assert_eq!(no_help("ls", "why").error, "Failed to get help for 'ls': why");
    let none = nothing_to_learn("path");
    assert!(none.success);
    assert_eq!(none.total, 0);
    assert_eq!(none.message, "No commands found for source 'path'");
}

#[test]
fn releases_and_updates() {
    let release = release_info(Some("v2.1"), "v2.3", "https://x/{version}.zip?v={version}");
    assert_eq!(release.tag_name, "2.1");
    assert_eq!(release.download_url, Some("https://x/v2.1.zip?v=v2.1".to_string()));
    let fallback = release_info(None, "vv2.3", "https://x/{version}.zip");
    assert_eq!(fallback.tag_name, "2.3");
    assert_eq!(fallback.download_url, Some("https://x/vv2.3.zip".to_string()));
    let assets = vec![
        ("tldr.zip".to_string(), "https://a/tldr.zip".to_string()),
        ("tldr-pages.zh.zip".to_string(), "https://a/zh.zip".to_string()),
        ("tldr-pages.en.zip".to_string(), "https://a/en.zip".to_string()),
    ];
    let info = update_info("2.0".to_string(), "v2.1", &assets, "https://x/{version}.zip");
    assert!(info.available);
    assert_eq!(info.current_version, "2.0");
    assert_eq!(info.latest_version, "2.1");
    assert_eq!(info.download_url, Some("https://a/zh.zip".to_string()));
    let info = update_info("2.1".to_string(), "v2.1", &Vec::new(), "https://x/{version}.zip");
    assert!(!info.available);
    assert_eq!(info.download_url, Some("https://x/v2.1.zip".to_string()));
}

#[test]
fn sources_are_resolved() {
    assert_eq!(resolve_source("auto", "linux").unwrap(), "man");
    assert_eq!(resolve_source("auto", "windows").unwrap(), "powershell");
    assert_eq!(resolve_source("path", "windows").unwrap(), "path");
    assert_eq!(
        resolve_source("web", "linux").unwrap_err().error,
        "Unknown source 'web'. Use 'man', 'powershell', 'path', or 'auto'."
    );
}

#[test]
fn targets_are_selected() {
    let pages = |names: &[&str]| {
        names.iter().map(|n| (n.to_string(), "d".to_string())).collect::<Vec<_>>()
    };
    let names = |v: Vec<(String, String)>| v.into_iter().map(|p| p.0).collect::<Vec<_>>();
    let all = pages(&["Git", "git-log", "ls", "GIT-add", "Äpfel"]);
    assert_eq!(names(select_targets(all.clone(), Some("git"), 0)), vec!["Git", "git-log", "GIT-add"]);
    assert_eq!(names(select_targets(all.clone(), Some("GIT-"), 0)), vec!["git-log", "GIT-add"]);
    assert_eq!(names(select_targets(all.clone(), Some("äp"), 0)), vec!["Äpfel"]);
    assert_eq!(names(select_targets(all.clone(), None, 2)), vec!["Git", "git-log"]);
    assert_eq!(names(select_targets(all.clone(), None, 0)).len(), 5);
    assert_eq!(names(select_targets(all.clone(), None, 9)).len(), 5);
    assert_eq!(names(select_targets(all, Some("git"), 1)), vec!["Git"]);
}

#[test]
fn batch_is_counted() {
    let outcomes = vec![
        ItemOutcome::Learned,
        ItemOutcome::Skipped,
        ItemOutcome::Failed,
        ItemOutcome::Learned,
        ItemOutcome::NotKept,
    ];
    let summary = learn_all_summary(&outcomes, "man");
    assert!(summary.success);
    assert_eq!(summary.total, 5);
    assert_eq!(summary.learned, 2);
    assert_eq!(summary.skipped, 1);
    assert_eq!(summary.failed, 1);
    assert_eq!(summary.message, "Learned 2 commands from source 'man'");
    let none = learn_all_summary(&Vec::new(), "path");
    assert_eq!(none.total, 0);
    assert_eq!(none.message, "Learned 0 commands from source 'path'");
}

#[test]
fn learn_failures_are_told_apart() {
    assert_eq!(
        classify_learn_failure("Command 'x' not found (program not found)", "'man' command not available (program not found)"),
        LearnFailure::NothingFound
    );
    assert_eq!(
        classify_learn_failure("sh: x: command not found", "No man page for 'x'"),
        LearnFailure::CommandMissing
    );
    assert_eq!(
        classify_learn_failure("No usable output from x -h", "program not found"),
        LearnFailure::ManMissing
    );
    assert_eq!(
        classify_learn_failure("No usable output from x -h", "No man page for 'x'"),
        LearnFailure::NoUsableHelp
    );
}

#[test]
fn path_commands_are_sorted_and_single() {
    let found: Vec<String> =
        ["ls", "cat", "Zed", "ls", "ca", "cat", "日本", "a-b", "a"].iter().map(|s| s.to_string()).collect();
    let list = list_path_commands(&found);
    let names: Vec<&str> = list.iter().map(|p| p.0.as_str()).collect();
    assert_eq!(names, vec!["Zed", "a", "a-b", "ca", "cat", "ls", "日本"]);
    assert!(list.iter().all(|p| p.1 == "PATH executable"));
    let mut sorted = found.clone();
    sorted.sort();
    sorted.dedup();
    assert_eq!(names, sorted.iter().map(|s| s.as_str()).collect::<Vec<_>>());
    assert!(list_path_commands(&Vec::new()).is_empty());
}

#[test]
fn maintenance_decisions() {
    assert!(confirms("y\n"));
    assert!(confirms("  YES "));
    assert!(confirms("Yes"));
    assert!(!confirms("n"));
    assert!(!confirms(""));
    assert!(!confirms("yes please"));
    assert!(is_restored("data.redb"));
    assert!(is_restored("index/meta.json"));
    assert!(!is_restored("README.md"));
    assert!(!is_restored("metadata.json"));
    assert_eq!(backup_name("data.redb"), "data.redb.backup");
    let meta = fresh_metadata("2.1".to_string(), 7, "now".to_string());
    assert_eq!(meta.version, "2.1");
    assert_eq!(meta.command_count, 7);
    assert_eq!(meta.last_update, "now");
    assert_eq!(meta.languages, vec!["zh", "en"]);
    assert!(update_is_due(true, &Some(meta.clone()), "2.1"));
    assert!(!update_is_due(false, &Some(meta.clone()), "2.1"));
    assert!(update_is_due(false, &Some(meta), "2.2"));
    assert!(update_is_due(false, &None, "2.2"));
    assert!(!update_is_due(false, &None, ""));
    let cmd = Command {
        name: "tar".to_string(),
        description: "Archive.".to_string(),
        category: "common".to_string(),
        platform: "common".to_string(),
        lang: "en".to_string(),
        examples: vec![Example { description: "Pack".to_string(), code: "tar c".to_string() }],
        content: String::new(),
    };
    assert_eq!(
        render_command(&cmd),
        "\x1b[1;32mtar\x1b[0m\n\nArchive.\n\n\x1b[33m- Pack\x1b[0m\n  \x1b[36mtar c\x1b[0m\n\n"
    );
}

#[test]
fn test_data_dir_default() {
    let default_dir =
        dirs::data_local_dir().unwrap_or_else(|| std::path::PathBuf::from(".")).join("rtfm");
    let data_dir =
        AppConfig::default().get_data_dir(None, default_dir.to_string_lossy().into_owned());
    assert!(data_dir.contains("rtfm"));
}

#[test]
fn requests_decide_for_themselves() {
    let ask = LearnQuery { command: "ls".to_string(), force: false, man: true };
    assert!(ask.answer_if_known(false).is_none());
    let known = ask.answer_if_known(true).unwrap();
    assert!(!known.success);
    assert_eq!(known.message, "Command 'ls' already learned. Use force=true to re-learn.");
    let forced = LearnQuery { command: "ls".to_string(), force: true, man: false };
    assert!(forced.answer_if_known(true).is_none());
    match ask.step("linux", &Vec::new()) {
        LearnStep::Run(probe) => assert_eq!(probe.program, "man"),
        other => panic!("unexpected {:?}", other),
    }
    match forced.step("linux", &Vec::new()) {
        LearnStep::Run(probe) => assert_eq!(probe.program, "ls"),
        other => panic!("unexpected {:?}", other),
    }
    let all = LearnAllQuery::default();
    assert_eq!(all.section, "1");
    assert_eq!(all.limit, 0);
    assert!(!all.skip_existing);
    assert_eq!(all.prefix, None);
    assert_eq!(all.source, "auto");
    assert_eq!(all.actual_source("linux").unwrap(), "man");
    assert!(!all.skips(true));
    let some = LearnAllQuery {
        limit: 1,
        skip_existing: true,
        prefix: Some("G".to_string()),
        source: "path".to_string(),
        ..LearnAllQuery::default()
    };
    assert!(some.skips(true));
    assert!(!some.skips(false));
    assert_eq!(some.actual_source("windows").unwrap(), "path");
    let pages = vec![
        ("ls".to_string(), String::new()),
        ("git".to_string(), String::new()),
        ("gzip".to_string(), String::new()),
    ];
    assert_eq!(some.targets(pages.clone()), vec![("git".to_string(), String::new())]);
    assert_eq!(all.targets(pages).len(), 3);
    let upload = FileUpload { file: b"> A note.\n".to_vec() };
    let (commands, skipped) = upload.parse("note.md").unwrap();
    assert_eq!(skipped, 0);
    assert_eq!(commands[0].name, "note");
    assert_eq!(commands[0].description, "A note.");
}

#[test]
fn backup_note_names_date_and_version() {
    let note = backup_readme("2024-01-01 00:00:00 UTC", "0.1.0");
    assert!(note.starts_with("# RTFM Backup\n\n"));
    assert!(note.contains("\n- Backup date: 2024-01-01 00:00:00 UTC\n- RTFM version: 0.1.0\n\n"));
    assert!(note.contains("rtfm restore rtfm-backup.tar.gz"));
    assert!(note.ends_with("(Windows/Linux/macOS).\n"));
}
