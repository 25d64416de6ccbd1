use ai_trpg_engine::logline::format_log_line;
use ai_trpg_engine::logline::log_file_name;
use ai_trpg_engine::logline::make_log_line;
use ai_trpg_engine::logline::today_log_file_name;
use ai_trpg_engine::names::extension_of;
use ai_trpg_engine::names::has_json_extension;
use ai_trpg_engine::names::is_recognized_text_name;
use ai_trpg_engine::paths::get_config_path;
use ai_trpg_engine::paths::get_logs_directory;
use ai_trpg_engine::paths::get_lorebooks_directory;
use ai_trpg_engine::paths::get_save_directory;
use ai_trpg_engine::paths::get_worldlines_directory;
use ai_trpg_engine::paths::join_path;
use ai_trpg_engine::paths::resolve_documents_dir;

#[test]
fn category_directories_hang_under_the_application_root() {
    let docs = Some("/home/u/Documents");
    assert_eq!(get_save_directory(docs), Ok("/home/u/Documents/AI-TRPG/saves".to_string()));
    assert_eq!(
        get_worldlines_directory(docs),
        Ok("/home/u/Documents/AI-TRPG/worldlines".to_string())
    );
    assert_eq!(
        get_lorebooks_directory(docs),
        Ok("/home/u/Documents/AI-TRPG/lorebooks".to_string())
    );
    assert_eq!(get_logs_directory(docs), Ok("/home/u/Documents/AI-TRPG/logs".to_string()));
    assert_eq!(get_config_path(docs), Ok("/home/u/Documents/AI-TRPG/config.json".to_string()));
}

#[test]
fn missing_documents_directory_is_the_environment_error() {
    assert_eq!(get_save_directory(None), Err("无法获取文档目录".to_string()));
    assert_eq!(get_config_path(None), Err("无法获取文档目录".to_string()));
}

#[test]
fn join_path_uses_one_separator() {
    assert_eq!(join_path("/a/b", "c"), "/a/b/c");
}

#[test]
fn resolving_the_environment_reports_the_fixed_error_on_failure() {
    match resolve_documents_dir() {
        Ok(_) => {},
        Err(e) => assert_eq!(e, "无法获取文档目录"),
    }
}

#[test]
fn extensions_follow_the_platform_rules() {
    assert_eq!(extension_of("a.json"), Some("json".to_string()));
    assert_eq!(extension_of("archive.tar.gz"), Some("gz".to_string()));
    assert_eq!(extension_of("noext"), None);
    assert_eq!(extension_of(".bashrc"), None);
    assert_eq!(extension_of(".hidden.txt"), Some("txt".to_string()));
    assert_eq!(extension_of("trailing."), Some("".to_string()));
    assert_eq!(extension_of("中文.md"), Some("md".to_string()));
}

#[test]
fn json_extension_is_matched_exactly() {
    assert!(has_json_extension("a.json"));
    assert!(!has_json_extension("a.JSON"));
    assert!(!has_json_extension("a.jsonx"));
    assert!(!has_json_extension(".json"));
    assert!(!has_json_extension("json"));
}

#[test]
fn recognized_text_extensions_are_md_markdown_txt() {
    assert!(is_recognized_text_name("a.md"));
    assert!(is_recognized_text_name("a.markdown"));
    assert!(is_recognized_text_name("a.txt"));
    assert!(!is_recognized_text_name("a.Md"));
    assert!(!is_recognized_text_name("a.text"));
    assert!(!is_recognized_text_name("md"));
}

#[test]
fn log_lines_carry_the_fixed_format() {
    assert_eq!(
        format_log_line("2024-01-02 03:04:05.678", "INFO", "启动"),
        "[2024-01-02 03:04:05.678] [INFO] 启动\n"
    );
}

#[test]
fn log_file_names_carry_the_date() {
    assert_eq!(log_file_name("2024-01-02"), "ai-trpg-2024-01-02.log");
}

#[test]
fn todays_log_file_name_follows_the_daily_pattern() {
    let name = today_log_file_name();
    assert!(name.starts_with("ai-trpg-"));
    assert!(name.ends_with(".log"));
}

#[test]
fn a_stamped_log_line_wraps_level_and_message() {
    let line = make_log_line("DEBUG", "ready");
    assert!(line.starts_with("["));
    assert!(line.ends_with("] [DEBUG] ready\n"));
}
