use bgm_scheduler::aria2::{
    download, jsonrpc, pause, remove, status, unpause, Call, Status, ARIA2_URL, REQUEST_ID,
};
use bgm_scheduler::db::{brings_show, Change, MAIN_DATABASE, SHOW_TABLE};
use bgm_scheduler::proc::{get_filename_from_path, is_proc_running, kill, kill_aria2c};
use bgm_scheduler::text::{decimal, same_text};

fn report(status: &str, completed: &str, total: &str) -> Status {
    Status {
        status: status.to_string(),
        completed_length: completed.to_string(),
        total_length: total.to_string(),
    }
}

#[test]
fn complete_when_the_daemon_says_so() {
    assert!(report("complete", "0", "104857600").is_complete());
    assert!(report("complete", "104857600", "104857600").is_complete());
}

#[test]
fn complete_when_all_bytes_are_there() {
    assert!(report("active", "104857600", "104857600").is_complete());
    assert!(report("paused", "0", "0").is_complete());
    assert!(report("", "", "").is_complete());
}

#[test]
fn not_complete_otherwise() {
    assert!(!report("active", "104857599", "104857600").is_complete());
    assert!(!report("Complete", "1", "2").is_complete());
    assert!(!report("complete ", "1", "2").is_complete());
    // The byte counts are compared as written.
    assert!(!report("active", "0104857600", "104857600").is_complete());
}

#[test]
fn download_request() {
    match download("magnet:?xt=urn:btih:abc", "/srv/shows", "") {
        Call::AddUri { uri, dir, out, referer } => {
            assert_eq!(uri, "magnet:?xt=urn:btih:abc");
            assert_eq!(dir, "/srv/shows");
            assert_eq!(out, "");
            assert_eq!(referer, "*");
        }
        other => panic!("unexpected request {:?}", other),
    }
}

fn on_handle(call: Call) -> (String, String) {
    match call {
        Call::OnHandle { method, gid } => (method, gid),
        other => panic!("unexpected request {:?}", other),
    }
}

#[test]
fn handle_requests() {
    let gid = "2089b05ecca3d829";
    assert_eq!(on_handle(pause(gid)), ("aria2.pause".to_string(), gid.to_string()));
    assert_eq!(on_handle(unpause(gid)), ("aria2.unpause".to_string(), gid.to_string()));
    assert_eq!(on_handle(remove(gid)), ("aria2.remove".to_string(), gid.to_string()));
    assert_eq!(on_handle(status(gid)), ("aria2.tellStatus".to_string(), gid.to_string()));
    assert_eq!(
        on_handle(jsonrpc("aria2.forceRemove", gid)),
        ("aria2.forceRemove".to_string(), gid.to_string())
    );
}

#[test]
fn daemon_constants() {
    assert_eq!(ARIA2_URL, "http://localhost:6800/jsonrpc");
    assert_eq!(REQUEST_ID, "w3n9");
}

#[test]
fn file_name_follows_the_last_slash() {
    assert_eq!(get_filename_from_path("C:/tools/aria2c.exe"), "aria2c.exe");
    assert_eq!(get_filename_from_path("/usr/bin/aria2c"), "aria2c");
    assert_eq!(get_filename_from_path("a/b"), "b");
}

#[test]
fn file_name_of_a_bare_name_is_the_name() {
    assert_eq!(get_filename_from_path("aria2c.exe"), "aria2c.exe");
    assert_eq!(get_filename_from_path(""), "");
    assert_eq!(get_filename_from_path("C:\\tools\\aria2c.exe"), "C:\\tools\\aria2c.exe");
}

#[test]
fn file_name_after_a_trailing_slash_is_empty() {
    assert_eq!(get_filename_from_path("C:/tools/"), "");
    assert_eq!(get_filename_from_path("/"), "");
}

#[test]
fn file_name_with_wide_characters() {
    assert_eq!(get_filename_from_path("下载/番组/动画.exe"), "动画.exe");
    assert_eq!(get_filename_from_path("é/ü"), "ü");
}

#[test]
fn kill_command() {
    let launch = kill("notepad.exe");
    assert_eq!(launch.program, "taskkill");
    assert_eq!(launch.args, vec!["/f", "/t", "/im", "notepad.exe"]);
}

#[test]
fn kill_daemon_command() {
    let launch = kill_aria2c();
    assert_eq!(launch.program, "taskkill");
    assert_eq!(launch.args, vec!["/f", "/t", "/im", "aria2c.exe"]);
}

#[test]
fn program_is_running_when_a_line_names_it() {
    let lines = vec![
        "Image Name                     PID Session Name".to_string(),
        "System Idle Process              0 Services".to_string(),
        "aria2c.exe                    4312 Console".to_string(),
    ];
    assert!(is_proc_running(&lines, "aria2c.exe"));
    assert!(is_proc_running(&lines, "System Idle"));
    assert!(is_proc_running(&lines, "4312"));
    assert!(is_proc_running(&lines, ""));
}

#[test]
fn program_is_not_running_when_no_line_names_it() {
    let lines = vec!["aria2c.exe   4312 Console".to_string(), "cmd.exe".to_string()];
    assert!(!is_proc_running(&lines, "Aria2c.exe"));
    assert!(!is_proc_running(&lines, "aria2c.exe 4312"));
    assert!(!is_proc_running(&lines, "Consolecmd"));
    assert!(!is_proc_running(&lines, "notepad.exe"));
    assert!(!is_proc_running(&vec![], "aria2c.exe"));
    assert!(!is_proc_running(&vec![], ""));
}

#[test]
fn only_a_show_insert_brings_a_show() {
    assert!(brings_show(Change::Insert, "main", "bgm"));
    assert!(!brings_show(Change::Update, "main", "bgm"));
    assert!(!brings_show(Change::Delete, "main", "bgm"));
    assert!(!brings_show(Change::Other, "main", "bgm"));
    assert!(!brings_show(Change::Insert, "main", "task"));
    assert!(!brings_show(Change::Insert, "temp", "bgm"));
    assert!(!brings_show(Change::Insert, "main", "BGM"));
    assert!(!brings_show(Change::Insert, "", ""));
    assert_eq!(MAIN_DATABASE, "main");
    assert_eq!(SHOW_TABLE, "bgm");
}

#[test]
fn texts_are_compared_as_written() {
    assert!(same_text("", ""));
    assert!(same_text("complete", "complete"));
    assert!(!same_text("complete", "Complete"));
    assert!(!same_text("complete", "complete "));
    assert!(!same_text("a", ""));
    assert!(same_text("番组", "番组"));
}

#[test]
fn numbers_in_decimal() {
    assert_eq!(decimal(0), "0");
    assert_eq!(decimal(7), "7");
    assert_eq!(decimal(10), "10");
    assert_eq!(decimal(99), "99");
    assert_eq!(decimal(100), "100");
    assert_eq!(decimal(1_000_001), "1000001");
    assert_eq!(decimal(u32::MAX), "4294967295");
}
