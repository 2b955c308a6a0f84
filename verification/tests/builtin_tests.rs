use coding_agent_harness::builtin::{
    outside_working_dir, process_result, split_words, stays_inside, CodeSearch, GitOp, ReadFile,
    SearchResults, ShellExec, WriteFile,
};

#[test]
fn read_window_defaults() {
    assert_eq!(ReadFile::window(None, None), (1, 2000));
    assert_eq!(ReadFile::window(Some(0), Some(3)), (1, 3));
    assert_eq!(ReadFile::window(Some(4), None), (4, 2000));
}

#[test]
fn read_renders_numbered_lines() {
    let r = ReadFile::render("a\nb\r\nc\n", 1, 2000);
    assert!(!r.is_error);
    assert_eq!(r.content, "1: a\n2: b\n3: c");
    assert_eq!(ReadFile::render("a\nb\nc", 2, 1).content, "2: b");
    assert_eq!(ReadFile::render("a\nb\nc", 9, 5).content, "");
    assert_eq!(ReadFile::render("", 1, 10).content, "");
    assert_eq!(ReadFile::render("x\n\ny", 1, 10).content, "1: x\n2: \n3: y");
}

#[test]
fn tool_error_texts() {
    let r = ReadFile::missing_path();
    assert!(r.is_error);
    assert_eq!(r.content, "Missing 'path' parameter");
    assert_eq!(ReadFile::read_error("a.rs", "nope").content, "Error reading a.rs: nope");
    assert_eq!(WriteFile::missing_content().content, "Missing 'content' parameter");
    assert_eq!(WriteFile::directory_error("e").content, "Failed to create directories: e");
    assert_eq!(WriteFile::write_error("p", "e").content, "Failed to write p: e");
    assert_eq!(ShellExec::missing_command().content, "Missing 'command' parameter");
    assert_eq!(ShellExec::spawn_error("e").content, "Failed to execute: e");
    assert_eq!(GitOp::missing_operation().content, "Missing 'operation'");
    assert_eq!(GitOp::spawn_error("e").content, "Git error: e");
    assert_eq!(CodeSearch::missing_pattern().content, "Missing 'pattern'");
}

#[test]
fn write_reports_bytes() {
    let r = WriteFile::written("out.txt", "héllo");
    assert!(!r.is_error);
    assert_eq!(r.content, "Successfully wrote 6 bytes to out.txt");
    assert_eq!(r.tool_call_id, "");
}

#[test]
fn process_output_is_combined() {
    assert_eq!(process_result("out", "err", true).content, "out\nerr");
    assert_eq!(process_result("", "err", false).content, "err");
    assert!(process_result("", "err", false).is_error);
    assert_eq!(process_result("out", "", true).content, "out");
    assert!(!process_result("out", "", true).is_error);
}

#[test]
fn git_arguments_split_on_whitespace() {
    assert_eq!(GitOp::command_args("log", "  --oneline\t-n 3 "), vec!["log", "--oneline", "-n", "3"]);
    assert_eq!(GitOp::command_args("status", ""), vec!["status"]);
    let words: Vec<String> = split_words("a\u{2003}b").iter().map(|w| w.iter().collect()).collect();
    assert_eq!(words, vec!["a", "b"]);
}

#[test]
fn glob_filter_skips_first_character() {
    assert!(CodeSearch::glob_matches("main.rs", "*.rs"));
    assert!(!CodeSearch::glob_matches("main.py", "*.rs"));
    assert!(!CodeSearch::glob_matches("anything", "*"));
    assert!(CodeSearch::glob_matches("main.rs", "main"));
    assert!(!CodeSearch::glob_matches("lib.rs", "main"));
    assert!(CodeSearch::glob_matches("lib.rs", ""));
    assert!(CodeSearch::glob_matches("Cargo.toml", "é"[..0].to_string().as_str()));
    assert!(!CodeSearch::glob_matches("x.rs", "é"));
    assert!(CodeSearch::glob_matches("café.txt", "é"));
    assert!(!CodeSearch::glob_matches("rs", "*.rs"));
}

#[test]
fn search_collects_numbered_matches() {
    let mut s = SearchResults::new();
    s.add_file("src/a.rs", "fn main() {}\nlet x = 1;\nfn other() {}", "fn ");
    assert!(!s.is_full());
    let r = s.finish("fn ", ".");
    assert_eq!(r.content, "src/a.rs:1: fn main() {}\nsrc/a.rs:3: fn other() {}");
    let empty = SearchResults::new();
    assert_eq!(empty.finish("zzz", "src").content, "No matches for 'zzz' in src");
}

#[test]
fn search_stops_after_fifty() {
    let mut s = SearchResults::new();
    let text = "hit\n".repeat(60);
    s.add_file("f", &text, "hit");
    assert!(s.is_full());
}

#[test]
fn shell_timeout_defaults_to_thirty_seconds() {
    assert_eq!(ShellExec::timeout_seconds(None), 30);
    assert_eq!(ShellExec::timeout_seconds(Some(5)), 5);
    assert_eq!(ShellExec::timeout_seconds(Some(0)), 0);
}

#[test]
fn shell_timeout_is_an_error() {
    let r = ShellExec::timed_out(30);
    assert!(r.is_error);
    assert_eq!(r.content, "Command timed out after 30 seconds");
    assert_eq!(ShellExec::timed_out(7).content, "Command timed out after 7 seconds");
}

#[test]
fn paths_inside_the_working_directory() {
    assert!(stays_inside("src/main.rs", "/home/u/proj"));
    assert!(stays_inside("notes.txt", "/home/u/proj"));
    assert!(stays_inside("./a/./b", "/home/u/proj"));
    assert!(stays_inside("a/../b", "/home/u/proj"));
    assert!(stays_inside("a/b/../../c", "/home/u/proj"));
    assert!(stays_inside("a\\b", "/home/u/proj"));
    assert!(stays_inside("...", "/home/u/proj"));
    assert!(stays_inside("a/..", "/home/u/proj"));
    assert!(stays_inside("", "/home/u/proj"));
    assert!(stays_inside("/home/u/proj/src/main.rs", "/home/u/proj"));
    assert!(stays_inside("/home/u/proj", "/home/u/proj"));
    assert!(stays_inside("/home/u/proj/a/../b", "/home/u/proj"));
    assert!(stays_inside("/home/u/proj/x", "/home/u/proj/"));
    assert!(stays_inside("C:\\work\\a.txt", "C:\\work"));
}

#[test]
fn paths_outside_the_working_directory() {
    assert!(!stays_inside("/etc/harness_test.txt", "/home/u/proj"));
    assert!(!stays_inside("../outside.txt", "/home/u/proj"));
    assert!(!stays_inside("..", "/home/u/proj"));
    assert!(!stays_inside("a/../../x", "/home/u/proj"));
    assert!(!stays_inside("a/../..", "/home/u/proj"));
    assert!(!stays_inside("\\windows\\system32", "/home/u/proj"));
    assert!(!stays_inside("C:\\temp\\x", "/home/u/proj"));
    assert!(!stays_inside("c:x", "/home/u/proj"));
    assert!(!stays_inside("a\\..\\..\\x", "/home/u/proj"));
    assert!(!stays_inside("../a/b/c/d", "/home/u/proj"));
    assert!(!stays_inside("/home/u/project2/x", "/home/u/proj"));
    assert!(!stays_inside("/home/u/proj/../other", "/home/u/proj"));
    assert!(!stays_inside("/home/u", "/home/u/proj"));
    assert!(!stays_inside("/home/u/proj/x", ""));
}

#[test]
fn outside_paths_are_refused() {
    let r = outside_working_dir("/etc/passwd");
    assert!(r.is_error);
    assert_eq!(r.content, "Path outside the working directory: /etc/passwd");
}

#[test]
fn shell_timeout_renders_any_u64() {
    assert_eq!(
        ShellExec::timed_out(u64::MAX).content,
        "Command timed out after 18446744073709551615 seconds"
    );
}

#[test]
fn read_window_ends_at_the_last_line() {
    assert_eq!(ReadFile::render("a\nb\nc", 2, usize::MAX).content, "2: b\n3: c");
    assert_eq!(ReadFile::render("a", 2, usize::MAX).content, "");
}
