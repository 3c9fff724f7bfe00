use input_mode_viewer::common::ProcessSet;
use input_mode_viewer::process::{
    all_process_names, entry_name, focused_process_names, get_running_process_names,
    included_in_running_process, process_name, set_to_vec, vec_to_set, ProcessEntry,
};

fn strings(items: &[&str]) -> Vec<String> {
    items.iter().map(|s| s.to_string()).collect()
}

fn set_of(items: &[&str]) -> ProcessSet {
    ProcessSet { processes: strings(items) }
}

#[test]
fn insert_then_contains() {
    let mut set = ProcessSet::default();
    assert!(!set.contains("notepad.exe"));
    set.insert("notepad.exe");
    assert!(set.contains("notepad.exe"));
    assert_eq!(set.processes, strings(&["notepad.exe"]));
}

#[test]
fn insert_twice_keeps_one_copy() {
    let mut set = set_of(&["code.exe"]);
    set.insert("code.exe");
    set.insert("code.exe");
    assert_eq!(set.processes, strings(&["code.exe"]));
}

#[test]
fn insert_keeps_order_of_others() {
    let mut set = set_of(&["a.exe", "b.exe"]);
    set.insert("c.exe");
    assert_eq!(set.processes, strings(&["a.exe", "b.exe", "c.exe"]));
}

#[test]
fn remove_takes_out_every_copy() {
    let mut set = set_of(&["a.exe", "b.exe", "a.exe", "c.exe"]);
    set.remove("a.exe");
    assert_eq!(set.processes, strings(&["b.exe", "c.exe"]));
    assert!(!set.contains("a.exe"));
}

#[test]
fn remove_undoes_insert() {
    let mut set = set_of(&["b.exe"]);
    set.insert("z.exe");
    set.remove("z.exe");
    assert_eq!(set.processes, strings(&["b.exe"]));
}

#[test]
fn remove_missing_name_changes_nothing() {
    let mut set = set_of(&["b.exe", "c.exe"]);
    set.remove("x.exe");
    assert_eq!(set.processes, strings(&["b.exe", "c.exe"]));
}

#[test]
fn contains_is_case_sensitive() {
    let set = set_of(&["Chrome.exe"]);
    assert!(!set.contains("chrome.exe"));
    assert!(set.contains("Chrome.exe"));
}

#[test]
fn process_name_lower_cases() {
    assert_eq!(process_name("Chrome.EXE"), "chrome.exe");
    assert_eq!(process_name("ÉDIT.exe"), "édit.exe");
    assert_eq!(process_name("already.exe"), "already.exe");
}

#[test]
fn vec_to_set_lowercases_and_dedups() {
    let set = vec_to_set(strings(&["Code.exe", "code.EXE", "Slack.exe"]));
    let mut sorted = set.clone();
    sorted.sort();
    assert_eq!(sorted, strings(&["code.exe", "slack.exe"]));
}

#[test]
fn vec_to_set_of_nothing_is_empty() {
    assert!(vec_to_set(Vec::new()).is_empty());
}

#[test]
fn set_to_vec_sorts() {
    let v = set_to_vec(strings(&["zeta.exe", "alpha.exe", "Beta.exe"]));
    assert_eq!(v, strings(&["Beta.exe", "alpha.exe", "zeta.exe"]));
}

#[test]
fn included_when_a_name_is_listed() {
    let list = strings(&["game.exe", "steam.exe"]);
    assert!(included_in_running_process(&list, &strings(&["explorer.exe", "steam.exe"])));
    assert!(!included_in_running_process(&list, &strings(&["explorer.exe"])));
    assert!(!included_in_running_process(&list, &Vec::new()));
    assert!(!included_in_running_process(&Vec::new(), &strings(&["game.exe"])));
}

#[test]
fn entry_name_trims_padding_and_lowercases() {
    assert_eq!(entry_name("Notepad.EXE\0\0\0"), Some("notepad.exe".to_string()));
    assert_eq!(entry_name("\0x.exe\0"), Some("x.exe".to_string()));
    assert_eq!(entry_name("\0\0\0"), None);
    assert_eq!(entry_name(""), None);
}

fn entry(parent_pid: u32, exe: &str) -> ProcessEntry {
    ProcessEntry { parent_pid, exe_file: exe.to_string() }
}

#[test]
fn focused_names_hold_the_parent_and_its_children() {
    let entries = vec![
        entry(10, "Child.exe\0\0"),
        entry(11, "other.exe"),
        entry(10, "child.exe"),
        entry(10, "\0\0"),
    ];
    let mut names = focused_process_names("parent.exe".to_string(), 10, &entries);
    names.sort();
    assert_eq!(names, strings(&["child.exe", "parent.exe"]));
}

#[test]
fn all_names_of_a_snapshot() {
    let entries = vec![entry(1, "B.exe"), entry(2, "a.exe"), entry(3, "b.EXE")];
    let mut names = all_process_names(&entries);
    names.sort();
    assert_eq!(names, strings(&["a.exe", "b.exe"]));
}

#[test]
fn running_names_are_sorted_and_distinct() {
    let entries = vec![entry(1, "zed.exe"), entry(2, "Alpha.exe"), entry(3, "zed.exe\0")];
    assert_eq!(get_running_process_names(&entries), strings(&["alpha.exe", "zed.exe"]));
}
