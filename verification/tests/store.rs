use project_launcher::launcher::launch_plan;
use project_launcher::platform::Platform;
use project_launcher::record::StoreError;
use project_launcher::store::{
    file_content, find_record, join_path, list_records, locate_record_file, rewrite,
    rewrite_file_content,
};

fn fresh_dir(name: &str) -> String {
    let dir = format!("/tmp/project_launcher_tests/{}", name);
    let _ = fs_err::remove_dir_all(&dir);
    fs_err::create_dir_all(&dir).unwrap();
    dir
}

fn record_text(id: &str, ide: &str, path: &str) -> String {
    format!(
        "{{\"id\":\"{}\",\"name\":\"name of {}\",\"lastOpened\":\"2024-01-01\",\
         \"description\":\"a project\",\"path\":\"{}\",\"ide\":\"{}\",\
         \"environment\":{{\"RUST_LOG\":\"info\"}}}}",
        id, id, path, ide
    )
}

#[test]
fn rewrite_then_find_returns_what_was_written() {
    let dir = fresh_dir("roundtrip");
    let text = record_text("p1", "vscode", "/home/me/p1");
    rewrite(&dir, "p1", &text, Platform::Other).unwrap();
    let rec = find_record(&dir, "p1").unwrap();
    assert_eq!(rec.id, "p1");
    assert_eq!(rec.name, "name of p1");
    assert_eq!(rec.last_opened, "2024-01-01");
    assert_eq!(rec.description, "a project");
    assert_eq!(rec.path, "/home/me/p1");
    assert_eq!(rec.ide, "vscode");
    assert_eq!(
        rec.environment,
        vec![("RUST_LOG".to_string(), "info".to_string())]
    );
    fs_err::remove_dir_all(&dir).unwrap();
}

#[test]
fn find_in_an_empty_directory_is_not_found() {
    let dir = fresh_dir("empty_find");
    let e = find_record(&dir, "ghost").unwrap_err();
    assert!(matches!(e, StoreError::NotFound(id) if id == "ghost"));
    fs_err::remove_dir_all(&dir).unwrap();
}

#[test]
fn find_among_only_malformed_entries_is_not_found() {
    let dir = fresh_dir("malformed_find");
    fs_err::write(format!("{}/a", dir), "not a record").unwrap();
    fs_err::write(format!("{}/b", dir), "{\"id\":42}").unwrap();
    let e = find_record(&dir, "ghost").unwrap_err();
    assert!(matches!(e, StoreError::NotFound(id) if id == "ghost"));
    fs_err::remove_dir_all(&dir).unwrap();
}

#[test]
fn find_on_a_missing_directory_is_an_io_error() {
    let e = find_record("/tmp/project_launcher_tests/never_created_dir", "x").unwrap_err();
    assert!(matches!(e, StoreError::Io));
}

#[test]
fn list_keeps_readable_entries_and_skips_unreadable_ones() {
    let dir = fresh_dir("mixed_list");
    let valid = record_text("p2", "idea", "/p2");
    fs_err::write(format!("{}/good", dir), &valid).unwrap();
    fs_err::write(format!("{}/odd", dir), "  hello  \n").unwrap();
    // a subdirectory cannot be read as a file: an unreadable entry
    fs_err::create_dir(format!("{}/subdir", dir)).unwrap();
    let listed = list_records(&dir).unwrap();
    assert_eq!(listed.len(), 2);
    assert!(listed.iter().any(|t| t == &valid));
    assert!(listed.iter().any(|t| t == "hello"));
    fs_err::remove_dir_all(&dir).unwrap();
}

#[test]
fn rewrite_on_a_new_id_creates_one_file_named_after_it() {
    let dir = fresh_dir("create");
    let text = record_text("fresh", "idea", "/p");
    rewrite(&dir, "fresh", &text, Platform::Other).unwrap();
    let names: Vec<String> = fs_err::read_dir(&dir)
        .unwrap()
        .map(|e| e.unwrap().file_name().to_string_lossy().into_owned())
        .collect();
    assert_eq!(names, vec!["fresh".to_string()]);
    assert_eq!(fs_err::read_to_string(format!("{}/fresh", dir)).unwrap(), text);
    fs_err::remove_dir_all(&dir).unwrap();
}

#[test]
fn rewrite_on_an_existing_id_updates_only_the_matched_file() {
    let dir = fresh_dir("update");
    fs_err::write(format!("{}/oddly-named", dir), record_text("p3", "idea", "/p3")).unwrap();
    let other = record_text("p4", "vscode", "/p4");
    fs_err::write(format!("{}/other", dir), &other).unwrap();
    let new_text = record_text("p3", "code", "/p3-moved");
    rewrite(&dir, "p3", &new_text, Platform::Other).unwrap();
    let count = fs_err::read_dir(&dir).unwrap().count();
    assert_eq!(count, 2);
    assert_eq!(
        fs_err::read_to_string(format!("{}/oddly-named", dir)).unwrap(),
        new_text
    );
    assert_eq!(fs_err::read_to_string(format!("{}/other", dir)).unwrap(), other);
    fs_err::remove_dir_all(&dir).unwrap();
}

#[test]
fn locate_returns_the_matched_entry_path() {
    let dir = fresh_dir("locate");
    fs_err::write(format!("{}/somefile", dir), record_text("p5", "idea", "/p5")).unwrap();
    let located = locate_record_file(&dir, "p5").unwrap();
    assert_eq!(located, Some(format!("{}/somefile", dir)));
    let missing = locate_record_file(&dir, "nope").unwrap();
    assert_eq!(missing, None);
    fs_err::remove_dir_all(&dir).unwrap();
}

#[test]
fn file_content_reads_and_trims() {
    let dir = fresh_dir("file_content");
    let path = format!("{}/note", dir);
    rewrite_file_content(&path, " padded \n").unwrap();
    assert_eq!(file_content(&path).unwrap(), "padded");
    assert!(matches!(
        file_content("/tmp/project_launcher_tests/no_such_file").unwrap_err(),
        StoreError::Io
    ));
    fs_err::remove_dir_all(&dir).unwrap();
}

#[test]
fn join_path_inserts_the_platform_separator() {
    assert_eq!(join_path("/data", "projects", Platform::Other), "/data/projects");
    assert_eq!(join_path("/data/", "projects", Platform::Other), "/data/projects");
    assert_eq!(join_path("", "projects", Platform::Other), "projects");
    assert_eq!(join_path("C:\\data", "projects", Platform::Windows), "C:\\data\\projects");
}

#[test]
fn launch_plan_on_a_missing_id_is_not_found_and_plans_no_spawn() {
    let dir = fresh_dir("launch_missing");
    let r = launch_plan(&dir, "ghost", "/usr/bin", Platform::Other);
    // the error carries no plan: the spawning caller has nothing to invoke
    match r {
        Ok(_) => panic!("a plan for a missing record"),
        Err(e) => assert!(matches!(e, StoreError::NotFound(id) if id == "ghost")),
    }
    fs_err::remove_dir_all(&dir).unwrap();
}

#[test]
fn launch_plan_resolves_composes_and_carries_the_project_path() {
    let dir = fresh_dir("launch_plan");
    let text = "{\"id\":\"p6\",\"name\":\"n\",\"lastOpened\":\"t\",\"description\":\"d\",\
                \"path\":\"/proj/p6\",\"ide\":\"IDEA\",\
                \"environment\":{\"PATH\":\"/tool/bin\"}}";
    rewrite(&dir, "p6", text, Platform::Other).unwrap();
    let plan = launch_plan(&dir, "p6", "/usr/bin", Platform::Other).unwrap();
    assert_eq!(plan.executable, "idea");
    assert_eq!(plan.arg, "/proj/p6");
    assert_eq!(
        plan.env,
        vec![("PATH".to_string(), "/tool/bin:/usr/bin".to_string())]
    );
    fs_err::remove_dir_all(&dir).unwrap();
}
