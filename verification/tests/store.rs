use task_store::store::add_task;
use task_store::store::init_db_in_memory;
use task_store::store::load_tasks;
use task_store::store::remove_task;
use task_store::store::replace_all_tasks;
use task_store::store::update_task;
use task_store::StoreError;
use task_store::Task;

fn task(
    id: &str,
    title: &str,
    category: Option<&str>,
    content: Option<&str>,
    done: bool,
    created_at: &str,
) -> Task {
    Task {
        id: id.to_string(),
        title: title.to_string(),
        category: category.map(|s| s.to_string()),
        content: content.map(|s| s.to_string()),
        done,
        created_at: created_at.to_string(),
    }
}

#[test]
fn load_on_empty_store_returns_empty() {
    let conn = init_db_in_memory().unwrap();
    let tasks = load_tasks(&conn).unwrap();
    assert!(tasks.is_empty());
}

#[test]
fn round_trip_insert_then_load() {
    let mut conn = init_db_in_memory().unwrap();
    let t = task("a1", "write report", Some("work"), Some("draft the intro"), false, "2024-05-01");
    add_task(&mut conn, &t).unwrap();
    let tasks = load_tasks(&conn).unwrap();
    assert_eq!(tasks.len(), 1);
    let got = &tasks[0];
    assert_eq!(got.id, "a1");
    assert_eq!(got.title, "write report");
    assert_eq!(got.category.as_deref(), Some("work"));
    assert_eq!(got.content.as_deref(), Some("draft the intro"));
    assert_eq!(got.done, false);
    assert_eq!(got.created_at, "2024-05-01");
}

#[test]
fn absent_optional_fields_come_back_absent() {
    let mut conn = init_db_in_memory().unwrap();
    add_task(&mut conn, &task("a1", "untitled note", None, None, true, "2024-05-01")).unwrap();
    let tasks = load_tasks(&conn).unwrap();
    assert_eq!(tasks.len(), 1);
    assert_eq!(tasks[0].category, None);
    assert_eq!(tasks[0].content, None);
    assert_eq!(tasks[0].done, true);
}

#[test]
fn duplicate_insert_fails_and_keeps_one_row() {
    let mut conn = init_db_in_memory().unwrap();
    add_task(&mut conn, &task("a1", "first", None, None, false, "2024-01-01")).unwrap();
    let second = task("a1", "second", Some("other"), None, true, "2024-02-02");
    let r = add_task(&mut conn, &second);
    assert!(matches!(r, Err(StoreError::DuplicateId)));
    let tasks = load_tasks(&conn).unwrap();
    assert_eq!(tasks.len(), 1);
    assert_eq!(tasks[0].id, "a1");
    assert_eq!(tasks[0].title, "first");
}

#[test]
fn load_orders_newest_first() {
    let mut conn = init_db_in_memory().unwrap();
    add_task(&mut conn, &task("a", "oldest", None, None, false, "2024-01-01")).unwrap();
    add_task(&mut conn, &task("b", "newest", None, None, false, "2024-03-01")).unwrap();
    add_task(&mut conn, &task("c", "middle", None, None, false, "2024-02-01")).unwrap();
    let tasks = load_tasks(&conn).unwrap();
    let stamps: Vec<&str> = tasks.iter().map(|t| t.created_at.as_str()).collect();
    assert_eq!(stamps, vec!["2024-03-01", "2024-02-01", "2024-01-01"]);
}

#[test]
fn partial_update_preserves_untouched_fields() {
    let mut conn = init_db_in_memory().unwrap();
    add_task(&mut conn, &task("1", "A", Some("work"), Some("x"), false, "2024-01-01")).unwrap();
    update_task(&mut conn, "1", None, None, None, Some(true)).unwrap();
    let tasks = load_tasks(&conn).unwrap();
    assert_eq!(tasks.len(), 1);
    assert_eq!(tasks[0].title, "A");
    assert_eq!(tasks[0].category.as_deref(), Some("work"));
    assert_eq!(tasks[0].content.as_deref(), Some("x"));
    assert_eq!(tasks[0].done, true);
    assert_eq!(tasks[0].created_at, "2024-01-01");
}

#[test]
fn update_sets_every_supplied_field() {
    let mut conn = init_db_in_memory().unwrap();
    add_task(&mut conn, &task("1", "A", None, None, false, "2024-01-01")).unwrap();
    update_task(&mut conn, "1", Some("B"), Some("home"), Some("notes"), Some(true)).unwrap();
    let tasks = load_tasks(&conn).unwrap();
    assert_eq!(tasks.len(), 1);
    assert_eq!(tasks[0].title, "B");
    assert_eq!(tasks[0].category.as_deref(), Some("home"));
    assert_eq!(tasks[0].content.as_deref(), Some("notes"));
    assert_eq!(tasks[0].done, true);
}

#[test]
fn update_on_nonexistent_id_is_a_silent_noop() {
    let mut conn = init_db_in_memory().unwrap();
    let r = update_task(&mut conn, "nonexistent-id", Some("X"), None, None, None);
    assert!(r.is_ok());
    let tasks = load_tasks(&conn).unwrap();
    assert!(tasks.is_empty());
}

#[test]
fn update_with_no_fields_is_a_silent_noop() {
    let mut conn = init_db_in_memory().unwrap();
    add_task(&mut conn, &task("1", "A", None, None, false, "2024-01-01")).unwrap();
    update_task(&mut conn, "1", None, None, None, None).unwrap();
    let tasks = load_tasks(&conn).unwrap();
    assert_eq!(tasks.len(), 1);
    assert_eq!(tasks[0].title, "A");
    assert_eq!(tasks[0].done, false);
}

#[test]
fn delete_removes_the_row() {
    let mut conn = init_db_in_memory().unwrap();
    add_task(&mut conn, &task("1", "A", None, None, false, "2024-01-01")).unwrap();
    add_task(&mut conn, &task("2", "B", None, None, false, "2024-01-02")).unwrap();
    remove_task(&mut conn, "1").unwrap();
    let tasks = load_tasks(&conn).unwrap();
    assert_eq!(tasks.len(), 1);
    assert_eq!(tasks[0].id, "2");
}

#[test]
fn delete_on_nonexistent_id_succeeds() {
    let mut conn = init_db_in_memory().unwrap();
    add_task(&mut conn, &task("1", "A", None, None, false, "2024-01-01")).unwrap();
    remove_task(&mut conn, "nonexistent-id").unwrap();
    remove_task(&mut conn, "1").unwrap();
    remove_task(&mut conn, "1").unwrap();
    let tasks = load_tasks(&conn).unwrap();
    assert!(tasks.is_empty());
}

#[test]
fn replace_all_swaps_the_whole_table() {
    let mut conn = init_db_in_memory().unwrap();
    add_task(&mut conn, &task("old1", "gone", None, None, false, "2023-01-01")).unwrap();
    add_task(&mut conn, &task("old2", "gone too", None, None, true, "2023-02-01")).unwrap();
    let batch = vec![
        task("n1", "kept", Some("sync"), None, false, "2024-01-01"),
        task("n2", "kept too", None, Some("body"), true, "2024-02-01"),
    ];
    replace_all_tasks(&mut conn, &batch).unwrap();
    let tasks = load_tasks(&conn).unwrap();
    assert_eq!(tasks.len(), 2);
    assert_eq!(tasks[0].id, "n2");
    assert_eq!(tasks[1].id, "n1");
    assert_eq!(tasks[1].category.as_deref(), Some("sync"));
    assert_eq!(tasks[0].content.as_deref(), Some("body"));
}

#[test]
fn replace_all_with_empty_batch_empties_the_table() {
    let mut conn = init_db_in_memory().unwrap();
    add_task(&mut conn, &task("1", "A", None, None, false, "2024-01-01")).unwrap();
    replace_all_tasks(&mut conn, &Vec::new()).unwrap();
    let tasks = load_tasks(&conn).unwrap();
    assert!(tasks.is_empty());
}

#[test]
fn replace_all_rolls_back_on_duplicate_in_batch() {
    let mut conn = init_db_in_memory().unwrap();
    add_task(&mut conn, &task("keep1", "first", None, None, false, "2024-01-01")).unwrap();
    add_task(&mut conn, &task("keep2", "second", None, None, true, "2024-02-01")).unwrap();
    let batch = vec![
        task("dup", "one", None, None, false, "2024-03-01"),
        task("dup", "two", None, None, false, "2024-04-01"),
    ];
    let r = replace_all_tasks(&mut conn, &batch);
    assert!(matches!(r, Err(StoreError::DuplicateId)));
    let tasks = load_tasks(&conn).unwrap();
    assert_eq!(tasks.len(), 2);
    assert_eq!(tasks[0].id, "keep2");
    assert_eq!(tasks[0].title, "second");
    assert_eq!(tasks[1].id, "keep1");
    assert_eq!(tasks[1].title, "first");
}

#[test]
fn init_db_accepts_an_in_memory_path() {
    // SQLite treats the path ":memory:" as a fresh in-memory database, so
    // this exercises the file-path entry point without touching disk.
    let mut conn = task_store::store::init_db(":memory:").unwrap();
    add_task(&mut conn, &task("p1", "from path", None, None, false, "2024-01-01")).unwrap();
    let tasks = load_tasks(&conn).unwrap();
    assert_eq!(tasks.len(), 1);
    assert_eq!(tasks[0].id, "p1");
}

#[test]
fn duplicate_error_message_is_fixed_text() {
    let e = StoreError::DuplicateId;
    assert_eq!(e.message(), "duplicate task id");
}

#[test]
fn storage_error_message_carries_the_engine_text() {
    let e = StoreError::Storage("disk I/O error".to_string());
    assert_eq!(e.message(), "disk I/O error");
}

#[test]
fn done_flag_survives_a_round_trip_both_ways() {
    let mut conn = init_db_in_memory().unwrap();
    add_task(&mut conn, &task("d0", "open item", None, None, false, "2024-01-01")).unwrap();
    add_task(&mut conn, &task("d1", "closed item", None, None, true, "2024-01-02")).unwrap();
    let tasks = load_tasks(&conn).unwrap();
    assert_eq!(tasks.len(), 2);
    assert_eq!(tasks[0].id, "d1");
    assert_eq!(tasks[0].done, true);
    assert_eq!(tasks[1].id, "d0");
    assert_eq!(tasks[1].done, false);
}
