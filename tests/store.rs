use task_store::{rocket, AppError, InsertTask, Task, TaskStore, UpdateTask};

fn ins(title: &str, details: &str) -> InsertTask {
    InsertTask { non_empty_title: title.to_string(), details: details.to_string() }
}

fn upd(id: u64, title: &str, details: &str) -> UpdateTask {
    UpdateTask { id, new_title: title.to_string(), details: details.to_string() }
}

fn task(id: u64, title: &str, details: &str) -> Task {
    Task { id, title: title.to_string(), details: details.to_string() }
}

#[test]
fn scenario_buy_milk_walk_dog() {
    let mut s = rocket();
    assert_eq!(s.insert(ins("Buy milk", "2%")), Ok(task(0, "Buy milk", "2%")));
    assert_eq!(s.insert(ins("Walk dog", "")), Ok(task(1, "Walk dog", "")));
    assert_eq!(s.find_all(), vec![task(0, "Buy milk", "2%"), task(1, "Walk dog", "")]);
    assert_eq!(s.update(upd(0, "Buy oat milk", "2%")), Ok(task(0, "Buy oat milk", "2%")));
    assert_eq!(s.delete(1), Ok(task(1, "Walk dog", "")));
    assert_eq!(s.find_all(), vec![task(0, "Buy oat milk", "2%")]);
}

#[test]
fn insert_then_find_gives_same_task() {
    let mut s = TaskStore::new();
    s.insert(ins("first", "a")).unwrap();
    let t = s.insert(ins("  padded title ", "")).unwrap();
    assert_eq!(t.id, 1);
    assert_eq!(s.find_by_id(t.id), Ok(t));
}

#[test]
fn many_inserts_get_distinct_ids() {
    let mut s = TaskStore::new();
    let mut ids = Vec::new();
    for k in 0..50u64 {
        let t = s.insert(ins(&format!("task {}", k), "")).unwrap();
        ids.push(t.id);
    }
    assert_eq!(s.find_all().len(), 50);
    let mut sorted = ids.clone();
    sorted.dedup();
    assert_eq!(sorted.len(), 50);
    assert_eq!(ids, (0..50u64).collect::<Vec<u64>>());
}

#[test]
fn delete_then_find_fails() {
    let mut s = TaskStore::new();
    s.insert(ins("a", "")).unwrap();
    s.insert(ins("b", "")).unwrap();
    s.insert(ins("c", "")).unwrap();
    assert_eq!(s.delete(1), Ok(task(1, "b", "")));
    assert_eq!(s.find_by_id(1), Err(AppError::IdNotFound(1)));
    assert_eq!(s.delete(1), Err(AppError::IdNotFound(1)));
    assert_eq!(s.find_all(), vec![task(0, "a", ""), task(2, "c", "")]);
}

#[test]
fn ids_are_not_reused_after_delete() {
    let mut s = TaskStore::new();
    s.insert(ins("a", "")).unwrap();
    s.delete(0).unwrap();
    assert_eq!(s.insert(ins("b", "")), Ok(task(1, "b", "")));
}

#[test]
fn update_missing_id_changes_nothing() {
    let mut s = TaskStore::new();
    s.insert(ins("a", "x")).unwrap();
    let before = s.find_all();
    assert_eq!(s.update(upd(7, "new", "y")), Err(AppError::IdNotFound(7)));
    assert_eq!(s.find_all(), before);
    assert_eq!(s.insert(ins("b", "")).unwrap().id, 1);
}

#[test]
fn update_blank_title_is_refused() {
    let mut s = TaskStore::new();
    s.insert(ins("a", "x")).unwrap();
    assert_eq!(s.update(upd(0, " \t ", "y")), Err(AppError::EmptyTitle));
    assert_eq!(s.update(upd(9, "", "y")), Err(AppError::EmptyTitle));
    assert_eq!(s.find_all(), vec![task(0, "a", "x")]);
}

#[test]
fn blank_insert_creates_nothing() {
    let mut s = TaskStore::new();
    assert_eq!(s.insert(ins("   ", "d")), Err(AppError::EmptyTitle));
    assert_eq!(s.insert(ins("", "d")), Err(AppError::EmptyTitle));
    assert_eq!(s.insert(ins("\u{3000}\n\u{a0}", "d")), Err(AppError::EmptyTitle));
    assert!(s.find_all().is_empty());
    assert_eq!(s.insert(ins("real", "d")), Ok(task(0, "real", "d")));
}

#[test]
fn find_on_empty_store_fails() {
    let s = TaskStore::new();
    assert_eq!(s.find_by_id(0), Err(AppError::IdNotFound(0)));
    assert_eq!(s.find_all(), Vec::<Task>::new());
}

#[test]
fn returned_copies_are_independent() {
    let mut s = TaskStore::new();
    let mut t = s.insert(ins("a", "x")).unwrap();
    t.title.push_str("changed");
    assert_eq!(s.find_by_id(0), Ok(task(0, "a", "x")));
}

#[test]
fn long_titles_are_accepted() {
    let mut s = TaskStore::new();
    let title = "t".repeat(10_000);
    assert_eq!(s.insert(ins(&title, "")).unwrap().title, title);
}
