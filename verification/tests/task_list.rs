use todocli::constants::MAX_TASK_TITLE_LENGTH;
use todocli::task::{Task, TaskError, TaskList, TaskStatus};

fn list_of(titles: &[&str]) -> TaskList {
    let mut list = TaskList::new();
    for title in titles {
        assert_eq!(list.add(title.to_string()), Ok(()));
    }
    list
}

fn titles(list: &TaskList) -> Vec<String> {
    list.iterate().iter().map(|t| t.title().to_string()).collect()
}

#[test]
fn title_limit_is_forty() {
    assert_eq!(MAX_TASK_TITLE_LENGTH, 40);
}

#[test]
fn new_list_is_empty() {
    let list = TaskList::new();
    assert_eq!(list.len(), 0);
    assert!(list.is_empty());
    assert!(list.iterate().is_empty());
    assert!(list.get(0).is_none());
}

#[test]
fn add_appends_a_pending_task() {
    let mut list = TaskList::new();
    assert_eq!(list.add("buy milk".to_string()), Ok(()));
    assert_eq!(list.len(), 1);
    assert!(!list.is_empty());
    let task = list.get(0).unwrap();
    assert_eq!(task.title(), "buy milk");
    assert_eq!(task.status(), TaskStatus::Pending);
}

#[test]
fn add_keeps_insertion_order() {
    let list = list_of(&["one", "two", "three"]);
    assert_eq!(titles(&list), vec!["one", "two", "three"]);
}

#[test]
fn add_accepts_a_title_of_exactly_forty_characters() {
    let mut list = TaskList::new();
    let title = "x".repeat(40);
    assert_eq!(list.add(title.clone()), Ok(()));
    assert_eq!(list.get(0).unwrap().title(), title);
}

#[test]
fn add_rejects_a_title_of_forty_one_characters() {
    let mut list = list_of(&["kept"]);
    assert_eq!(list.add("x".repeat(41)), Err(TaskError::TitleTooLong));
    assert_eq!(titles(&list), vec!["kept"]);
}

#[test]
fn add_counts_characters_and_not_bytes() {
    let mut list = TaskList::new();
    let forty = "é".repeat(40);
    assert_eq!(forty.len(), 80);
    assert_eq!(list.add(forty.clone()), Ok(()));
    assert_eq!(list.add("é".repeat(41)), Err(TaskError::TitleTooLong));
    assert_eq!(titles(&list), vec![forty]);
}

#[test]
fn add_takes_an_empty_title() {
    let mut list = TaskList::new();
    assert_eq!(list.add(String::new()), Ok(()));
    assert_eq!(list.get(0).unwrap().title(), "");
}

#[test]
fn push_keeps_the_status_of_the_task() {
    let mut list = list_of(&["first"]);
    list.push(Task::new("done".to_string(), TaskStatus::Completed).unwrap());
    assert_eq!(list.len(), 2);
    assert_eq!(list.get(1).unwrap().title(), "done");
    assert_eq!(list.get(1).unwrap().status(), TaskStatus::Completed);
    assert_eq!(list.get(0).unwrap().status(), TaskStatus::Pending);
}

#[test]
fn toggle_flips_one_status() {
    let mut list = list_of(&["a", "b", "c"]);
    assert_eq!(list.toggle(1), Ok(()));
    assert_eq!(list.get(0).unwrap().status(), TaskStatus::Pending);
    assert_eq!(list.get(1).unwrap().status(), TaskStatus::Completed);
    assert_eq!(list.get(2).unwrap().status(), TaskStatus::Pending);
    assert_eq!(titles(&list), vec!["a", "b", "c"]);
}

#[test]
fn toggle_twice_gives_the_list_back() {
    let mut list = list_of(&["a", "b"]);
    let before = list.clone();
    assert_eq!(list.toggle(0), Ok(()));
    assert_ne!(list, before);
    assert_eq!(list.toggle(0), Ok(()));
    assert_eq!(list, before);
}

#[test]
fn toggle_outside_the_list_is_rejected() {
    let mut list = list_of(&["a", "b"]);
    let before = list.clone();
    assert_eq!(list.toggle(2), Err(TaskError::IndexOutOfRange));
    assert_eq!(list.toggle(usize::MAX), Err(TaskError::IndexOutOfRange));
    assert_eq!(list, before);
}

#[test]
fn toggle_on_an_empty_list_is_rejected() {
    let mut list = TaskList::new();
    assert_eq!(list.toggle(0), Err(TaskError::IndexOutOfRange));
    assert!(list.is_empty());
}

#[test]
fn remove_hands_over_the_task_and_closes_the_gap() {
    let mut list = list_of(&["a", "b", "c"]);
    list.toggle(1).unwrap();
    let removed = list.remove(1).unwrap();
    assert_eq!(removed.title(), "b");
    assert_eq!(removed.status(), TaskStatus::Completed);
    assert_eq!(titles(&list), vec!["a", "c"]);
}

#[test]
fn remove_first_and_last() {
    let mut list = list_of(&["a", "b", "c"]);
    assert_eq!(list.remove(0).unwrap().title(), "a");
    assert_eq!(list.remove(1).unwrap().title(), "c");
    assert_eq!(titles(&list), vec!["b"]);
}

#[test]
fn remove_outside_the_list_is_rejected() {
    let mut list = list_of(&["a"]);
    assert_eq!(list.remove(1), Err(TaskError::IndexOutOfRange));
    assert_eq!(titles(&list), vec!["a"]);
    let mut empty = TaskList::new();
    assert_eq!(empty.remove(0), Err(TaskError::IndexOutOfRange));
}

#[test]
fn get_outside_the_list_is_none() {
    let list = list_of(&["a", "b"]);
    assert_eq!(list.get(1).unwrap().title(), "b");
    assert!(list.get(2).is_none());
}

#[test]
fn task_new_checks_the_title_length() {
    let ok = Task::new("y".repeat(40), TaskStatus::Completed).unwrap();
    assert_eq!(ok.title(), "y".repeat(40));
    assert_eq!(ok.status(), TaskStatus::Completed);
    assert_eq!(Task::new("y".repeat(41), TaskStatus::Pending), Err(TaskError::TitleTooLong));
}

#[test]
fn task_toggle_flips_the_status_only() {
    let mut task = Task::new("t".to_string(), TaskStatus::Pending).unwrap();
    task.toggle();
    assert_eq!(task.status(), TaskStatus::Completed);
    assert_eq!(task.title(), "t");
    task.toggle();
    assert_eq!(task.status(), TaskStatus::Pending);
}

#[test]
fn status_words_and_flip() {
    assert_eq!(TaskStatus::Pending.as_str(), "pending");
    assert_eq!(TaskStatus::Completed.as_str(), "completed");
    assert_eq!(TaskStatus::Pending.toggled(), TaskStatus::Completed);
    assert_eq!(TaskStatus::Completed.toggled(), TaskStatus::Pending);
}
