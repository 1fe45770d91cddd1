use task_tracker::model::state::TaskState;
use task_tracker::model::task::Task;
use task_tracker::repo::memory::MemoryRepository;
use task_tracker::repo::store::{StoreError, TaskRepository};

fn word(value: &str) -> String {
    String::from(value)
}

fn task_in(id: &str, state: TaskState, result: Option<&str>) -> Task {
    Task::from_parts(word(id), word("u1"), word("render"), word("s3://in"), state, result.map(word))
        .expect("well formed")
}

#[test]
fn empty_store_finds_nothing() {
    let repo = MemoryRepository::new();
    assert_eq!(repo.len(), 0);
    assert!(repo.get(&word("a")).is_none());
    assert!(repo.get(&word("")).is_none());
}

#[test]
fn put_then_get_returns_the_task() {
    let mut repo = MemoryRepository::new();
    assert_eq!(repo.put(task_in("a", TaskState::Created, None)), Ok(()));
    let found = repo.get(&word("a")).expect("stored");
    assert_eq!(found.get_global_id(), "a");
    assert_eq!(found.user_id(), "u1");
    assert_eq!(found.task_type(), "render");
    assert_eq!(found.source_file(), "s3://in");
    assert_eq!(found.state(), TaskState::Created);
    assert_eq!(found.result_file(), None);
    assert_eq!(repo.len(), 1);
    assert!(repo.get(&word("b")).is_none());
}

#[test]
fn put_is_an_upsert() {
    let mut repo = MemoryRepository::new();
    assert_eq!(repo.put(task_in("a", TaskState::Created, None)), Ok(()));
    assert_eq!(repo.put(task_in("b", TaskState::Created, None)), Ok(()));
    assert_eq!(repo.put(task_in("a", TaskState::Failed, Some("log"))), Ok(()));
    assert_eq!(repo.len(), 2);
    let a = repo.get(&word("a")).expect("stored");
    assert_eq!(a.state(), TaskState::Failed);
    assert_eq!(a.result_file(), Some(&word("log")));
    let b = repo.get(&word("b")).expect("stored");
    assert_eq!(b.state(), TaskState::Created);
}

#[test]
fn get_is_repeatable() {
    let mut repo = MemoryRepository::new();
    assert_eq!(repo.put(task_in("a", TaskState::Completed, Some("out"))), Ok(()));
    assert_eq!(repo.put(task_in("b", TaskState::Paused, None)), Ok(()));
    for id in ["a", "b"] {
        let first = repo.get(&word(id)).expect("stored");
        let second = repo.get(&word(id)).expect("stored");
        assert_eq!(first.get_global_id(), second.get_global_id());
        assert_eq!(first.user_id(), second.user_id());
        assert_eq!(first.task_type(), second.task_type());
        assert_eq!(first.source_file(), second.source_file());
        assert_eq!(first.result_file(), second.result_file());
        assert_eq!(first.state(), second.state());
    }
    assert!(repo.get(&word("c")).is_none());
    assert!(repo.get(&word("c")).is_none());
}

#[test]
fn write_to_one_id_leaves_the_others() {
    let mut repo = MemoryRepository::new();
    assert_eq!(repo.put(task_in("a", TaskState::Started, None)), Ok(()));
    assert_eq!(repo.put(task_in("b", TaskState::Created, None)), Ok(()));
    assert_eq!(repo.put(task_in("b", TaskState::Started, None)), Ok(()));
    assert_eq!(repo.get(&word("a")).expect("stored").state(), TaskState::Started);
    assert_eq!(repo.get(&word("b")).expect("stored").state(), TaskState::Started);
}

#[test]
fn faulty_store_refuses_writes_with_its_fault() {
    for fault in [StoreError::Timeout, StoreError::Throttled, StoreError::Serialization] {
        let mut repo = MemoryRepository::new();
        assert_eq!(repo.put(task_in("a", TaskState::Created, None)), Ok(()));
        repo.fail_with(Some(fault));
        assert_eq!(repo.put(task_in("b", TaskState::Created, None)), Err(fault));
        assert_eq!(repo.put(task_in("a", TaskState::Started, None)), Err(fault));
        assert_eq!(repo.len(), 1);
        assert!(repo.get(&word("b")).is_none());
        assert_eq!(repo.get(&word("a")).expect("stored").state(), TaskState::Created);
    }
}

#[test]
fn store_takes_writes_again_after_the_fault_is_cleared() {
    let mut repo = MemoryRepository::new();
    repo.fail_with(Some(StoreError::Throttled));
    assert_eq!(repo.put(task_in("a", TaskState::Created, None)), Err(StoreError::Throttled));
    repo.fail_with(None);
    assert_eq!(repo.put(task_in("a", TaskState::Created, None)), Ok(()));
    assert_eq!(repo.len(), 1);
}
