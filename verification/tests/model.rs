use task_tracker::model::ident::encode_id;
use task_tracker::model::state::TaskState;
use task_tracker::model::task::Task;

const ALL_STATES: [TaskState; 5] = [
    TaskState::Created,
    TaskState::Started,
    TaskState::Completed,
    TaskState::Failed,
    TaskState::Paused,
];

fn text(value: &str) -> String {
    String::from(value)
}

#[test]
fn legal_edges_are_exactly_the_table() {
    let table = [
        (TaskState::Created, TaskState::Started),
        (TaskState::Started, TaskState::Completed),
        (TaskState::Started, TaskState::Failed),
        (TaskState::Started, TaskState::Paused),
        (TaskState::Paused, TaskState::Started),
    ];
    for from in ALL_STATES {
        for to in ALL_STATES {
            assert_eq!(
                from.can_transition_to(to),
                table.contains(&(from, to)),
                "{:?} -> {:?}",
                from,
                to
            );
        }
    }
}

#[test]
fn created_to_completed_is_illegal() {
    assert!(!TaskState::Created.can_transition_to(TaskState::Completed));
}

#[test]
fn self_transitions_are_illegal() {
    for state in ALL_STATES {
        assert!(!state.can_transition_to(state));
    }
}

#[test]
fn completed_and_failed_are_terminal() {
    for to in ALL_STATES {
        assert!(!TaskState::Completed.can_transition_to(to));
        assert!(!TaskState::Failed.can_transition_to(to));
    }
    assert!(TaskState::Completed.is_terminal());
    assert!(TaskState::Failed.is_terminal());
}

#[test]
fn other_states_are_not_terminal() {
    assert!(!TaskState::Created.is_terminal());
    assert!(!TaskState::Started.is_terminal());
    assert!(!TaskState::Paused.is_terminal());
}

#[test]
fn encode_id_of_zero_is_all_zeros() {
    assert_eq!(encode_id(0), "00000000000000000000000000000000");
}

#[test]
fn encode_id_of_max_is_all_f() {
    assert_eq!(encode_id(u128::MAX), "ffffffffffffffffffffffffffffffff");
}

#[test]
fn encode_id_writes_most_significant_digit_first() {
    assert_eq!(encode_id(0x1f), "0000000000000000000000000000001f");
    assert_eq!(
        encode_id(0x0123_4567_89ab_cdef_fedc_ba98_7654_3210),
        "0123456789abcdeffedcba9876543210"
    );
    assert_eq!(encode_id(1u128 << 124), "10000000000000000000000000000000");
}

#[test]
fn encode_id_agrees_with_std_formatting() {
    for bits in [0u128, 1, 15, 16, 255, 256, 0xdead_beef, u128::MAX - 1, 1u128 << 64] {
        assert_eq!(encode_id(bits), format!("{:032x}", bits));
    }
}

#[test]
fn encode_id_tells_numbers_apart() {
    assert_ne!(encode_id(1), encode_id(16));
    assert_ne!(encode_id(0), encode_id(1u128 << 127));
}

#[test]
fn new_task_is_created_without_result() {
    let task = Task::new(text("u1"), text("render"), text("s3://in"));
    assert_eq!(task.state(), TaskState::Created);
    assert_eq!(task.result_file(), None);
    assert_eq!(task.user_id(), "u1");
    assert_eq!(task.task_type(), "render");
    assert_eq!(task.source_file(), "s3://in");
}

#[test]
fn new_task_has_a_32_digit_hex_id() {
    let task = Task::new(text("u1"), text("render"), text("s3://in"));
    let id = task.get_global_id();
    assert_eq!(id.len(), 32);
    assert!(id.chars().all(|c| c.is_ascii_digit() || ('a'..='f').contains(&c)));
    assert_eq!(task.global_id(), &id);
}

#[test]
fn new_tasks_get_distinct_ids() {
    let mut seen: Vec<String> = Vec::new();
    for _ in 0..64 {
        let id = Task::new(text("u1"), text("render"), text("s3://in")).get_global_id();
        assert!(!id.is_empty());
        assert!(!seen.contains(&id));
        seen.push(id);
    }
}

#[test]
fn task_with_id_bits_has_that_id() {
    let task = Task::with_id_bits(text("u1"), text("render"), text("s3://in"), 0xabc);
    assert_eq!(task.get_global_id(), "00000000000000000000000000000abc");
    assert_eq!(task.state(), TaskState::Created);
    assert_eq!(task.result_file(), None);
}

#[test]
fn task_can_transition_to_follows_its_state() {
    let task = Task::with_id_bits(text("u1"), text("render"), text("s3://in"), 1);
    assert!(task.can_transition_to(&TaskState::Started));
    assert!(!task.can_transition_to(&TaskState::Completed));
    assert!(!task.can_transition_to(&TaskState::Failed));
    assert!(!task.can_transition_to(&TaskState::Paused));
    assert!(!task.can_transition_to(&TaskState::Created));
}

#[test]
fn transition_keeps_identity_and_sets_state_and_result() {
    let task = Task::with_id_bits(text("u1"), text("render"), text("s3://in"), 5);
    let started = task.transition_to(TaskState::Started, None).expect("created -> started");
    assert_eq!(started.state(), TaskState::Started);
    assert_eq!(started.result_file(), None);
    let done = started
        .transition_to(TaskState::Completed, Some(text("s3://out")))
        .expect("started -> completed");
    assert_eq!(done.state(), TaskState::Completed);
    assert_eq!(done.result_file(), Some(&text("s3://out")));
    assert_eq!(done.get_global_id(), "00000000000000000000000000000005");
    assert_eq!(done.user_id(), "u1");
    assert_eq!(done.task_type(), "render");
    assert_eq!(done.source_file(), "s3://in");
}

#[test]
fn transition_to_final_state_needs_a_result() {
    let started = Task::with_id_bits(text("u"), text("t"), text("s"), 5)
        .transition_to(TaskState::Started, None)
        .expect("created -> started");
    assert!(started.clone().transition_to(TaskState::Completed, None).is_none());
    assert!(started.clone().transition_to(TaskState::Failed, None).is_none());
    assert!(started.transition_to(TaskState::Failed, Some(text("log"))).is_some());
}

#[test]
fn transition_to_other_state_takes_no_result() {
    let created = Task::with_id_bits(text("u"), text("t"), text("s"), 5);
    assert!(created.clone().transition_to(TaskState::Started, Some(text("x"))).is_none());
    let started = created.transition_to(TaskState::Started, None).expect("created -> started");
    assert!(started.clone().transition_to(TaskState::Paused, Some(text("x"))).is_none());
    assert!(started.transition_to(TaskState::Paused, None).is_some());
}

#[test]
fn clone_keeps_every_field() {
    let task = Task::from_parts(
        text("id-1"),
        text("u1"),
        text("render"),
        text("s3://in"),
        TaskState::Failed,
        Some(text("s3://log")),
    )
    .expect("well formed");
    let copy = task.clone();
    assert_eq!(copy.get_global_id(), task.get_global_id());
    assert_eq!(copy.user_id(), task.user_id());
    assert_eq!(copy.task_type(), task.task_type());
    assert_eq!(copy.source_file(), task.source_file());
    assert_eq!(copy.result_file(), task.result_file());
    assert_eq!(copy.state(), task.state());
}

#[test]
fn from_parts_takes_well_formed_fields() {
    for state in [TaskState::Created, TaskState::Started, TaskState::Paused] {
        let task = Task::from_parts(text("id"), text("u"), text("t"), text("s"), state, None)
            .expect("no result outside the terminal states");
        assert_eq!(task.state(), state);
        assert_eq!(task.get_global_id(), "id");
        assert_eq!(task.result_file(), None);
    }
    for state in [TaskState::Completed, TaskState::Failed] {
        let task =
            Task::from_parts(text("id"), text("u"), text("t"), text("s"), state, Some(text("r")))
                .expect("a result in the terminal states");
        assert_eq!(task.state(), state);
        assert_eq!(task.result_file(), Some(&text("r")));
    }
}

#[test]
fn from_parts_refuses_a_result_outside_the_final_states() {
    for state in [TaskState::Created, TaskState::Started, TaskState::Paused] {
        assert!(Task::from_parts(
            text("id"),
            text("u"),
            text("t"),
            text("s"),
            state,
            Some(text("r"))
        )
        .is_none());
    }
}

#[test]
fn from_parts_refuses_a_final_state_without_result() {
    for state in [TaskState::Completed, TaskState::Failed] {
        assert!(Task::from_parts(text("id"), text("u"), text("t"), text("s"), state, None).is_none());
    }
}

#[test]
fn from_parts_refuses_an_empty_id() {
    assert!(Task::from_parts(
        text(""),
        text("u"),
        text("t"),
        text("s"),
        TaskState::Created,
        None
    )
    .is_none());
}
