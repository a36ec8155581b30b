use panduza_platform_core::instance::queue::{CommandQueue, DataQueue};
use panduza_platform_core::instance::server::callbacks::{should_trigger, CallbackEntry, CallbackRegistry};
use panduza_platform_core::instance::server::choices::{check_choice, debug_string_list, is_choice};
use panduza_platform_core::instance::topic::{att_topic, cmd_topic, join_topic, name, root_topic, topic_prefixless};
use panduza_platform_core::instance::{
    fsm_action, initial_state, state_after_mount, state_after_task_event, subtask_reaction,
    task_event_reaction, task_failure_kind, FsmAction, State, SubtaskOutcome, SubtaskReaction,
    TaskEvent, TaskEventBody, TaskEventReaction,
};
use panduza_platform_core::Error;

fn body() -> TaskEventBody {
    TaskEventBody {
        task_name: "t".to_string(),
        error_message: Some("boom".to_string()),
    }
}

#[test]
fn fsm_walk() {
    let s = initial_state();
    assert_eq!(s, State::Booting);
    assert_eq!(fsm_action(s), FsmAction::MoveTo(State::Initializating));
    assert_eq!(fsm_action(State::Initializating), FsmAction::Mount);
    assert_eq!(state_after_mount(true), State::Running);
    assert_eq!(state_after_mount(false), State::Error);
    assert_eq!(fsm_action(State::Error), FsmAction::Reboot(State::Initializating));
    assert_eq!(fsm_action(State::Running), FsmAction::Idle);
    assert_eq!(State::default(), State::Undefined);
    assert_eq!(State::Initializating.as_str(), "Initializating");
}

#[test]
fn task_events() {
    let pain = TaskEvent::TaskStopWithPain(body());
    let panic = TaskEvent::TaskPanicOMG(body());
    let created = TaskEvent::TaskCreated(body());
    assert_eq!(task_event_reaction(&pain), TaskEventReaction::EnterError);
    assert_eq!(task_event_reaction(&panic), TaskEventReaction::EnterError);
    assert_eq!(task_event_reaction(&created), TaskEventReaction::Report);
    assert_eq!(task_event_reaction(&TaskEvent::NoMoreTask), TaskEventReaction::Report);
    assert_eq!(task_failure_kind(&pain), "Error");
    assert_eq!(task_failure_kind(&panic), "Panic");
    assert_eq!(state_after_task_event(State::Running, &pain), State::Error);
    assert_eq!(state_after_task_event(State::Running, &created), State::Running);
}

#[test]
fn subtask_outcomes() {
    match subtask_reaction(SubtaskOutcome::Failed("bad".to_string())) {
        SubtaskReaction::AbortAllAndFail(m) => assert_eq!(m, "Instance sub task crash: bad"),
        other => panic!("unexpected {:?}", other),
    }
    assert!(matches!(subtask_reaction(SubtaskOutcome::Completed), SubtaskReaction::Continue));
    assert!(matches!(
        subtask_reaction(SubtaskOutcome::JoinFailed("x".to_string())),
        SubtaskReaction::Continue
    ));
}

#[test]
fn queues_are_fifo() {
    let mut q = DataQueue::new();
    q.push(1);
    q.push(2);
    assert_eq!(q.len(), 2);
    assert_eq!(q.pop(), Some(1));
    assert_eq!(q.pop(), Some(2));
    assert_eq!(q.pop(), None);

    let mut c = CommandQueue::new();
    assert_eq!(c.pop_cmd(), None::<String>);
    c.on_message("a".to_string());
    c.on_message("b".to_string());
    assert_eq!(c.pop_cmd(), Some("a".to_string()));
    assert_eq!(c.get_last_cmd(), Some("a".to_string()));
    assert_eq!(c.pop_cmd(), Some("b".to_string()));
    assert_eq!(c.pop_cmd(), None);
    assert_eq!(c.get_last_cmd(), Some("b".to_string()));
}

#[test]
fn callback_registry() {
    let mut r = CallbackRegistry::new();
    let a = r.add_callback("first");
    let b = r.add_callback("second");
    assert_eq!((a, b), (0, 1));
    assert_eq!(r.callback_count(), 2);
    assert!(r.remove_callback(a));
    assert!(!r.remove_callback(a));
    assert_eq!(r.callback_count(), 1);
    r.clear_callbacks();
    assert_eq!(r.callback_count(), 0);
    assert_eq!(r.add_callback("third"), 2);
    assert!(should_trigger(None));
    assert!(should_trigger(Some(true)));
    assert!(!should_trigger(Some(false)));
}

#[test]
fn callback_entry_debug() {
    let e: CallbackEntry<u8, u8> = CallbackEntry { callback: 0, condition: None };
    assert_eq!(
        e.debug_text(),
        "CallbackEntry { callback: \"<async callback function>\", condition: \"None\" }"
    );
    let e: CallbackEntry<u8, u8> = CallbackEntry { callback: 0, condition: Some(1) };
    assert_eq!(
        e.debug_text(),
        "CallbackEntry { callback: \"<async callback function>\", condition: \"<condition function>\" }"
    );
}

#[test]
fn enum_choices() {
    let choices = vec!["low".to_string(), "high".to_string()];
    assert!(is_choice("high", &choices));
    assert!(!is_choice("mid", &choices));
    assert_eq!(check_choice("low".to_string(), &choices).unwrap(), "low");
    match check_choice("mid".to_string(), &choices) {
        Err(Error::EnumOutOfChoices(m)) => assert_eq!(m, "\"mid\" is not in [\"low\", \"high\"]"),
        other => panic!("unexpected {:?}", other),
    }
    assert_eq!(debug_string_list(&vec![]), "[]");
}

#[test]
fn topics() {
    assert_eq!(root_topic(None, &None), "pza");
    assert_eq!(root_topic(Some("lab".to_string()), &Some("other".to_string())), "lab/pza");
    assert_eq!(root_topic(None, &Some("eng".to_string())), "eng/pza");
    assert_eq!(root_topic(Some("".to_string()), &None), "pza");
    assert_eq!(name(&"lab/pza/dev1".to_string()), "dev1");
    assert_eq!(name(&"single".to_string()), "single");
    assert_eq!(join_topic("lab/pza", "dev"), "lab/pza/dev");
    assert_eq!(cmd_topic("a/b"), "a/b/cmd");
    assert_eq!(att_topic("a/b"), "a/b/att");
    assert_eq!(topic_prefixless(&"ns/pza/x".to_string(), &Some("ns".to_string())), "*/pza/x");
    assert_eq!(topic_prefixless(&"ns/pza/x".to_string(), &Some("".to_string())), "ns/pza/x");
    assert_eq!(topic_prefixless(&"ns/pza/x".to_string(), &None), "ns/pza/x");
    assert_eq!(topic_prefixless(&"q/x".to_string(), &Some("ns".to_string())), "*q/x");
}

#[test]
fn enum_commands_come_out_decoded_in_order() {
    let mut q: DataQueue<String> = DataQueue::new();
    assert_eq!(q.push_enum_command("\"AUTO\"".to_string()), "AUTO");
    q.push_enum_command("AUTO".to_string());
    q.push_enum_command("\"MAN\"".to_string());
    assert_eq!(q.pop(), Some("AUTO".to_string()));
    assert_eq!(q.pop(), Some("AUTO".to_string()));
    assert_eq!(q.pop(), Some("MAN".to_string()));
    assert_eq!(q.pop(), None);
}

#[test]
fn callback_count_after_clear_is_adds_minus_removes() {
    let mut r = CallbackRegistry::new();
    r.add_callback(1u8);
    r.clear_callbacks();
    let a = r.add_callback(2);
    let b = r.add_callback(3);
    let c = r.add_callback(4);
    assert_eq!((a, b, c), (1, 2, 3));
    assert!(r.remove_callback(b));
    assert!(!r.remove_callback(b));
    assert_eq!(r.callback_count(), 3 - 1);
}

#[test]
fn instance_name_from_topic() {
    let topic = join_topic(&root_topic(Some("lab".to_string()), &None), "dev1");
    assert_eq!(topic, "lab/pza/dev1");
    assert_eq!(name(&topic), "dev1");
}
