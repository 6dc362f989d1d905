use prettier_process::cli::{file_name, handler, Cli, ComList, Task};

#[test]
fn list_goes_to_the_console_or_to_its_file() {
    let plan = handler(Cli { command: ComList::List { json: false, file: false } });
    assert_eq!(plan.task, Task::List);
    assert!(!plan.json);
    assert_eq!(plan.file, None);
    let plan = handler(Cli { command: ComList::List { json: true, file: false } });
    assert!(plan.json);
    assert_eq!(plan.file, None);
    let plan = handler(Cli { command: ComList::List { json: true, file: true } });
    assert_eq!(plan.file.as_deref(), Some("./processes.json"));
    let plan = handler(Cli { command: ComList::List { json: false, file: true } });
    assert_eq!(plan.file.as_deref(), Some("./processes.txt"));
}

#[test]
fn statistics_go_to_their_file() {
    let plan = handler(Cli { command: ComList::Stats { json: true, file: true } });
    assert_eq!(plan.task, Task::Stats);
    assert!(plan.json);
    assert_eq!(plan.file.as_deref(), Some("./statistics.json"));
    let plan = handler(Cli { command: ComList::Stats { json: false, file: true } });
    assert!(!plan.json);
    assert_eq!(plan.file.as_deref(), Some("./statistics.txt"));
    let plan = handler(Cli { command: ComList::Stats { json: false, file: false } });
    assert_eq!(plan.file, None);
}

#[test]
fn record_of_a_process_goes_to_a_file_named_after_it() {
    let plan =
        handler(Cli { command: ComList::Pinfo { pid: 4242, json: true, file: true, all: false } });
    assert_eq!(plan.task, Task::Pinfo { pid: 4242, all: false });
    assert_eq!(plan.file.as_deref(), Some("./processes_4242_info.json"));
    let plan =
        handler(Cli { command: ComList::Pinfo { pid: 4242, json: false, file: true, all: false } });
    assert_eq!(plan.file.as_deref(), Some("./processes_4242_info.txt"));
    let plan =
        handler(Cli { command: ComList::Pinfo { pid: 7, json: true, file: true, all: true } });
    assert_eq!(plan.task, Task::Pinfo { pid: 7, all: true });
    assert_eq!(plan.file.as_deref(), Some("./processes_7_all_info.json"));
    let plan =
        handler(Cli { command: ComList::Pinfo { pid: 0, json: false, file: true, all: true } });
    assert_eq!(plan.file.as_deref(), Some("./processes_0_all_info.txt"));
    let plan =
        handler(Cli { command: ComList::Pinfo { pid: 7, json: true, file: false, all: true } });
    assert_eq!(plan.file, None);
    assert!(plan.json);
}

#[test]
fn following_a_process_goes_to_the_console() {
    let plan = handler(Cli { command: ComList::Live { pid: 12, json: true } });
    assert_eq!(plan.task, Task::Live { pid: 12 });
    assert!(plan.json);
    assert_eq!(plan.file, None);
    let plan = handler(Cli { command: ComList::Live { pid: 12, json: false } });
    assert!(!plan.json);
    assert_eq!(plan.file, None);
    assert_eq!(file_name(Task::Live { pid: 12 }, true), None);
}

#[test]
fn file_names_hold_the_whole_number() {
    let name = file_name(Task::Pinfo { pid: usize::MAX, all: false }, false).unwrap();
    assert_eq!(name, format!("./processes_{}_info.txt", usize::MAX));
}
