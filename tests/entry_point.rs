use rust_module::entry::{step, Action, Message, ModuleTask, Phase, INIT_NO_TABLE, INIT_OK, TICK_INTERVAL_MS};
use rust_module::table::{AikaApi, Capability, DeviceApi, KernelApi, ModuleInfo, ThisTaskApi};

fn cap(present: bool) -> Capability {
    if present {
        Capability::Present
    } else {
        Capability::Absent
    }
}

fn table(write: bool, sleep: bool) -> AikaApi {
    AikaApi {
        module: ModuleInfo::new(0x8000_0000, 0x4000),
        memory: [1, 2, 3],
        kernel: KernelApi { add_task: Capability::Absent },
        device: DeviceApi { uart_read: Capability::Absent, uart_write: cap(write) },
        this_task: ThisTaskApi { sleep: cap(sleep), yield_: Capability::Absent },
        fpu: [4, 5],
    }
}

fn run(api: AikaApi, n: usize) -> Vec<Action> {
    let mut task = ModuleTask::enter(api);
    (0..n).map(|_| task.resume()).collect()
}

#[test]
fn all_absent_returns_success_code() {
    let actions = run(table(false, false), 5);
    for a in actions {
        assert_eq!(a, Action::Return { code: INIT_OK });
    }
    assert_eq!(INIT_OK, 0);
}

#[test]
fn write_without_sleep_greets_once_then_returns() {
    let actions = run(table(true, false), 6);
    assert_eq!(actions[0], Action::Write { message: Message::Greeting });
    for a in &actions[1..] {
        assert_eq!(*a, Action::Return { code: 0 });
    }
    let writes = actions.iter().filter(|a| matches!(a, Action::Write { .. })).count();
    assert_eq!(writes, 1);
}

#[test]
fn write_and_sleep_tick_forever_in_order() {
    let actions = run(table(true, true), 41);
    assert_eq!(actions[0], Action::Write { message: Message::Greeting });
    for k in 0..20 {
        assert_eq!(actions[1 + 2 * k], Action::Write { message: Message::Tick });
        assert_eq!(actions[2 + 2 * k], Action::Sleep { ms: 1000 });
    }
    assert!(actions.iter().all(|a| !matches!(a, Action::Return { .. })));
    assert_eq!(TICK_INTERVAL_MS, 1000);
}

#[test]
fn sleep_without_write_only_sleeps() {
    let actions = run(table(false, true), 10);
    for a in actions {
        assert_eq!(a, Action::Sleep { ms: 1000 });
    }
}

#[test]
fn descriptor_reads_back_unchanged() {
    let info = ModuleInfo::new(0x1234_5000, 0x2_0000);
    assert_eq!(info.module_base(), 0x1234_5000);
    assert_eq!(info.module_size(), 0x2_0000);
    let mut api = table(true, true);
    api.module = info;
    assert_eq!(api.module_info(), info);
    let mut task = ModuleTask::enter(api);
    for _ in 0..25 {
        task.resume();
        assert_eq!(task.module_info().module_base(), 0x1234_5000);
        assert_eq!(task.module_info().module_size(), 0x2_0000);
    }
}

#[test]
fn presence_test_twice_gives_same_answer() {
    let c = Capability::Absent;
    assert!(!c.is_present());
    assert!(!c.is_present());
    assert_eq!(c, Capability::Absent);
    let p = Capability::Present;
    assert!(p.is_present());
    assert!(p.is_present());
}

#[test]
fn message_bytes_include_closing_nul() {
    assert_eq!(Message::Greeting.text().as_bytes(), b"\r\nHello from Rust module!\r\n\0");
    assert_eq!(Message::Greeting.text().len(), 28);
    assert_eq!(Message::Tick.text().as_bytes(), b"Tick from Rust module\r\n\0");
}

#[test]
fn step_decides_from_each_phase() {
    let api = table(true, true);
    assert_eq!(step(&api, Phase::Entry), (Phase::Loop, Action::Write { message: Message::Greeting }));
    assert_eq!(step(&api, Phase::Loop), (Phase::Ticked, Action::Write { message: Message::Tick }));
    assert_eq!(step(&api, Phase::Ticked), (Phase::Loop, Action::Sleep { ms: 1000 }));
    let quiet = table(false, false);
    assert_eq!(step(&quiet, Phase::Entry), (Phase::Returned { code: 0 }, Action::Return { code: 0 }));
    assert_eq!(
        step(&quiet, Phase::Returned { code: INIT_NO_TABLE }),
        (Phase::Returned { code: -1 }, Action::Return { code: -1 })
    );
}

#[test]
fn phase_advances_with_resume() {
    let mut task = ModuleTask::enter(table(true, false));
    assert_eq!(task.phase(), Phase::Entry);
    task.resume();
    assert_eq!(task.phase(), Phase::Loop);
    task.resume();
    assert_eq!(task.phase(), Phase::Returned { code: 0 });
}
