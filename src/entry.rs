use vstd::prelude::*;
use crate::table::{AikaApi, ModuleInfo};

verus! {

/// The code the entry point returns after a one-shot initialisation.
pub const INIT_OK: i32 = 0;

/// The code the entry point returns when it is handed no table at all.
pub const INIT_NO_TABLE: i32 = -1;

/// How long the resident task sleeps after each tick, in milliseconds.
pub const TICK_INTERVAL_MS: u32 = 1000;

/// What the module writes to the console.
#[derive(Clone, Copy, Debug, PartialEq, Eq, Structural)]
pub enum Message {
    /// Written once, on entry.
    Greeting,
    /// Written on every round of the resident loop.
    Tick,
}

impl Message {
    /// The bytes of the message, its closing NUL included.
    pub open spec fn spec_text(self) -> Seq<char> {
        match self {
            Message::Greeting => "\r\nHello from Rust module!\r\n\0"@,
            Message::Tick => "Tick from Rust module\r\n\0"@,
        }
    }

    pub fn text(&self) -> (r: &'static str)
        ensures
            r@ == self.spec_text(),
    {
        match self {
            Message::Greeting => "\r\nHello from Rust module!\r\n\0",
            Message::Tick => "Tick from Rust module\r\n\0",
        }
    }
}

/// One call that the module makes through the table, or its return.
#[derive(Clone, Copy, Debug, PartialEq, Eq, Structural)]
pub enum Action {
    /// Call `uart_write` with the message's bytes.
    Write { message: Message },
    /// Call `sleep` for this many milliseconds.
    Sleep { ms: u32 },
    /// Return this code from the entry point.
    Return { code: i32 },
}

/// Where the entry point stands between two actions.
#[derive(Clone, Copy, Debug, PartialEq, Eq, Structural)]
pub enum Phase {
    /// Just entered; nothing done yet.
    Entry,
    /// At the top of the resident loop (or, without `sleep`, about to return).
    Loop,
    /// The tick of this round is written; the sleep comes next.
    Ticked,
    /// Returned with this code; nothing more happens.
    Returned { code: i32 },
}

/// The decision at the top of the loop: with `sleep`, one more round
/// (a tick if the console can be written, then the sleep); without it, return.
pub open spec fn loop_round(api: AikaApi) -> (Phase, Action) {
    if api.this_task.sleep.present() {
        if api.device.uart_write.present() {
            (Phase::Ticked, Action::Write { message: Message::Tick })
        } else {
            (Phase::Loop, Action::Sleep { ms: TICK_INTERVAL_MS })
        }
    } else {
        (Phase::Returned { code: INIT_OK }, Action::Return { code: INIT_OK })
    }
}

/// From a phase, the next action and the phase after it.
pub open spec fn next(api: AikaApi, phase: Phase) -> (Phase, Action) {
    match phase {
        Phase::Entry => {
            if api.device.uart_write.present() {
                (Phase::Loop, Action::Write { message: Message::Greeting })
            } else {
                loop_round(api)
            }
        },
        Phase::Loop => loop_round(api),
        Phase::Ticked => (Phase::Loop, Action::Sleep { ms: TICK_INTERVAL_MS }),
        Phase::Returned { code } => (Phase::Returned { code }, Action::Return { code }),
    }
}

/// The phase after the first `n` actions of an entry on `api`.
pub open spec fn phase_after(api: AikaApi, n: nat) -> Phase
    decreases n,
{
    if n == 0 {
        Phase::Entry
    } else {
        next(api, phase_after(api, (n - 1) as nat)).0
    }
}

/// The action with index `n` (from 0) of an entry on `api`.
pub open spec fn action_at(api: AikaApi, n: nat) -> Action {
    next(api, phase_after(api, n)).1
}

/// Takes one decision: from the table and the current phase, the next
/// action and the phase after it. Each capability is tested before an
/// action that uses it is chosen.
pub fn step(api: &AikaApi, phase: Phase) -> (r: (Phase, Action))
    ensures
        r == next(*api, phase),
{
    match phase {
        Phase::Entry => {
            if api.device.uart_write.is_present() {
                (Phase::Loop, Action::Write { message: Message::Greeting })
            } else {
                step_loop(api)
            }
        },
        Phase::Loop => step_loop(api),
        Phase::Ticked => (Phase::Loop, Action::Sleep { ms: TICK_INTERVAL_MS }),
        Phase::Returned { code } => (Phase::Returned { code }, Action::Return { code }),
    }
}

fn step_loop(api: &AikaApi) -> (r: (Phase, Action))
    ensures
        r == loop_round(*api),
{
    if api.this_task.sleep.is_present() {
        if api.device.uart_write.is_present() {
            (Phase::Ticked, Action::Write { message: Message::Tick })
        } else {
            (Phase::Loop, Action::Sleep { ms: TICK_INTERVAL_MS })
        }
    } else {
        (Phase::Returned { code: INIT_OK }, Action::Return { code: INIT_OK })
    }
}

/// A module instance: the table it was entered with, which it only reads,
/// and where its entry point stands.
pub struct ModuleTask {
    api: AikaApi,
    phase: Phase,
}

impl ModuleTask {
    /// The table the module was entered with.
    pub closed spec fn table(self) -> AikaApi {
        self.api
    }

    /// Where the entry point stands.
    pub closed spec fn spec_phase(self) -> Phase {
        self.phase
    }

    /// Enters the module with a fully built table.
    pub fn enter(api: AikaApi) -> (r: ModuleTask)
        ensures
            r.table() == api,
            r.spec_phase() == Phase::Entry,
    {
        ModuleTask { api, phase: Phase::Entry }
    }

    /// Runs the entry point up to its next action, and returns that action.
    /// The table is left as it was.
    pub fn resume(&mut self) -> (r: Action)
        ensures
            final(self).table() == old(self).table(),
            final(self).spec_phase() == next(old(self).table(), old(self).spec_phase()).0,
            r == next(old(self).table(), old(self).spec_phase()).1,
    {
        let (phase, action) = step(&self.api, self.phase);
        self.phase = phase;
        action
    }

    /// Where the entry point stands.
    pub fn phase(&self) -> (r: Phase)
        ensures
            r == self.spec_phase(),
    {
        self.phase
    }

    /// The module descriptor of the table, as the loader filled it in.
    pub fn module_info(&self) -> (r: ModuleInfo)
        ensures
            r == self.table().module,
    {
        self.api.module_info()
    }
}

} // verus!
