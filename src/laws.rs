//! What holds of every run of the entry point, and of the table around it.
use vstd::prelude::*;
use crate::table::{AikaApi, Capability, ModuleInfo};
use crate::entry::{
    action_at, next, phase_after, Action, Message, ModuleTask, Phase, INIT_OK,
    TICK_INTERVAL_MS,
};

verus! {

proof fn lemma_reachable_ticked_needs_sleep(api: AikaApi, n: nat)
    ensures
        phase_after(api, n) is Ticked ==> api.this_task.sleep.present()
            && api.device.uart_write.present(),
    decreases n,
{
    if n > 0 {
        lemma_reachable_ticked_needs_sleep(api, (n - 1) as nat);
    }
}

/// Along a run, every write goes through a present `uart_write` and every
/// sleep through a present `sleep`.
pub proof fn lemma_run_uses_present_capabilities(api: AikaApi, n: nat)
    ensures
        action_at(api, n) is Write ==> api.device.uart_write.present(),
        action_at(api, n) is Sleep ==> api.this_task.sleep.present(),
{
    lemma_reachable_ticked_needs_sleep(api, n);
}

proof fn lemma_no_sleep_phases(api: AikaApi, n: nat)
    requires
        !api.this_task.sleep.present(),
    ensures
        n >= 2 ==> phase_after(api, n) == (Phase::Returned { code: INIT_OK }),
        n == 1 ==> phase_after(api, n) == (if api.device.uart_write.present() {
            Phase::Loop
        } else {
            Phase::Returned { code: INIT_OK }
        }),
    decreases n,
{
    if n > 0 {
        lemma_no_sleep_phases(api, (n - 1) as nat);
    }
}

/// Without `sleep` the entry point returns: its first action is the greeting
/// where `uart_write` is present and the return otherwise, and every later
/// action is the return with the success code. So at most one write comes.
pub proof fn lemma_without_sleep_returns(api: AikaApi)
    requires
        !api.this_task.sleep.present(),
    ensures
        action_at(api, 0) == (if api.device.uart_write.present() {
            Action::Write { message: Message::Greeting }
        } else {
            Action::Return { code: INIT_OK }
        }),
        forall|n: nat| n >= 1 ==> #[trigger] action_at(api, n) == (Action::Return { code: INIT_OK }),
{
    assert forall|n: nat| n >= 1 implies #[trigger] action_at(api, n) == (Action::Return {
        code: INIT_OK,
    }) by {
        lemma_no_sleep_phases(api, n);
    }
}

/// With every capability absent, the entry point does nothing but return
/// the success code.
pub proof fn lemma_all_absent_returns(api: AikaApi)
    requires
        api.all_absent(),
    ensures
        forall|n: nat| #[trigger] action_at(api, n) == (Action::Return { code: INIT_OK }),
{
    lemma_without_sleep_returns(api);
}

/// With `uart_write` present and `sleep` absent, the entry point writes the
/// greeting once and then returns the success code.
pub proof fn lemma_write_without_sleep_greets_and_returns(api: AikaApi)
    requires
        api.device.uart_write.present(),
        !api.this_task.sleep.present(),
    ensures
        action_at(api, 0) == (Action::Write { message: Message::Greeting }),
        forall|n: nat| n >= 1 ==> #[trigger] action_at(api, n) == (Action::Return { code: INIT_OK }),
{
    lemma_without_sleep_returns(api);
}

proof fn lemma_resident_phases(api: AikaApi, k: nat)
    requires
        api.device.uart_write.present(),
        api.this_task.sleep.present(),
    ensures
        phase_after(api, 1 + 2 * k) == Phase::Loop,
        phase_after(api, 2 + 2 * k) == Phase::Ticked,
    decreases k,
{
    if k > 0 {
        lemma_resident_phases(api, (k - 1) as nat);
        assert(phase_after(api, 1 + 2 * k) == next(api, phase_after(api, (2 * k) as nat)).0);
        assert(phase_after(api, 2 + 2 * k) == next(api, phase_after(api, 1 + 2 * k)).0);
    }
}

/// With `uart_write` and `sleep` both present, the entry point writes the
/// greeting, then forever writes a tick and sleeps, the tick of each round
/// before its sleep, and never returns.
pub proof fn lemma_resident_ticks_then_sleeps(api: AikaApi)
    requires
        api.device.uart_write.present(),
        api.this_task.sleep.present(),
    ensures
        action_at(api, 0) == (Action::Write { message: Message::Greeting }),
        forall|k: nat| #[trigger] action_at(api, 1 + 2 * k) == (Action::Write { message: Message::Tick }),
        forall|k: nat| #[trigger] action_at(api, 2 + 2 * k) == (Action::Sleep { ms: TICK_INTERVAL_MS }),
        forall|n: nat| !(#[trigger] action_at(api, n) is Return),
{
    assert forall|k: nat| #[trigger] action_at(api, 1 + 2 * k) == (Action::Write {
        message: Message::Tick,
    }) by {
        lemma_resident_phases(api, k);
    }
    assert forall|k: nat| #[trigger] action_at(api, 2 + 2 * k) == (Action::Sleep {
        ms: TICK_INTERVAL_MS,
    }) by {
        lemma_resident_phases(api, k);
    }
    assert forall|n: nat| !(#[trigger] action_at(api, n) is Return) by {
        if n > 0 {
            let k = ((n - 1) / 2) as nat;
            lemma_resident_phases(api, k);
            if n % 2 == 1 {
                assert(n == 1 + 2 * k);
            } else {
                assert(n == 2 + 2 * k);
            }
        }
    }
}

proof fn lemma_sleep_phases(api: AikaApi, n: nat)
    requires
        api.this_task.sleep.present(),
    ensures
        n >= 1 ==> phase_after(api, n) is Loop || phase_after(api, n) is Ticked,
    decreases n,
{
    if n > 0 {
        lemma_sleep_phases(api, (n - 1) as nat);
    }
}

/// With `sleep` present the entry point never returns, and it yields to the
/// scheduler in every round: after the first action, of any two actions in
/// a row at least one is a sleep.
pub proof fn lemma_resident_always_yields(api: AikaApi)
    requires
        api.this_task.sleep.present(),
    ensures
        forall|n: nat| !(#[trigger] action_at(api, n) is Return),
        forall|n: nat| n >= 1 ==> #[trigger] action_at(api, n) is Sleep || action_at(api, n + 1) is Sleep,
{
    assert forall|n: nat| !(#[trigger] action_at(api, n) is Return) by {
        lemma_sleep_phases(api, n);
    }
    assert forall|n: nat| n >= 1 implies #[trigger] action_at(api, n) is Sleep || action_at(
        api,
        n + 1,
    ) is Sleep by {
        lemma_sleep_phases(api, n);
        lemma_sleep_phases(api, n + 1);
    }
}

/// The module descriptor reads back as it was passed in, however many steps
/// the module has taken: a run of tasks, each the resumption of the one
/// before, keeps the first task's descriptor throughout.
pub proof fn lemma_descriptor_kept(run: Seq<ModuleTask>)
    requires
        forall|i: int| 0 <= i < run.len() - 1 ==> #[trigger] run[i + 1].table() == run[i].table(),
    ensures
        forall|i: int| 0 <= i < run.len() ==> #[trigger] run[i].table().module == run[0].table().module,
    decreases run.len(),
{
    if run.len() > 1 {
        let front = run.drop_last();
        assert forall|i: int| 0 <= i < front.len() - 1 implies #[trigger] front[i + 1].table()
            == front[i].table() by {
            assert(run[i + 1].table() == run[i].table());
        }
        lemma_descriptor_kept(front);
        let j = run.len() - 2;
        assert(run[j + 1].table() == run[j].table());
        assert(front[j].table().module == front[0].table().module);
        assert forall|i: int| 0 <= i < run.len() implies #[trigger] run[i].table().module
            == run[0].table().module by {
            if i < run.len() - 1 {
                assert(front[i] == run[i]);
                assert(front[i].table().module == front[0].table().module);
            }
        }
    }
}

/// A descriptor built from a base and a size gives back that base and size.
pub proof fn lemma_descriptor_round_trip(base: usize, size: usize)
    ensures
        (ModuleInfo { module_base: base, module_size: size }).module_base == base,
        (ModuleInfo { module_base: base, module_size: size }).module_size == size,
{
}

/// A presence test reads the capability and nothing else, so its answer
/// depends on the capability alone: two tests of equal capabilities agree,
/// and an absent capability tests absent every time.
pub proof fn lemma_presence_test_repeatable(c: Capability)
    ensures
        forall|a: Capability, b: Capability| a == b ==> #[trigger] a.present() == #[trigger] b.present(),
        !c.present() <==> c == Capability::Absent,
{
}

} // verus!
