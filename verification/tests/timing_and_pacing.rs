use doom_host::context::ExecutionContext;
use doom_host::errors::HostError;
use doom_host::linker::allocate_shared_memory;
use doom_host::pacing::{advance, next_action, CallOutcome, LoopAction, LoopState,
    STEP_INTERVAL_MICROS};
use doom_host::timing::truncate_millis;
use wasmer::sys::{BaseTunables, NativeEngineExt};
use wasmer::{Engine, Pages, Store};

/// A store whose linear memories use the dynamic style, keeping the
/// virtual-address reservation close to the actual memory size.
fn host_store() -> Store {
    let mut engine = Engine::default();
    engine.set_tunables(BaseTunables {
        static_memory_bound: Pages(0),
        static_memory_offset_guard_size: 0x1_0000,
        dynamic_memory_offset_guard_size: 0x1_0000,
    });
    Store::new(engine)
}

#[test]
fn truncate_small_counts_pass_through() {
    assert_eq!(truncate_millis(0), 0);
    assert_eq!(truncate_millis(123), 123);
    assert_eq!(truncate_millis(2147483647), 2147483647);
}

#[test]
fn truncate_wraps_silently_at_32_bits() {
    assert_eq!(truncate_millis(2147483648), i32::MIN);
    assert_eq!(truncate_millis(4294967295), -1);
    assert_eq!(truncate_millis(4294967296), 0);
    assert_eq!(truncate_millis(4294967296 + 5), 5);
    assert_eq!(truncate_millis(u128::MAX), -1);
}

#[test]
fn elapsed_starts_near_zero_and_never_decreases() {
    let mut store = host_store();
    let memory = allocate_shared_memory(&mut store).unwrap();
    let ctx = ExecutionContext::new(memory);
    let first = ctx.elapsed_milliseconds();
    let second = ctx.elapsed_milliseconds();
    assert!(first >= 0);
    assert!(first < 50);
    assert!(second >= first);
}

#[test]
fn uninitialized_state_invokes_main_with_empty_arguments() {
    let a = next_action(&LoopState::Uninitialized);
    assert_eq!(a, LoopAction::InvokeMain { argc: 0, argv: 0 });
}

#[test]
fn running_state_steps_with_the_fixed_pause() {
    let a = next_action(&LoopState::Running);
    assert_eq!(a, LoopAction::InvokeStep { pause_micros: 16667 });
}

#[test]
fn completed_calls_keep_the_loop_running_and_traps_end_it() {
    assert_eq!(
        advance(&LoopState::Uninitialized, &CallOutcome::Completed),
        Ok(LoopState::Running)
    );
    assert_eq!(advance(&LoopState::Running, &CallOutcome::Completed), Ok(LoopState::Running));
    assert_eq!(
        advance(&LoopState::Running, &CallOutcome::Trapped),
        Err(HostError::GuestTrap)
    );
    assert_eq!(
        advance(&LoopState::Uninitialized, &CallOutcome::Trapped),
        Err(HostError::GuestTrap)
    );
}

#[test]
fn six_hundred_iterations_schedule_about_ten_seconds() {
    let mut state = LoopState::Running;
    let mut total_micros: u64 = 0;
    let mut iterations: u64 = 0;
    while iterations < 600 {
        match next_action(&state) {
            LoopAction::InvokeStep { pause_micros } => {
                total_micros += pause_micros;
                state = advance(&state, &CallOutcome::Completed).unwrap();
            }
            LoopAction::InvokeMain { .. } => panic!("running loop must not re-run main"),
        }
        iterations += 1;
    }
    assert_eq!(total_micros, 600 * STEP_INTERVAL_MICROS);
    let ten_seconds: u64 = 10_000_000;
    let drift = total_micros.abs_diff(ten_seconds);
    assert!(drift <= 50_000);
}
