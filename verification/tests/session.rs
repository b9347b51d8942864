use cube_demo::command::{GlCommand, ShaderKind, BufferKind};
use cube_demo::guard::{InitGuard, MountGate};
use cube_demo::setup::{
    initial_setup_state, setup_step, SetupError, SetupEvent, SetupState, SURFACE_WIDTH,
    SURFACE_HEIGHT, ATTRIBUTE_COMPONENTS,
};
use cube_demo::frame::{FrameState, DRAW_INDEX_COUNT, LOG_PERIOD};

#[test]
fn mount_gate_is_level_triggered() {
    let mut gate = MountGate::new();
    assert!(!gate.mounted());
    gate.record_mount();
    assert!(gate.mounted());
    gate.record_mount();
    assert!(gate.mounted());
}

#[test]
fn init_guard_grants_exactly_once() {
    let mut guard = InitGuard::new();
    assert!(!guard.initialized());
    assert!(guard.try_acquire());
    assert!(guard.initialized());
    // The second and every later attempt is refused: setup side effects
    // can happen at most once however often the mount signal fires.
    assert!(!guard.try_acquire());
    assert!(!guard.try_acquire());
    assert!(guard.initialized());
}

#[test]
fn successful_setup_walks_every_stage() {
    let s0 = initial_setup_state();
    assert_eq!(s0, SetupState::AwaitContext);

    let (s1, cmds1) = setup_step(s0, SetupEvent::ContextAcquired { ok: true });
    assert_eq!(s1, SetupState::AwaitVertexCompile);
    let expected1: Vec<GlCommand> = vec![
        GlCommand::SetSurfaceSize { width: SURFACE_WIDTH, height: SURFACE_HEIGHT },
        GlCommand::SetViewport { width: SURFACE_WIDTH, height: SURFACE_HEIGHT },
        GlCommand::DisableDepthTest,
        GlCommand::DisableCullFace,
        GlCommand::CompileShader { kind: ShaderKind::Vertex },
    ];
    assert_eq!(cmds1, expected1);

    let (s2, cmds2) = setup_step(s1, SetupEvent::VertexShaderCompiled { ok: true });
    assert_eq!(s2, SetupState::AwaitFragmentCompile);
    assert_eq!(cmds2, vec![GlCommand::CompileShader { kind: ShaderKind::Fragment }]);

    let (s3, cmds3) = setup_step(s2, SetupEvent::FragmentShaderCompiled { ok: true });
    assert_eq!(s3, SetupState::AwaitLink);
    assert_eq!(cmds3, vec![GlCommand::LinkProgram]);

    let (s4, cmds4) = setup_step(s3, SetupEvent::ProgramLinked { ok: true });
    assert_eq!(s4, SetupState::AwaitAttributes);
    let expected4: Vec<GlCommand> = vec![
        GlCommand::UseProgram,
        GlCommand::UploadBuffer { buffer: BufferKind::Position },
        GlCommand::UploadBuffer { buffer: BufferKind::Color },
        GlCommand::UploadBuffer { buffer: BufferKind::Index },
        GlCommand::ResolveAttributes,
    ];
    assert_eq!(cmds4, expected4);

    let (s5, cmds5) = setup_step(
        s4,
        SetupEvent::AttributesResolved { position_slot: 0, color_slot: 1 },
    );
    assert_eq!(s5, SetupState::Ready);
    let expected5: Vec<GlCommand> = vec![
        GlCommand::EnableAttribute { slot: 0 },
        GlCommand::SetAttributeLayout { slot: 0, components: ATTRIBUTE_COMPONENTS },
        GlCommand::EnableAttribute { slot: 1 },
        GlCommand::SetAttributeLayout { slot: 1, components: ATTRIBUTE_COMPONENTS },
        GlCommand::ScheduleNextFrame,
    ];
    assert_eq!(cmds5, expected5);
}

#[test]
fn context_failure_aborts_with_no_commands() {
    let (state, cmds) = setup_step(
        SetupState::AwaitContext,
        SetupEvent::ContextAcquired { ok: false },
    );
    assert_eq!(state, SetupState::Failed { error: SetupError::ContextAcquisition });
    assert!(cmds.is_empty());
    // Even after further (stray) events, nothing is created: no shader
    // is compiled and no buffer uploaded.
    let (state2, cmds2) = setup_step(state, SetupEvent::VertexShaderCompiled { ok: true });
    assert_eq!(state2, SetupState::Failed { error: SetupError::ContextAcquisition });
    assert!(cmds2.is_empty());
}

#[test]
fn vertex_compile_failure_aborts() {
    let (state, cmds) = setup_step(
        SetupState::AwaitVertexCompile,
        SetupEvent::VertexShaderCompiled { ok: false },
    );
    assert_eq!(state, SetupState::Failed { error: SetupError::VertexShaderCompile });
    assert!(cmds.is_empty());
}

#[test]
fn fragment_compile_failure_aborts() {
    let (state, cmds) = setup_step(
        SetupState::AwaitFragmentCompile,
        SetupEvent::FragmentShaderCompiled { ok: false },
    );
    assert_eq!(state, SetupState::Failed { error: SetupError::FragmentShaderCompile });
    assert!(cmds.is_empty());
}

#[test]
fn link_failure_aborts() {
    let (state, cmds) = setup_step(SetupState::AwaitLink, SetupEvent::ProgramLinked { ok: false });
    assert_eq!(state, SetupState::Failed { error: SetupError::ProgramLink });
    assert!(cmds.is_empty());
}

#[test]
fn negative_attribute_slot_aborts_before_any_binding() {
    let (state, cmds) = setup_step(
        SetupState::AwaitAttributes,
        SetupEvent::AttributesResolved { position_slot: -1, color_slot: 1 },
    );
    assert_eq!(state, SetupState::Failed { error: SetupError::AttributeResolution });
    assert!(cmds.is_empty());

    let (state2, cmds2) = setup_step(
        SetupState::AwaitAttributes,
        SetupEvent::AttributesResolved { position_slot: 0, color_slot: -3 },
    );
    assert_eq!(state2, SetupState::Failed { error: SetupError::AttributeResolution });
    assert!(cmds2.is_empty());
}

#[test]
fn out_of_turn_event_is_a_no_op() {
    let (state, cmds) = setup_step(
        SetupState::AwaitContext,
        SetupEvent::ProgramLinked { ok: true },
    );
    assert_eq!(state, SetupState::AwaitContext);
    assert!(cmds.is_empty());
}

#[test]
fn each_tick_issues_exactly_one_draw_call_of_36_indices() {
    let mut frame = FrameState::new();
    for _ in 0..10 {
        let cmds = frame.tick();
        let draws: Vec<&GlCommand> = cmds
            .iter()
            .filter(|c| matches!(c, GlCommand::DrawTriangles { .. }))
            .collect();
        assert_eq!(draws.len(), 1);
        assert_eq!(*draws[0], GlCommand::DrawTriangles { index_count: DRAW_INDEX_COUNT });
        assert_eq!(DRAW_INDEX_COUNT, 36);
    }
}

#[test]
fn tick_commands_come_in_the_fixed_order() {
    let mut frame = FrameState::new();
    let cmds = frame.tick();
    let expected: Vec<GlCommand> = vec![
        GlCommand::ClearFrame {
            red_tenths: 1,
            green_tenths: 1,
            blue_tenths: 1,
            alpha_tenths: 10,
        },
        GlCommand::SetTransformUniform { angle_centiradians: 0 },
        GlCommand::BindIndexBuffer,
        GlCommand::DrawTriangles { index_count: 36 },
        GlCommand::CheckErrors,
        GlCommand::ScheduleNextFrame,
    ];
    assert_eq!(cmds, expected);
}

#[test]
fn angle_is_two_hundredths_of_a_radian_per_tick() {
    // Fixed start of 0.0 and increment of 0.02 radians: after N ticks
    // the angle is 0.02 * N radians, i.e. 2 * N hundredths.
    let mut frame = FrameState::new();
    assert_eq!(frame.tick_count(), 0);
    assert_eq!(frame.angle(), 0);
    for n in 1u64..=100 {
        frame.tick();
        assert_eq!(frame.tick_count(), n);
        assert_eq!(frame.angle(), 2 * n);
    }
}

#[test]
fn every_sixtieth_frame_logs_a_diagnostic() {
    let mut frame = FrameState::new();
    for n in 1u64..=120 {
        let cmds = frame.tick();
        let logs: Vec<&GlCommand> = cmds
            .iter()
            .filter(|c| matches!(c, GlCommand::LogFrame { .. }))
            .collect();
        if n % LOG_PERIOD == 0 {
            assert_eq!(logs.len(), 1);
            assert_eq!(*logs[0], GlCommand::LogFrame { frame: n });
            // The log line comes first, before the frame is cleared.
            assert_eq!(cmds[0], GlCommand::LogFrame { frame: n });
        } else {
            assert!(logs.is_empty());
        }
    }
}

#[test]
fn uniform_upload_carries_the_current_angle() {
    let mut frame = FrameState::new();
    for n in 0u64..5 {
        let cmds = frame.tick();
        let uniform: Vec<&GlCommand> = cmds
            .iter()
            .filter(|c| matches!(c, GlCommand::SetTransformUniform { .. }))
            .collect();
        assert_eq!(uniform.len(), 1);
        // The matrix uploaded in tick n+1 is for the angle before the
        // advance: 0.02 * n radians.
        assert_eq!(*uniform[0], GlCommand::SetTransformUniform { angle_centiradians: 2 * n });
    }
}
