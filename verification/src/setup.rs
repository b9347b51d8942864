//! The one-time initializer as a state machine.
//!
//! Setup is a fixed sequence of steps — acquire a context, configure the
//! surface, compile two shaders, link them, upload the mesh buffers,
//! resolve and bind the vertex attributes — each of which can fail. The
//! host performs the graphics calls and reports each step's outcome as a
//! `SetupEvent`; `setup_step` decides the next state and the commands to
//! perform next. Any failure aborts the whole sequence: the machine
//! enters a terminal `Failed` state that issues no further commands.

use vstd::prelude::*;
use crate::command::{GlCommand, ShaderKind, BufferKind};
use crate::command::{is_attribute_binding, is_draw, draw_count, lemma_draw_count_concat,
    has_resource_creation, has_attribute_binding};

verus! {

/// Fixed pixel area of the drawing surface.
pub const SURFACE_WIDTH: u32 = 480;

pub const SURFACE_HEIGHT: u32 = 480;

/// Components per vertex attribute: three floats, tightly packed.
pub const ATTRIBUTE_COMPONENTS: u32 = 3;

#[derive(Clone, Copy, Debug, PartialEq, Eq, Structural)]
pub enum SetupError {
    /// The canvas handed back no drawing context.
    ContextAcquisition,
    /// The vertex shader did not compile.
    VertexShaderCompile,
    /// The fragment shader did not compile.
    FragmentShaderCompile,
    /// The two shaders did not link into a program.
    ProgramLink,
    /// An attribute name resolved to a negative slot.
    AttributeResolution,
}

#[derive(Clone, Copy, Debug, PartialEq, Eq, Structural)]
pub enum SetupState {
    /// Waiting for the host to acquire a drawing context.
    AwaitContext,
    /// Waiting for the vertex shader's compile result.
    AwaitVertexCompile,
    /// Waiting for the fragment shader's compile result.
    AwaitFragmentCompile,
    /// Waiting for the program's link result.
    AwaitLink,
    /// Waiting for the attribute slots to resolve.
    AwaitAttributes,
    /// Setup finished; the frame loop owns the context from here on.
    Ready,
    /// Setup aborted; no further commands are ever issued.
    Failed { error: SetupError },
}

#[derive(Clone, Copy, Debug, PartialEq, Eq, Structural)]
pub enum SetupEvent {
    ContextAcquired { ok: bool },
    VertexShaderCompiled { ok: bool },
    FragmentShaderCompiled { ok: bool },
    ProgramLinked { ok: bool },
    AttributesResolved { position_slot: i32, color_slot: i32 },
}

/// Next state of the setup machine. An event that does not answer the
/// pending step leaves the state unchanged.
pub open spec fn setup_next(s: SetupState, e: SetupEvent) -> SetupState {
    match (s, e) {
        (SetupState::AwaitContext, SetupEvent::ContextAcquired { ok }) => if ok {
            SetupState::AwaitVertexCompile
        } else {
            SetupState::Failed { error: SetupError::ContextAcquisition }
        },
        (SetupState::AwaitVertexCompile, SetupEvent::VertexShaderCompiled { ok }) => if ok {
            SetupState::AwaitFragmentCompile
        } else {
            SetupState::Failed { error: SetupError::VertexShaderCompile }
        },
        (SetupState::AwaitFragmentCompile, SetupEvent::FragmentShaderCompiled { ok }) => if ok {
            SetupState::AwaitLink
        } else {
            SetupState::Failed { error: SetupError::FragmentShaderCompile }
        },
        (SetupState::AwaitLink, SetupEvent::ProgramLinked { ok }) => if ok {
            SetupState::AwaitAttributes
        } else {
            SetupState::Failed { error: SetupError::ProgramLink }
        },
        (SetupState::AwaitAttributes, SetupEvent::AttributesResolved {
            position_slot,
            color_slot,
        }) => if position_slot >= 0 && color_slot >= 0 {
            SetupState::Ready
        } else {
            SetupState::Failed { error: SetupError::AttributeResolution }
        },
        _ => s,
    }
}

/// Commands the host must perform after the given event. Failures and
/// out-of-turn events issue nothing.
pub open spec fn setup_commands(s: SetupState, e: SetupEvent) -> Seq<GlCommand> {
    match (s, e) {
        (SetupState::AwaitContext, SetupEvent::ContextAcquired { ok }) => if ok {
            seq![
                GlCommand::SetSurfaceSize { width: SURFACE_WIDTH, height: SURFACE_HEIGHT },
                GlCommand::SetViewport { width: SURFACE_WIDTH, height: SURFACE_HEIGHT },
                GlCommand::DisableDepthTest,
                GlCommand::DisableCullFace,
                GlCommand::CompileShader { kind: ShaderKind::Vertex },
            ]
        } else {
            Seq::empty()
        },
        (SetupState::AwaitVertexCompile, SetupEvent::VertexShaderCompiled { ok }) => if ok {
            seq![GlCommand::CompileShader { kind: ShaderKind::Fragment }]
        } else {
            Seq::empty()
        },
        (SetupState::AwaitFragmentCompile, SetupEvent::FragmentShaderCompiled { ok }) => if ok {
            seq![GlCommand::LinkProgram]
        } else {
            Seq::empty()
        },
        (SetupState::AwaitLink, SetupEvent::ProgramLinked { ok }) => if ok {
            seq![
                GlCommand::UseProgram,
                GlCommand::UploadBuffer { buffer: BufferKind::Position },
                GlCommand::UploadBuffer { buffer: BufferKind::Color },
                GlCommand::UploadBuffer { buffer: BufferKind::Index },
                GlCommand::ResolveAttributes,
            ]
        } else {
            Seq::empty()
        },
        (SetupState::AwaitAttributes, SetupEvent::AttributesResolved {
            position_slot,
            color_slot,
        }) => if position_slot >= 0 && color_slot >= 0 {
            seq![
                GlCommand::EnableAttribute { slot: position_slot as u32 },
                GlCommand::SetAttributeLayout {
                    slot: position_slot as u32,
                    components: ATTRIBUTE_COMPONENTS,
                },
                GlCommand::EnableAttribute { slot: color_slot as u32 },
                GlCommand::SetAttributeLayout {
                    slot: color_slot as u32,
                    components: ATTRIBUTE_COMPONENTS,
                },
                GlCommand::ScheduleNextFrame,
            ]
        } else {
            Seq::empty()
        },
        _ => Seq::empty(),
    }
}

/// The state in which a freshly mounted canvas starts its setup.
pub fn initial_setup_state() -> (s: SetupState)
    ensures
        s == SetupState::AwaitContext,
{
    SetupState::AwaitContext
}

/// One step of the setup machine: from the current state and the outcome
/// the host reports, decide the next state and the commands to perform.
pub fn setup_step(state: SetupState, event: SetupEvent) -> (r: (SetupState, Vec<GlCommand>))
    ensures
        r.0 == setup_next(state, event),
        r.1@ == setup_commands(state, event),
{
    match (state, event) {
        (SetupState::AwaitContext, SetupEvent::ContextAcquired { ok }) => if ok {
            let cmds = vec![
                GlCommand::SetSurfaceSize { width: SURFACE_WIDTH, height: SURFACE_HEIGHT },
                GlCommand::SetViewport { width: SURFACE_WIDTH, height: SURFACE_HEIGHT },
                GlCommand::DisableDepthTest,
                GlCommand::DisableCullFace,
                GlCommand::CompileShader { kind: ShaderKind::Vertex },
            ];
            proof {
                assert(cmds@ =~= setup_commands(state, event));
            }
            (SetupState::AwaitVertexCompile, cmds)
        } else {
            (SetupState::Failed { error: SetupError::ContextAcquisition }, Vec::new())
        },
        (SetupState::AwaitVertexCompile, SetupEvent::VertexShaderCompiled { ok }) => if ok {
            let cmds = vec![GlCommand::CompileShader { kind: ShaderKind::Fragment }];
            proof {
                assert(cmds@ =~= setup_commands(state, event));
            }
            (SetupState::AwaitFragmentCompile, cmds)
        } else {
            (SetupState::Failed { error: SetupError::VertexShaderCompile }, Vec::new())
        },
        (SetupState::AwaitFragmentCompile, SetupEvent::FragmentShaderCompiled { ok }) => if ok {
            let cmds = vec![GlCommand::LinkProgram];
            proof {
                assert(cmds@ =~= setup_commands(state, event));
            }
            (SetupState::AwaitLink, cmds)
        } else {
            (SetupState::Failed { error: SetupError::FragmentShaderCompile }, Vec::new())
        },
        (SetupState::AwaitLink, SetupEvent::ProgramLinked { ok }) => if ok {
            let cmds = vec![
                GlCommand::UseProgram,
                GlCommand::UploadBuffer { buffer: BufferKind::Position },
                GlCommand::UploadBuffer { buffer: BufferKind::Color },
                GlCommand::UploadBuffer { buffer: BufferKind::Index },
                GlCommand::ResolveAttributes,
            ];
            proof {
                assert(cmds@ =~= setup_commands(state, event));
            }
            (SetupState::AwaitAttributes, cmds)
        } else {
            (SetupState::Failed { error: SetupError::ProgramLink }, Vec::new())
        },
        (SetupState::AwaitAttributes, SetupEvent::AttributesResolved {
            position_slot,
            color_slot,
        }) => if position_slot >= 0 && color_slot >= 0 {
            let cmds = vec![
                GlCommand::EnableAttribute { slot: position_slot as u32 },
                GlCommand::SetAttributeLayout {
                    slot: position_slot as u32,
                    components: ATTRIBUTE_COMPONENTS,
                },
                GlCommand::EnableAttribute { slot: color_slot as u32 },
                GlCommand::SetAttributeLayout {
                    slot: color_slot as u32,
                    components: ATTRIBUTE_COMPONENTS,
                },
                GlCommand::ScheduleNextFrame,
            ];
            proof {
                assert(cmds@ =~= setup_commands(state, event));
            }
            (SetupState::Ready, cmds)
        } else {
            (SetupState::Failed { error: SetupError::AttributeResolution }, Vec::new())
        },
        _ => {
            proof {
                assert(Seq::<GlCommand>::empty() =~= setup_commands(state, event));
            }
            (state, Vec::new())
        },
    }
}

/// Final state and concatenated command trace of running the setup
/// machine over a whole sequence of host events.
pub open spec fn run_setup(s: SetupState, events: Seq<SetupEvent>) -> (SetupState, Seq<GlCommand>)
    decreases events.len(),
{
    if events.len() == 0 {
        (s, Seq::empty())
    } else {
        let rest = run_setup(setup_next(s, events[0]), events.subrange(1, events.len() as int));
        (rest.0, setup_commands(s, events[0]) + rest.1)
    }
}

/// The outcomes of a setup in which everything succeeds: the context is
/// acquired, both shaders compile, the program links, and both attribute
/// names resolve to (non-negative) slots.
pub open spec fn successful_setup_events(position_slot: i32, color_slot: i32) -> Seq<SetupEvent> {
    seq![
        SetupEvent::ContextAcquired { ok: true },
        SetupEvent::VertexShaderCompiled { ok: true },
        SetupEvent::FragmentShaderCompiled { ok: true },
        SetupEvent::ProgramLinked { ok: true },
        SetupEvent::AttributesResolved { position_slot, color_slot },
    ]
}

/// When every step succeeds, setup runs to completion: the machine ends
/// `Ready`, and the setup trace itself contains no draw call — every
/// draw of the demo's lifetime comes from a frame tick, one per tick.
pub proof fn lemma_successful_setup_reaches_ready(position_slot: i32, color_slot: i32)
    requires
        position_slot >= 0,
        color_slot >= 0,
    ensures
        run_setup(SetupState::AwaitContext, successful_setup_events(position_slot, color_slot)).0
            == SetupState::Ready,
        draw_count(
            run_setup(
                SetupState::AwaitContext,
                successful_setup_events(position_slot, color_slot),
            ).1,
        ) == 0,
{
    let events = successful_setup_events(position_slot, color_slot);
    let e1 = events.subrange(1, 5);
    let e2 = events.subrange(2, 5);
    let e3 = events.subrange(3, 5);
    let e4 = events.subrange(4, 5);
    let e5 = events.subrange(5, 5);
    assert(e1.subrange(1, 4) =~= e2);
    assert(e2.subrange(1, 3) =~= e3);
    assert(e3.subrange(1, 2) =~= e4);
    assert(e4.subrange(1, 1) =~= e5);
    assert(run_setup(SetupState::Ready, e5).0 == SetupState::Ready);
    assert(e4[0] == (SetupEvent::AttributesResolved { position_slot, color_slot }));
    assert(run_setup(SetupState::AwaitAttributes, e4).0 == SetupState::Ready);
    assert(e3[0] == (SetupEvent::ProgramLinked { ok: true }));
    assert(run_setup(SetupState::AwaitLink, e3).0 == SetupState::Ready);
    assert(e2[0] == (SetupEvent::FragmentShaderCompiled { ok: true }));
    assert(run_setup(SetupState::AwaitFragmentCompile, e2).0 == SetupState::Ready);
    assert(e1[0] == (SetupEvent::VertexShaderCompiled { ok: true }));
    assert(run_setup(SetupState::AwaitVertexCompile, e1).0 == SetupState::Ready);
    assert(events[0] == (SetupEvent::ContextAcquired { ok: true }));
    assert(run_setup(SetupState::AwaitContext, events).0 == SetupState::Ready);
    lemma_setup_never_draws(SetupState::AwaitContext, events);
}

/// No step of the setup machine ever draws: whatever the state and the
/// event, the commanded work is configuration and resource creation
/// only. Every draw call of the demo's lifetime belongs to a frame tick.
pub proof fn lemma_setup_never_draws(s: SetupState, events: Seq<SetupEvent>)
    ensures
        draw_count(run_setup(s, events).1) == 0,
    decreases events.len(),
{
    if events.len() == 0 {
    } else {
        let head = setup_commands(s, events[0]);
        assert forall|i: int| 0 <= i < head.len() implies !is_draw(head[i]) by {}
        lemma_no_draws_means_zero(head);
        lemma_setup_never_draws(setup_next(s, events[0]), events.subrange(1, events.len() as int));
        lemma_draw_count_concat(
            head,
            run_setup(setup_next(s, events[0]), events.subrange(1, events.len() as int)).1,
        );
    }
}

/// A trace without a draw command has draw count zero.
proof fn lemma_no_draws_means_zero(cs: Seq<GlCommand>)
    requires
        forall|i: int| 0 <= i < cs.len() ==> !is_draw(cs[i]),
    ensures
        draw_count(cs) == 0,
    decreases cs.len(),
{
    if cs.len() > 0 {
        lemma_no_draws_means_zero(cs.drop_last());
    }
}

/// `Failed` is terminal: whatever else the host reports, the machine
/// stays failed and issues no command.
pub proof fn lemma_failed_is_terminal(error: SetupError, events: Seq<SetupEvent>)
    ensures
        run_setup(SetupState::Failed { error }, events).0 == (SetupState::Failed { error }),
        (run_setup(SetupState::Failed { error }, events).1 =~= Seq::<GlCommand>::empty()),
    decreases events.len(),
{
    if events.len() > 0 {
        lemma_failed_is_terminal(error, events.subrange(1, events.len() as int));
    }
}

/// `Ready` is terminal for the setup machine: once setup has handed the
/// context to the frame loop, further setup events are no-ops.
pub proof fn lemma_ready_is_terminal(events: Seq<SetupEvent>)
    ensures
        run_setup(SetupState::Ready, events).0 == SetupState::Ready,
        run_setup(SetupState::Ready, events).1 =~= Seq::<GlCommand>::empty(),
    decreases events.len(),
{
    if events.len() > 0 {
        lemma_ready_is_terminal(events.subrange(1, events.len() as int));
    }
}

/// Context-acquisition failure aborts everything: if the very first step
/// reports that no drawing context could be acquired, the whole session
/// ends failed and the host is asked to perform no command at all — in
/// particular, no shader is compiled and no buffer is created.
pub proof fn lemma_context_failure_does_nothing(events: Seq<SetupEvent>)
    requires
        events.len() >= 1,
        events[0] == (SetupEvent::ContextAcquired { ok: false }),
    ensures
        run_setup(SetupState::AwaitContext, events).0 == (SetupState::Failed {
            error: SetupError::ContextAcquisition,
        }),
        run_setup(SetupState::AwaitContext, events).1 =~= Seq::<GlCommand>::empty(),
        !has_resource_creation(run_setup(SetupState::AwaitContext, events).1),
{
    lemma_failed_is_terminal(SetupError::ContextAcquisition, events.subrange(
        1,
        events.len() as int,
    ));
}

/// A step that does not end in `Ready` binds no attribute.
pub proof fn lemma_only_ready_step_binds(s: SetupState, e: SetupEvent)
    ensures
        !(setup_next(s, e) is Ready) ==> !has_attribute_binding(setup_commands(s, e)),
{
    if !(setup_next(s, e) is Ready) {
        let cs = setup_commands(s, e);
        assert forall|i: int| 0 <= i < cs.len() implies !is_attribute_binding(cs[i]) by {
            assert(cs[i] == setup_commands(s, e)[i]);
        }
    }
}

/// A setup session that fails — whichever step failed it — never binds a
/// buffer to an attribute slot: abort always comes before any binding.
pub proof fn lemma_aborted_setup_never_binds(s: SetupState, events: Seq<SetupEvent>)
    requires
        run_setup(s, events).0 is Failed,
    ensures
        !has_attribute_binding(run_setup(s, events).1),
    decreases events.len(),
{
    if events.len() > 0 {
        let s1 = setup_next(s, events[0]);
        let rest = events.subrange(1, events.len() as int);
        if s1 is Ready {
            lemma_ready_is_terminal(rest);
            assert(false);
        } else {
            lemma_only_ready_step_binds(s, events[0]);
            lemma_aborted_setup_never_binds(s1, rest);
            let whole = run_setup(s, events).1;
            let head = setup_commands(s, events[0]);
            let tail = run_setup(s1, rest).1;
            assert forall|i: int| 0 <= i < whole.len() implies !is_attribute_binding(
                whole[i],
            ) by {
                if i < head.len() {
                    assert(!has_attribute_binding(head));
                    assert(whole[i] == head[i]);
                } else {
                    assert(!has_attribute_binding(tail));
                    assert(whole[i] == tail[i - head.len()]);
                }
            }
        }
    }
}

/// An attribute name that resolves to a negative slot aborts setup
/// before any buffer is bound to an attribute.
pub proof fn lemma_attribute_failure_aborts_before_binding(
    events: Seq<SetupEvent>,
    position_slot: i32,
    color_slot: i32,
)
    requires
        events.len() >= 1,
        events[0] == (SetupEvent::AttributesResolved { position_slot, color_slot }),
        position_slot < 0 || color_slot < 0,
    ensures
        run_setup(SetupState::AwaitAttributes, events).0 == (SetupState::Failed {
            error: SetupError::AttributeResolution,
        }),
        run_setup(SetupState::AwaitAttributes, events).1 =~= Seq::<GlCommand>::empty(),
        !has_attribute_binding(run_setup(SetupState::AwaitAttributes, events).1),
{
    lemma_failed_is_terminal(SetupError::AttributeResolution, events.subrange(
        1,
        events.len() as int,
    ));
}

} // verus!
