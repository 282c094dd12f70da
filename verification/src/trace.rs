//! What holds of the viewer over whole runs of calls.

use crate::event::{Event, PhysicalSize, RenderOutcome, WindowEvent};
use crate::geometry::quad_triangles;
use crate::render::{content_commands, Command};
use crate::mouse::{Drag, PanInput};
use crate::scalar::Scalar;
use crate::state::{resolution_of, DirectiveView, Phase, State, SurfaceConfig};
use crate::ui::Interface;
use crate::uniform::{zoom_factor, ZoomInput};
use vstd::prelude::*;

verus! {

/// One call that changes the viewer.
pub enum Step {
    /// An event handed to `dispatch`.
    Dispatch(Event),
    /// The outcome of a frame handed to `rendered`.
    Rendered(RenderOutcome),
    /// A centre handed to `pan_to`.
    PanTo { centre_x: Scalar, centre_y: Scalar },
    /// An axis range handed to `zoom_to`.
    ZoomTo { axis_range: Scalar },
}

/// The viewer after one call.
pub open spec fn after_step(s: State, step: Step) -> State {
    match step {
        Step::Dispatch(event) => s.after(event),
        Step::Rendered(outcome) => s.after_frame(outcome),
        Step::PanTo { centre_x, centre_y } => s.panned_to(centre_x, centre_y),
        Step::ZoomTo { axis_range } => s.zoomed_to(axis_range),
    }
}

/// The viewer after a run of calls, made in turn.
pub open spec fn after_all(s: State, steps: Seq<Step>) -> State
    decreases steps.len(),
{
    if steps.len() == 0 {
        s
    } else {
        after_step(after_all(s, steps.drop_last()), steps.last())
    }
}

/// Whether no call of the run reports that the left button went down.
pub open spec fn no_press(steps: Seq<Step>) -> bool {
    forall|i: int|
        0 <= i < steps.len() ==> #[trigger] steps[i] != Step::Dispatch(
            Event::Window(WindowEvent::LeftPressed),
        )
}

/// While the pointer is not dragging, the centre of the view stays where it
/// is: over every run of pointer moves, and of any other calls but a press
/// of the left button, whatever positions the pointer moves to and whatever
/// centres are handed in. No move of such a run asks for a pan.
pub proof fn lemma_centre_needs_drag(s: State, steps: Seq<Step>)
    requires
        s.shader_uniform.mouse.drag != Drag::Dragging,
        no_press(steps),
    ensures
        after_all(s, steps).shader_uniform.mouse.centre_x == s.shader_uniform.mouse.centre_x,
        after_all(s, steps).shader_uniform.mouse.centre_y == s.shader_uniform.mouse.centre_y,
        after_all(s, steps).shader_uniform.mouse.drag != Drag::Dragging,
        forall|i: int|
            0 <= i < steps.len() && #[trigger] steps[i] is Dispatch ==> !(after_all(
                s,
                steps.take(i),
            ).answer(steps[i]->Dispatch_0) is Pan),
    decreases steps.len(),
{
    if steps.len() > 0 {
        let head = steps.drop_last();
        let last = steps.len() - 1;
        assert forall|i: int| 0 <= i < head.len() implies #[trigger] head[i] != Step::Dispatch(
            Event::Window(WindowEvent::LeftPressed),
        ) by {
            assert(head[i] == steps[i]);
        }
        lemma_centre_needs_drag(s, head);
        assert(steps[last] != Step::Dispatch(Event::Window(WindowEvent::LeftPressed)));
        assert forall|i: int|
            0 <= i < steps.len() && #[trigger] steps[i] is Dispatch implies !(after_all(
                s,
                steps.take(i),
            ).answer(steps[i]->Dispatch_0) is Pan) by {
            if i < last {
                assert(steps.take(i) =~= head.take(i));
                assert(head[i] == steps[i]);
            } else {
                assert(steps.take(i) =~= head);
            }
        }
    }
}

/// While dragging, the pan that a move asks for reads the position of this
/// move and of the one before it, both negated, and nothing of where the
/// pointer was earlier.
pub proof fn lemma_pan_reads_last_two_moves(
    s: State,
    x0: Scalar,
    y0: Scalar,
    x1: Scalar,
    y1: Scalar,
)
    requires
        s.phase != Phase::Fatal,
        s.shader_uniform.mouse.drag == Drag::Dragging,
    ensures
        s.after(Event::Window(WindowEvent::CursorMoved { x: x0, y: y0 })).answer(
            Event::Window(WindowEvent::CursorMoved { x: x1, y: y1 }),
        ) == DirectiveView::Pan(
            PanInput {
                x: x1.neg(),
                y: y1.neg(),
                px: x0.neg(),
                py: y0.neg(),
                centre_x: s.shader_uniform.mouse.centre_x,
                centre_y: s.shader_uniform.mouse.centre_y,
                width: s.shader_uniform.resolution.width,
                height: s.shader_uniform.resolution.height,
                axis_range: s.shader_uniform.axis_range,
            },
        ),
{
}

/// Each tick of the wheel asks for the axis range as the tick before left
/// it to be multiplied again: by 1.05 for a scroll amount below zero, by
/// 0.95 for any other.
pub proof fn lemma_ticks_compound(s: State, product: Scalar, y: Scalar)
    requires
        s.phase != Phase::Fatal,
        product.above_zero(),
    ensures
        s.zoomed_to(product).answer(Event::Window(WindowEvent::WheelLines { y }))
            == DirectiveView::Zoom(ZoomInput { axis_range: product, factor: zoom_factor(y) }),
        zoom_factor(y).bits == if y.below_zero() {
            0x3f86_6666u32
        } else {
            0x3f73_3333u32
        },
{
}

/// A resize to a size without an area leaves the size, the configuration of
/// the target and the shader's values as they were, and asks for no
/// configuration; doing it again changes nothing at all.
pub proof fn lemma_resize_without_area(s: State, new_size: PhysicalSize)
    requires
        new_size.width == 0 || new_size.height == 0,
    ensures
        s.resized(new_size).size == s.size,
        s.resized(new_size).config == s.config,
        s.resized(new_size).shader_uniform == s.shader_uniform,
        s.resize_answer(new_size) == DirectiveView::Idle,
        s.resized(new_size).resized(new_size) == s.resized(new_size),
{
}

/// A resize to a size with an area makes the size, the configuration and
/// the resolution exactly that size, and asks for the target to be
/// configured to it.
pub proof fn lemma_resize_with_area(s: State, new_size: PhysicalSize)
    requires
        new_size.width > 0,
        new_size.height > 0,
    ensures
        s.resized(new_size).size == new_size,
        s.resized(new_size).config == (SurfaceConfig {
            width: new_size.width,
            height: new_size.height,
        }),
        s.resized(new_size).shader_uniform.resolution == resolution_of(new_size),
        s.resize_answer(new_size) == DirectiveView::Reconfigure(
            SurfaceConfig { width: new_size.width, height: new_size.height },
        ),
{
}

/// An update takes over the overlay's iteration count, and with it zero. A
/// value or an exponent that the overlay has not changed stays in the
/// shader's values bit for bit, and no update touches any other field.
pub proof fn lemma_update_is_targeted(s: State, iterations: i32)
    ensures
        ({
            let t = State { interface: Interface { iterations, ..s.interface }, ..s };
            let u = t.reconciled();
            &&& u.iterations == iterations
            &&& s.shader_uniform.value.same_number(s.interface.value) ==> u.value
                == s.shader_uniform.value
            &&& s.shader_uniform.exponent.same_number(s.interface.exponent) ==> u.exponent
                == s.shader_uniform.exponent
            &&& u.resolution == s.shader_uniform.resolution
            &&& u.mouse == s.shader_uniform.mouse
            &&& u.axis_range == s.shader_uniform.axis_range
        }),
{
}

/// After an update the shader's three parameters are the overlay's, as
/// numbers.
pub proof fn lemma_update_commits(s: State)
    requires
        !s.interface.value.nan(),
        !s.interface.exponent.nan(),
    ensures
        s.reconciled().iterations == s.interface.iterations,
        s.reconciled().value.same_number(s.interface.value),
        s.reconciled().exponent.same_number(s.interface.exponent),
{
}

/// A lost target never ends the loop: the phase becomes `Lost`, the next
/// redraw takes it to `Active` and draws a frame. So it is after any number
/// of lost targets in a row.
pub proof fn lemma_lost_recovers(s: State)
    requires
        s.phase != Phase::Fatal,
    ensures
        s.after_frame(RenderOutcome::Lost).phase == Phase::Lost,
        !(s.frame_answer(RenderOutcome::Lost) is Exit),
        s.after_frame(RenderOutcome::Lost).after(Event::RedrawRequested).phase == Phase::Active,
        s.after_frame(RenderOutcome::Lost).answer(Event::RedrawRequested) is Frame,
        s.after_frame(RenderOutcome::Lost).after_frame(RenderOutcome::Lost).phase == Phase::Lost,
{
}

/// Want of memory ends the loop at once, whatever the phase was.
pub proof fn lemma_out_of_memory_is_fatal(s: State)
    ensures
        s.after_frame(RenderOutcome::OutOfMemory).phase == Phase::Fatal,
        s.frame_answer(RenderOutcome::OutOfMemory) == DirectiveView::Exit,
{
}

/// Only want of memory leads into `Fatal`.
pub proof fn lemma_only_memory_is_fatal(s: State, step: Step)
    requires
        s.phase != Phase::Fatal,
    ensures
        after_step(s, step).phase == Phase::Fatal <==> step == Step::Rendered(
            RenderOutcome::OutOfMemory,
        ),
{
}

/// `Fatal` is final: no run of calls leaves it, no event and no outcome of a
/// frame changes the viewer any more, each is answered with the directive to
/// leave, and no frame is drawn.
pub proof fn lemma_fatal_is_final(s: State, steps: Seq<Step>)
    requires
        s.phase == Phase::Fatal,
    ensures
        after_all(s, steps).phase == Phase::Fatal,
        forall|event: Event| #[trigger] s.after(event) == s,
        forall|event: Event| #[trigger] s.answer(event) == DirectiveView::Exit,
        forall|outcome: RenderOutcome| #[trigger] s.after_frame(outcome) == s,
        forall|outcome: RenderOutcome| #[trigger] s.frame_answer(outcome) == DirectiveView::Exit,
    decreases steps.len(),
{
    if steps.len() > 0 {
        lemma_fatal_is_final(s, steps.drop_last());
    }
}

/// The content pass of a new viewer draws the quad whole: as many indices as
/// its two triangles have.
pub proof fn lemma_quad_is_drawn_whole(size: PhysicalSize)
    ensures
        State::initial(size).num_indices == quad_triangles().len(),
        content_commands(State::initial(size).num_indices).last() == (Command::DrawIndexed {
            count: 6,
        }),
{
}

/// A well-formed viewer stays well formed over every run of calls: the axis
/// range stays strictly above zero, and the configuration and the resolution
/// keep mirroring the size.
pub proof fn lemma_wf_is_kept(s: State, steps: Seq<Step>)
    requires
        s.wf(),
    ensures
        after_all(s, steps).wf(),
        after_all(s, steps).shader_uniform.axis_range.above_zero(),
        after_all(s, steps).shader_uniform.resolution == resolution_of(after_all(s, steps).size),
    decreases steps.len(),
{
    if steps.len() > 0 {
        lemma_wf_is_kept(s, steps.drop_last());
        let t = after_all(s, steps.drop_last());
        assert(after_step(t, steps.last()).wf());
    }
}

} // verus!
