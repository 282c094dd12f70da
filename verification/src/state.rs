//! The viewer's state, and how events and frames change it.

use crate::event::{Event, PhysicalSize, RenderOutcome, WindowEvent};
use crate::mouse::{Drag, Mouse, PanInput};
use crate::scalar::Scalar;
use crate::ui::Interface;
use crate::uniform::{zoom_factor, Resolution, ShaderUniform, ZoomInput};
use vstd::prelude::*;

verus! {

/// Number of indices that draw the quad.
pub const QUAD_INDICES: u32 = 6;

/// Where the frame loop stands.
#[derive(Clone, Copy, Debug, PartialEq, Eq, Structural)]
pub enum Phase {
    /// Frames are drawn and presented.
    Active,
    /// The window has no area; the presentation target is left alone.
    Suspended,
    /// The presentation target was lost and has been set up again; the next
    /// frame takes the loop back to `Active`.
    Lost,
    /// The device ran out of memory. Nothing follows.
    Fatal,
}

/// The part of the presentation target's configuration that changes.
#[derive(Clone, Copy, Debug, PartialEq, Eq, Structural)]
pub struct SurfaceConfig {
    pub width: u32,
    pub height: u32,
}

/// What the viewer made of a window event.
#[derive(Clone, Copy, Debug, PartialEq, Eq, Structural)]
pub enum Reaction {
    /// The event is not one of the viewer's.
    Ignored,
    /// The event was taken, and nothing is left to do.
    Handled,
    /// The pointer moved while dragging: the centre is to be moved by the
    /// pan arithmetic on these values, and handed to `pan_to`.
    Pan(PanInput),
    /// The wheel turned: the axis range is to be multiplied by the factor,
    /// and the product handed to `zoom_to`.
    Zoom(ZoomInput),
}

impl Reaction {
    /// Whether the viewer took the event.
    pub open spec fn consumed(self) -> bool {
        self != Reaction::Ignored
    }

    pub fn is_consumed(&self) -> (r: bool)
        ensures
            r == self.consumed(),
    {
        match self {
            Reaction::Ignored => false,
            _ => true,
        }
    }
}

/// What the loop is to do after an event or a frame.
#[derive(Debug, PartialEq, Eq)]
pub enum Directive {
    /// Nothing.
    Idle,
    /// Run the pan arithmetic and call `pan_to`.
    Pan(PanInput),
    /// Run the zoom arithmetic and call `zoom_to`.
    Zoom(ZoomInput),
    /// Configure the presentation target to this size.
    Reconfigure(SurfaceConfig),
    /// Write these bytes to the start of the uniform buffer, draw a frame
    /// and report how it ended to `rendered`.
    Frame(Vec<u8>),
    /// Ask the window for a redraw.
    RequestRedraw,
    /// Report the failure of this frame and go on.
    Report,
    /// Leave the loop.
    Exit,
}

/// A directive with its bytes as a sequence.
pub enum DirectiveView {
    Idle,
    Pan(PanInput),
    Zoom(ZoomInput),
    Reconfigure(SurfaceConfig),
    Frame(Seq<u8>),
    RequestRedraw,
    Report,
    Exit,
}

impl View for Directive {
    type V = DirectiveView;

    open spec fn view(&self) -> DirectiveView {
        match *self {
            Directive::Idle => DirectiveView::Idle,
            Directive::Pan(p) => DirectiveView::Pan(p),
            Directive::Zoom(z) => DirectiveView::Zoom(z),
            Directive::Reconfigure(c) => DirectiveView::Reconfigure(c),
            Directive::Frame(bytes) => DirectiveView::Frame(bytes@),
            Directive::RequestRedraw => DirectiveView::RequestRedraw,
            Directive::Report => DirectiveView::Report,
            Directive::Exit => DirectiveView::Exit,
        }
    }
}

/// The viewer: the size of its window, the configuration of the presentation
/// target, the values for the shader, the overlay's parameters and the phase
/// of the frame loop.
#[derive(Clone, Copy, Debug, PartialEq, Eq, Structural)]
pub struct State {
    pub size: PhysicalSize,
    pub config: SurfaceConfig,
    pub num_indices: u32,
    pub shader_uniform: ShaderUniform,
    pub interface: Interface,
    pub phase: Phase,
}

/// The resolution that the shader is given for a size in pixels.
pub open spec fn resolution_of(size: PhysicalSize) -> Resolution {
    Resolution { width: Scalar::of_u32(size.width), height: Scalar::of_u32(size.height) }
}

/// The overlay's value of a field where it differs as a number from the one
/// committed, and the committed one where it does not.
pub open spec fn reconciled_field(committed: Scalar, overlay: Scalar) -> Scalar {
    if committed.same_number(overlay) {
        committed
    } else {
        overlay
    }
}

impl State {
    /// The configuration and the resolution mirror the size, the quad has
    /// its six indices, and the parts are well formed.
    pub open spec fn wf(self) -> bool {
        &&& self.config == (SurfaceConfig { width: self.size.width, height: self.size.height })
        &&& self.shader_uniform.resolution == resolution_of(self.size)
        &&& self.num_indices == QUAD_INDICES
        &&& self.shader_uniform.wf()
        &&& self.interface.wf()
    }

    /// The viewer of a window of the given size.
    pub open spec fn initial(size: PhysicalSize) -> State {
        State {
            size,
            config: SurfaceConfig { width: size.width, height: size.height },
            num_indices: QUAD_INDICES,
            shader_uniform: ShaderUniform {
                resolution: resolution_of(size),
                ..ShaderUniform::initial()
            },
            interface: Interface::initial(),
            phase: Phase::Active,
        }
    }

    /// The phase after a resize: a size with an area takes the loop back to
    /// `Active`, one without suspends it, and `Fatal` is never left.
    pub open spec fn phase_after_resize(self, new_size: PhysicalSize) -> Phase {
        if self.phase == Phase::Fatal {
            Phase::Fatal
        } else if new_size.has_area() {
            Phase::Active
        } else {
            Phase::Suspended
        }
    }

    /// The viewer after a resize: a size with an area is taken over into the
    /// size, the configuration and the resolution; one without changes none
    /// of them.
    pub open spec fn resized(self, new_size: PhysicalSize) -> State {
        if new_size.has_area() {
            State {
                size: new_size,
                config: SurfaceConfig { width: new_size.width, height: new_size.height },
                shader_uniform: ShaderUniform {
                    resolution: resolution_of(new_size),
                    ..self.shader_uniform
                },
                phase: self.phase_after_resize(new_size),
                ..self
            }
        } else {
            State { phase: self.phase_after_resize(new_size), ..self }
        }
    }

    /// The viewer after a window event.
    pub open spec fn after_input(self, event: WindowEvent) -> State {
        match event {
            WindowEvent::CursorMoved { x, y } => State {
                shader_uniform: ShaderUniform {
                    mouse: self.shader_uniform.mouse.moved(x, y),
                    ..self.shader_uniform
                },
                ..self
            },
            WindowEvent::LeftPressed => State {
                shader_uniform: ShaderUniform {
                    mouse: Mouse { drag: Drag::Dragging, ..self.shader_uniform.mouse },
                    ..self.shader_uniform
                },
                ..self
            },
            WindowEvent::LeftReleased => State {
                shader_uniform: ShaderUniform {
                    mouse: Mouse { drag: Drag::Released, ..self.shader_uniform.mouse },
                    ..self.shader_uniform
                },
                ..self
            },
            _ => self,
        }
    }

    /// What the viewer makes of a window event.
    pub open spec fn reaction(self, event: WindowEvent) -> Reaction {
        match event {
            WindowEvent::CursorMoved { x, y } => {
                let u = self.shader_uniform;
                if u.mouse.drag == Drag::Dragging {
                    Reaction::Pan(
                        u.mouse.moved(x, y).pan_values(
                            u.resolution.width,
                            u.resolution.height,
                            u.axis_range,
                        ),
                    )
                } else {
                    Reaction::Handled
                }
            },
            WindowEvent::LeftPressed => Reaction::Handled,
            WindowEvent::LeftReleased => Reaction::Handled,
            WindowEvent::WheelLines { y } => Reaction::Zoom(
                ZoomInput { axis_range: self.shader_uniform.axis_range, factor: zoom_factor(y) },
            ),
            _ => Reaction::Ignored,
        }
    }

    /// The shader's values after the overlay's parameters were reconciled
    /// into them: each of the three fields by itself, and no other field.
    pub open spec fn reconciled(self) -> ShaderUniform {
        ShaderUniform {
            iterations: self.interface.iterations,
            value: reconciled_field(self.shader_uniform.value, self.interface.value),
            exponent: reconciled_field(self.shader_uniform.exponent, self.interface.exponent),
            ..self.shader_uniform
        }
    }

    /// The viewer at the start of a frame: a loop that recovered from a lost
    /// target is active again, and the parameters are reconciled.
    pub open spec fn frame_started(self) -> State {
        State {
            shader_uniform: self.reconciled(),
            phase: if self.phase == Phase::Lost {
                Phase::Active
            } else {
                self.phase
            },
            ..self
        }
    }

    /// The viewer after the pan arithmetic handed in a centre: it moves the
    /// view while dragging, and is dropped otherwise.
    pub open spec fn panned_to(self, centre_x: Scalar, centre_y: Scalar) -> State {
        State {
            shader_uniform: ShaderUniform {
                mouse: self.shader_uniform.mouse.panned(centre_x, centre_y),
                ..self.shader_uniform
            },
            ..self
        }
    }

    /// The viewer after the zoom arithmetic handed in an axis range: it is
    /// taken over where it is a number strictly above zero.
    pub open spec fn zoomed_to(self, axis_range: Scalar) -> State {
        State { shader_uniform: self.shader_uniform.zoomed(axis_range), ..self }
    }

    /// The viewer after an event of the loop. In `Fatal` nothing changes any
    /// more.
    pub open spec fn after(self, event: Event) -> State {
        if self.phase == Phase::Fatal {
            self
        } else {
            match event {
                Event::Window(e) => {
                    if self.reaction(e).consumed() {
                        self.after_input(e)
                    } else {
                        match e {
                            WindowEvent::Resized(s) => self.resized(s),
                            WindowEvent::ScaleFactorChanged(s) => self.resized(s),
                            _ => self,
                        }
                    }
                },
                Event::RedrawRequested => self.frame_started(),
                _ => self,
            }
        }
    }

    /// What the loop is to do after an event. In `Fatal` it is to leave.
    pub open spec fn answer(self, event: Event) -> DirectiveView {
        if self.phase == Phase::Fatal {
            DirectiveView::Exit
        } else {
            match event {
                Event::Window(e) => match self.reaction(e) {
                    Reaction::Pan(p) => DirectiveView::Pan(p),
                    Reaction::Zoom(z) => DirectiveView::Zoom(z),
                    Reaction::Handled => DirectiveView::Idle,
                    Reaction::Ignored => match e {
                        WindowEvent::CloseRequested => DirectiveView::Exit,
                        WindowEvent::EscapePressed => DirectiveView::Exit,
                        WindowEvent::Resized(s) => self.resize_answer(s),
                        WindowEvent::ScaleFactorChanged(s) => self.resize_answer(s),
                        _ => DirectiveView::Idle,
                    },
                },
                Event::RedrawRequested => DirectiveView::Frame(self.reconciled().image()),
                Event::MainEventsCleared => DirectiveView::RequestRedraw,
                Event::Other => DirectiveView::Idle,
            }
        }
    }

    /// What the loop is to do after a resize: configure the target to a size
    /// with an area, and nothing for one without.
    pub open spec fn resize_answer(self, new_size: PhysicalSize) -> DirectiveView {
        if new_size.has_area() {
            DirectiveView::Reconfigure(
                SurfaceConfig { width: new_size.width, height: new_size.height },
            )
        } else {
            DirectiveView::Idle
        }
    }

    /// The viewer after a frame that ended with `outcome`: a lost target
    /// puts the loop into `Lost`, want of memory into `Fatal`, and nothing
    /// else changes the phase. `Fatal` is never left.
    pub open spec fn after_frame(self, outcome: RenderOutcome) -> State {
        if self.phase == Phase::Fatal {
            self
        } else {
            match outcome {
                RenderOutcome::Lost => State { phase: Phase::Lost, ..self },
                RenderOutcome::OutOfMemory => State { phase: Phase::Fatal, ..self },
                _ => self,
            }
        }
    }

    /// What the loop is to do after a frame that ended with `outcome`.
    pub open spec fn frame_answer(self, outcome: RenderOutcome) -> DirectiveView {
        if self.phase == Phase::Fatal {
            DirectiveView::Exit
        } else {
            match outcome {
                RenderOutcome::Presented => DirectiveView::Idle,
                RenderOutcome::Lost => if self.size.has_area() {
                    DirectiveView::Reconfigure(self.config)
                } else {
                    DirectiveView::Idle
                },
                RenderOutcome::OutOfMemory => DirectiveView::Exit,
                RenderOutcome::Failed => DirectiveView::Report,
            }
        }
    }

    /// The viewer of a window of the given size.
    pub fn new(size: PhysicalSize) -> (r: State)
        ensures
            r == State::initial(size),
            r.wf(),
    {
        let mut shader_uniform = ShaderUniform::new();
        shader_uniform.update_resolution(
            Scalar::from_u32(size.width),
            Scalar::from_u32(size.height),
        );
        State {
            size,
            config: SurfaceConfig { width: size.width, height: size.height },
            num_indices: QUAD_INDICES,
            shader_uniform,
            interface: Interface::new(),
            phase: Phase::Active,
        }
    }

    /// Takes a new size of the window. Returns whether the presentation
    /// target is to be configured to it: for a size with an area only.
    pub fn resize(&mut self, new_size: PhysicalSize) -> (reconfigure: bool)
        ensures
            *final(self) == old(self).resized(new_size),
            reconfigure == new_size.has_area(),
            old(self).wf() ==> final(self).wf(),
    {
        let drawable = new_size.is_drawable();
        if drawable {
            self.size = new_size;
            self.config.width = new_size.width;
            self.config.height = new_size.height;
            self.shader_uniform.update_resolution(
                Scalar::from_u32(new_size.width),
                Scalar::from_u32(new_size.height),
            );
        }
        self.phase = match self.phase {
            Phase::Fatal => Phase::Fatal,
            _ => if drawable {
                Phase::Active
            } else {
                Phase::Suspended
            },
        };
        drawable
    }

    /// Takes an event of the window: pointer moves, the left button and the
    /// wheel are the viewer's, everything else is not.
    pub fn input(&mut self, event: &WindowEvent) -> (r: Reaction)
        ensures
            *final(self) == old(self).after_input(*event),
            r == old(self).reaction(*event),
            old(self).wf() ==> final(self).wf(),
    {
        match *event {
            WindowEvent::CursorMoved { x, y } => {
                self.shader_uniform.mouse.update_position(x, y);
                let pan = self.shader_uniform.mouse.pan_input(
                    self.shader_uniform.resolution.width,
                    self.shader_uniform.resolution.height,
                    self.shader_uniform.axis_range,
                );
                match pan {
                    Some(p) => Reaction::Pan(p),
                    None => Reaction::Handled,
                }
            },
            WindowEvent::LeftPressed => {
                self.shader_uniform.mouse.set_drag();
                Reaction::Handled
            },
            WindowEvent::LeftReleased => {
                self.shader_uniform.mouse.unset_drag();
                Reaction::Handled
            },
            WindowEvent::WheelLines { y } => Reaction::Zoom(self.shader_uniform.zoom_input(y)),
            _ => Reaction::Ignored,
        }
    }

    /// Takes the centre that the pan arithmetic gave. It moves the view
    /// while dragging, and is dropped otherwise.
    pub fn pan_to(&mut self, centre_x: Scalar, centre_y: Scalar)
        ensures
            *final(self) == old(self).panned_to(centre_x, centre_y),
            old(self).wf() ==> final(self).wf(),
    {
        self.shader_uniform.mouse.drag_mouse(centre_x, centre_y);
    }

    /// Takes the axis range that the zoom arithmetic gave, where it is a
    /// number strictly above zero.
    pub fn zoom_to(&mut self, axis_range: Scalar)
        ensures
            *final(self) == old(self).zoomed_to(axis_range),
            old(self).wf() ==> final(self).wf(),
    {
        self.shader_uniform.zoom_to(axis_range);
    }

    /// Reconciles the overlay's parameters into the shader's values and
    /// returns the whole block, to be written to the device.
    pub fn update(&mut self) -> (bytes: Vec<u8>)
        ensures
            *final(self) == (State { shader_uniform: old(self).reconciled(), ..*old(self) }),
            bytes@ == old(self).reconciled().image(),
            bytes@.len() == 64,
            old(self).wf() ==> final(self).wf(),
    {
        if self.shader_uniform.iterations != self.interface.iterations {
            self.shader_uniform.update_iterations(self.interface.iterations);
        }
        if !self.shader_uniform.value.equals(self.interface.value) {
            self.shader_uniform.update_value(self.interface.value);
        }
        if !self.shader_uniform.exponent.equals(self.interface.exponent) {
            self.shader_uniform.update_exponent(self.interface.exponent);
        }
        self.shader_uniform.to_bytes()
    }

    /// Takes an event of the loop and says what the loop is to do.
    pub fn dispatch(&mut self, event: &Event) -> (r: Directive)
        ensures
            *final(self) == old(self).after(*event),
            r@ == old(self).answer(*event),
            old(self).wf() ==> final(self).wf(),
    {
        if self.phase == Phase::Fatal {
            return Directive::Exit;
        }
        match *event {
            Event::Window(e) => {
                match self.input(&e) {
                    Reaction::Pan(p) => Directive::Pan(p),
                    Reaction::Zoom(z) => Directive::Zoom(z),
                    Reaction::Handled => Directive::Idle,
                    Reaction::Ignored => match e {
                        WindowEvent::CloseRequested => Directive::Exit,
                        WindowEvent::EscapePressed => Directive::Exit,
                        WindowEvent::Resized(s) => self.resize_directive(s),
                        WindowEvent::ScaleFactorChanged(s) => self.resize_directive(s),
                        _ => Directive::Idle,
                    },
                }
            },
            Event::RedrawRequested => {
                if self.phase == Phase::Lost {
                    self.phase = Phase::Active;
                }
                Directive::Frame(self.update())
            },
            Event::MainEventsCleared => Directive::RequestRedraw,
            Event::Other => Directive::Idle,
        }
    }

    /// Resizes, and says whether the target is to be configured.
    fn resize_directive(&mut self, new_size: PhysicalSize) -> (r: Directive)
        ensures
            *final(self) == old(self).resized(new_size),
            r@ == old(self).resize_answer(new_size),
            old(self).wf() ==> final(self).wf(),
    {
        if self.resize(new_size) {
            Directive::Reconfigure(self.config)
        } else {
            Directive::Idle
        }
    }

    /// Takes the outcome of a frame and says what the loop is to do: after
    /// a lost target, configure it again to the last size that had an area;
    /// after want of memory, leave; after any other failure, report it.
    pub fn rendered(&mut self, outcome: RenderOutcome) -> (r: Directive)
        ensures
            *final(self) == old(self).after_frame(outcome),
            r@ == old(self).frame_answer(outcome),
            old(self).wf() ==> final(self).wf(),
    {
        if self.phase == Phase::Fatal {
            return Directive::Exit;
        }
        match outcome {
            RenderOutcome::Presented => Directive::Idle,
            RenderOutcome::Lost => {
                self.phase = Phase::Lost;
                if self.size.is_drawable() {
                    Directive::Reconfigure(self.config)
                } else {
                    Directive::Idle
                }
            },
            RenderOutcome::OutOfMemory => {
                self.phase = Phase::Fatal;
                Directive::Exit
            },
            RenderOutcome::Failed => Directive::Report,
        }
    }
}

} // verus!
