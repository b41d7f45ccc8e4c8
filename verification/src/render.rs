//! The frame's state and the draw commands that it gives out.
//!
//! A [`Render`] stands for one frame. While the frame is open it answers
//! each request with the command that the host is to carry out on the
//! graphics device; once the frame is finished it refuses every request but
//! another `finish`.

use vstd::prelude::*;
use crate::compass::{bullet_slot, Compass, MAXIMUM_BULLET};
use crate::fixed::{Fixed, SCALE};
use crate::geometry::{ellipse_about, ellipse_spec, rectangle, rectangle_spec, Direction, Mesh, MeshView};
use crate::mapper::{Framebuffer, Position};
use crate::shader::{fragment_shader, fragment_shader_spec, vertex_shader, vertex_shader_spec};

verus! {

/// A color as its four components. They are not clamped: a component
/// outside the range from zero to one goes to the shader as it is.
#[derive(Clone, Copy, Debug, PartialEq, Eq, Structural)]
pub struct Color {
    pub r: Fixed,
    pub g: Fixed,
    pub b: Fixed,
    pub alpha: Fixed,
}

/// Why a request failed.
#[derive(Clone, Copy, Debug, PartialEq, Eq, Structural)]
pub enum RenderError {
    /// The device could not allocate a vertex or an index buffer.
    ResourceAllocation,
    /// The driver rejected the source of a shader.
    ShaderCompile,
    /// The driver could not link the shaders into a program.
    ShaderLink,
    /// The request came after the frame was finished.
    IllegalState,
    /// The device did not accept the finished frame.
    Present,
}

/// A step of the host's work on the graphics device.
#[derive(Clone, Copy, Debug, PartialEq, Eq, Structural)]
pub enum DeviceStep {
    AllocateVertices,
    AllocateIndices,
    CompileShaders,
    LinkProgram,
    PresentFrame,
}

/// The error that the failure of a step is reported as.
pub open spec fn failure_spec(step: DeviceStep) -> RenderError {
    match step {
        DeviceStep::AllocateVertices => RenderError::ResourceAllocation,
        DeviceStep::AllocateIndices => RenderError::ResourceAllocation,
        DeviceStep::CompileShaders => RenderError::ShaderCompile,
        DeviceStep::LinkProgram => RenderError::ShaderLink,
        DeviceStep::PresentFrame => RenderError::Present,
    }
}

impl RenderError {
    /// The error that the failure of `step` is reported as.
    pub fn of_failed(step: DeviceStep) -> (error: RenderError)
        ensures
            error == failure_spec(step),
    {
        match step {
            DeviceStep::AllocateVertices => RenderError::ResourceAllocation,
            DeviceStep::AllocateIndices => RenderError::ResourceAllocation,
            DeviceStep::CompileShaders => RenderError::ShaderCompile,
            DeviceStep::LinkProgram => RenderError::ShaderLink,
            DeviceStep::PresentFrame => RenderError::Present,
        }
    }
}

/// Whether the frame still takes requests.
#[derive(Clone, Copy, Debug, PartialEq, Eq, Structural)]
pub enum FrameState {
    Drawing,
    Finished,
}

/// What the host is to do when a frame is finished.
#[derive(Clone, Copy, Debug, PartialEq, Eq, Structural)]
pub enum FinishAction {
    /// Hand the frame to the device.
    Present,
    /// The frame was handed over before: do nothing.
    Nothing,
}

/// One draw call: the mesh, and the sources of the program that paints it.
#[derive(Debug)]
pub struct DrawCommand {
    pub mesh: Mesh,
    pub vertex_shader: String,
    pub fragment_shader: String,
}

/// What a [`DrawCommand`] holds.
pub struct DrawCommandView {
    pub mesh: MeshView,
    pub vertex_shader: Seq<char>,
    pub fragment_shader: Seq<char>,
}

impl View for DrawCommand {
    type V = DrawCommandView;

    open spec fn view(&self) -> DrawCommandView {
        DrawCommandView {
            mesh: self.mesh@,
            vertex_shader: self.vertex_shader@,
            fragment_shader: self.fragment_shader@,
        }
    }
}

/// The radius of the ring of bullets, in pixels.
pub const RING_RADIUS: i64 = 10;

/// The radius of one bullet, in pixels.
pub const BULLET_RADIUS: i16 = 10;

/// The color of a bullet: opaque red.
pub open spec fn bullet_color() -> Color {
    Color {
        r: Fixed { raw: SCALE },
        g: Fixed { raw: 0 },
        b: Fixed { raw: 0 },
        alpha: Fixed { raw: SCALE },
    }
}

/// The command that draws the square of half-side `radius` about `pos`.
pub open spec fn rectangle_command(
    pos: Position,
    radius: Fixed,
    color: Color,
    framebuffer: Framebuffer,
) -> DrawCommandView {
    DrawCommandView {
        mesh: rectangle_spec(pos, radius, framebuffer),
        vertex_shader: vertex_shader_spec(),
        fragment_shader: fragment_shader_spec(color),
    }
}

/// The command that draws the ellipse about (`cx`, `cy`), given in raw
/// units, with semi-axes `a * radius` and `b * radius`.
pub open spec fn ellipse_command(
    cx: int,
    cy: int,
    radius: Fixed,
    a: Fixed,
    b: Fixed,
    rim: Seq<Direction>,
    color: Color,
    framebuffer: Framebuffer,
) -> DrawCommandView {
    DrawCommandView {
        mesh: ellipse_spec(cx, cy, radius, a, b, rim, framebuffer),
        vertex_shader: vertex_shader_spec(),
        fragment_shader: fragment_shader_spec(color),
    }
}

/// The command that draws bullet `i` of the ring about `player_pos`: a red
/// circle whose center lies [`RING_RADIUS`] pixels from the player, in the
/// direction of the bullet's place on the ring.
pub open spec fn bullet_command(
    compass: &Compass,
    player_pos: Position,
    i: int,
    framebuffer: Framebuffer,
) -> DrawCommandView {
    let toward = compass.ring()[bullet_slot(i)];
    ellipse_command(
        player_pos.x@ + RING_RADIUS * toward.cos@,
        player_pos.y@ + RING_RADIUS * toward.sin@,
        Fixed { raw: (BULLET_RADIUS * SCALE) as i32 },
        Fixed { raw: SCALE },
        Fixed { raw: SCALE },
        compass.rim(),
        bullet_color(),
        framebuffer,
    )
}

/// One frame: the directions it draws with, and whether it is still open.
#[derive(Debug)]
pub struct Render<'a> {
    compass: &'a Compass,
    state: FrameState,
}

impl<'a> Render<'a> {
    /// The directions that the frame draws with.
    pub closed spec fn compass(&self) -> &Compass {
        self.compass
    }

    /// Whether the frame still takes requests.
    pub closed spec fn state(&self) -> FrameState {
        self.state
    }

    /// The frame's directions are well formed.
    pub open spec fn wf(&self) -> bool {
        self.compass().wf()
    }

    /// The frame after a call of `finish`.
    pub closed spec fn finished(self) -> Render<'a> {
        Render { compass: self.compass, state: FrameState::Finished }
    }

    /// What a call of `finish` asks the host to do.
    pub open spec fn finish_action(&self) -> FinishAction {
        if self.state() == FrameState::Drawing {
            FinishAction::Present
        } else {
            FinishAction::Nothing
        }
    }

    /// Opens a frame. The host has acquired the frame's target from the
    /// device before.
    pub fn new(compass: &'a Compass) -> (render: Render<'a>)
        requires
            compass.wf(),
        ensures
            render.wf(),
            render.state() == FrameState::Drawing,
            render.compass() == compass,
    {
        Render { compass, state: FrameState::Drawing }
    }

    /// Whether the frame still takes requests.
    pub fn frame_state(&self) -> (state: FrameState)
        ensures
            state == self.state(),
    {
        self.state
    }

    /// Asks for the frame's background to be set: the answer is the color
    /// that the host is to clear the target with.
    pub fn clear_color(&mut self, r: Fixed, g: Fixed, b: Fixed, alpha: Fixed) -> (answer: Result<
        Color,
        RenderError,
    >)
        ensures
            *final(self) == *old(self),
            old(self).state() == FrameState::Finished ==> answer == Err::<Color, RenderError>(
                RenderError::IllegalState,
            ),
            old(self).state() == FrameState::Drawing ==> answer == Ok::<Color, RenderError>(
                (Color { r, g, b, alpha }),
            ),
    {
        match self.state {
            FrameState::Finished => Err(RenderError::IllegalState),
            FrameState::Drawing => Ok(Color { r, g, b, alpha }),
        }
    }

    /// Finishes the frame. The first call asks the host to hand the frame to
    /// the device; every later call asks for nothing.
    pub fn finish(&mut self) -> (action: FinishAction)
        ensures
            *final(self) == old(self).finished(),
            final(self).state() == FrameState::Finished,
            final(self).compass() == old(self).compass(),
            action == old(self).finish_action(),
    {
        let action = match self.state {
            FrameState::Drawing => FinishAction::Present,
            FrameState::Finished => FinishAction::Nothing,
        };
        self.state = FrameState::Finished;
        action
    }

    /// Asks for the filled square of half-side `radius` about `pos`.
    pub fn draw_rectangle(
        &mut self,
        pos: Position,
        radius: Fixed,
        color: Color,
        framebuffer: Framebuffer,
    ) -> (answer: Result<DrawCommand, RenderError>)
        ensures
            *final(self) == *old(self),
            old(self).state() == FrameState::Finished ==> answer == Err::<
                DrawCommand,
                RenderError,
            >(RenderError::IllegalState),
            old(self).state() == FrameState::Drawing ==> answer is Ok && answer.unwrap()@
                == rectangle_command(pos, radius, color, framebuffer),
    {
        match self.state {
            FrameState::Finished => Err(RenderError::IllegalState),
            FrameState::Drawing => Ok(
                DrawCommand {
                    mesh: rectangle(pos, radius, framebuffer),
                    vertex_shader: vertex_shader(),
                    fragment_shader: fragment_shader(color),
                },
            ),
        }
    }

    /// Builds the command for one ellipse about a center in raw units.
    fn ellipse_command_about(
        &self,
        cx: i64,
        cy: i64,
        radius: Fixed,
        a: Fixed,
        b: Fixed,
        color: Color,
        framebuffer: Framebuffer,
    ) -> (command: DrawCommand)
        ensures
            command@ == ellipse_command(
                cx as int,
                cy as int,
                radius,
                a,
                b,
                self.compass().rim(),
                color,
                framebuffer,
            ),
    {
        DrawCommand {
            mesh: ellipse_about(cx, cy, radius, a, b, self.compass.rim_directions(), framebuffer),
            vertex_shader: vertex_shader(),
            fragment_shader: fragment_shader(color),
        }
    }

    /// Asks for the filled ellipse about `pos` with semi-axes `a * radius`
    /// and `b * radius`. It has one vertex for each direction of the
    /// compass's rim, whatever the radius and the axes are.
    pub fn draw_circle(
        &mut self,
        pos: Position,
        radius: Fixed,
        a: Fixed,
        b: Fixed,
        color: Color,
        framebuffer: Framebuffer,
    ) -> (answer: Result<DrawCommand, RenderError>)
        ensures
            *final(self) == *old(self),
            old(self).state() == FrameState::Finished ==> answer == Err::<
                DrawCommand,
                RenderError,
            >(RenderError::IllegalState),
            old(self).state() == FrameState::Drawing ==> answer is Ok && answer.unwrap()@
                == ellipse_command(
                pos.x@,
                pos.y@,
                radius,
                a,
                b,
                old(self).compass().rim(),
                color,
                framebuffer,
            ),
            old(self).state() == FrameState::Drawing ==> answer.unwrap()@.mesh.vertices.len()
                == old(self).compass().rim().len(),
    {
        match self.state {
            FrameState::Finished => Err(RenderError::IllegalState),
            FrameState::Drawing => Ok(
                self.ellipse_command_about(
                    pos.x.raw as i64,
                    pos.y.raw as i64,
                    radius,
                    a,
                    b,
                    color,
                    framebuffer,
                ),
            ),
        }
    }

    /// Asks for the first `remain_bullet` bullets of the ring about
    /// `player_pos`: one command for each, in the order of their places.
    pub fn draw_remain_bullet(
        &mut self,
        player_pos: Position,
        remain_bullet: usize,
        framebuffer: Framebuffer,
    ) -> (answer: Result<Vec<DrawCommand>, RenderError>)
        requires
            old(self).wf(),
        ensures
            *final(self) == *old(self),
            old(self).state() == FrameState::Finished ==> answer == Err::<
                Vec<DrawCommand>,
                RenderError,
            >(RenderError::IllegalState),
            old(self).state() == FrameState::Drawing ==> answer is Ok && answer.unwrap()@.len()
                == remain_bullet,
            old(self).state() == FrameState::Drawing ==> forall|i: int|
                0 <= i < remain_bullet ==> (#[trigger] answer.unwrap()@[i])@ == bullet_command(
                    old(self).compass(),
                    player_pos,
                    i,
                    framebuffer,
                ),
    {
        match self.state {
            FrameState::Finished => { return Err(RenderError::IllegalState); },
            FrameState::Drawing => {},
        }
        let red = Color {
            r: Fixed { raw: SCALE },
            g: Fixed { raw: 0 },
            b: Fixed { raw: 0 },
            alpha: Fixed { raw: SCALE },
        };
        let one = Fixed { raw: SCALE };
        let radius = Fixed::from_int(BULLET_RADIUS);
        let mut commands: Vec<DrawCommand> = Vec::new();
        let mut i: usize = 0;
        while i < remain_bullet
            invariant
                i <= remain_bullet,
                self.wf(),
                commands@.len() == i,
                red == bullet_color(),
                one.raw == SCALE,
                radius.raw == BULLET_RADIUS * SCALE,
                forall|j: int|
                    0 <= j < i ==> (#[trigger] commands@[j])@ == bullet_command(
                        self.compass(),
                        player_pos,
                        j,
                        framebuffer,
                    ),
            decreases remain_bullet - i,
        {
            let toward: Direction = self.compass.ring_direction(i % MAXIMUM_BULLET);
            let cx: i64 = (player_pos.x.raw as i64) + RING_RADIUS * (toward.cos.raw as i64);
            let cy: i64 = (player_pos.y.raw as i64) + RING_RADIUS * (toward.sin.raw as i64);
            let command = self.ellipse_command_about(cx, cy, radius, one, one, red, framebuffer);
            commands.push(command);
            i += 1;
        }
        Ok(commands)
    }
}

/// Finishing a frame twice leaves it as finishing it once does, and the
/// second call asks the host for nothing.
pub proof fn lemma_finish_idempotent(render: Render)
    ensures
        render.finished().finished() == render.finished(),
        render.finished().finish_action() == FinishAction::Nothing,
        render.finished().state() == FrameState::Finished,
{
}

} // verus!
