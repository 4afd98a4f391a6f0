//! The per-frame draw plan: one fixed sequence of backend commands per
//! frame, three passes with one depth-test toggle around the gizmo pass.
//!
//! The renderer's ordering logic is a pure function from the two buffer
//! sizes to a command list; an unverified interpreter performs each command
//! against the actual graphics backend.

use vstd::prelude::*;

use crate::geometry::SceneBuffers;

verus! {

/// The three draw passes of a frame, each with its own program and
/// geometry.
#[derive(Clone, Copy, Debug, PartialEq, Eq, Structural)]
pub enum PassKind {
    /// The opaque pass: the solid mesh, flat mid-gray.
    Mesh,
    /// The overlay pass: the wireframe edges, light gray, wide lines.
    Edges,
    /// The gizmo pass: the three colored unit axes, drawn over everything.
    Axes,
}

/// The primitive kind of a draw call.
#[derive(Clone, Copy, Debug, PartialEq, Eq, Structural)]
pub enum DrawPrimitive {
    /// Every three vertices form a triangle.
    Triangles,
    /// Every two vertices form a line segment.
    Lines,
}

/// One command to the graphics backend. The command list carries no float
/// values: the combined transform is held by the interpreter and uploaded
/// where `UploadMvp` says, and the line width is given in tenths of a pixel.
#[derive(Clone, Copy, Debug, PartialEq, Eq, Structural)]
pub enum RenderCommand {
    /// Clear the color and depth buffers.
    ClearFrame,
    /// Enable or disable the depth test.
    SetDepthTest { enabled: bool },
    /// Set the line width, in tenths of a pixel.
    SetLineWidthTenths { tenths: u32 },
    /// Make the given pass's program the active one.
    UseProgram { pass: PassKind },
    /// Upload the combined transform to the active program's uniform.
    UploadMvp { pass: PassKind },
    /// Bind the given pass's vertex source.
    BindGeometry { pass: PassKind },
    /// Draw the given number of vertices as the given primitive.
    Draw { pass: PassKind, primitive: DrawPrimitive, vertex_count: usize },
    /// Present the finished frame.
    Present,
}

/// The fixed command sequence of one frame: clear; the opaque pass; the
/// overlay pass; depth test off; the gizmo pass; depth test back on;
/// present.
pub open spec fn frame_plan(mesh_vertices: usize, edge_vertices: usize) -> Seq<RenderCommand> {
    seq![
        RenderCommand::ClearFrame,
        RenderCommand::UseProgram { pass: PassKind::Mesh },
        RenderCommand::UploadMvp { pass: PassKind::Mesh },
        RenderCommand::BindGeometry { pass: PassKind::Mesh },
        RenderCommand::Draw {
            pass: PassKind::Mesh,
            primitive: DrawPrimitive::Triangles,
            vertex_count: mesh_vertices,
        },
        RenderCommand::SetLineWidthTenths { tenths: 20 },
        RenderCommand::UseProgram { pass: PassKind::Edges },
        RenderCommand::UploadMvp { pass: PassKind::Edges },
        RenderCommand::BindGeometry { pass: PassKind::Edges },
        RenderCommand::Draw {
            pass: PassKind::Edges,
            primitive: DrawPrimitive::Lines,
            vertex_count: edge_vertices,
        },
        RenderCommand::SetDepthTest { enabled: false },
        RenderCommand::UseProgram { pass: PassKind::Axes },
        RenderCommand::UploadMvp { pass: PassKind::Axes },
        RenderCommand::BindGeometry { pass: PassKind::Axes },
        RenderCommand::Draw {
            pass: PassKind::Axes,
            primitive: DrawPrimitive::Lines,
            vertex_count: 6,
        },
        RenderCommand::SetDepthTest { enabled: true },
        RenderCommand::Present,
    ]
}

/// Builds one frame's command list for a mesh buffer of `mesh_vertices`
/// vertices and an edge buffer of `edge_vertices` endpoints.
pub fn frame_commands(mesh_vertices: usize, edge_vertices: usize) -> (commands: Vec<
    RenderCommand,
>)
    ensures
        commands@ == frame_plan(mesh_vertices, edge_vertices),
{
    let mut commands: Vec<RenderCommand> = Vec::new();
    commands.push(RenderCommand::ClearFrame);
    commands.push(RenderCommand::UseProgram { pass: PassKind::Mesh });
    commands.push(RenderCommand::UploadMvp { pass: PassKind::Mesh });
    commands.push(RenderCommand::BindGeometry { pass: PassKind::Mesh });
    commands.push(
        RenderCommand::Draw {
            pass: PassKind::Mesh,
            primitive: DrawPrimitive::Triangles,
            vertex_count: mesh_vertices,
        },
    );
    commands.push(RenderCommand::SetLineWidthTenths { tenths: 20 });
    commands.push(RenderCommand::UseProgram { pass: PassKind::Edges });
    commands.push(RenderCommand::UploadMvp { pass: PassKind::Edges });
    commands.push(RenderCommand::BindGeometry { pass: PassKind::Edges });
    commands.push(
        RenderCommand::Draw {
            pass: PassKind::Edges,
            primitive: DrawPrimitive::Lines,
            vertex_count: edge_vertices,
        },
    );
    commands.push(RenderCommand::SetDepthTest { enabled: false });
    commands.push(RenderCommand::UseProgram { pass: PassKind::Axes });
    commands.push(RenderCommand::UploadMvp { pass: PassKind::Axes });
    commands.push(RenderCommand::BindGeometry { pass: PassKind::Axes });
    commands.push(
        RenderCommand::Draw {
            pass: PassKind::Axes,
            primitive: DrawPrimitive::Lines,
            vertex_count: 6,
        },
    );
    commands.push(RenderCommand::SetDepthTest { enabled: true });
    commands.push(RenderCommand::Present);
    proof {
        assert(commands@ =~= frame_plan(mesh_vertices, edge_vertices));
    }
    commands
}

impl SceneBuffers {
    /// One frame's command list for this scene, the draw counts derived
    /// from the buffer sizes: one vertex per three coordinates of either
    /// buffer, and the gizmo's fixed six.
    pub fn frame_commands(&self) -> (commands: Vec<RenderCommand>)
        ensures
            commands@ == frame_plan(
                (self.mesh@.len() / 3) as usize,
                (self.edges@.len() / 3) as usize,
            ),
    {
        frame_commands(self.mesh_vertex_count(), self.edge_vertex_count())
    }
}

/// Whether the depth test is on when the command at position `i` runs:
/// frames start with the depth test enabled, and only `SetDepthTest`
/// changes it. At `i == commands.len()` this is the state the frame leaves
/// behind.
pub open spec fn depth_test_on_at(commands: Seq<RenderCommand>, i: int) -> bool
    decreases i,
{
    if i <= 0 {
        true
    } else {
        match commands[i - 1] {
            RenderCommand::SetDepthTest { enabled } => enabled,
            _ => depth_test_on_at(commands, i - 1),
        }
    }
}

/// The depth-test discipline of every frame: the depth test is on for the
/// opaque and overlay draws, off exactly for the gizmo draw, and on again
/// once the frame's commands have run, whatever the buffer sizes.
pub proof fn lemma_depth_test_discipline(mesh_vertices: usize, edge_vertices: usize)
    ensures
        ({
            let plan = frame_plan(mesh_vertices, edge_vertices);
            &&& forall|i: int|
                0 <= i < plan.len() ==> match #[trigger] plan[i] {
                    RenderCommand::Draw { pass, .. } => depth_test_on_at(plan, i) <==> !(pass
                        is Axes),
                    _ => true,
                }
            &&& depth_test_on_at(plan, plan.len() as int)
        }),
{
    let plan = frame_plan(mesh_vertices, edge_vertices);
    assert(depth_test_on_at(plan, 0));
    assert(depth_test_on_at(plan, 1));
    assert(depth_test_on_at(plan, 2));
    assert(depth_test_on_at(plan, 3));
    assert(depth_test_on_at(plan, 4));
    assert(depth_test_on_at(plan, 5));
    assert(depth_test_on_at(plan, 6));
    assert(depth_test_on_at(plan, 7));
    assert(depth_test_on_at(plan, 8));
    assert(depth_test_on_at(plan, 9));
    assert(depth_test_on_at(plan, 10));
    assert(!depth_test_on_at(plan, 11));
    assert(!depth_test_on_at(plan, 12));
    assert(!depth_test_on_at(plan, 13));
    assert(!depth_test_on_at(plan, 14));
    assert(!depth_test_on_at(plan, 15));
    assert(depth_test_on_at(plan, 16));
    assert(depth_test_on_at(plan, 17));
}

/// The gizmo draw of every frame plan has exactly six vertices, whatever
/// the mesh and edge buffer sizes.
pub proof fn lemma_gizmo_draw_is_six_vertices(mesh_vertices: usize, edge_vertices: usize)
    ensures
        ({
            let plan = frame_plan(mesh_vertices, edge_vertices);
            forall|i: int|
                0 <= i < plan.len() ==> match #[trigger] plan[i] {
                    RenderCommand::Draw { pass: PassKind::Axes, vertex_count, .. } => vertex_count
                        == 6,
                    _ => true,
                }
        }),
{
}

} // verus!
