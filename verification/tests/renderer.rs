use obj_viewer::geometry::SceneBuffers;
use obj_viewer::renderer::{frame_commands, DrawPrimitive, PassKind, RenderCommand};

#[test]
fn frame_is_clear_three_passes_present() {
    let commands = frame_commands(6, 12);
    let expected = vec![
        RenderCommand::ClearFrame,
        RenderCommand::UseProgram { pass: PassKind::Mesh },
        RenderCommand::UploadMvp { pass: PassKind::Mesh },
        RenderCommand::BindGeometry { pass: PassKind::Mesh },
        RenderCommand::Draw {
            pass: PassKind::Mesh,
            primitive: DrawPrimitive::Triangles,
            vertex_count: 6,
        },
        RenderCommand::SetLineWidthTenths { tenths: 20 },
        RenderCommand::UseProgram { pass: PassKind::Edges },
        RenderCommand::UploadMvp { pass: PassKind::Edges },
        RenderCommand::BindGeometry { pass: PassKind::Edges },
        RenderCommand::Draw {
            pass: PassKind::Edges,
            primitive: DrawPrimitive::Lines,
            vertex_count: 12,
        },
        RenderCommand::SetDepthTest { enabled: false },
        RenderCommand::UseProgram { pass: PassKind::Axes },
        RenderCommand::UploadMvp { pass: PassKind::Axes },
        RenderCommand::BindGeometry { pass: PassKind::Axes },
        RenderCommand::Draw {
            pass: PassKind::Axes,
            primitive: DrawPrimitive::Lines,
            vertex_count: 6,
        },
        RenderCommand::SetDepthTest { enabled: true },
        RenderCommand::Present,
    ];
    assert_eq!(commands, expected);
}

#[test]
fn gizmo_draw_is_always_six_vertices() {
    for (mesh, edges) in [(0usize, 0usize), (6, 12), (300_000, 600_000)] {
        let commands = frame_commands(mesh, edges);
        let gizmo_draws: Vec<&RenderCommand> = commands
            .iter()
            .filter(|c| {
                matches!(
                    c,
                    RenderCommand::Draw { pass: PassKind::Axes, .. }
                )
            })
            .collect();
        assert_eq!(gizmo_draws.len(), 1);
        assert!(matches!(
            gizmo_draws[0],
            RenderCommand::Draw { vertex_count: 6, primitive: DrawPrimitive::Lines, .. }
        ));
    }
}

#[test]
fn depth_test_off_exactly_for_gizmo_draw() {
    // Replay the frame plan against a depth-state simulation: frames start
    // with the depth test on; only the gizmo draw sees it off, and the
    // frame leaves it on for the next one.
    let commands = frame_commands(9, 18);
    let mut depth_on = true;
    let mut disabled_spans = 0;
    for command in &commands {
        match command {
            RenderCommand::SetDepthTest { enabled } => {
                if !*enabled {
                    disabled_spans += 1;
                }
                depth_on = *enabled;
            }
            RenderCommand::Draw { pass, .. } => {
                if *pass == PassKind::Axes {
                    assert!(!depth_on);
                } else {
                    assert!(depth_on);
                }
            }
            _ => {}
        }
    }
    // The depth test was turned off once, for the gizmo, and the frame
    // leaves it on for the next one.
    assert_eq!(disabled_spans, 1);
    assert!(depth_on);
}

#[test]
fn line_width_is_set_before_the_edge_pass() {
    let commands = frame_commands(3, 6);
    let width_at = commands
        .iter()
        .position(|c| matches!(c, RenderCommand::SetLineWidthTenths { tenths: 20 }))
        .unwrap();
    let edges_draw_at = commands
        .iter()
        .position(|c| matches!(c, RenderCommand::Draw { pass: PassKind::Edges, .. }))
        .unwrap();
    assert!(width_at < edges_draw_at);
}

#[test]
fn frame_starts_with_clear_and_ends_with_present() {
    let commands = frame_commands(3, 6);
    assert_eq!(commands.first(), Some(&RenderCommand::ClearFrame));
    assert_eq!(commands.last(), Some(&RenderCommand::Present));
}

#[test]
fn scene_frame_commands_derive_counts_from_buffers() {
    // Two triangles: 18 mesh coordinates and 36 edge coordinates, so 6
    // mesh vertices and 12 edge endpoints.
    let soup: Vec<u32> = (0..18u32).collect();
    let scene = SceneBuffers::from_vertex_data(soup).unwrap();
    let commands = scene.frame_commands();
    assert_eq!(commands, frame_commands(6, 12));
}
