use hudhook::draw_plan::{plan_draws, DrawCommand, DrawList, DrawStep, ScissorRect};

fn rect(l: i32, t: i32, r: i32, b: i32) -> ScissorRect {
    ScissorRect { left: l, top: t, right: r, bottom: b }
}

#[test]
fn draws_are_offset_by_earlier_lists() {
    let lists = vec![
        DrawList {
            vtx_len: 4,
            idx_len: 6,
            commands: vec![DrawCommand::Elements {
                count: 6,
                scissor: rect(0, 0, 10, 10),
                texture: 1,
                vtx_offset: 0,
                idx_offset: 0,
            }],
        },
        DrawList {
            vtx_len: 8,
            idx_len: 12,
            commands: vec![
                DrawCommand::Elements { count: 6, scissor: rect(0, 0, 5, 5), texture: 2, vtx_offset: 0, idx_offset: 0 },
                DrawCommand::Elements { count: 6, scissor: rect(0, 0, 5, 5), texture: 2, vtx_offset: 4, idx_offset: 6 },
            ],
        },
    ];
    assert_eq!(
        plan_draws(&lists),
        vec![
            DrawStep::Draw { scissor: rect(0, 0, 10, 10), texture: 1, index_count: 6, start_index: 0, base_vertex: 0 },
            DrawStep::Draw { scissor: rect(0, 0, 5, 5), texture: 2, index_count: 6, start_index: 6, base_vertex: 4 },
            DrawStep::Draw { scissor: rect(0, 0, 5, 5), texture: 2, index_count: 6, start_index: 12, base_vertex: 8 },
        ]
    );
}

#[test]
fn empty_scissors_are_skipped_but_still_shift_offsets() {
    let lists = vec![
        DrawList {
            vtx_len: 3,
            idx_len: 3,
            commands: vec![
                DrawCommand::Elements { count: 3, scissor: rect(5, 0, 5, 10), texture: 0, vtx_offset: 0, idx_offset: 0 },
                DrawCommand::ResetRenderState,
                DrawCommand::RawCallback,
            ],
        },
        DrawList {
            vtx_len: 3,
            idx_len: 3,
            commands: vec![
                DrawCommand::Elements { count: 3, scissor: rect(0, 7, 10, 2), texture: 0, vtx_offset: 0, idx_offset: 0 },
                DrawCommand::Elements { count: 3, scissor: rect(0, 0, 1, 1), texture: 0, vtx_offset: 0, idx_offset: 0 },
            ],
        },
    ];
    assert_eq!(
        plan_draws(&lists),
        vec![
            DrawStep::ResetRenderState,
            DrawStep::Callback { list: 0, command: 2 },
            DrawStep::Draw { scissor: rect(0, 0, 1, 1), texture: 0, index_count: 3, start_index: 3, base_vertex: 3 },
        ]
    );
    assert_eq!(plan_draws(&vec![]), vec![]);
}
