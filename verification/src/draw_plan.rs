//! The draw calls of one frame of UI: the render backends walk the frame's
//! draw lists in order, skip the commands whose scissor rectangle is empty,
//! and draw the others from one vertex buffer and one index buffer that hold
//! all the lists one after the other.
use vstd::prelude::*;

verus! {

/// A scissor rectangle in pixels, relative to the display's top-left corner.
#[derive(Clone, Copy, Debug, PartialEq, Eq, Structural)]
pub struct ScissorRect {
    pub left: i32,
    pub top: i32,
    pub right: i32,
    pub bottom: i32,
}

/// One command of a draw list.
#[derive(Clone, Copy, Debug, PartialEq, Eq, Structural)]
pub enum DrawCommand {
    /// Draw `count` indices, starting `idx_offset` indices and `vtx_offset`
    /// vertices into the list's own buffers, with a texture and a scissor
    /// rectangle.
    Elements { count: usize, scissor: ScissorRect, texture: usize, vtx_offset: usize, idx_offset: usize },
    /// Set the render state up again.
    ResetRenderState,
    /// Run the command's user callback.
    RawCallback,
}

/// A draw list: the lengths of its vertex and index buffers, and its
/// commands.
pub struct DrawList {
    pub vtx_len: usize,
    pub idx_len: usize,
    pub commands: Vec<DrawCommand>,
}

/// What the backend does for one command.
#[derive(Clone, Copy, Debug, PartialEq, Eq, Structural)]
pub enum DrawStep {
    /// An indexed draw from the shared buffers.
    Draw { scissor: ScissorRect, texture: usize, index_count: usize, start_index: usize, base_vertex: usize },
    /// Set the render state up again.
    ResetRenderState,
    /// Run the user callback of command `command` of list `list`.
    Callback { list: usize, command: usize },
}

/// Whether a scissor rectangle covers at least one pixel.
pub open spec fn visible(r: ScissorRect) -> bool {
    r.right > r.left && r.bottom > r.top
}

/// The abstract contents of a draw list.
pub struct DrawListView {
    pub vtx_len: nat,
    pub idx_len: nat,
    pub commands: Seq<DrawCommand>,
}

impl View for DrawList {
    type V = DrawListView;

    open spec fn view(&self) -> DrawListView {
        DrawListView { vtx_len: self.vtx_len as nat, idx_len: self.idx_len as nat, commands: self.commands@ }
    }
}

/// The number of vertices of the first `n` lists.
pub open spec fn vertices_before(lists: Seq<DrawListView>, n: int) -> nat
    decreases n,
{
    if n <= 0 {
        0
    } else {
        vertices_before(lists, n - 1) + lists[n - 1].vtx_len
    }
}

/// The number of indices of the first `n` lists.
pub open spec fn indices_before(lists: Seq<DrawListView>, n: int) -> nat
    decreases n,
{
    if n <= 0 {
        0
    } else {
        indices_before(lists, n - 1) + lists[n - 1].idx_len
    }
}

/// The step of command `c`, number `ci` of list `li`, whose list's buffers
/// start at vertex `vo` and index `io` of the shared buffers; `None` for a
/// draw whose scissor rectangle is empty.
pub open spec fn step_of(c: DrawCommand, li: int, ci: int, vo: int, io: int) -> Option<DrawStep> {
    match c {
        DrawCommand::Elements { count, scissor, texture, vtx_offset, idx_offset } => {
            if visible(scissor) {
                Some(
                    DrawStep::Draw {
                        scissor,
                        texture,
                        index_count: count,
                        start_index: (idx_offset + io) as usize,
                        base_vertex: (vtx_offset + vo) as usize,
                    },
                )
            } else {
                None
            }
        },
        DrawCommand::ResetRenderState => Some(DrawStep::ResetRenderState),
        DrawCommand::RawCallback => Some(DrawStep::Callback { list: li as usize, command: ci as usize }),
    }
}

/// The steps of the first `n` commands of `cmds`, the commands of list `li`.
pub open spec fn command_steps(cmds: Seq<DrawCommand>, n: int, li: int, vo: int, io: int) -> Seq<
    DrawStep,
>
    decreases n,
{
    if n <= 0 {
        Seq::empty()
    } else {
        let before = command_steps(cmds, n - 1, li, vo, io);
        match step_of(cmds[n - 1], li, n - 1, vo, io) {
            Some(s) => before.push(s),
            None => before,
        }
    }
}

/// The steps of the first `n` lists.
pub open spec fn plan(lists: Seq<DrawListView>, n: int) -> Seq<DrawStep>
    decreases n,
{
    if n <= 0 {
        Seq::empty()
    } else {
        plan(lists, n - 1) + command_steps(
            lists[n - 1].commands,
            lists[n - 1].commands.len() as int,
            n - 1,
            vertices_before(lists, n - 1) as int,
            indices_before(lists, n - 1) as int,
        )
    }
}

/// Every offset the plan computes fits in a `usize`: the buffers of all the
/// lists together, and each command's offsets past its list's start.
pub open spec fn offsets_fit(lists: Seq<DrawListView>) -> bool {
    &&& vertices_before(lists, lists.len() as int) <= usize::MAX
    &&& indices_before(lists, lists.len() as int) <= usize::MAX
    &&& forall|li: int, ci: int|
        0 <= li < lists.len() && 0 <= ci < lists[li].commands.len() ==> match #[trigger] lists[li].commands[ci] {
            DrawCommand::Elements { vtx_offset, idx_offset, .. } => {
                &&& vtx_offset + vertices_before(lists, li) <= usize::MAX
                &&& idx_offset + indices_before(lists, li) <= usize::MAX
            },
            _ => true,
        }
}

proof fn lemma_before_monotone(lists: Seq<DrawListView>, i: int, j: int)
    requires
        0 <= i <= j <= lists.len(),
    ensures
        vertices_before(lists, i) <= vertices_before(lists, j),
        indices_before(lists, i) <= indices_before(lists, j),
    decreases j - i,
{
    if i < j {
        lemma_before_monotone(lists, i, j - 1);
    }
}

/// The views of the first `n` lists.
pub open spec fn views(lists: Seq<DrawList>) -> Seq<DrawListView> {
    lists.map_values(|l: DrawList| l@)
}

/// The draw steps of a frame: for each list in order, for each of its
/// commands in order, a draw from the shared buffers (offset by the vertices
/// and indices of the lists before it) unless its scissor rectangle is
/// empty, a render-state reset, or a callback.
pub fn plan_draws(lists: &Vec<DrawList>) -> (steps: Vec<DrawStep>)
    requires
        offsets_fit(views(lists@)),
    ensures
        steps@ == plan(views(lists@), lists@.len() as int),
{
    let ghost vs = views(lists@);
    let mut steps: Vec<DrawStep> = Vec::new();
    let mut vtx_offset: usize = 0;
    let mut idx_offset: usize = 0;
    let mut li: usize = 0;
    while li < lists.len()
        invariant
            vs == views(lists@),
            vs.len() == lists@.len(),
            offsets_fit(vs),
            li <= lists@.len(),
            vtx_offset == vertices_before(vs, li as int),
            idx_offset == indices_before(vs, li as int),
            steps@ == plan(vs, li as int),
        decreases lists@.len() - li,
    {
        let list = &lists[li];
        assert(vs[li as int] == list@);
        let ghost before = steps@;
        let mut ci: usize = 0;
        while ci < list.commands.len()
            invariant
                vs == views(lists@),
                vs.len() == lists@.len(),
                offsets_fit(vs),
                li < lists@.len(),
                list == lists@[li as int],
                vs[li as int] == list@,
                ci <= list.commands@.len(),
                vtx_offset == vertices_before(vs, li as int),
                idx_offset == indices_before(vs, li as int),
                steps@ == before + command_steps(
                    list.commands@,
                    ci as int,
                    li as int,
                    vtx_offset as int,
                    idx_offset as int,
                ),
            decreases list.commands@.len() - ci,
        {
            let cmd = list.commands[ci];
            assert(vs[li as int].commands[ci as int] == cmd);
            match cmd {
                DrawCommand::Elements { count, scissor, texture, vtx_offset: cv, idx_offset: ci_off } => {
                    if scissor.right > scissor.left && scissor.bottom > scissor.top {
                        steps.push(
                            DrawStep::Draw {
                                scissor,
                                texture,
                                index_count: count,
                                start_index: ci_off + idx_offset,
                                base_vertex: cv + vtx_offset,
                            },
                        );
                    }
                },
                DrawCommand::ResetRenderState => {
                    steps.push(DrawStep::ResetRenderState);
                },
                DrawCommand::RawCallback => {
                    steps.push(DrawStep::Callback { list: li, command: ci });
                },
            }
            proof {
                assert(steps@ =~= before + command_steps(
                    list.commands@,
                    ci + 1,
                    li as int,
                    vtx_offset as int,
                    idx_offset as int,
                ));
            }
            ci = ci + 1;
        }
        proof {
            lemma_before_monotone(vs, li + 1, vs.len() as int);
            assert(list.commands@.len() == vs[li as int].commands.len());
            assert(steps@ =~= plan(vs, li + 1));
        }
        vtx_offset = vtx_offset + list.vtx_len;
        idx_offset = idx_offset + list.idx_len;
        li = li + 1;
    }
    steps
}

/// Lists are drawn in order, each after all the lists before it: the steps
/// of the first `n` lists are a prefix of the steps of the first `m`.
pub proof fn lemma_plan_prefix(lists: Seq<DrawListView>, n: int, m: int)
    requires
        0 <= n <= m,
    ensures
        plan(lists, n).len() <= plan(lists, m).len(),
        plan(lists, m).subrange(0, plan(lists, n).len() as int) == plan(lists, n),
    decreases m - n,
{
    if n < m {
        lemma_plan_prefix(lists, n, m - 1);
        let a = plan(lists, n);
        let b = plan(lists, m - 1);
        let c = plan(lists, m);
        assert(c.subrange(0, b.len() as int) =~= b);
        assert(c.subrange(0, a.len() as int) =~= b.subrange(0, a.len() as int));
    }
}

/// A list never yields more steps than it has commands.
pub proof fn lemma_command_steps_bounded(cmds: Seq<DrawCommand>, n: int, li: int, vo: int, io: int)
    requires
        0 <= n,
    ensures
        command_steps(cmds, n, li, vo, io).len() <= n,
    decreases n,
{
    if n > 0 {
        lemma_command_steps_bounded(cmds, n - 1, li, vo, io);
    }
}

/// One command's step: a draw command whose scissor rectangle has
/// `right > left` and `bottom > top` draws its `count` indices starting at
/// its index offset plus the indices of the lists before it, from its vertex
/// offset plus the vertices of the lists before it; an empty rectangle draws
/// nothing; a reset and a callback are passed on, the callback naming its
/// list and command.
pub proof fn lemma_command_step(c: DrawCommand, li: int, ci: int, vo: int, io: int)
    ensures
        c matches DrawCommand::Elements { count, scissor, texture, vtx_offset, idx_offset } ==> step_of(
            c,
            li,
            ci,
            vo,
            io,
        ) == if scissor.right > scissor.left && scissor.bottom > scissor.top {
            Some(
                DrawStep::Draw {
                    scissor,
                    texture,
                    index_count: count,
                    start_index: (idx_offset + io) as usize,
                    base_vertex: (vtx_offset + vo) as usize,
                },
            )
        } else {
            None
        },
        c == DrawCommand::ResetRenderState ==> step_of(c, li, ci, vo, io) == Some(
            DrawStep::ResetRenderState,
        ),
        c == DrawCommand::RawCallback ==> step_of(c, li, ci, vo, io) == Some(
            DrawStep::Callback { list: li as usize, command: ci as usize },
        ),
{
}

/// The shared buffers hold the lists one after the other: list `n` starts
/// after exactly the vertices and indices of lists `0..n`.
pub proof fn lemma_offsets_accumulate(lists: Seq<DrawListView>, n: int)
    requires
        0 <= n < lists.len(),
    ensures
        vertices_before(lists, 0) == 0,
        indices_before(lists, 0) == 0,
        vertices_before(lists, n + 1) == vertices_before(lists, n) + lists[n].vtx_len,
        indices_before(lists, n + 1) == indices_before(lists, n) + lists[n].idx_len,
{
}

} // verus!
