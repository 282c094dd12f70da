//! The order of the work that makes up one frame.
//!
//! A frame is two passes into one target. The content pass clears the target
//! and draws the quad. The overlay pass keeps what the content pass drew and
//! draws the overlay over it. Between the two, the overlay's textures are
//! brought up to date: all that are new or changed first, then all that are
//! no longer used.

use vstd::prelude::*;

verus! {

/// A texture of the overlay.
#[derive(Clone, Copy, Debug, PartialEq, Eq, Structural)]
pub enum TextureId {
    /// A texture that the overlay manages.
    Managed(u64),
    /// A texture that the user registered.
    User(u64),
}

/// What a pass does with the contents of its target before it draws.
#[derive(Clone, Copy, Debug, PartialEq, Eq, Structural)]
pub enum LoadOp {
    /// Clear the target to opaque black.
    ClearBlack,
    /// Keep what is there.
    Load,
}

/// The format of the indices in the index buffer.
#[derive(Clone, Copy, Debug, PartialEq, Eq, Structural)]
pub enum IndexFormat {
    Uint16,
}

/// One command of a pass.
#[derive(Clone, Copy, Debug, PartialEq, Eq, Structural)]
pub enum Command {
    /// Use the viewer's pipeline.
    SetPipeline,
    /// Bind the uniform block as the bind group of this index.
    SetBindGroup { index: u32 },
    /// Bind the whole vertex buffer to this slot.
    SetVertexBuffer { slot: u32 },
    /// Bind the whole index buffer, with indices of this format.
    SetIndexBuffer { format: IndexFormat },
    /// Draw `count` indices from the first on, one instance, with no offset
    /// to the vertices.
    DrawIndexed { count: u32 },
    /// Draw the overlay's primitives.
    DrawOverlay,
}

/// A pass: what it does with its target first, whether it stores what it
/// drew, and its commands in order.
#[derive(Debug, PartialEq, Eq)]
pub struct Pass {
    pub load: LoadOp,
    pub store: bool,
    pub commands: Vec<Command>,
}

/// One change to the overlay's textures.
#[derive(Clone, Copy, Debug, PartialEq, Eq, Structural)]
pub enum TextureOp {
    /// Create the texture, or write its new contents.
    Update(TextureId),
    /// Free the texture.
    Free(TextureId),
}

/// One entry of the batch that is submitted to the queue.
#[derive(Clone, Copy, Debug, PartialEq, Eq, Structural)]
pub enum Submission {
    /// The command buffer of this number among those that preparing the
    /// overlay's buffers gave.
    Overlay(usize),
    /// The frame's own command buffer, which holds both passes.
    Main,
}

/// The commands of the content pass for a quad of `count` indices.
pub open spec fn content_commands(count: u32) -> Seq<Command> {
    seq![
        Command::SetPipeline,
        Command::SetBindGroup { index: 0 },
        Command::SetVertexBuffer { slot: 0 },
        Command::SetIndexBuffer { format: IndexFormat::Uint16 },
        Command::DrawIndexed { count },
    ]
}

/// The changes to the textures: every update in the order given, then every
/// release in the order given.
pub open spec fn texture_plan(set: Seq<TextureId>, free: Seq<TextureId>) -> Seq<TextureOp> {
    Seq::new(
        set.len() + free.len(),
        |i: int|
            if i < set.len() {
                TextureOp::Update(set[i])
            } else {
                TextureOp::Free(free[i - set.len()])
            },
    )
}

/// The batch for one frame: the overlay's command buffers in their order,
/// then the frame's own.
pub open spec fn batch(overlay_buffers: nat) -> Seq<Submission> {
    Seq::new(
        overlay_buffers + 1,
        |i: int|
            if i < overlay_buffers {
                Submission::Overlay(i as usize)
            } else {
                Submission::Main
            },
    )
}

/// The content pass: clear to black, then draw the quad with the uniform
/// block bound.
pub fn content_pass(num_indices: u32) -> (r: Pass)
    ensures
        r.load == LoadOp::ClearBlack,
        r.store,
        r.commands@ == content_commands(num_indices),
{
    let mut commands: Vec<Command> = Vec::new();
    commands.push(Command::SetPipeline);
    commands.push(Command::SetBindGroup { index: 0 });
    commands.push(Command::SetVertexBuffer { slot: 0 });
    commands.push(Command::SetIndexBuffer { format: IndexFormat::Uint16 });
    commands.push(Command::DrawIndexed { count: num_indices });
    assert(commands@ =~= content_commands(num_indices));
    Pass { load: LoadOp::ClearBlack, store: true, commands }
}

/// The overlay pass: keep what the content pass drew, and draw the overlay
/// over it.
pub fn overlay_pass() -> (r: Pass)
    ensures
        r.load == LoadOp::Load,
        r.store,
        r.commands@ == seq![Command::DrawOverlay],
{
    let mut commands: Vec<Command> = Vec::new();
    commands.push(Command::DrawOverlay);
    assert(commands@ =~= seq![Command::DrawOverlay]);
    Pass { load: LoadOp::Load, store: true, commands }
}

/// Puts the changes to the overlay's textures in order: `set` holds the
/// textures that are new or changed, `free` those that are no longer used.
pub fn texture_ops(set: &Vec<TextureId>, free: &Vec<TextureId>) -> (r: Vec<TextureOp>)
    ensures
        r@ == texture_plan(set@, free@),
{
    let mut r: Vec<TextureOp> = Vec::new();
    let mut i: usize = 0;
    while i < set.len()
        invariant
            i <= set@.len(),
            r@.len() == i,
            forall|p: int| 0 <= p < i ==> r@[p] == TextureOp::Update(set@[p]),
        decreases set@.len() - i,
    {
        r.push(TextureOp::Update(set[i]));
        i = i + 1;
    }
    let mut j: usize = 0;
    while j < free.len()
        invariant
            j <= free@.len(),
            r@.len() == set@.len() + j,
            forall|p: int| 0 <= p < set@.len() ==> r@[p] == TextureOp::Update(set@[p]),
            forall|p: int|
                set@.len() <= p < set@.len() + j ==> r@[p] == TextureOp::Free(
                    free@[p - set@.len()],
                ),
        decreases free@.len() - j,
    {
        r.push(TextureOp::Free(free[j]));
        j = j + 1;
    }
    assert(r@ =~= texture_plan(set@, free@));
    r
}

/// Puts the command buffers of one frame in the order of their submission,
/// given how many of them preparing the overlay's buffers gave.
pub fn submission_order(overlay_buffers: usize) -> (r: Vec<Submission>)
    ensures
        r@ == batch(overlay_buffers as nat),
{
    let mut r: Vec<Submission> = Vec::new();
    let mut i: usize = 0;
    while i < overlay_buffers
        invariant
            i <= overlay_buffers,
            r@.len() == i,
            forall|p: int| 0 <= p < i ==> r@[p] == Submission::Overlay(p as usize),
        decreases overlay_buffers - i,
    {
        r.push(Submission::Overlay(i));
        i = i + 1;
    }
    r.push(Submission::Main);
    assert(r@ =~= batch(overlay_buffers as nat));
    r
}

/// No texture is freed before every update has been made: in the plan, an
/// update never stands behind a release.
pub proof fn lemma_updates_before_frees(set: Seq<TextureId>, free: Seq<TextureId>, i: int, j: int)
    requires
        0 <= i < j < set.len() + free.len(),
        texture_plan(set, free)[i] is Free,
    ensures
        texture_plan(set, free)[j] is Free,
{
}

/// Every texture of `set` is updated and every texture of `free` is freed,
/// once for each time it is named, and the plan holds nothing else.
pub proof fn lemma_plan_is_complete(set: Seq<TextureId>, free: Seq<TextureId>)
    ensures
        texture_plan(set, free).len() == set.len() + free.len(),
        texture_plan(set, free).subrange(0, set.len() as int) =~= set.map_values(
            |t: TextureId| TextureOp::Update(t),
        ),
        texture_plan(set, free).subrange(set.len() as int, (set.len() + free.len()) as int)
            =~= free.map_values(|t: TextureId| TextureOp::Free(t)),
{
}

/// The frame's own command buffer is submitted once, and last.
pub proof fn lemma_main_is_last(overlay_buffers: nat)
    ensures
        batch(overlay_buffers).len() == overlay_buffers + 1,
        batch(overlay_buffers).last() == Submission::Main,
        forall|i: int| 0 <= i < overlay_buffers ==> batch(overlay_buffers)[i] != Submission::Main,
{
}

} // verus!
