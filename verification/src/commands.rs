//! The per-frame command vocabulary of the renderer.
//!
//! A frame is assembled as a sequence of abstract GPU commands: parameter
//! upload, compute dispatches over a workgroup grid, and full-image copies
//! between the two world-state buffers. The surrounding application records
//! each command into its command-sequence builder in order; this module only
//! defines the commands and the spec-level tools used to reason about
//! sequences of them.

use vstd::prelude::*;

verus! {

/// Side length of the square world grid, in cells.
pub const WORLD_SIZE: u32 = 1024;

/// Number of entries in the parameter table.
pub const PARAMETER_SPACE: u32 = 128;

/// Threads per workgroup along each of the X and Y axes of a dispatch.
pub const LOCAL_GROUP_SIZE: u32 = 8;

/// Workgroups along each of X and Y when a dispatch covers the whole world grid.
pub const WORLD_DISPATCH_GROUPS: u32 = WORLD_SIZE / LOCAL_GROUP_SIZE;

/// One command of a frame's recorded sequence.
///
/// Dispatch commands carry their workgroup geometry; the finalize dispatch
/// additionally carries the view state it is invoked with (pixel offset and
/// zoom), which the application passes as an inline parameter block.
#[derive(Clone, Copy, Debug, PartialEq, Eq, Structural)]
pub enum RenderCommand {
    /// Copy the CPU parameter table into the GPU parameter image.
    UploadParameters,
    /// Run the randomize kernel, writing an initial world state to the
    /// world-source buffer.
    DispatchRandomize { groups_x: u32, groups_y: u32, groups_z: u32 },
    /// Run the simulate kernel: read world-source and the parameter image,
    /// write one new generation to world-target.
    DispatchSimulate { groups_x: u32, groups_y: u32, groups_z: u32 },
    /// Copy the full world-target image back onto world-source, committing
    /// the latest generation as the authoritative state.
    CopyWorldTargetToSource,
    /// Run the finalize kernel: read world-source and the view state, write
    /// the externally supplied output image.
    DispatchFinalize {
        groups_x: u32,
        groups_y: u32,
        groups_z: u32,
        offset_x: i32,
        offset_y: i32,
        zoom: i32,
    },
}

/// The parameter-upload command, the same every frame.
pub open spec fn upload_parameters_command() -> RenderCommand {
    RenderCommand::UploadParameters
}

/// The randomize dispatch: covers the whole world grid.
pub open spec fn randomize_command() -> RenderCommand {
    RenderCommand::DispatchRandomize {
        groups_x: WORLD_DISPATCH_GROUPS,
        groups_y: WORLD_DISPATCH_GROUPS,
        groups_z: 1,
    }
}

/// The simulate dispatch: covers the whole world grid.
pub open spec fn simulate_command() -> RenderCommand {
    RenderCommand::DispatchSimulate {
        groups_x: WORLD_DISPATCH_GROUPS,
        groups_y: WORLD_DISPATCH_GROUPS,
        groups_z: 1,
    }
}

/// The full-image world-target to world-source copy.
pub open spec fn copy_world_command() -> RenderCommand {
    RenderCommand::CopyWorldTargetToSource
}

/// The finalize dispatch: covers the output image, carrying the view state.
pub open spec fn finalize_command(
    target_width: u32,
    target_height: u32,
    offset_x: i32,
    offset_y: i32,
    zoom: i32,
) -> RenderCommand {
    RenderCommand::DispatchFinalize {
        groups_x: target_width / LOCAL_GROUP_SIZE,
        groups_y: target_height / LOCAL_GROUP_SIZE,
        groups_z: 1,
        offset_x,
        offset_y,
        zoom,
    }
}

/// The commands of `n` simulation steps: each step is a simulate dispatch
/// followed by the copy that commits its result.
pub open spec fn sim_step_pairs(n: nat) -> Seq<RenderCommand>
    decreases n,
{
    if n == 0 {
        Seq::empty()
    } else {
        sim_step_pairs((n - 1) as nat) + seq![simulate_command(), copy_world_command()]
    }
}

/// The classification of a command, used to count occurrences in a frame.
#[derive(Clone, Copy, Debug, PartialEq, Eq, Structural)]
pub enum CommandKind {
    Upload,
    Randomize,
    Simulate,
    CopyWorld,
    Finalize,
}

/// Which kind of command this is, forgetting geometry and view state.
pub open spec fn kind_of(c: RenderCommand) -> CommandKind {
    match c {
        RenderCommand::UploadParameters => CommandKind::Upload,
        RenderCommand::DispatchRandomize { .. } => CommandKind::Randomize,
        RenderCommand::DispatchSimulate { .. } => CommandKind::Simulate,
        RenderCommand::CopyWorldTargetToSource => CommandKind::CopyWorld,
        RenderCommand::DispatchFinalize { .. } => CommandKind::Finalize,
    }
}

/// How many commands of kind `k` the sequence `s` holds.
pub open spec fn count_kind(s: Seq<RenderCommand>, k: CommandKind) -> nat
    decreases s.len(),
{
    if s.len() == 0 {
        0
    } else {
        count_kind(s.drop_last(), k) + (if kind_of(s.last()) == k {
            1nat
        } else {
            0nat
        })
    }
}

/// Counting distributes over concatenation.
pub proof fn lemma_count_kind_add(s: Seq<RenderCommand>, t: Seq<RenderCommand>, k: CommandKind)
    ensures
        count_kind(s + t, k) == count_kind(s, k) + count_kind(t, k),
    decreases t.len(),
{
    if t.len() == 0 {
        assert(s + t =~= s);
    } else {
        assert((s + t).drop_last() =~= s + t.drop_last());
        assert((s + t).last() == t.last());
        lemma_count_kind_add(s, t.drop_last(), k);
    }
}

/// A one-command sequence counts one command of its own kind and none of any
/// other kind.
pub proof fn lemma_count_kind_singleton(c: RenderCommand, k: CommandKind)
    ensures
        count_kind(seq![c], k) == (if kind_of(c) == k {
            1nat
        } else {
            0nat
        }),
{
    assert(count_kind(Seq::<RenderCommand>::empty(), k) == 0);
    assert(seq![c].len() == 1);
    assert(seq![c].last() == c);
    assert(seq![c].drop_last() =~= Seq::<RenderCommand>::empty());
}

/// A two-command sequence counts each of its commands under its own kind.
pub proof fn lemma_count_kind_pair(a: RenderCommand, b: RenderCommand, k: CommandKind)
    ensures
        count_kind(seq![a, b], k) == (if kind_of(a) == k {
            1nat
        } else {
            0nat
        }) + (if kind_of(b) == k {
            1nat
        } else {
            0nat
        }),
{
    assert(seq![a, b].drop_last() =~= seq![a]);
    assert(seq![a, b].last() == b);
    lemma_count_kind_singleton(a, k);
}

/// The commands of `n` simulation steps hold exactly `n` simulate dispatches
/// and `n` world copies, and nothing else.
pub proof fn lemma_sim_step_pairs_counts(n: nat)
    ensures
        count_kind(sim_step_pairs(n), CommandKind::Simulate) == n,
        count_kind(sim_step_pairs(n), CommandKind::CopyWorld) == n,
        count_kind(sim_step_pairs(n), CommandKind::Upload) == 0,
        count_kind(sim_step_pairs(n), CommandKind::Randomize) == 0,
        count_kind(sim_step_pairs(n), CommandKind::Finalize) == 0,
    decreases n,
{
    if n == 0 {
    } else {
        lemma_sim_step_pairs_counts((n - 1) as nat);
        let pair = seq![simulate_command(), copy_world_command()];
        lemma_count_kind_pair(simulate_command(), copy_world_command(), CommandKind::Simulate);
        lemma_count_kind_pair(simulate_command(), copy_world_command(), CommandKind::CopyWorld);
        lemma_count_kind_pair(simulate_command(), copy_world_command(), CommandKind::Upload);
        lemma_count_kind_pair(simulate_command(), copy_world_command(), CommandKind::Randomize);
        lemma_count_kind_pair(simulate_command(), copy_world_command(), CommandKind::Finalize);
        lemma_count_kind_add(sim_step_pairs((n - 1) as nat), pair, CommandKind::Simulate);
        lemma_count_kind_add(sim_step_pairs((n - 1) as nat), pair, CommandKind::CopyWorld);
        lemma_count_kind_add(sim_step_pairs((n - 1) as nat), pair, CommandKind::Upload);
        lemma_count_kind_add(sim_step_pairs((n - 1) as nat), pair, CommandKind::Randomize);
        lemma_count_kind_add(sim_step_pairs((n - 1) as nat), pair, CommandKind::Finalize);
    }
}

} // verus!
