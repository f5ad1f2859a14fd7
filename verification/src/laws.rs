//! The laws of the control surface and of frame assembly, proved once and
//! for all states: the zoom clamp is an invariant of every adjustment
//! sequence, and a frame's command counts follow exactly from the rate, the
//! one-shot step accumulator and the pending-reset flag.

use vstd::prelude::*;

use crate::commands::{
    copy_world_command, count_kind, finalize_command, kind_of, lemma_count_kind_add,
    lemma_count_kind_singleton, lemma_sim_step_pairs_counts, randomize_command, sim_step_pairs,
    upload_parameters_command, CommandKind, RenderCommand,
};
use crate::renderer::{frame_commands, zoom_step, Renderer};

verus! {

/// The zoom level after a whole sequence of adjustments, applied in order
/// (`true` zooms in, `false` zooms out).
pub open spec fn zoom_after_all(zoom: int, adjustments: Seq<bool>) -> int
    decreases adjustments.len(),
{
    if adjustments.len() == 0 {
        zoom
    } else {
        zoom_step(zoom_after_all(zoom, adjustments.drop_last()), adjustments.last())
    }
}

/// Law: from any zoom level in [1, 4], every sequence of zoom adjustments
/// leaves the zoom level in [1, 4].
pub proof fn lemma_zoom_always_in_range(zoom: int, adjustments: Seq<bool>)
    requires
        1 <= zoom <= 4,
    ensures
        1 <= zoom_after_all(zoom, adjustments) <= 4,
    decreases adjustments.len(),
{
    if adjustments.len() > 0 {
        lemma_zoom_always_in_range(zoom, adjustments.drop_last());
    }
}

/// Law: a zoom adjustment at its boundary is a no-op — zooming in at 4
/// stays at 4, zooming out at 1 stays at 1.
pub proof fn lemma_zoom_boundary_noop()
    ensures
        zoom_step(4, true) == 4,
        zoom_step(1, false) == 1,
{
}

/// A frame's count of commands of kind `k`, decomposed over the frame's five
/// parts: upload, the optional randomize, the simulate/copy pairs, the
/// unconditional copy, and the finalize dispatch.
proof fn lemma_frame_count_for_kind(r: Renderer, k: CommandKind)
    ensures
        count_kind(frame_commands(r), k) == (if k == CommandKind::Upload {
            1nat
        } else {
            0nat
        }) + (if r.reset_requested && k == CommandKind::Randomize {
            1nat
        } else {
            0nat
        }) + count_kind(sim_step_pairs((r.rate + r.frame_step) as nat), k) + (
        if k == CommandKind::CopyWorld {
            1nat
        } else {
            0nat
        }) + (if k == CommandKind::Finalize {
            1nat
        } else {
            0nat
        }),
{
    let upload = seq![upload_parameters_command()];
    let reset_part = if r.reset_requested {
        seq![randomize_command()]
    } else {
        Seq::<RenderCommand>::empty()
    };
    let pairs = sim_step_pairs((r.rate + r.frame_step) as nat);
    let copy = seq![copy_world_command()];
    let finalize = seq![
        finalize_command(r.target_width, r.target_height, r.offset_x, r.offset_y, r.zoom),
    ];
    lemma_count_kind_add(upload, reset_part, k);
    lemma_count_kind_add(upload + reset_part, pairs, k);
    lemma_count_kind_add(upload + reset_part + pairs, copy, k);
    lemma_count_kind_add(upload + reset_part + pairs + copy, finalize, k);
    lemma_count_kind_singleton(upload_parameters_command(), k);
    lemma_count_kind_singleton(randomize_command(), k);
    lemma_count_kind_singleton(copy_world_command(), k);
    lemma_count_kind_singleton(
        finalize_command(r.target_width, r.target_height, r.offset_x, r.offset_y, r.zoom),
        k,
    );
    assert(kind_of(upload_parameters_command()) == CommandKind::Upload);
    assert(kind_of(randomize_command()) == CommandKind::Randomize);
    assert(kind_of(copy_world_command()) == CommandKind::CopyWorld);
    assert(kind_of(
        finalize_command(r.target_width, r.target_height, r.offset_x, r.offset_y, r.zoom),
    ) == CommandKind::Finalize);
}

/// Law: a frame assembled from state `r` holds exactly one parameter upload,
/// one randomize dispatch if a reset is pending and none otherwise,
/// `rate + frame_step` simulate dispatches, `rate + frame_step + 1` world
/// copies (one per simulation step, plus the unconditional post-loop copy),
/// and one finalize dispatch.
pub proof fn lemma_frame_command_counts(r: Renderer)
    ensures
        count_kind(frame_commands(r), CommandKind::Upload) == 1,
        count_kind(frame_commands(r), CommandKind::Randomize) == (if r.reset_requested {
            1nat
        } else {
            0nat
        }),
        count_kind(frame_commands(r), CommandKind::Simulate) == r.rate + r.frame_step,
        count_kind(frame_commands(r), CommandKind::CopyWorld) == r.rate + r.frame_step + 1,
        count_kind(frame_commands(r), CommandKind::Finalize) == 1,
{
    lemma_sim_step_pairs_counts((r.rate + r.frame_step) as nat);
    lemma_frame_count_for_kind(r, CommandKind::Upload);
    lemma_frame_count_for_kind(r, CommandKind::Randomize);
    lemma_frame_count_for_kind(r, CommandKind::Simulate);
    lemma_frame_count_for_kind(r, CommandKind::CopyWorld);
    lemma_frame_count_for_kind(r, CommandKind::Finalize);
}

/// Law: a frame assembled with a pending reset dispatches the randomize
/// kernel exactly once; one without a pending reset never dispatches it.
pub proof fn lemma_reset_randomizes_once(r: Renderer)
    ensures
        r.reset_requested ==> count_kind(frame_commands(r), CommandKind::Randomize) == 1,
        !r.reset_requested ==> count_kind(frame_commands(r), CommandKind::Randomize) == 0,
{
    lemma_frame_command_counts(r);
}

/// Law: a fully paused frame (rate 0, no pending extra steps) dispatches no
/// simulate step at all, yet still performs the unconditional world copy
/// exactly once and the finalize dispatch exactly once.
pub proof fn lemma_paused_frame_still_copies_and_finalizes(r: Renderer)
    requires
        r.rate == 0,
        r.frame_step == 0,
    ensures
        count_kind(frame_commands(r), CommandKind::Simulate) == 0,
        count_kind(frame_commands(r), CommandKind::CopyWorld) == 1,
        count_kind(frame_commands(r), CommandKind::Finalize) == 1,
{
    lemma_frame_command_counts(r);
}

} // verus!
