//! The renderer: owner of the simulation's CPU-side control state and the
//! single authority on the order of each frame's GPU commands.
//!
//! The renderer decides; the surrounding application performs. Every control
//! call mutates only CPU-side state here, and `add_render_commands` turns that
//! state into one frame's command sequence, which the application records into
//! its GPU command builder and submits. The GPU resources themselves (the two
//! world-state images, the parameter buffer and image, the three pipelines
//! with their fixed binding sets) are allocated once by the application at
//! construction and are wired to the commands by position: a command names
//! which fixed resource pair it acts on, never a fresh one.

use vstd::prelude::*;

use crate::commands::{
    copy_world_command, finalize_command, randomize_command, sim_step_pairs, simulate_command,
    upload_parameters_command, RenderCommand, LOCAL_GROUP_SIZE, PARAMETER_SPACE,
    WORLD_DISPATCH_GROUPS,
};

verus! {

/// The shape of the output image the renderer is constructed against.
///
/// Only a two-dimensional output image is a valid target; the other shapes
/// exist so that construction can reject them explicitly.
#[derive(Clone, Copy, Debug, PartialEq, Eq, Structural)]
pub enum TargetDimensions {
    Dim1d { width: u32 },
    Dim2d { width: u32, height: u32 },
    Dim3d { width: u32, height: u32, depth: u32 },
}

/// Why construction of a renderer was refused.
#[derive(Clone, Copy, Debug, PartialEq, Eq, Structural)]
pub enum RendererError {
    /// The supplied output image is not two-dimensional.
    TargetNotTwoDimensional,
}

/// The renderer's CPU-side state.
///
/// `rate` is the number of simulation steps per rendered frame (0 = paused);
/// `frame_step` is a one-shot accumulator of extra steps, consumed and reset
/// by the next frame assembly; `reset_requested` is a one-shot flag that makes
/// the next frame randomize the world before simulating. The pixel offset and
/// zoom are the view state read by the finalize dispatch.
pub struct Renderer {
    pub target_width: u32,
    pub target_height: u32,
    pub reset_requested: bool,
    pub rate: u32,
    pub frame_step: u32,
    pub offset_x: i32,
    pub offset_y: i32,
    pub zoom: i32,
    pub parameters: Vec<u16>,
}

/// Zoom after one adjustment: move by one, then clamp to [1, 4].
pub open spec fn zoom_step(zoom: int, increment: bool) -> int {
    let moved = if increment {
        zoom + 1
    } else {
        zoom - 1
    };
    if moved > 4 {
        4
    } else if moved < 1 {
        1
    } else {
        moved
    }
}

/// Rate after one adjustment: double on increase (a paused rate of 0 restarts
/// at 1), halve on decrease (a rate of 1 or 0 floors to 0, paused).
pub open spec fn rate_step(rate: int, increase: bool) -> int {
    if increase {
        if rate == 0 {
            1
        } else {
            rate * 2
        }
    } else {
        if rate > 1 {
            rate / 2
        } else {
            0
        }
    }
}

/// A parameter value as the unsigned 16-bit bit pattern the kernel consumes:
/// non-negative values unchanged, negative values in two's complement.
pub open spec fn to_bits16(value: i16) -> u16 {
    if value >= 0 {
        value as u16
    } else {
        (value + 0x10000) as u16
    }
}

/// The commands of one frame assembled from state `r`, in order: parameter
/// upload; a randomize dispatch if a reset is pending; one simulate/copy pair
/// per simulation step (`rate + frame_step` of them); the unconditional
/// post-loop world copy; the finalize dispatch under the current view state.
pub open spec fn frame_commands(r: Renderer) -> Seq<RenderCommand> {
    seq![upload_parameters_command()] + (if r.reset_requested {
        seq![randomize_command()]
    } else {
        Seq::<RenderCommand>::empty()
    }) + sim_step_pairs((r.rate + r.frame_step) as nat) + seq![copy_world_command()]
        + seq![
        finalize_command(r.target_width, r.target_height, r.offset_x, r.offset_y, r.zoom),
    ]
}

impl Renderer {
    /// The renderer's invariant: zoom stays clamped and the parameter table
    /// keeps its fixed capacity.
    pub open spec fn wf(&self) -> bool {
        &&& 1 <= self.zoom <= 4
        &&& self.parameters@.len() == PARAMETER_SPACE
    }

    /// The state every renderer starts in: view at the origin at 1x zoom, one
    /// simulation step per frame, no pending extra steps, a reset pending so
    /// the first frame initializes the world, and an all-zero parameter table.
    pub open spec fn is_initial(&self, width: u32, height: u32) -> bool {
        &&& self.target_width == width
        &&& self.target_height == height
        &&& self.reset_requested == true
        &&& self.rate == 1
        &&& self.frame_step == 0
        &&& self.offset_x == 0
        &&& self.offset_y == 0
        &&& self.zoom == 1
        &&& self.parameters@.len() == PARAMETER_SPACE
        &&& forall|i: int| 0 <= i < self.parameters@.len() ==> self.parameters@[i] == 0u16
    }

    /// Builds a renderer for a two-dimensional output image of the given
    /// shape, refusing any other shape. The dimensions are read once, here,
    /// and size the finalize dispatch of every later frame.
    pub fn new(target: TargetDimensions) -> (result: Result<Renderer, RendererError>)
        ensures
            (match target {
                TargetDimensions::Dim2d { width, height } => (match result {
                    Ok(renderer) => renderer.wf() && renderer.is_initial(width, height),
                    Err(_) => false,
                }),
                _ => result == Err::<Renderer, RendererError>(
                    RendererError::TargetNotTwoDimensional,
                ),
            }),
    {
        match target {
            TargetDimensions::Dim2d { width, height } => {
                let mut parameters: Vec<u16> = Vec::new();
                let mut i: u32 = 0;
                while i < PARAMETER_SPACE
                    invariant
                        i <= PARAMETER_SPACE,
                        parameters@.len() == i,
                        forall|j: int| 0 <= j < parameters@.len() ==> parameters@[j] == 0u16,
                    decreases PARAMETER_SPACE - i,
                {
                    parameters.push(0u16);
                    i = i + 1;
                }
                Ok(Renderer {
                    target_width: width,
                    target_height: height,
                    reset_requested: true,
                    rate: 1,
                    frame_step: 0,
                    offset_x: 0,
                    offset_y: 0,
                    zoom: 1,
                    parameters,
                })
            },
            _ => Err(RendererError::TargetNotTwoDimensional),
        }
    }

    /// Pans the view to the given pixel offset into the world grid. Values
    /// outside the grid are stored as they are: the finalize kernel's own
    /// addressing governs what they show.
    pub fn set_offset(&mut self, x: i32, y: i32)
        requires
            old(self).wf(),
        ensures
            final(self).wf(),
            final(self).offset_x == x,
            final(self).offset_y == y,
            final(self).target_width == old(self).target_width,
            final(self).target_height == old(self).target_height,
            final(self).reset_requested == old(self).reset_requested,
            final(self).rate == old(self).rate,
            final(self).frame_step == old(self).frame_step,
            final(self).zoom == old(self).zoom,
            final(self).parameters == old(self).parameters,
    {
        self.offset_x = x;
        self.offset_y = y;
    }

    /// Zooms in (`increment` true) or out by one level, silently clamped to
    /// the range [1, 4]: an adjustment at the boundary is a no-op.
    pub fn offset_zoom(&mut self, increment: bool)
        requires
            old(self).wf(),
        ensures
            final(self).wf(),
            final(self).zoom == zoom_step(old(self).zoom as int, increment),
            final(self).target_width == old(self).target_width,
            final(self).target_height == old(self).target_height,
            final(self).reset_requested == old(self).reset_requested,
            final(self).rate == old(self).rate,
            final(self).frame_step == old(self).frame_step,
            final(self).offset_x == old(self).offset_x,
            final(self).offset_y == old(self).offset_y,
            final(self).parameters == old(self).parameters,
    {
        if increment {
            self.zoom = self.zoom + 1;
        } else {
            self.zoom = self.zoom - 1;
        }
        if self.zoom > 4 {
            self.zoom = 4;
        } else if self.zoom < 1 {
            self.zoom = 1;
        }
    }

    /// Doubles the rate on increase (restarting a paused rate at 1) and
    /// halves it on decrease, flooring to 0 (paused) once the rate is at most
    /// 1: the rate moves through the powers of two.
    pub fn offset_rate(&mut self, increase: bool)
        requires
            old(self).wf(),
            increase ==> old(self).rate <= u32::MAX / 2,
        ensures
            final(self).wf(),
            final(self).rate == rate_step(old(self).rate as int, increase),
            final(self).target_width == old(self).target_width,
            final(self).target_height == old(self).target_height,
            final(self).reset_requested == old(self).reset_requested,
            final(self).frame_step == old(self).frame_step,
            final(self).offset_x == old(self).offset_x,
            final(self).offset_y == old(self).offset_y,
            final(self).zoom == old(self).zoom,
            final(self).parameters == old(self).parameters,
    {
        if increase {
            if self.rate == 0 {
                self.rate = 1;
            } else {
                self.rate = self.rate * 2;
            }
        } else {
            if self.rate > 1 {
                self.rate = self.rate / 2;
            } else {
                self.rate = 0;
            }
        }
    }

    /// Pauses the simulation: forces the rate to 0 from any prior value.
    pub fn pause(&mut self)
        requires
            old(self).wf(),
        ensures
            final(self).wf(),
            final(self).rate == 0,
            final(self).target_width == old(self).target_width,
            final(self).target_height == old(self).target_height,
            final(self).reset_requested == old(self).reset_requested,
            final(self).frame_step == old(self).frame_step,
            final(self).offset_x == old(self).offset_x,
            final(self).offset_y == old(self).offset_y,
            final(self).zoom == old(self).zoom,
            final(self).parameters == old(self).parameters,
    {
        self.rate = 0;
    }

    /// Requests `num_frames` extra simulation steps for the next frame only:
    /// they are added to the one-shot accumulator that frame assembly
    /// consumes and resets.
    pub fn skip_frames(&mut self, num_frames: u32)
        requires
            old(self).wf(),
            old(self).frame_step + num_frames <= u32::MAX,
        ensures
            final(self).wf(),
            final(self).frame_step == old(self).frame_step + num_frames,
            final(self).target_width == old(self).target_width,
            final(self).target_height == old(self).target_height,
            final(self).reset_requested == old(self).reset_requested,
            final(self).rate == old(self).rate,
            final(self).offset_x == old(self).offset_x,
            final(self).offset_y == old(self).offset_y,
            final(self).zoom == old(self).zoom,
            final(self).parameters == old(self).parameters,
    {
        self.frame_step = self.frame_step + num_frames;
    }

    /// Requests a world reset: the next frame randomizes the world before
    /// simulating. Also adds one extra step to the one-shot accumulator, so
    /// the frame that performs the reset advances the fresh state at least
    /// once before it is rendered.
    pub fn reset_world(&mut self)
        requires
            old(self).wf(),
            old(self).frame_step < u32::MAX,
        ensures
            final(self).wf(),
            final(self).reset_requested == true,
            final(self).frame_step == old(self).frame_step + 1,
            final(self).target_width == old(self).target_width,
            final(self).target_height == old(self).target_height,
            final(self).rate == old(self).rate,
            final(self).offset_x == old(self).offset_x,
            final(self).offset_y == old(self).offset_y,
            final(self).zoom == old(self).zoom,
            final(self).parameters == old(self).parameters,
    {
        self.reset_requested = true;
        self.frame_step = self.frame_step + 1;
    }

    /// Copies the given values into the parameter table by index, as the
    /// unsigned bit patterns the simulation kernel consumes; entries past the
    /// input's length keep their old values, and input past the table's
    /// capacity is ignored.
    pub fn set_parameters(&mut self, parameters: &Vec<i16>)
        requires
            old(self).wf(),
        ensures
            final(self).wf(),
            forall|i: int|
                0 <= i < parameters@.len() && i < PARAMETER_SPACE ==> final(self).parameters@[i]
                    == to_bits16(parameters@[i]),
            forall|i: int|
                parameters@.len() <= i < PARAMETER_SPACE ==> final(self).parameters@[i] == old(
                    self,
                ).parameters@[i],
            final(self).target_width == old(self).target_width,
            final(self).target_height == old(self).target_height,
            final(self).reset_requested == old(self).reset_requested,
            final(self).rate == old(self).rate,
            final(self).frame_step == old(self).frame_step,
            final(self).offset_x == old(self).offset_x,
            final(self).offset_y == old(self).offset_y,
            final(self).zoom == old(self).zoom,
    {
        let capacity: usize = PARAMETER_SPACE as usize;
        let count: usize = if parameters.len() < capacity {
            parameters.len()
        } else {
            capacity
        };
        let mut index: usize = 0;
        while index < count
            invariant
                old(self).wf(),
                self.wf(),
                index <= count,
                count <= parameters@.len(),
                count <= PARAMETER_SPACE,
                forall|i: int|
                    0 <= i < index ==> self.parameters@[i] == to_bits16(parameters@[i]),
                forall|i: int|
                    index <= i < PARAMETER_SPACE ==> self.parameters@[i] == old(
                        self,
                    ).parameters@[i],
                self.target_width == old(self).target_width,
                self.target_height == old(self).target_height,
                self.reset_requested == old(self).reset_requested,
                self.rate == old(self).rate,
                self.frame_step == old(self).frame_step,
                self.offset_x == old(self).offset_x,
                self.offset_y == old(self).offset_y,
                self.zoom == old(self).zoom,
            decreases count - index,
        {
            let value: i16 = parameters[index];
            let bits: u16 = if value >= 0 {
                value as u16
            } else {
                ((value as i32) + 0x10000) as u16
            };
            assert(bits == to_bits16(parameters@[index as int]));
            self.parameters[index] = bits;
            index = index + 1;
        }
    }

    /// Appends one frame's commands to `add_to` and returns it, consuming the
    /// one-shot state: in order, the parameter upload; a randomize dispatch
    /// if a reset was pending (then the flag is cleared); `rate + frame_step`
    /// simulate/copy pairs; the unconditional post-loop world copy; and the
    /// finalize dispatch under the current view state. Afterwards the extra-
    /// step accumulator is 0 and no reset is pending; all other state is
    /// unchanged.
    pub fn add_render_commands(&mut self, add_to: Vec<RenderCommand>) -> (result: Vec<
        RenderCommand,
    >)
        requires
            old(self).wf(),
            old(self).rate + old(self).frame_step <= u32::MAX,
        ensures
            final(self).wf(),
            result@ == add_to@ + frame_commands(*old(self)),
            final(self).reset_requested == false,
            final(self).frame_step == 0,
            final(self).target_width == old(self).target_width,
            final(self).target_height == old(self).target_height,
            final(self).rate == old(self).rate,
            final(self).offset_x == old(self).offset_x,
            final(self).offset_y == old(self).offset_y,
            final(self).zoom == old(self).zoom,
            final(self).parameters == old(self).parameters,
    {
        let mut commands = add_to;
        commands.push(RenderCommand::UploadParameters);
        if self.reset_requested {
            commands.push(
                RenderCommand::DispatchRandomize {
                    groups_x: WORLD_DISPATCH_GROUPS,
                    groups_y: WORLD_DISPATCH_GROUPS,
                    groups_z: 1,
                },
            );
            self.reset_requested = false;
        }
        let ghost reset_part: Seq<RenderCommand> = if old(self).reset_requested {
            seq![randomize_command()]
        } else {
            Seq::<RenderCommand>::empty()
        };
        assert(commands@ =~= add_to@ + seq![upload_parameters_command()] + reset_part);
        let total: u32 = self.rate + self.frame_step;
        let mut step: u32 = 0;
        while step < total
            invariant
                step <= total,
                commands@ == add_to@ + seq![upload_parameters_command()] + reset_part
                    + sim_step_pairs(step as nat),
            decreases total - step,
        {
            commands.push(
                RenderCommand::DispatchSimulate {
                    groups_x: WORLD_DISPATCH_GROUPS,
                    groups_y: WORLD_DISPATCH_GROUPS,
                    groups_z: 1,
                },
            );
            commands.push(RenderCommand::CopyWorldTargetToSource);
            assert(commands@ =~= add_to@ + seq![upload_parameters_command()] + reset_part
                + sim_step_pairs(step as nat) + seq![simulate_command(), copy_world_command()]);
            assert(sim_step_pairs((step + 1) as nat) == sim_step_pairs(step as nat)
                + seq![simulate_command(), copy_world_command()]);
            assert(commands@ =~= add_to@ + seq![upload_parameters_command()] + reset_part
                + sim_step_pairs((step + 1) as nat));
            step = step + 1;
        }
        self.frame_step = 0;
        commands.push(RenderCommand::CopyWorldTargetToSource);
        commands.push(
            RenderCommand::DispatchFinalize {
                groups_x: self.target_width / LOCAL_GROUP_SIZE,
                groups_y: self.target_height / LOCAL_GROUP_SIZE,
                groups_z: 1,
                offset_x: self.offset_x,
                offset_y: self.offset_y,
                zoom: self.zoom,
            },
        );
        assert(commands@ =~= add_to@ + frame_commands(*old(self)));
        commands
    }
}

} // verus!
