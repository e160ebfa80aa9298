//! The stages of a frame: which systems there are, which of them must have
//! run before which, and an order that keeps to it.

use vstd::prelude::*;

verus! {

/// A stage of the frame pipeline. Each is one system of the dispatcher.
#[derive(Clone, Copy, Debug, PartialEq, Eq)]
pub enum Stage {
    /// Counts the lifetimes down and asks for what is over to be deleted.
    Lifetime,
    /// Fades the laser beams with the lifetime they have left.
    LaserLifetime,
    /// Has the lines ready for the renderer, which draws them.
    Line,
    /// Moves what has a heading and a speed.
    CartesianVelocity,
    /// Moves what has a velocity.
    Velocity,
    /// Turns entities the way their velocity points.
    Rotation,
    /// Turns entities the way their heading points.
    CartesianRotation,
    /// Picks the rotated variant of each sprite.
    SpriteRotation,
    /// Puts each sprite where its entity is on the screen.
    SpritePosition,
    /// Blits the sprites and then draws the lines over them. It ends the
    /// frame, on the dispatching thread.
    Render,
}

/// The number of stages.
pub const STAGES: usize = 10;

/// The place of a stage in the frame.
pub open spec fn position(stage: Stage) -> int {
    match stage {
        Stage::Lifetime => 0,
        Stage::LaserLifetime => 1,
        Stage::Line => 2,
        Stage::CartesianVelocity => 3,
        Stage::Velocity => 4,
        Stage::Rotation => 5,
        Stage::CartesianRotation => 6,
        Stage::SpriteRotation => 7,
        Stage::SpritePosition => 8,
        Stage::Render => 9,
    }
}

/// The stages in the order of a frame.
pub open spec fn frame_order() -> Seq<Stage> {
    seq![
        Stage::Lifetime,
        Stage::LaserLifetime,
        Stage::Line,
        Stage::CartesianVelocity,
        Stage::Velocity,
        Stage::Rotation,
        Stage::CartesianRotation,
        Stage::SpriteRotation,
        Stage::SpritePosition,
        Stage::Render,
    ]
}

/// The stages that must have run in a frame before a stage may run.
pub open spec fn runs_after(stage: Stage) -> Seq<Stage> {
    match stage {
        Stage::Line => seq![Stage::LaserLifetime],
        Stage::Rotation => seq![Stage::Velocity],
        Stage::CartesianRotation => seq![Stage::CartesianVelocity],
        Stage::SpriteRotation => seq![Stage::Rotation, Stage::CartesianRotation],
        Stage::SpritePosition => seq![Stage::Velocity, Stage::CartesianVelocity],
        Stage::Render => seq![
            Stage::Lifetime,
            Stage::LaserLifetime,
            Stage::Line,
            Stage::CartesianVelocity,
            Stage::Velocity,
            Stage::Rotation,
            Stage::CartesianRotation,
            Stage::SpriteRotation,
            Stage::SpritePosition,
        ],
        _ => seq![],
    }
}

/// The name a stage is registered under.
pub open spec fn stage_name(stage: Stage) -> Seq<char> {
    match stage {
        Stage::Lifetime => "lifetime"@,
        Stage::LaserLifetime => "laser_lifetime"@,
        Stage::Line => "line"@,
        Stage::CartesianVelocity => "cartesian_velocity"@,
        Stage::Velocity => "velocity"@,
        Stage::Rotation => "rotation"@,
        Stage::CartesianRotation => "cartesian_rotation"@,
        Stage::SpriteRotation => "sprite_rotation"@,
        Stage::SpritePosition => "sprite_position"@,
        Stage::Render => "render"@,
    }
}

/// The stages in the order of a frame.
pub fn order() -> (order: Vec<Stage>)
    ensures
        order@ == frame_order(),
{
    vec![
        Stage::Lifetime,
        Stage::LaserLifetime,
        Stage::Line,
        Stage::CartesianVelocity,
        Stage::Velocity,
        Stage::Rotation,
        Stage::CartesianRotation,
        Stage::SpriteRotation,
        Stage::SpritePosition,
        Stage::Render,
    ]
}

/// The stages that must have run before a stage.
pub fn dependencies(stage: Stage) -> (after: Vec<Stage>)
    ensures
        after@ == runs_after(stage),
{
    match stage {
        Stage::Line => vec![Stage::LaserLifetime],
        Stage::Rotation => vec![Stage::Velocity],
        Stage::CartesianRotation => vec![Stage::CartesianVelocity],
        Stage::SpriteRotation => vec![Stage::Rotation, Stage::CartesianRotation],
        Stage::SpritePosition => vec![Stage::Velocity, Stage::CartesianVelocity],
        Stage::Render => vec![
            Stage::Lifetime,
            Stage::LaserLifetime,
            Stage::Line,
            Stage::CartesianVelocity,
            Stage::Velocity,
            Stage::Rotation,
            Stage::CartesianRotation,
            Stage::SpriteRotation,
            Stage::SpritePosition,
        ],
        _ => vec![],
    }
}

/// The name a stage is registered under.
pub fn name(stage: Stage) -> (name: &'static str)
    ensures
        name@ == stage_name(stage),
{
    match stage {
        Stage::Lifetime => "lifetime",
        Stage::LaserLifetime => "laser_lifetime",
        Stage::Line => "line",
        Stage::CartesianVelocity => "cartesian_velocity",
        Stage::Velocity => "velocity",
        Stage::Rotation => "rotation",
        Stage::CartesianRotation => "cartesian_rotation",
        Stage::SpriteRotation => "sprite_rotation",
        Stage::SpritePosition => "sprite_position",
        Stage::Render => "render",
    }
}

/// The frame order holds every stage once, at its position.
pub proof fn lemma_every_stage_once()
    ensures
        frame_order().len() == STAGES,
        forall|stage: Stage|
            0 <= #[trigger] position(stage) < STAGES && frame_order()[position(stage)] == stage,
        forall|i: int| 0 <= i < STAGES ==> position(#[trigger] frame_order()[i]) == i,
{
}

/// The frame order is a topological order of the dependencies: whatever
/// must have run before a stage stands before it, and the renderer stands
/// last.
pub proof fn lemma_order_keeps_dependencies(stage: Stage, i: int)
    requires
        0 <= i < runs_after(stage).len(),
    ensures
        position(runs_after(stage)[i]) < position(stage),
        position(stage) <= position(Stage::Render),
{
}

/// No two stages are registered under one name.
pub proof fn lemma_names_differ(a: Stage, b: Stage)
    requires
        a != b,
    ensures
        stage_name(a) != stage_name(b),
{
    reveal_strlit("lifetime");
    reveal_strlit("laser_lifetime");
    reveal_strlit("line");
    reveal_strlit("cartesian_velocity");
    reveal_strlit("velocity");
    reveal_strlit("rotation");
    reveal_strlit("cartesian_rotation");
    reveal_strlit("sprite_rotation");
    reveal_strlit("sprite_position");
    reveal_strlit("render");
    if stage_name(a).len() == stage_name(b).len() {
        // Names of one length: "lifetime", "velocity" and "rotation";
        // "sprite_rotation" and "sprite_position"; "cartesian_velocity"
        // and "cartesian_rotation".
        assert(stage_name(a)[0] != stage_name(b)[0] || stage_name(a)[7] != stage_name(b)[7]
            || stage_name(a)[10] != stage_name(b)[10]);
    }
}

} // verus!
