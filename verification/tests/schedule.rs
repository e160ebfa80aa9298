use rocket_game::schedule::{dependencies, name, order, Stage, STAGES};

const ALL: [Stage; 10] = [
    Stage::Lifetime,
    Stage::LaserLifetime,
    Stage::Line,
    Stage::CartesianVelocity,
    Stage::Velocity,
    Stage::Rotation,
    Stage::CartesianRotation,
    Stage::SpriteRotation,
    Stage::SpritePosition,
    Stage::Render,
];

fn place(stage: Stage) -> usize {
    order().iter().position(|&s| s == stage).unwrap()
}

#[test]
fn frame_order_of_the_stages() {
    assert_eq!(STAGES, 10);
    assert_eq!(order(), ALL.to_vec());
}

#[test]
fn every_stage_runs_once_a_frame() {
    for stage in ALL {
        assert_eq!(order().iter().filter(|&&s| s == stage).count(), 1);
    }
}

#[test]
fn declared_dependencies() {
    assert_eq!(dependencies(Stage::Lifetime), vec![]);
    assert_eq!(dependencies(Stage::LaserLifetime), vec![]);
    assert_eq!(dependencies(Stage::Line), vec![Stage::LaserLifetime]);
    assert_eq!(dependencies(Stage::CartesianVelocity), vec![]);
    assert_eq!(dependencies(Stage::Velocity), vec![]);
    assert_eq!(dependencies(Stage::Rotation), vec![Stage::Velocity]);
    assert_eq!(
        dependencies(Stage::CartesianRotation),
        vec![Stage::CartesianVelocity]
    );
    assert_eq!(
        dependencies(Stage::SpriteRotation),
        vec![Stage::Rotation, Stage::CartesianRotation]
    );
    assert_eq!(
        dependencies(Stage::SpritePosition),
        vec![Stage::Velocity, Stage::CartesianVelocity]
    );
    assert_eq!(dependencies(Stage::Render), ALL[..9].to_vec());
}

#[test]
fn dependencies_run_before_their_dependents() {
    for stage in ALL {
        for before in dependencies(stage) {
            assert!(place(before) < place(stage));
        }
    }
    assert_eq!(place(Stage::Render), STAGES - 1);
}

#[test]
fn stage_names() {
    assert_eq!(name(Stage::Lifetime), "lifetime");
    assert_eq!(name(Stage::LaserLifetime), "laser_lifetime");
    assert_eq!(name(Stage::Line), "line");
    assert_eq!(name(Stage::CartesianVelocity), "cartesian_velocity");
    assert_eq!(name(Stage::Velocity), "velocity");
    assert_eq!(name(Stage::Rotation), "rotation");
    assert_eq!(name(Stage::CartesianRotation), "cartesian_rotation");
    assert_eq!(name(Stage::SpriteRotation), "sprite_rotation");
    assert_eq!(name(Stage::SpritePosition), "sprite_position");
    assert_eq!(name(Stage::Render), "render");
    for (i, a) in ALL.iter().enumerate() {
        for b in &ALL[i + 1..] {
            assert_ne!(name(*a), name(*b));
        }
    }
}
