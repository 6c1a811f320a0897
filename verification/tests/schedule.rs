use nannou_physim::{Chain, ConfigError, Constraint, Op, Schedule};

fn drain(schedule: &mut Schedule) -> Vec<Op> {
    let mut ops = Vec::new();
    while let Some(op) = schedule.next_op() {
        ops.push(op);
        assert!(ops.len() <= 10_000);
    }
    ops
}

#[test]
fn schedule_refuses_a_chain_without_particles() {
    assert!(matches!(Schedule::new(0, 5), Err(ConfigError::EmptyChain)));
    assert!(matches!(Schedule::new(0, 0), Err(ConfigError::EmptyChain)));
    assert!(Schedule::new(1, 0).is_ok());
}

#[test]
fn sub_step_integrates_then_sweeps_from_start_to_end() {
    let mut schedule = Schedule::new(3, 1).unwrap();
    assert_eq!(
        drain(&mut schedule),
        vec![
            Op::Integrate,
            Op::Resolve(Constraint::StartAnchor),
            Op::Resolve(Constraint::Link(0)),
            Op::Resolve(Constraint::Link(1)),
            Op::Resolve(Constraint::EndAnchor),
        ]
    );
}

#[test]
fn frame_repeats_the_sub_step() {
    let mut schedule = Schedule::new(2, 3).unwrap();
    let one = vec![
        Op::Integrate,
        Op::Resolve(Constraint::StartAnchor),
        Op::Resolve(Constraint::Link(0)),
        Op::Resolve(Constraint::EndAnchor),
    ];
    let mut expected = Vec::new();
    for _ in 0..3 {
        expected.extend(one.iter().copied());
    }
    assert_eq!(drain(&mut schedule), expected);
}

#[test]
fn single_particle_is_tied_to_both_anchors_only() {
    let mut schedule = Schedule::new(1, 2).unwrap();
    assert_eq!(
        drain(&mut schedule),
        vec![
            Op::Integrate,
            Op::Resolve(Constraint::StartAnchor),
            Op::Resolve(Constraint::EndAnchor),
            Op::Integrate,
            Op::Resolve(Constraint::StartAnchor),
            Op::Resolve(Constraint::EndAnchor),
        ]
    );
}

#[test]
fn finished_frame_hands_out_nothing_more() {
    let mut schedule = Schedule::new(4, 1).unwrap();
    assert_eq!(drain(&mut schedule).len(), 6);
    assert_eq!(schedule.next_op(), None);
    assert_eq!(schedule.next_op(), None);
}

#[test]
fn frame_without_sub_steps_is_finished_at_once() {
    let mut schedule = Schedule::new(3, 0).unwrap();
    assert_eq!(schedule.next_op(), None);
}

#[test]
fn frame_holds_one_integration_per_sub_step() {
    let particles = 15;
    let sub_steps = 5;
    let mut schedule = Schedule::new(particles, sub_steps).unwrap();
    let ops = drain(&mut schedule);
    assert_eq!(ops.len(), sub_steps * (particles + 2));
    let integrations = ops.iter().filter(|op| **op == Op::Integrate).count();
    assert_eq!(integrations, sub_steps);
    for (number, op) in ops.iter().enumerate() {
        assert_eq!(*op == Op::Integrate, number % (particles + 2) == 0);
    }
}

#[test]
fn sweep_visits_every_adjacent_pair_once_in_chain_order() {
    let particles = 6;
    let mut schedule = Schedule::new(particles, 1).unwrap();
    let ops = drain(&mut schedule);
    let mut links = Vec::new();
    for op in &ops[1..] {
        match op {
            Op::Resolve(constraint) => links.push(*constraint),
            Op::Integrate => panic!("a sub-step integrates once"),
        }
    }
    assert_eq!(links.len(), particles + 1);
    assert_eq!(links[0], Constraint::StartAnchor);
    for i in 0..particles - 1 {
        assert_eq!(links[i + 1], Constraint::Link(i));
    }
    assert_eq!(links[particles], Constraint::EndAnchor);
}

#[test]
fn chain_hands_out_the_schedule_of_its_own_length() {
    let positions = vec![
        glam::Vec2::new(1.0, 0.0),
        glam::Vec2::new(2.0, 0.0),
        glam::Vec2::new(3.0, 0.0),
        glam::Vec2::new(4.0, 0.0),
    ];
    let chain = Chain::new(
        glam::Vec2::new(0.0, 0.0),
        glam::Vec2::new(5.0, 0.0),
        positions,
        glam::Vec2::ZERO,
    )
    .unwrap();
    let mut from_chain = chain.frame(2);
    let mut by_count = Schedule::new(4, 2).unwrap();
    assert_eq!(drain(&mut from_chain), drain(&mut by_count));
}
