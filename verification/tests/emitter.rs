use amethyst_rhusics::resources::Emitter;
use amethyst_rhusics::systems::emission::EmissionSystem;

const MS: u128 = 1_000_000;

#[test]
fn emitter_with_half_second_interval_fires_once() {
    let mut emitter = Emitter::new((0i32, 0i32), 0, 500 * MS);
    let mut emitted = 0;
    if emitter.poll(0) {
        emitted += 1;
    }
    if emitter.poll(600 * MS) {
        emitted += 1;
    }
    assert_eq!(emitted, 1);
    assert_eq!(emitter.last_emit, 600 * MS);
    if emitter.poll(700 * MS) {
        emitted += 1;
    }
    assert_eq!(emitted, 1);
    assert_eq!(emitter.last_emit, 600 * MS);
}

#[test]
fn emitter_is_not_due_at_exactly_its_interval() {
    let emitter = Emitter::new((), 100, 500);
    assert!(!emitter.is_due(600));
    assert!(emitter.is_due(601));
}

#[test]
fn emitter_is_not_due_when_the_clock_reads_earlier() {
    let emitter = Emitter::new((), 1_000, 0);
    assert!(!emitter.is_due(999));
    assert!(!emitter.is_due(1_000));
    assert!(emitter.is_due(1_001));
}

#[test]
fn emission_system_reports_the_emitters_that_fired() {
    let mut emitters = vec![
        Some(Emitter::new('a', 0, 500)),
        None,
        Some(Emitter::new('b', 0, 750)),
        Some(Emitter::new('c', 0, 1_000)),
    ];
    let mut system = EmissionSystem;
    assert_eq!(system.run(600, &mut emitters), vec![0]);
    assert_eq!(emitters[0].as_ref().unwrap().last_emit, 600);
    assert_eq!(emitters[2].as_ref().unwrap().last_emit, 0);
    assert_eq!(system.run(1_001, &mut emitters), vec![2, 3]);
    assert_eq!(emitters[0].as_ref().unwrap().last_emit, 600);
    assert_eq!(emitters[2].as_ref().unwrap().last_emit, 1_001);
    assert_eq!(emitters[3].as_ref().unwrap().last_emit, 1_001);
    assert!(emitters[1].is_none());
}
