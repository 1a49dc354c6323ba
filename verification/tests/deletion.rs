use amethyst_rhusics::contact::{ChannelError, Contact, ContactChannel};
use amethyst_rhusics::resources::{ObjectTable, ObjectType};
use amethyst_rhusics::systems::deletion::{answer, sweep_contacts, BoxDeletionSystem};

fn contact(first: u64, second: u64) -> Contact {
    Contact { bodies: (first, second) }
}

fn table(tags: &[(u64, ObjectType)]) -> ObjectTable {
    let mut objects = ObjectTable::new();
    for &(entity, tag) in tags {
        objects.insert(entity, tag);
    }
    objects
}

#[test]
fn collider_predicate_suppresses_wall_pairs_only() {
    assert!(!ObjectType::Wall.should_generate_contacts(&ObjectType::Wall));
    assert!(ObjectType::Wall.should_generate_contacts(&ObjectType::Box));
    assert!(ObjectType::Box.should_generate_contacts(&ObjectType::Wall));
    assert!(ObjectType::Box.should_generate_contacts(&ObjectType::Box));
}

#[test]
fn object_table_inserts_gets_and_removes() {
    let mut objects = ObjectTable::new();
    assert_eq!(objects.len(), 0);
    assert_eq!(objects.get(1), None);
    assert_eq!(objects.insert(1, ObjectType::Box), None);
    assert_eq!(objects.insert(1, ObjectType::Wall), Some(ObjectType::Box));
    assert_eq!(objects.insert(2, ObjectType::Box), None);
    assert_eq!(objects.len(), 2);
    assert_eq!(objects.get(1), Some(ObjectType::Wall));
    assert_eq!(objects.get(2), Some(ObjectType::Box));
    assert_eq!(objects.remove(1), Some(ObjectType::Wall));
    assert_eq!(objects.remove(1), None);
    assert_eq!(objects.get(1), None);
    assert_eq!(objects.len(), 1);
}

#[test]
fn a_contact_deletes_when_both_bodies_are_tagged_and_not_both_walls() {
    let objects = table(&[
        (1, ObjectType::Box),
        (2, ObjectType::Box),
        (3, ObjectType::Wall),
        (4, ObjectType::Wall),
    ]);
    assert!(answer(&objects, &contact(1, 2)));
    assert!(answer(&objects, &contact(1, 3)));
    assert!(answer(&objects, &contact(3, 1)));
    assert!(!answer(&objects, &contact(3, 4)));
    assert!(!answer(&objects, &contact(4, 3)));
    assert!(!answer(&objects, &contact(3, 3)));
    assert!(!answer(&objects, &contact(1, 9)));
    assert!(!answer(&objects, &contact(9, 1)));
    assert!(!answer(&objects, &contact(8, 9)));
}

#[test]
fn wall_pairs_delete_nothing() {
    let mut objects = table(&[(3, ObjectType::Wall), (4, ObjectType::Wall), (5, ObjectType::Wall)]);
    let deleted = sweep_contacts(&mut objects, &vec![contact(3, 4), contact(4, 5), contact(5, 3)]);
    assert_eq!(deleted, Vec::<u64>::new());
    assert_eq!(objects.len(), 3);
    assert_eq!(objects.get(3), Some(ObjectType::Wall));
    assert_eq!(objects.get(4), Some(ObjectType::Wall));
    assert_eq!(objects.get(5), Some(ObjectType::Wall));
}

#[test]
fn boxes_that_touch_are_deleted_in_the_order_of_the_contacts() {
    let mut objects = table(&[
        (1, ObjectType::Box),
        (2, ObjectType::Box),
        (3, ObjectType::Box),
        (4, ObjectType::Box),
        (5, ObjectType::Box),
    ]);
    let deleted = sweep_contacts(&mut objects, &vec![contact(4, 3), contact(1, 2)]);
    assert_eq!(deleted, vec![4, 3, 1, 2]);
    assert_eq!(objects.len(), 1);
    assert_eq!(objects.get(5), Some(ObjectType::Box));
}

#[test]
fn a_body_deleted_earlier_in_the_batch_is_missing_for_a_later_contact() {
    let mut objects = table(&[(1, ObjectType::Box), (2, ObjectType::Box), (3, ObjectType::Box)]);
    let deleted = sweep_contacts(&mut objects, &vec![contact(1, 2), contact(2, 3), contact(1, 3)]);
    assert_eq!(deleted, vec![1, 2]);
    assert_eq!(objects.get(3), Some(ObjectType::Box));
    assert_eq!(objects.len(), 1);
}

#[test]
fn a_body_in_contact_with_itself_is_listed_twice() {
    let mut objects = table(&[(1, ObjectType::Box)]);
    let deleted = sweep_contacts(&mut objects, &vec![contact(1, 1)]);
    assert_eq!(deleted, vec![1, 1]);
    assert_eq!(objects.len(), 0);
}

#[test]
fn an_empty_batch_deletes_nothing() {
    let mut objects = table(&[(1, ObjectType::Box)]);
    assert_eq!(sweep_contacts(&mut objects, &vec![]), Vec::<u64>::new());
    assert_eq!(objects.len(), 1);
}

#[test]
fn deletion_system_answers_what_was_written_since_its_last_run() {
    let mut channel = ContactChannel::new();
    let mut system = BoxDeletionSystem::new(channel.register_reader());
    let mut objects = table(&[
        (1, ObjectType::Box),
        (2, ObjectType::Box),
        (3, ObjectType::Wall),
        (4, ObjectType::Wall),
        (5, ObjectType::Box),
    ]);
    channel.single_write(contact(3, 4));
    channel.single_write(contact(1, 2));
    assert_eq!(system.run(&mut channel, &mut objects), Ok(vec![1, 2]));
    assert_eq!(system.run(&mut channel, &mut objects), Ok(vec![]));
    channel.single_write(contact(1, 5));
    channel.single_write(contact(5, 3));
    assert_eq!(system.run(&mut channel, &mut objects), Ok(vec![5, 3]));
    assert_eq!(objects.len(), 1);
    assert_eq!(objects.get(4), Some(ObjectType::Wall));
}

#[test]
fn deletion_system_with_an_unknown_token_changes_nothing() {
    let mut other = ContactChannel::new();
    let mut system = BoxDeletionSystem::new(other.register_reader());
    let mut channel = ContactChannel::new();
    channel.single_write(contact(1, 2));
    let mut objects = table(&[(1, ObjectType::Box), (2, ObjectType::Box)]);
    assert_eq!(system.run(&mut channel, &mut objects), Err(ChannelError::UnknownReader));
    assert_eq!(objects.len(), 2);
}
