use porp::{init, Entity, IDManager, IDType, ID};

#[test]
fn ids_start_at_one_per_category() {
    let mut manager = IDManager::new();
    let a = ID::new(&mut manager, IDType::Vertex);
    let b = ID::new(&mut manager, IDType::Texture);
    let c = ID::new(&mut manager, IDType::Vertex);
    assert_eq!(a.get_id(), 1);
    assert_eq!(b.get_id(), 1);
    assert_eq!(c.get_id(), 2);
}

#[test]
fn ids_of_one_category_count_up_without_repeats() {
    let mut manager = init();
    let mut seen = Vec::new();
    for _ in 0..100 {
        seen.push(manager.get_id(IDType::Model));
    }
    let expected: Vec<u32> = (1..=100).collect();
    assert_eq!(seen, expected);
}

#[test]
fn ids_interleaved_categories_are_independent() {
    let mut manager = IDManager::new();
    let order = [
        IDType::Index,
        IDType::View,
        IDType::Index,
        IDType::Perspective,
        IDType::View,
        IDType::Index,
    ];
    let got: Vec<u32> = order.iter().map(|t| manager.get_id(*t)).collect();
    assert_eq!(got, vec![1, 1, 2, 1, 2, 3]);
}

#[test]
fn category_indices_are_distinct() {
    let all = [
        IDType::Vertex,
        IDType::Index,
        IDType::Texture,
        IDType::DrawParameter,
        IDType::Perspective,
        IDType::View,
        IDType::Model,
    ];
    let idx: Vec<u32> = all.iter().map(|t| t.index()).collect();
    assert_eq!(idx, vec![0, 1, 2, 3, 4, 5, 6]);
}

#[test]
fn entity_new_takes_one_id_of_each_category() {
    let mut manager = IDManager::new();
    manager.get_id(IDType::Model);
    manager.get_id(IDType::Model);
    let e = Entity::new(&mut manager);
    assert_eq!(e.id(IDType::Vertex).get_id(), 1);
    assert_eq!(e.id(IDType::Texture).get_id(), 1);
    assert_eq!(e.id(IDType::Model).get_id(), 3);
    let f = Entity::new(&mut manager);
    assert_eq!(f.id(IDType::Index).get_id(), 2);
    assert_eq!(f.id(IDType::DrawParameter).get_id(), 2);
    assert_eq!(f.id(IDType::Perspective).get_id(), 2);
    assert_eq!(f.id(IDType::View).get_id(), 2);
    assert_eq!(f.id(IDType::Model).get_id(), 4);
}

#[test]
fn entity_new_from_copies_every_id() {
    let mut manager = IDManager::new();
    let e = Entity::new(&mut manager);
    let f = Entity::new_from(&e);
    assert_eq!(e, f);
}

#[test]
fn entity_use_new_id_rerolls_one_category() {
    let mut manager = IDManager::new();
    let base = Entity::new(&mut manager);
    let mut derived = Entity::new_from(&base);
    derived.use_new_id(&mut manager, IDType::Model);
    assert_eq!(derived.id(IDType::Model).get_id(), 2);
    assert_eq!(derived.id(IDType::Texture), base.id(IDType::Texture));
    assert_eq!(derived.id(IDType::Vertex), base.id(IDType::Vertex));
    assert_ne!(derived, base);
}

#[test]
fn entity_use_old_id_copies_one_category() {
    let mut manager = IDManager::new();
    let a = Entity::new(&mut manager);
    let mut b = Entity::new(&mut manager);
    b.use_old_id(&a, IDType::Texture);
    assert_eq!(b.id(IDType::Texture), a.id(IDType::Texture));
    assert_eq!(b.id(IDType::Vertex).get_id(), 2);
    assert_eq!(b.id(IDType::Model).get_id(), 2);
}

#[test]
fn issued_count_tracks_each_category() {
    let mut manager = IDManager::new();
    assert_eq!(manager.issued_count(IDType::Texture), 0);
    let _ = Entity::new(&mut manager);
    manager.get_id(IDType::Texture);
    assert_eq!(manager.issued_count(IDType::Texture), 2);
    assert_eq!(manager.issued_count(IDType::View), 1);
}
