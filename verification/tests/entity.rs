use feather::entity::{Entities, EntityId};

#[test]
fn to_bits_from_bits_roundtrip() {
    let entity = EntityId {
        index: 10000,
        generation: 10000000,
    };
    assert_eq!(EntityId::from_bits(entity.to_bits()), entity);
}

#[test]
fn to_bits_puts_the_index_in_the_upper_half() {
    let entity = EntityId { index: 1, generation: 2 };
    assert_eq!(entity.to_bits(), 0x1_0000_0002);
    assert_eq!(EntityId::from_bits(0xffff_ffff_0000_0007), EntityId { index: u32::MAX, generation: 7 });
}

#[test]
fn entities_linear_allocation() {
    let mut entities = Entities::default();

    for i in 0..100 {
        let entity = entities.allocate();
        assert_eq!(entity.index(), i);
        assert_eq!(entity.generation(), 0);
        assert!(entities.check_generation(entity).is_ok());
    }

    entities
        .deallocate(EntityId {
            index: 5,
            generation: 0,
        })
        .unwrap();

    let entity = entities.allocate();
    assert_eq!(entity.index(), 5);
    assert_eq!(entity.generation(), 1);
    assert!(entities.check_generation(entity).is_ok());
}

#[test]
fn entities_iter_skips_free_indices() {
    let mut entities = Entities::default();
    let a = entities.allocate();
    let b = entities.allocate();
    let c = entities.allocate();
    entities.deallocate(b).unwrap();
    assert_eq!(entities.iter().collect::<Vec<_>>(), vec![a, c]);
    assert_eq!(entities.ids(), vec![a, c]);
    assert!(entities.deallocate(b).is_err());
    assert_eq!(entities.get(1), EntityId { index: 1, generation: 1 });
}
