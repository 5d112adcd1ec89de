use wyvern_core::blocks::BlockState;
use wyvern_core::dimension::{DimensionData, NoopGenerator};
use wyvern_core::item::{
    DamageComponentType, ItemCountComponentType, ItemModelComponentType, ItemStack,
    MaxDamageComponentType,
};
use wyvern_core::registries::{DimensionType, RegistryContainer};
use wyvern_core::values::{Id, Vec3i};

#[test]
fn item_count_component() {
    let mut stack = ItemStack::new(Id::constant("minecraft", "stone"));
    assert_eq!(ItemCountComponentType.get_component(&stack), Some(1));
    ItemCountComponentType.insert_component(&mut stack, 64);
    assert_eq!(stack.count(), 64);
    // unsetting the count is a no-op
    ItemCountComponentType.unset_component(&mut stack);
    assert_eq!(stack.count(), 64);
}

#[test]
fn max_damage_component() {
    let mut stack = ItemStack::new(Id::constant("minecraft", "pickaxe"));
    assert_eq!(MaxDamageComponentType.get_component(&stack), None);
    MaxDamageComponentType.insert_component(&mut stack, 250);
    assert_eq!(MaxDamageComponentType.get_component(&stack), Some(250));
    MaxDamageComponentType.unset_component(&mut stack);
    assert_eq!(MaxDamageComponentType.get_component(&stack), None);
}

#[test]
fn damage_component() {
    let mut stack = ItemStack::new(Id::constant("minecraft", "pickaxe"));
    DamageComponentType.insert_component(&mut stack, 10);
    assert_eq!(DamageComponentType.get_component(&stack), Some(10));
    DamageComponentType.unset_component(&mut stack);
    assert_eq!(DamageComponentType.get_component(&stack), None);
}

#[test]
fn item_model_component() {
    let mut stack = ItemStack::new(Id::constant("minecraft", "stone"));
    assert!(ItemModelComponentType.get_component(&stack).is_none());
    ItemModelComponentType.insert_component(&mut stack, Id::constant("minecraft", "stone"));
    let model = ItemModelComponentType.get_component(&stack).unwrap();
    assert_eq!(model.namespace, "minecraft");
    assert_eq!(model.path, "stone");
    ItemModelComponentType.unset_component(&mut stack);
    assert!(ItemModelComponentType.get_component(&stack).is_none());
}

#[test]
fn air_stack_is_empty() {
    let air = ItemStack::air();
    assert_eq!(air.kind().path, "air");
    assert_eq!(air.count(), 0);
}

#[test]
fn serialized_writes_apply_in_order() {
    // ten producers' interleaved writes, serialized through the one owner:
    // the final block at each position is the last write in that position's
    // sequence
    let mut regs = RegistryContainer::new();
    regs.blocks.insert(Id::constant("minecraft", "air"), ());
    for producer in 0..10 {
        regs.blocks.insert(Id::constant("wyvern", &format!("block_{}", producer)), ());
    }
    regs.dimension_types.insert(
        Id::constant("minecraft", "overworld"),
        DimensionType { min_y: 0, height: 64 },
    );
    let mut dim: DimensionData<NoopGenerator> = DimensionData::new(
        Id::constant("wyvern", "root"),
        Id::constant("minecraft", "overworld"),
        NoopGenerator,
    );
    let mut effects = Vec::new();
    // 1000 writes: producer p writes its block to position (round % 10, 1, p),
    // 10 rounds per producer per position, interleaved round-robin
    for round in 0..100 {
        for producer in 0..10 {
            let pos = Vec3i::new(round % 10, 1, producer);
            let block = BlockState::new(Id::constant("wyvern", &format!("block_{}", producer)));
            dim.set_block(pos, block, &regs, &mut effects).unwrap();
        }
    }
    // every position's final block is the last writer's
    for x in 0..10 {
        for producer in 0..10 {
            let got = dim.get_block(Vec3i::new(x, 1, producer), &regs, &mut effects).unwrap();
            assert_eq!(got.name().path, format!("block_{}", producer));
        }
    }
}
