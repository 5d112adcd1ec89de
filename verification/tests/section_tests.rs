use wyvern_core::blocks::BlockState;
use wyvern_core::registry::Registry;
use wyvern_core::section::{set_then_get, ChunkSection, WireSection, SECTION_VOLUME, SECTION_WORDS};
use wyvern_core::values::{Id, UVec3};

fn block_registry() -> Registry<()> {
    let mut reg: Registry<()> = Registry::new();
    reg.insert(Id::constant("minecraft", "air"), ());
    reg.insert(Id::constant("minecraft", "stone"), ());
    reg.insert(Id::constant("minecraft", "grass_block"), ());
    reg.insert(Id::constant("minecraft", "chest"), ());
    reg
}

#[test]
fn empty_section_is_all_air() {
    let reg = block_registry();
    let section = ChunkSection::empty();
    assert_eq!(section.non_air_count(), 0);
    let b = section.get_block_at(UVec3::new(0, 0, 0), &reg).unwrap();
    assert_eq!(b.name().namespace, "minecraft");
    assert_eq!(b.name().path, "air");
}

#[test]
fn non_air_count_tracks_mutations() {
    let reg = block_registry();
    let mut section = ChunkSection::empty();
    let stone = BlockState::new(Id::constant("minecraft", "stone"));
    let grass = BlockState::new(Id::constant("minecraft", "grass_block"));
    let air = BlockState::new(Id::constant("minecraft", "air"));

    section.set_block_at(UVec3::new(1, 2, 3), &stone, &reg).unwrap();
    assert_eq!(section.non_air_count(), 1);
    section.set_block_at(UVec3::new(4, 5, 6), &grass, &reg).unwrap();
    assert_eq!(section.non_air_count(), 2);
    // overwriting a non-air block with another non-air block keeps the count
    section.set_block_at(UVec3::new(1, 2, 3), &grass, &reg).unwrap();
    assert_eq!(section.non_air_count(), 2);
    // writing air over a non-air block decrements it
    section.set_block_at(UVec3::new(4, 5, 6), &air, &reg).unwrap();
    assert_eq!(section.non_air_count(), 1);
    // writing air over air changes nothing
    section.set_block_at(UVec3::new(9, 9, 9), &air, &reg).unwrap();
    assert_eq!(section.non_air_count(), 1);
}

#[test]
fn set_then_get_round_trip() {
    let reg = block_registry();
    let mut section = ChunkSection::empty();
    let grass = BlockState::new(Id::constant("minecraft", "grass_block"));
    let got = set_then_get(&mut section, UVec3::new(7, 8, 9), &grass, &reg);
    assert_eq!(got.name().namespace, "minecraft");
    assert_eq!(got.name().path, "grass_block");
    assert!(got.custom_data().is_none());
}

#[test]
fn set_then_get_keeps_custom_data() {
    let reg = block_registry();
    let mut section = ChunkSection::empty();
    let chest = BlockState::new(Id::constant("minecraft", "chest")).with_custom_data(vec![1, 2, 3]);
    let got = set_then_get(&mut section, UVec3::new(0, 15, 0), &chest, &reg);
    assert_eq!(got.name().path, "chest");
    assert_eq!(got.custom_data().unwrap(), &vec![1u8, 2, 3]);
}

#[test]
fn out_of_range_writes_are_rejected() {
    let reg = block_registry();
    let mut section = ChunkSection::empty();
    let stone = BlockState::new(Id::constant("minecraft", "stone"));
    let r = section.set_block_at(UVec3::new(16, 0, 0), &stone, &reg);
    assert!(r.is_err());
    let r = section.set_block_at(UVec3::new(0, 16, 0), &stone, &reg);
    assert!(r.is_err());
    let r = section.set_block_at(UVec3::new(0, 0, 99), &stone, &reg);
    assert!(r.is_err());
    assert_eq!(section.non_air_count(), 0);
    assert!(section.get_block_at(UVec3::new(0, 16, 0), &reg).is_err());
}

#[test]
fn unknown_block_name_is_rejected() {
    let reg = block_registry();
    let mut section = ChunkSection::empty();
    let unknown = BlockState::new(Id::constant("minecraft", "not_a_block"));
    let r = section.set_block_at(UVec3::new(0, 0, 0), &unknown, &reg);
    assert!(r.is_err());
    assert_eq!(section.non_air_count(), 0);
}

#[test]
fn wire_export_round_trips() {
    let reg = block_registry();
    let mut section = ChunkSection::empty();
    let stone = BlockState::new(Id::constant("minecraft", "stone"));
    let grass = BlockState::new(Id::constant("minecraft", "grass_block"));
    section.set_block_at(UVec3::new(0, 0, 0), &stone, &reg).unwrap();
    section.set_block_at(UVec3::new(15, 15, 15), &grass, &reg).unwrap();
    section.set_block_at(UVec3::new(3, 0, 0), &grass, &reg).unwrap();

    let wire: WireSection = section.to_wire(7);
    assert_eq!(wire.block_count, section.non_air_count());
    assert_eq!(wire.block_count, 3);
    assert_eq!(wire.bits_per_entry, 15);
    assert_eq!(wire.biome_bits, 0);
    assert_eq!(wire.biome, 7);
    assert_eq!(wire.data.len(), SECTION_WORDS);
    // decoded entries match the stored ids at the same indices
    assert_eq!(wire.entry(0), 1); // stone is registry entry 1
    assert_eq!(wire.entry(3), 2); // grass_block is entry 2
    assert_eq!(wire.entry(4095), 2);
    let mut nonzero: usize = 0;
    for i in 0..SECTION_VOLUME {
        if wire.entry(i) != 0 {
            nonzero += 1;
        }
    }
    assert_eq!(nonzero, 3);
}

#[test]
fn wire_packing_formula() {
    let reg = block_registry();
    let mut section = ChunkSection::empty();
    let stone = BlockState::new(Id::constant("minecraft", "stone"));
    let grass = BlockState::new(Id::constant("minecraft", "grass_block"));
    let chest = BlockState::new(Id::constant("minecraft", "chest"));
    // indices 0..3 of the flat array all sit in word 0
    section.set_block_at(UVec3::new(0, 0, 0), &stone, &reg).unwrap(); // id 1
    section.set_block_at(UVec3::new(1, 0, 0), &grass, &reg).unwrap(); // id 2
    section.set_block_at(UVec3::new(2, 0, 0), &chest, &reg).unwrap(); // id 3
    section.set_block_at(UVec3::new(3, 0, 0), &stone, &reg).unwrap(); // id 1
    let wire = section.to_wire(0);
    let expected: u64 = 1 | (2 << 15) | (3 << 30) | (1 << 45);
    assert_eq!(wire.data[0], expected);
}
