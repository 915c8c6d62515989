use feather::framing::MinecraftCodec;
use feather::item::Item;
use feather::movement::{packets_for_movement_update, MovementPacket, MovementUpdate};
use feather::window::{left_paint_shares, will_accept, Area, Mouse, PaintState};
use feather::wire::{
    read_bool, read_position, read_string, read_var_int, write_bool, write_position, write_string,
    write_var_int, BlockPosition,
};

fn use_movement() {
    let still = MovementUpdate {
        has_moved: false,
        has_looked: false,
        delta_x: 0,
        delta_y: 0,
        delta_z: 0,
        yaw: 10,
        pitch: 20,
        on_ground: true,
    };
    assert_eq!(packets_for_movement_update(7, &still), vec![]);

    let jitter = MovementUpdate { has_moved: true, ..still };
    assert_eq!(packets_for_movement_update(7, &jitter), vec![]);

    let step = MovementUpdate { has_moved: true, delta_x: 128, delta_z: -4, ..still };
    assert_eq!(
        packets_for_movement_update(7, &step),
        vec![MovementPacket::EntityRelativeMove {
            entity_id: 7,
            delta_x: 128,
            delta_y: 0,
            delta_z: -4,
            on_ground: true
        }]
    );

    let turn = MovementUpdate { has_looked: true, ..still };
    assert_eq!(
        packets_for_movement_update(7, &turn),
        vec![
            MovementPacket::EntityLook { entity_id: 7, yaw: 10, pitch: 20, on_ground: true },
            MovementPacket::EntityHeadLook { entity_id: 7, head_yaw: 10 },
        ]
    );

    let both = MovementUpdate { has_moved: true, has_looked: true, ..still };
    assert_eq!(
        packets_for_movement_update(7, &both),
        vec![
            MovementPacket::EntityLookAndRelativeMove {
                entity_id: 7,
                delta_x: 0,
                delta_y: 0,
                delta_z: 0,
                yaw: 10,
                pitch: 20,
                on_ground: true
            },
            MovementPacket::EntityHeadLook { entity_id: 7, head_yaw: 10 },
        ]
    );
}

fn var_int(x: i32) -> Vec<u8> {
    let mut out = Vec::new();
    write_var_int(&mut out, x);
    out
}

#[test]
fn var_int_bytes() {
    assert_eq!(var_int(0), vec![0x00]);
    assert_eq!(var_int(1), vec![0x01]);
    assert_eq!(var_int(127), vec![0x7f]);
    assert_eq!(var_int(128), vec![0x80, 0x01]);
    assert_eq!(var_int(255), vec![0xff, 0x01]);
    assert_eq!(var_int(25565), vec![0xdd, 0xc7, 0x01]);
    assert_eq!(var_int(2097151), vec![0xff, 0xff, 0x7f]);
    assert_eq!(var_int(i32::MAX), vec![0xff, 0xff, 0xff, 0xff, 0x07]);
}

#[test]
fn var_int_reading() {
    assert_eq!(read_var_int(&[0x00], 0), Ok((0, 1)));
    assert_eq!(read_var_int(&[0xdd, 0xc7, 0x01, 0x55], 0), Ok((25565, 3)));
    assert_eq!(read_var_int(&[0x55, 0x80, 0x01], 1), Ok((128, 3)));
    assert_eq!(read_var_int(&[0xff, 0xff, 0xff, 0xff, 0x07], 0), Ok((i32::MAX, 5)));
    assert_eq!(read_var_int(&[0xff, 0xff, 0xff, 0xff, 0x0f], 0), Ok((-1, 5)));
    assert_eq!(read_var_int(&[0x80, 0x80, 0x80, 0x80, 0x08], 0), Ok((i32::MIN, 5)));
    // Ends within the number.
    assert_eq!(read_var_int(&[0x80], 0), Err(()));
    assert_eq!(read_var_int(&[], 0), Err(()));
    assert_eq!(read_var_int(&[0x01], 1), Err(()));
    // More than five bytes.
    assert_eq!(read_var_int(&[0xff, 0xff, 0xff, 0xff, 0xff, 0x01], 0), Err(()));
    for x in [0, 1, 127, 128, 300, 16384, 1 << 21, 1 << 28, i32::MAX] {
        let bytes = var_int(x);
        assert_eq!(read_var_int(&bytes, 0), Ok((x, bytes.len())));
    }
}

#[test]
fn strings() {
    let mut out = vec![9];
    write_string(&mut out, "hello");
    assert_eq!(out, vec![9, 5, b'h', b'e', b'l', b'l', b'o']);
    assert_eq!(read_string(&out, 1), Ok(("hello".to_owned(), 7)));
    assert_eq!(read_string(&[0], 0), Ok((String::new(), 1)));
    // Fewer bytes than the length tells.
    assert_eq!(read_string(&[3, b'a', b'b'], 0), Err(()));
    // A length above 32767.
    assert_eq!(read_string(&[0x80, 0x80, 0x02], 0), Err(()));
    // A negative length.
    assert_eq!(read_string(&[0xff, 0xff, 0xff, 0xff, 0x0f], 0), Err(()));
    // Each byte is a character by itself.
    assert_eq!(read_string(&[1, 0xe9], 0), Ok(("\u{e9}".to_owned(), 2)));
}

#[test]
fn positions() {
    let mut out = Vec::new();
    write_position(&mut out, &BlockPosition::new(1, 2, 3));
    assert_eq!(out, vec![0, 0, 0, 0x40, 0x08, 0, 0, 3]);
    assert_eq!(read_position(&out, 0), Ok((BlockPosition::new(1, 2, 3), 8)));

    let far = BlockPosition::new(-33_554_432, 4095, 33_554_431);
    let mut out = vec![7];
    write_position(&mut out, &far);
    assert_eq!(read_position(&out, 1), Ok((far, 9)));
    assert_eq!(read_position(&out, 2), Err(()));

    let mut out = Vec::new();
    write_position(&mut out, &BlockPosition::new(-1, 0, -1));
    assert_eq!(out, vec![0xff, 0xff, 0xff, 0xc0, 0x03, 0xff, 0xff, 0xff]);
    assert_eq!(read_position(&out, 0), Ok((BlockPosition::new(-1, 0, -1), 8)));
}

#[test]
fn truth_values() {
    let mut out = Vec::new();
    write_bool(&mut out, true);
    write_bool(&mut out, false);
    assert_eq!(out, vec![1, 0]);
    assert_eq!(read_bool(&out, 0), Ok((true, 1)));
    assert_eq!(read_bool(&out, 1), Ok((false, 2)));
    assert_eq!(read_bool(&out, 2), Err(()));
    assert_eq!(read_bool(&[2], 0), Err(()));
}

#[test]
fn packets_are_framed() {
    let codec = MinecraftCodec::new();
    assert!(codec.is_uncompressed());
    let mut stream = Vec::new();
    codec.encode(&[1, 2, 3], &mut stream);
    codec.encode(&[], &mut stream);
    codec.encode(&[9; 200], &mut stream);
    assert_eq!(&stream[..6], &[3, 1, 2, 3, 0, 0xc8]);

    let mut receiver = codec.clone_with_settings();
    assert_eq!(receiver.next_packet(), None);
    receiver.accept(&stream[..2]);
    assert_eq!(receiver.next_packet(), None);
    receiver.accept(&stream[2..5]);
    assert_eq!(receiver.next_packet(), Some(vec![1, 2, 3]));
    assert_eq!(receiver.next_packet(), Some(vec![]));
    assert_eq!(receiver.next_packet(), None);
    receiver.accept(&stream[5..]);
    assert_eq!(receiver.next_packet(), Some(vec![9; 200]));
    assert_eq!(receiver.next_packet(), None);

    let mut compressed = MinecraftCodec::new();
    compressed.enable_compression(256);
    assert!(!compressed.is_uncompressed());
    assert!(!compressed.clone_with_settings().is_uncompressed());
}

#[test]
fn areas_accept_items() {
    assert!(will_accept(Area::Storage, Item::Stone));
    assert!(will_accept(Area::Hotbar, Item::Air));
    assert!(!will_accept(Area::CraftingOutput, Item::Stone));
    assert!(!will_accept(Area::CraftingInput, Item::Stone));
    assert!(will_accept(Area::Helmet, Item::IronHelmet));
    assert!(!will_accept(Area::Helmet, Item::IronBoots));
    assert!(will_accept(Area::Chestplate, Item::NetheriteChestplate));
    assert!(will_accept(Area::Leggings, Item::ChainmailLeggings));
    assert!(will_accept(Area::Boots, Item::LeatherBoots));
    assert!(will_accept(Area::EnchantmentLapis, Item::LapisLazuli));
    assert!(!will_accept(Area::EnchantmentLapis, Item::Diamond));
    assert!(will_accept(Area::BrewingBottle, Item::SplashPotion));
    assert!(will_accept(Area::BrewingBlazePowder, Item::BlazePowder));
    assert!(will_accept(Area::BeaconPayment, Item::Emerald));
    assert!(!will_accept(Area::BeaconPayment, Item::Stone));
    assert!(will_accept(Area::Saddle, Item::Saddle));
    assert!(will_accept(Area::HorseArmor, Item::DiamondHorseArmor));
    assert!(will_accept(Area::CartographyMap, Item::FilledMap));
    assert!(will_accept(Area::CartographyMap, Item::EmptyMap));
    assert!(will_accept(Area::CartographyPaper, Item::Paper));
    assert!(!will_accept(Area::StonecutterOutput, Item::Stone));
}

#[test]
fn paint_state() {
    let mut paint = PaintState::new(Mouse::Left);
    assert_eq!(paint.mouse(), Mouse::Left);
    for slot in 0..1000 {
        assert!(paint.add_slot(slot).is_ok());
    }
    assert!(paint.add_slot(1000).is_err());
    assert_eq!(paint.slots().len(), 1001);
    assert_eq!(PaintState::new(Mouse::Right).mouse(), Mouse::Right);
}

#[test]
fn left_paint_distribution() {
    assert_eq!(left_paint_shares(64, 3), vec![21, 21, 21]);
    assert_eq!(left_paint_shares(3, 3), vec![1, 1, 1]);
    assert_eq!(left_paint_shares(2, 5), vec![1, 1, 0, 0, 0]);
    assert_eq!(left_paint_shares(0, 2), vec![0, 0]);
    assert_eq!(left_paint_shares(7, 1), vec![7]);
}

#[test]
fn movement_packets() {
    use_movement();
}
