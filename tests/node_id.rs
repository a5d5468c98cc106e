use trin::node_id::{generate_random_node_id, random_distance, shape_distance, xor_distance, NodeId};

#[test]
fn test_generate_random_node_id_1() {
    let target_bucket_idx: u8 = 5;
    let local_node_id = NodeId::random();
    let random_node_id = generate_random_node_id(target_bucket_idx, local_node_id);
    let distance = xor_distance(&random_node_id.raw(), &local_node_id.raw());

    assert_eq!(distance[0..31], vec![0; 31]);
    assert!(distance[31] < 64 && distance[31] >= 32)
}

#[test]
fn test_generate_random_node_id_2() {
    let target_bucket_idx: u8 = 0;
    let local_node_id = NodeId::random();
    let random_node_id = generate_random_node_id(target_bucket_idx, local_node_id);
    let distance = xor_distance(&random_node_id.raw(), &local_node_id.raw());

    assert_eq!(distance[0..31], vec![0; 31]);
    assert_eq!(distance[31], 1);
}

#[test]
fn test_generate_random_node_id_3() {
    let target_bucket_idx: u8 = 255;
    let local_node_id = NodeId::random();
    let random_node_id = generate_random_node_id(target_bucket_idx, local_node_id);
    let distance = xor_distance(&random_node_id.raw(), &local_node_id.raw());

    assert!(distance[0] > 127);
}

#[test]
fn distance_bucket_in_middle_byte() {
    for _ in 0..50 {
        let d = random_distance(100);
        // bit 100 lives in byte 31 - 12 = 19, at position 4 of that byte
        assert!(d[0..19].iter().all(|b| *b == 0));
        assert!(d[19] >= 16 && d[19] < 32);
    }
}

#[test]
fn xor_distance_of_fixed_ids() {
    let a = NodeId::new(&[0xffu8; 32]);
    let mut raw = [0u8; 32];
    raw[0] = 0x0f;
    raw[31] = 0xff;
    let b = NodeId::new(&raw);
    let d = xor_distance(&a.raw(), &b.raw());
    assert_eq!(d[0], 0xf0);
    assert_eq!(d[31], 0x00);
    assert_eq!(d[5], 0xff);
    assert_eq!(xor_distance(&a.raw(), &a.raw()), [0u8; 32]);
}

#[test]
fn generated_id_differs_from_fixed_local_id() {
    let local = NodeId::new(&[0xaau8; 32]);
    let id = generate_random_node_id(0, local);
    let mut expected = [0xaau8; 32];
    expected[31] ^= 1;
    assert_eq!(id.raw(), expected);
}

#[test]
fn shaping_keeps_later_bytes_and_sets_bucket_bit() {
    let draw = [0xffu8; 32];
    let d = shape_distance(draw, 13);
    // bit 13 lives in byte 30, at position 5 of that byte
    assert!(d[0..30].iter().all(|b| *b == 0));
    assert_eq!(d[30], 32 + 0xff % 32);
    assert_eq!(d[31], 0xff);
    let d = shape_distance([0u8; 32], 255);
    assert_eq!(d[0], 128);
    assert!(d[1..].iter().all(|b| *b == 0));
    let d = shape_distance([7u8; 32], 0);
    assert_eq!(d[31], 1);
}
