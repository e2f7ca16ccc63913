use clepsydra::ids::{client_id_from_bytes, mqtt_client_id_for, new_client_id, new_mqtt_client_id, MQTT_CLIENT_PREFIX};

fn is_uuid_v4_text(s: &str) -> bool {
    let b = s.as_bytes();
    if b.len() != 36 {
        return false;
    }
    for (i, c) in b.iter().enumerate() {
        let ok = if i == 8 || i == 13 || i == 18 || i == 23 {
            *c == b'-'
        } else {
            c.is_ascii_digit() || (b'a'..=b'f').contains(c)
        };
        if !ok {
            return false;
        }
    }
    b[14] == b'4' && matches!(b[19], b'8' | b'9' | b'a' | b'b')
}

#[test]
fn client_ids_are_random_v4_uuids() {
    let a = new_client_id().unwrap();
    let b = new_client_id().unwrap();
    assert!(is_uuid_v4_text(&a));
    assert!(is_uuid_v4_text(&b));
    assert_ne!(a, b);
}

#[test]
fn mqtt_client_id_is_prefixed() {
    assert_eq!(
        mqtt_client_id_for("67e55044-10b1-426f-9247-bb680e5fe0c8"),
        "clepsydra-backend-67e55044-10b1-426f-9247-bb680e5fe0c8"
    );
    let id = new_mqtt_client_id().unwrap();
    assert!(id.starts_with(MQTT_CLIENT_PREFIX));
    assert_eq!(id.len(), MQTT_CLIENT_PREFIX.len() + 36);
    assert!(is_uuid_v4_text(&id[MQTT_CLIENT_PREFIX.len()..]));
}

#[test]
fn client_id_from_bytes_sets_version_and_variant() {
    let bytes = [
        0x67, 0xe5, 0x50, 0x44, 0x10, 0xb1, 0x42, 0x6f, 0x92, 0x47, 0xbb, 0x68, 0x0e, 0x5f, 0xe0, 0xc8,
    ];
    assert_eq!(client_id_from_bytes(bytes), "67e55044-10b1-426f-9247-bb680e5fe0c8");
    assert_eq!(client_id_from_bytes([0xff; 16]), "ffffffff-ffff-4fff-bfff-ffffffffffff");
    assert_eq!(client_id_from_bytes([0x00; 16]), "00000000-0000-4000-8000-000000000000");
    assert!(is_uuid_v4_text(&client_id_from_bytes([0x5a; 16])));
}
