use housechat::id::{id_from_text, id_to_text, new_id, SERVER_ID};

#[test]
fn id_text_is_hyphenated_lower_case() {
    assert_eq!(
        id_to_text(0xa1a2a3a4b1b2c1c2d1d2d3d4d5d6d7d8),
        "a1a2a3a4-b1b2-c1c2-d1d2-d3d4d5d6d7d8"
    );
    assert_eq!(
        id_to_text(0x67E5504410B1426F9247BB680E5FE0C8),
        "67e55044-10b1-426f-9247-bb680e5fe0c8"
    );
}

#[test]
fn server_id_is_the_nil_uuid() {
    assert_eq!(SERVER_ID, 0);
    assert_eq!(id_to_text(SERVER_ID), "00000000-0000-0000-0000-000000000000");
    assert_eq!(id_to_text(1), "00000000-0000-0000-0000-000000000001");
    assert_eq!(id_to_text(u128::MAX), "ffffffff-ffff-ffff-ffff-ffffffffffff");
}

#[test]
fn id_text_reads_back() {
    for id in [0u128, 1, 0xa1a2a3a4b1b2c1c2d1d2d3d4d5d6d7d8, u128::MAX, 1 << 127] {
        assert_eq!(id_from_text(&id_to_text(id)), Some(id));
    }
}

#[test]
fn id_from_text_reads_every_form() {
    let id = Some(0x67e5504410b1426f9247bb680e5fe0c8u128);
    assert_eq!(id_from_text("67e55044-10b1-426f-9247-bb680e5fe0c8"), id);
    assert_eq!(id_from_text("67E55044-10B1-426F-9247-BB680E5FE0C8"), id);
    assert_eq!(id_from_text("67e5504410b1426f9247bb680e5fe0c8"), id);
    assert_eq!(id_from_text("{67e55044-10b1-426f-9247-bb680e5fe0c8}"), id);
    assert_eq!(id_from_text("urn:uuid:67e55044-10b1-426f-9247-bb680e5fe0c8"), id);
}

#[test]
fn id_from_text_rejects_what_is_no_uuid() {
    for text in [
        "",
        "hello",
        "67e55044-10b1-426f-9247-bb680e5fe0c",
        "67e55044-10b1-426f-9247-bb680e5fe0c8a",
        "67e55044_10b1_426f_9247_bb680e5fe0c8",
        "g7e55044-10b1-426f-9247-bb680e5fe0c8",
        " 67e55044-10b1-426f-9247-bb680e5fe0c8",
    ] {
        assert_eq!(id_from_text(text), None);
    }
}

#[test]
fn new_id_is_a_random_uuid_and_never_the_servers() {
    for _ in 0..64 {
        let id = new_id();
        assert_ne!(id, SERVER_ID);
        assert_eq!((id >> 76) & 0xf, 4);
        assert_eq!((id >> 62) & 0x3, 2);
    }
}

#[test]
fn new_id_differs_from_call_to_call() {
    assert_ne!(new_id(), new_id());
}
