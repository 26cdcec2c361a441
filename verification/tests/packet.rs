use c6::packet::{
    route, Route, COMMAND_LEN, COMMAND_MAGIC_LE, FRAME_LEN, FRAME_MAGIC_LE,
};

fn packet(magic: [u8; 2], len: usize) -> Vec<u8> {
    let mut bytes: Vec<u8> = (0..len).map(|i| i as u8).collect();
    for (i, b) in magic.iter().enumerate().take(len) {
        bytes[i] = *b;
    }
    bytes
}

#[test]
fn lengths_and_magics() {
    assert_eq!(FRAME_LEN, 25);
    assert_eq!(COMMAND_LEN, 24);
    assert_eq!(FRAME_MAGIC_LE, 0xC71Eu16.to_le_bytes());
    assert_eq!(COMMAND_MAGIC_LE, 0xCB01u16.to_le_bytes());
}

#[test]
fn routes_a_frame_with_all_its_bytes() {
    let p = packet([0x1E, 0xC7], 25);
    match route(&p) {
        Route::Frame(bytes) => assert_eq!(bytes.to_vec(), p),
        r => panic!("{:?}", r),
    }
}

#[test]
fn routes_a_command_with_all_its_bytes() {
    let p = packet([0x01, 0xCB], 24);
    match route(&p) {
        Route::Command(bytes) => assert_eq!(bytes.to_vec(), p),
        r => panic!("{:?}", r),
    }
}

#[test]
fn packets_without_a_magic_are_short() {
    assert_eq!(route(&[]), Route::Short);
    assert_eq!(route(&[0x1E]), Route::Short);
}

#[test]
fn magic_alone_is_not_enough() {
    for len in 2..64 {
        if len != 25 {
            assert_eq!(
                route(&packet([0x1E, 0xC7], len)),
                Route::Skip { magic: [0x1E, 0xC7], len }
            );
        }
        if len != 24 {
            assert_eq!(
                route(&packet([0x01, 0xCB], len)),
                Route::Skip { magic: [0x01, 0xCB], len }
            );
        }
    }
}

#[test]
fn length_alone_is_not_enough() {
    for magic in [[0xC7, 0x1E], [0x1E, 0xC6], [0x1F, 0xC7], [0x01, 0xCB]] {
        assert_eq!(route(&packet(magic, 25)), Route::Skip { magic, len: 25 });
    }
    for magic in [[0xCB, 0x01], [0x01, 0xCA], [0x00, 0xCB], [0x1E, 0xC7]] {
        assert_eq!(route(&packet(magic, 24)), Route::Skip { magic, len: 24 });
    }
}
