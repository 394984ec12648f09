use libaria2::gid::{gid_to_hex, hex_to_gid, is_gid_null};

#[test]
fn null_gid_is_null() {
    assert!(is_gid_null(0));
    assert!(!is_gid_null(1));
    assert!(!is_gid_null(u64::MAX));
}

#[test]
fn gid_to_hex_pads_to_sixteen_lower_case_digits() {
    assert_eq!(gid_to_hex(0), "0000000000000000");
    assert_eq!(gid_to_hex(1), "0000000000000001");
    assert_eq!(gid_to_hex(0xdead_beef), "00000000deadbeef");
    assert_eq!(gid_to_hex(0x0123_4567_89ab_cdef), "0123456789abcdef");
    assert_eq!(gid_to_hex(u64::MAX), "ffffffffffffffff");
}

#[test]
fn hex_to_gid_reads_sixteen_digits_of_either_case() {
    assert_eq!(hex_to_gid("0000000000000001"), 1);
    assert_eq!(hex_to_gid("0123456789abcdef"), 0x0123_4567_89ab_cdef);
    assert_eq!(hex_to_gid("0123456789ABCDEF"), 0x0123_4567_89ab_cdef);
    assert_eq!(hex_to_gid("ffffffffffffffff"), u64::MAX);
    assert_eq!(hex_to_gid("FfFfFfFfFfFfFfFf"), u64::MAX);
}

#[test]
fn hex_to_gid_gives_null_for_other_texts() {
    assert_eq!(hex_to_gid(""), 0);
    assert_eq!(hex_to_gid("1"), 0);
    assert_eq!(hex_to_gid("000000000000001"), 0);
    assert_eq!(hex_to_gid("00000000000000001"), 0);
    assert_eq!(hex_to_gid("000000000000000g"), 0);
    assert_eq!(hex_to_gid("0x00000000000001"), 0);
    assert_eq!(hex_to_gid("00000000 0000001"), 0);
    assert_eq!(hex_to_gid("éééééééé"), 0);
    assert_eq!(hex_to_gid("０００００００００００００００１"), 0);
}

#[test]
fn hex_round_trip_on_chosen_gids() {
    let gids = [
        1u64,
        2,
        15,
        16,
        255,
        0x8000_0000_0000_0000,
        0x7fff_ffff_ffff_ffff,
        0xa5a5_5a5a_0f0f_f0f0,
        u64::MAX,
    ];
    for gid in gids {
        assert_eq!(hex_to_gid(&gid_to_hex(gid)), gid);
        assert!(!is_gid_null(hex_to_gid(&gid_to_hex(gid))));
    }
}
