use lockstep_client::net_packet::NetPacket;
use lockstep_client::net_structs::NetPacketType;
use lockstep_client::net_structs::NetProtocol;
use lockstep_client::net_structs::NetTicDiff;
use lockstep_client::net_structs::TicCmd;

#[test]
fn test_write_and_read_u8() {
    let mut packet = NetPacket::new();
    packet.write_u8(255);
    packet.reset();
    assert_eq!(packet.read_u8(), Some(255));
}

#[test]
fn test_write_and_read_i8() {
    let mut packet = NetPacket::new();
    packet.write_i8(-128);
    packet.reset();
    assert_eq!(packet.read_i8(), Some(-128));
}

#[test]
fn test_write_and_read_u16() {
    let mut packet = NetPacket::new();
    packet.write_u16(65535);
    packet.reset();
    assert_eq!(packet.read_u16(), Some(65535));
}

#[test]
fn test_write_and_read_i16() {
    let mut packet = NetPacket::new();
    packet.write_i16(-12345);
    packet.reset();
    assert_eq!(packet.read_i16(), Some(-12345));
}

#[test]
fn test_write_and_read_u32() {
    let mut packet = NetPacket::new();
    packet.write_u32(4294967295);
    packet.reset();
    assert_eq!(packet.read_u32(), Some(4294967295));
}

#[test]
fn test_write_and_read_i32() {
    let mut packet = NetPacket::new();
    packet.write_i32(-123456789);
    packet.reset();
    assert_eq!(packet.read_i32(), Some(-123456789));
}

#[test]
fn test_write_and_read_string() {
    let mut packet = NetPacket::new();
    packet.write_string("Hello");
    packet.reset();
    assert_eq!(packet.read_string(), Some("Hello".to_string()));
}

#[test]
fn test_write_and_read_safe_string() {
    let mut packet = NetPacket::new();
    packet.write_string("Hello\x00World\x1F!");
    packet.reset();
    assert_eq!(packet.read_safe_string(), Some("Hello".to_string()));
}

#[test]
fn test_reset_position() {
    let mut packet = NetPacket::new();
    packet.write_u8(1);
    packet.write_u8(2);
    packet.reset();
    assert_eq!(packet.read_u8(), Some(1));
}

#[test]
fn test_debug_trait() {
    let mut packet = NetPacket::new();
    packet.write_u8(0xAB);
    packet.write_u8(0xCD);
    packet.write_u8(0xEF);
    packet.reset();
    let debug_str = packet.debug_string();
    assert_eq!(debug_str, "NetPacket { data: \"AB CD EF\", pos: 0 }");
}

#[test]
fn test_read_u16_short_buffer_fails_at_end() {
    let mut packet = NetPacket::new();
    packet.write_u8(7);
    packet.reset();
    assert_eq!(packet.read_u16(), None);
    // A failed read leaves the cursor at the end: the datagram is dropped.
    assert_eq!(packet.read_u8(), None);
}

#[test]
fn test_read_string_unterminated() {
    let mut packet = NetPacket::new();
    packet.write_u8(b'H');
    packet.write_u8(b'i');
    packet.reset();
    assert_eq!(packet.read_string(), None);
}

#[test]
fn test_read_sha1sum_round_trip() {
    let mut packet = NetPacket::new();
    let digest: Vec<u8> = (0..20).collect();
    packet.write_blob(&digest);
    packet.reset();
    assert_eq!(packet.read_sha1sum(), Some(digest));
}

#[test]
fn test_read_sha1sum_short() {
    let mut packet = NetPacket::new();
    packet.write_u8(1);
    packet.reset();
    assert_eq!(packet.read_sha1sum(), None);
}

#[test]
fn test_protocol_round_trip() {
    let mut packet = NetPacket::new();
    packet.write_protocol(NetProtocol::ChocolateDoom0);
    packet.reset();
    assert_eq!(packet.read_protocol(), NetProtocol::ChocolateDoom0);
}

#[test]
fn test_protocol_unknown() {
    let mut packet = NetPacket::new();
    packet.write_string("SOME_OTHER_PROTOCOL");
    packet.reset();
    assert_eq!(packet.read_protocol(), NetProtocol::Unknown);
}

#[test]
fn test_protocol_list_layout() {
    let mut packet = NetPacket::new();
    packet.write_protocol_list();
    packet.reset();
    assert_eq!(packet.read_u8(), Some(1));
    assert_eq!(packet.read_string(), Some("CHOCOLATE_DOOM_0".to_string()));
}

#[test]
fn test_packet_type_tags() {
    assert_eq!(NetPacketType::Syn.to_u16(), 0);
    assert_eq!(NetPacketType::Rejected.to_u16(), 1);
    assert_eq!(NetPacketType::GameData.to_u16(), 5);
    assert_eq!(NetPacketType::GameDataAck.to_u16(), 6);
    assert_eq!(NetPacketType::GameDataResend.to_u16(), 7);
    for tag in 0..16u16 {
        let t = NetPacketType::try_from(tag).unwrap();
        assert_eq!(t.to_u16(), tag);
    }
    assert!(NetPacketType::try_from(99).is_err());
}

fn sample_cmd() -> TicCmd {
    TicCmd {
        forwardmove: 12,
        sidemove: -3,
        angleturn: 512,
        chatchar: 0,
        buttons: 5,
        consistancy: 9,
        buttons2: 0,
        inventory: 0,
        lookfly: 0,
        arti: 0,
    }
}

#[test]
fn test_ticcmd_diff_wire_round_trip() {
    let diff = NetTicDiff { diff: 0x1F, cmd: sample_cmd() };
    let mut packet = NetPacket::new();
    packet.write_ticcmd_diff(&diff, false);
    packet.reset();
    let back = packet.read_ticcmd_diff(false).unwrap();
    assert_eq!(back, diff);
}

#[test]
fn test_ticcmd_diff_wire_lowres_turn() {
    // In low-resolution sessions the turn is sent as one byte: the
    // angle divided by 256, rounded toward zero, and scaled back up.
    let mut cmd = sample_cmd();
    cmd.angleturn = -300;
    let diff = NetTicDiff { diff: 0x04, cmd };
    let mut packet = NetPacket::new();
    packet.write_ticcmd_diff(&diff, true);
    assert_eq!(packet.data.len(), 2);
    packet.reset();
    let back = packet.read_ticcmd_diff(true).unwrap();
    assert_eq!(back.cmd.angleturn, -256);
}

#[test]
fn test_ticcmd_diff_empty_mask_is_one_byte() {
    let diff = NetTicDiff { diff: 0, cmd: TicCmd::default() };
    let mut packet = NetPacket::new();
    packet.write_ticcmd_diff(&diff, false);
    assert_eq!(packet.data, vec![0u8]);
}

#[test]
fn test_settings_round_trip() {
    let settings = lockstep_client::net_structs::GameSettings {
        ticdup: 1,
        extratics: 1,
        deathmatch: 0,
        episode: 1,
        nomonsters: 0,
        fast_monsters: 0,
        respawn_monsters: 0,
        map: 3,
        skill: 2,
        gameversion: 5,
        lowres_turn: 0,
        new_sync: 1,
        timelimit: 120,
        loadgame: -1,
        random: 0,
        num_players: 8,
        consoleplayer: 0,
        player_classes: vec![1, 2, 0, 0, 0, 0, 0, 0],
    };
    let mut packet = NetPacket::new();
    packet.write_settings(&settings);
    packet.reset();
    let back = packet.read_settings().unwrap();
    assert_eq!(back.ticdup, 1);
    assert_eq!(back.map, 3);
    assert_eq!(back.skill, 2);
    assert_eq!(back.timelimit, 120);
    assert_eq!(back.loadgame, -1);
    assert_eq!(back.num_players, 8);
    assert_eq!(back.consoleplayer, 0);
    assert_eq!(back.player_classes[0], 1);
    assert_eq!(back.player_classes[1], 2);
}

#[test]
fn test_settings_too_many_players_rejected() {
    let mut packet = NetPacket::new();
    // 18 header bytes with num_players = 9, then a consoleplayer byte.
    for _ in 0..12 {
        packet.write_u8(0);
    }
    packet.write_u32(0);
    packet.write_u8(0);
    packet.write_u8(0);
    packet.write_u8(9);
    packet.write_u8(0);
    for _ in 0..9 {
        packet.write_u8(0);
    }
    packet.reset();
    assert!(packet.read_settings().is_none());
}

#[test]
fn test_wait_data_round_trip() {
    let mut packet = NetPacket::new();
    packet.write_u8(2); // num_players
    packet.write_u8(0); // num_drones
    packet.write_u8(1); // ready_players
    packet.write_u8(4); // max_players
    packet.write_u8(1); // is_controller
    packet.write_i8(0); // consoleplayer
    packet.write_string("alpha");
    packet.write_string("10.0.0.1");
    packet.write_string("beta");
    packet.write_string("10.0.0.2");
    let digest: Vec<u8> = (0..20).collect();
    packet.write_blob(&digest);
    packet.write_blob(&digest);
    packet.write_u8(0); // is_freedoom
    packet.reset();
    let wait = packet.read_wait_data().unwrap();
    assert_eq!(wait.num_players, 2);
    assert_eq!(wait.max_players, 4);
    assert_eq!(wait.player_names[0], "alpha");
    assert_eq!(wait.player_addrs[1], "10.0.0.2");
    assert_eq!(wait.wad_sha1sum, digest);
    assert_eq!(wait.is_freedoom, 0);
}

#[test]
fn test_wait_data_too_many_players_rejected() {
    let mut packet = NetPacket::new();
    packet.write_u8(9);
    for _ in 0..5 {
        packet.write_u8(0);
    }
    packet.reset();
    assert!(packet.read_wait_data().is_none());
}

#[test]
fn test_full_ticcmd_round_trip() {
    let mut packet = NetPacket::new();
    packet.write_i16(50); // latency
    packet.write_u8(0x02); // player slot 1 in game
    let diff = NetTicDiff { diff: 0x01, cmd: TicCmd { forwardmove: 25, ..TicCmd::default() } };
    packet.write_ticcmd_diff(&diff, false);
    packet.reset();
    let full = packet.read_full_ticcmd(false).unwrap();
    assert_eq!(full.latency, 50);
    assert!(!full.playeringame[0]);
    assert!(full.playeringame[1]);
    assert_eq!(full.cmds[1].cmd.forwardmove, 25);
}
