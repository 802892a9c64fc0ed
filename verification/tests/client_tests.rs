use lockstep_client::net_client::NetClient;
use lockstep_client::net_packet::NetPacket;
use lockstep_client::net_structs::ClientState;
use lockstep_client::net_structs::ConnectData;
use lockstep_client::net_structs::ConnectionState;
use lockstep_client::net_structs::GameSettings;
use lockstep_client::net_structs::NetTicDiff;
use lockstep_client::net_structs::TicCmd;
use lockstep_client::ticdiff::apply_ticcmd_diff;
use lockstep_client::ticdiff::calculate_ticcmd_diff;

fn connect_data() -> ConnectData {
    ConnectData {
        gamemode: 0,
        gamemission: 0,
        lowres_turn: 0,
        drone: 0,
        max_players: 4,
        is_freedoom: 0,
        wad_sha1sum: vec![0; 20],
        deh_sha1sum: vec![0; 20],
        player_class: 0,
    }
}

fn settings(num_players: i32) -> GameSettings {
    GameSettings {
        ticdup: 1,
        extratics: 0,
        deathmatch: 0,
        episode: 1,
        nomonsters: 0,
        fast_monsters: 0,
        respawn_monsters: 0,
        map: 1,
        skill: 2,
        gameversion: 0,
        lowres_turn: 0,
        new_sync: 1,
        timelimit: 0,
        loadgame: -1,
        random: 0,
        num_players,
        consoleplayer: 0,
        player_classes: vec![0; 8],
    }
}

fn syn_reply() -> NetPacket {
    let mut p = NetPacket::new();
    p.write_u16(0);
    p.write_string("RustNetClient");
    p.write_string("CHOCOLATE_DOOM_0");
    p
}

/// Walk a fresh client through the whole happy-path handshake into a
/// running game.
fn in_game_client() -> NetClient {
    let mut client = NetClient::new("Player1".to_string(), false);
    client.init();
    client.connect_begin(&connect_data(), 0);
    client.deliver_packet(syn_reply());
    client.run(10);
    assert_eq!(client.connect_poll(&connect_data(), 10), Some(true));
    // LAUNCH
    let mut launch = NetPacket::new();
    launch.write_u16(3);
    launch.write_i8(2);
    client.deliver_packet(launch);
    client.run(20);
    assert_eq!(client.state, ClientState::WaitingStart);
    // GAMESTART
    let mut start = NetPacket::new();
    start.write_u16(4);
    start.write_settings(&settings(2));
    client.deliver_packet(start);
    client.run(30);
    assert_eq!(client.state, ClientState::InGame);
    client.take_outbox();
    client.take_delivered();
    client
}

/// One GAMEDATA packet carrying empty diffs for player 1, tics
/// `first..first+count`.
fn gamedata(first: u8, count: u8, latency: i16) -> NetPacket {
    let mut p = NetPacket::new();
    p.write_u16(5);
    p.write_u8(first);
    p.write_u8(count);
    for _ in 0..count {
        p.write_i16(latency);
        p.write_u8(0x02); // player 1 in game
        p.write_u8(0x00); // empty diff for player 1
    }
    p
}

#[test]
fn test_client_initialization() {
    let client = NetClient::new("Player1".to_string(), false);
    assert_eq!(client.player_name, "Player1");
    assert_eq!(client.drone, false);
}

#[test]
fn test_init_picks_fallback_name() {
    let mut client = NetClient::new(String::new(), false);
    client.init();
    let names = ["Fluffy", "Buddy", "Max", "Charlie", "Lucy", "Bailey"];
    assert!(names.iter().any(|n| *n == client.player_name));
}

#[test]
fn handshake_happy_path() {
    // The client sends a SYN with the magic number and its protocol
    // list, and the server's SYN reply makes it WaitingLaunch well
    // within 1.1 s.
    let mut client = NetClient::new("Player1".to_string(), false);
    client.init();
    client.connect_begin(&connect_data(), 0);
    assert_eq!(client.connection.state, ConnectionState::Connecting);
    let sent = client.take_outbox();
    assert_eq!(sent.len(), 1);
    let mut syn = sent.into_iter().next().unwrap();
    syn.reset();
    assert_eq!(syn.read_u16(), Some(0));
    assert_eq!(syn.read_u32(), Some(1454104972));
    assert_eq!(syn.read_string(), Some("RustNetClient".to_string()));
    assert_eq!(syn.read_u8(), Some(1));
    assert_eq!(syn.read_string(), Some("CHOCOLATE_DOOM_0".to_string()));
    client.deliver_packet(syn_reply());
    client.run(100);
    assert_eq!(client.connection.state, ConnectionState::Connected);
    assert_eq!(client.connect_poll(&connect_data(), 100), Some(true));
    assert_eq!(client.state, ClientState::WaitingLaunch);
    assert!(client.reject_reason.is_none());
}

#[test]
fn handshake_reject() {
    // A REJECTED reply closes the connection and stores the reason
    // verbatim.
    let mut client = NetClient::new("Player1".to_string(), false);
    client.init();
    client.connect_begin(&connect_data(), 0);
    let mut rej = NetPacket::new();
    rej.write_u16(1);
    rej.write_string("server full");
    client.deliver_packet(rej);
    client.run(50);
    assert_eq!(client.connect_poll(&connect_data(), 50), Some(false));
    assert_eq!(client.state, ClientState::Disconnected);
    assert_eq!(client.reject_reason, Some("server full".to_string()));
}

#[test]
fn diff_round_trip_scenario() {
    // Compute a diff, apply it, and watch the edge-triggered chat
    // character reset on the next tic.
    let base = TicCmd { forwardmove: 10, sidemove: 0, angleturn: 100, buttons: 0, ..TicCmd::default() };
    let cur = TicCmd {
        forwardmove: 10,
        sidemove: 5,
        angleturn: 100,
        buttons: 2,
        chatchar: b'a',
        ..TicCmd::default()
    };
    let diff = calculate_ticcmd_diff(&base, &cur);
    assert_eq!(diff.diff, 0x02 | 0x08 | 0x20); // SIDE | BUTTONS | CHATCHAR
    let applied = apply_ticcmd_diff(&base, &diff);
    assert_eq!(applied, cur);
    assert_eq!(applied.chatchar, b'a');
    let next = TicCmd { chatchar: 0, ..cur };
    let diff2 = calculate_ticcmd_diff(&applied, &next);
    assert_eq!(diff2.diff & 0x20, 0);
    let applied2 = apply_ticcmd_diff(&applied, &diff2);
    assert_eq!(applied2.chatchar, 0);
    assert_eq!(applied2, next);
}

#[test]
fn diff_round_trip_all_inputs_sample() {
    // The diff round-trip law on a handful of adversarial values.
    let base = TicCmd {
        forwardmove: -128,
        sidemove: 127,
        angleturn: -32768,
        chatchar: 1,
        buttons: 0x80,
        consistancy: 200,
        buttons2: 7,
        inventory: -1,
        lookfly: 3,
        arti: 0,
    };
    let cur = TicCmd {
        forwardmove: 127,
        sidemove: 127,
        angleturn: 0,
        chatchar: 0,
        buttons: 0,
        consistancy: 201,
        buttons2: 7,
        inventory: 0,
        lookfly: 3,
        arti: 0,
    };
    let diff = calculate_ticcmd_diff(&base, &cur);
    assert_eq!(apply_ticcmd_diff(&base, &diff), cur);
}

#[test]
fn gap_and_resend_scenario() {
    // Deliver tics [0,1] then [3,4]; the client must immediately ask
    // for a resend of tic 2, and after tic 2 arrives the simulation sees
    // all five tics in order with no duplicates.
    let mut client = in_game_client();
    client.deliver_packet(gamedata(0, 2, 20));
    client.run(40);
    assert_eq!(client.recv_window_start, 2);
    assert_eq!(client.take_delivered().len(), 2);
    client.take_outbox();
    client.deliver_packet(gamedata(3, 2, 20));
    client.run(45);
    let sent = client.take_outbox();
    let mut found_resend = false;
    for mut p in sent {
        p.reset();
        if p.read_u16() == Some(7) {
            assert_eq!(p.read_i32(), Some(2));
            assert_eq!(p.read_u8(), Some(1));
            found_resend = true;
        }
    }
    assert!(found_resend, "no resend request for the gap at tic 2");
    assert_eq!(client.recv_window_start, 2);
    client.deliver_packet(gamedata(2, 1, 20));
    client.run(60);
    assert_eq!(client.recv_window_start, 5);
    assert_eq!(client.take_delivered().len(), 3);
}

#[test]
fn gamedata_before_game_is_ignored() {
    // Boundary case: GAMEDATA arriving during WaitingStart must be
    // ignored.
    let mut client = NetClient::new("Player1".to_string(), false);
    client.init();
    client.connect_begin(&connect_data(), 0);
    client.deliver_packet(syn_reply());
    client.run(10);
    assert_eq!(client.connect_poll(&connect_data(), 10), Some(true));
    let mut launch = NetPacket::new();
    launch.write_u16(3);
    launch.write_i8(2);
    client.deliver_packet(launch);
    client.run(20);
    assert_eq!(client.state, ClientState::WaitingStart);
    client.deliver_packet(gamedata(0, 2, 20));
    client.run(30);
    assert_eq!(client.state, ClientState::WaitingStart);
    assert_eq!(client.recv_window_start, 0);
    assert_eq!(client.take_delivered().len(), 0);
}

#[test]
fn empty_gamedata_is_harmless() {
    // Boundary case: a GAMEDATA with count = 0 stores nothing but still
    // counts as receiving data.
    let mut client = in_game_client();
    client.deliver_packet(gamedata(0, 0, 0));
    client.run(40);
    assert_eq!(client.recv_window_start, 0);
    assert_eq!(client.take_delivered().len(), 0);
}

#[test]
fn gamedata_is_acknowledged() {
    let mut client = in_game_client();
    client.deliver_packet(gamedata(0, 1, 20));
    client.run(40);
    client.take_outbox();
    // 300 ms later with no new data, the ack goes out.
    client.run(400);
    let sent = client.take_outbox();
    let mut found_ack = false;
    for mut p in sent {
        p.reset();
        if p.read_u16() == Some(6) {
            assert_eq!(p.read_u8(), Some(1)); // low byte of window start
            found_ack = true;
        }
    }
    assert!(found_ack, "no GAMEDATA_ACK was sent");
}

#[test]
fn invalid_game_start_is_rejected() {
    // A GAMESTART with a tic multiplier out of range must not open the
    // game.
    let mut client = NetClient::new("Player1".to_string(), false);
    client.init();
    client.connect_begin(&connect_data(), 0);
    client.deliver_packet(syn_reply());
    client.run(10);
    assert_eq!(client.connect_poll(&connect_data(), 10), Some(true));
    let mut launch = NetPacket::new();
    launch.write_u16(3);
    launch.write_i8(2);
    client.deliver_packet(launch);
    client.run(20);
    let mut bad = settings(2);
    bad.ticdup = 6;
    let mut start = NetPacket::new();
    start.write_u16(4);
    start.write_settings(&bad);
    client.deliver_packet(start);
    client.run(30);
    assert_eq!(client.state, ClientState::WaitingStart);
}

#[test]
fn resend_request_is_served_from_send_ring() {
    let mut client = in_game_client();
    let cmd = TicCmd { forwardmove: 9, ..TicCmd::default() };
    client.send_ticcmd(&cmd, 0, 100);
    client.send_ticcmd(&cmd, 1, 120);
    client.take_outbox();
    let mut req = NetPacket::new();
    req.write_u16(7);
    req.write_i32(0);
    req.write_i8(2);
    client.deliver_packet(req);
    client.run(150);
    let sent = client.take_outbox();
    let mut found_gamedata = false;
    for mut p in sent {
        p.reset();
        if p.read_u16() == Some(5) {
            let _ack_base = p.read_u8().unwrap();
            assert_eq!(p.read_u8(), Some(0)); // first seq
            assert_eq!(p.read_u8(), Some(2)); // count
            found_gamedata = true;
        }
    }
    assert!(found_gamedata, "resend request was not served");
}

#[test]
fn resend_request_aged_out_is_ignored() {
    // The requested tics were never stored, so nothing can be resent.
    let mut client = in_game_client();
    let mut req = NetPacket::new();
    req.write_u16(7);
    req.write_i32(40);
    req.write_i8(2);
    client.deliver_packet(req);
    client.run(150);
    let sent = client.take_outbox();
    for mut p in sent {
        p.reset();
        assert_ne!(p.read_u16(), Some(5));
    }
}

#[test]
fn clock_sync_converges() {
    // The server reports 50 ms while we measure a fixed 70 ms.
    // Under the controller's gains the published offset falls
    // monotonically, sample after sample, as the integral term winds up
    // against the constant error, and stays within a couple of
    // milliseconds of zero.
    let mut client = in_game_client();
    let mut offsets: Vec<i32> = Vec::new();
    let mut now: u64 = 1000;
    for tic in 0u32..20 {
        let cmd = TicCmd::default();
        client.send_ticcmd(&cmd, tic, now);
        client.take_outbox();
        client.update_clock_sync(tic, 50, now + 70);
        offsets.push(client.offset_ms);
        now += 100;
    }
    for w in offsets.windows(2) {
        assert!(w[1] <= w[0], "offset rose: {:?}", offsets);
    }
    assert!(*offsets.last().unwrap() < offsets[0], "offset did not fall: {:?}", offsets);
    assert!(offsets.iter().all(|o| o.abs() <= 3), "offset out of band: {:?}", offsets);
}

#[test]
fn lossy_delivery_recovers_every_tic() {
    // Loss tolerance as a scenario: under a fixed loss pattern, the resend protocol
    // eventually delivers every tic exactly once and in order.
    let mut client = in_game_client();
    let total: u32 = 40;
    let mut now: u64 = 100;
    let mut delivered_total: usize = 0;
    // The "server" drops every second fresh bundle but answers every
    // resend request.
    for t in 0..total {
        if t % 2 == 0 {
            client.deliver_packet(gamedata(t as u8, 1, 20));
        }
        client.run(now);
        delivered_total += client.take_delivered().len();
        let sent = client.take_outbox();
        for mut p in sent {
            p.reset();
            if p.read_u16() == Some(7) {
                let start = p.read_i32().unwrap();
                let count = p.read_u8().unwrap();
                for k in 0..count {
                    let seq = start as u32 + k as u32;
                    if seq < total {
                        client.deliver_packet(gamedata(seq as u8, 1, 20));
                    }
                }
            }
        }
        now += 400;
    }
    // Let the final resend sweeps drain any remaining gaps.
    for _ in 0..10 {
        client.run(now);
        delivered_total += client.take_delivered().len();
        let sent = client.take_outbox();
        for mut p in sent {
            p.reset();
            if p.read_u16() == Some(7) {
                let start = p.read_i32().unwrap();
                let count = p.read_u8().unwrap();
                for k in 0..count {
                    let seq = start as u32 + k as u32;
                    if seq < total {
                        client.deliver_packet(gamedata(seq as u8, 1, 20));
                    }
                }
            }
        }
        now += 400;
    }
    assert_eq!(client.recv_window_start, total);
    assert_eq!(delivered_total as u32, total);
}

#[test]
fn disconnect_handshake() {
    // Once the session is down it stays down.
    let mut client = in_game_client();
    client.disconnect_begin(1000);
    let sent = client.take_outbox();
    let mut found_disconnect = false;
    for mut p in sent {
        p.reset();
        if p.read_u16() == Some(11) {
            found_disconnect = true;
        }
    }
    assert!(found_disconnect, "no DISCONNECT was sent");
    let mut ack = NetPacket::new();
    ack.write_u16(12);
    client.deliver_packet(ack);
    client.run(1010);
    assert!(client.disconnect_poll(1010));
    assert_eq!(client.state, ClientState::Disconnected);
    // Late packets cannot revive the session.
    client.deliver_packet(syn_reply());
    client.run(1020);
    assert_eq!(client.connection.state, ConnectionState::Disconnected);
    assert_eq!(client.state, ClientState::Disconnected);
}

#[test]
fn expand_tic_num_window() {
    // Sequence expansion on concrete values: the low byte is expanded exactly inside the
    // near window, across a 256-tic block boundary in both directions.
    let mut client = in_game_client();
    client.recv_window_start = 0x1234;
    for t in [0x1234u32, 0x1230, 0x1250, 0x1274, 0x11f4] {
        assert_eq!(client.expand_tic_num((t & 0xff) as u8), t);
    }
    client.recv_window_start = 0x12f0;
    assert_eq!(client.expand_tic_num(0x10), 0x1310);
    client.recv_window_start = 0x1310;
    assert_eq!(client.expand_tic_num(0xf0), 0x12f0);
}

#[test]
fn reliable_messages_are_retransmitted_until_acked() {
    // LAUNCH rides in a reliable envelope; it is sent again after
    // 300 ms of silence and stops once the acknowledgment arrives.
    let mut client = in_game_client();
    client.launch_game(1000);
    let sent = client.take_outbox();
    assert_eq!(sent.len(), 1);
    let mut p = sent.into_iter().next().unwrap();
    p.reset();
    let tag = p.read_u16().unwrap();
    assert_eq!(tag & 0x8000, 0x8000);
    let id = (tag & 0xff) as u8;
    assert_eq!(p.read_u16(), Some(3)); // the enclosed LAUNCH
    // Silence: the envelope goes out again.
    client.run(1400);
    let resent = client.take_outbox();
    assert!(resent.into_iter().any(|mut q| {
        q.reset();
        q.read_u16() == Some(tag)
    }));
    // The peer acknowledges; nothing is retransmitted any more.
    let mut ack = NetPacket::new();
    ack.write_u16(10);
    ack.write_u8(id);
    client.deliver_packet(ack);
    client.run(1500);
    client.take_outbox();
    client.run(2000);
    let after = client.take_outbox();
    assert!(after.into_iter().all(|mut q| {
        q.reset();
        q.read_u16() != Some(tag)
    }));
}

#[test]
fn reliable_envelope_is_acked_and_deduplicated() {
    // Receiving side: a reliable envelope is acknowledged with its
    // id, and a duplicate of it is not handled a second time.
    let mut client = NetClient::new("Player1".to_string(), false);
    client.init();
    client.connect_begin(&connect_data(), 0);
    client.deliver_packet(syn_reply());
    client.run(10);
    assert_eq!(client.connect_poll(&connect_data(), 10), Some(true));
    client.take_outbox();
    let make_launch = || {
        let mut p = NetPacket::new();
        p.write_u16(0x8000); // reliable envelope, id 0
        p.write_u16(3); // LAUNCH
        p.write_i8(2);
        p
    };
    client.deliver_packet(make_launch());
    client.run(20);
    assert_eq!(client.state, ClientState::WaitingStart);
    let sent = client.take_outbox();
    assert!(sent.into_iter().any(|mut q| {
        q.reset();
        q.read_u16() == Some(10) && q.read_u8() == Some(0)
    }));
    // A duplicate is acknowledged again but changes nothing.
    client.state = ClientState::WaitingLaunch;
    client.deliver_packet(make_launch());
    client.run(30);
    assert_eq!(client.state, ClientState::WaitingLaunch);
}

#[test]
fn disconnect_times_out_to_forced_close() {
    let mut client = in_game_client();
    client.disconnect_begin(1000);
    assert!(!client.disconnect_poll(1100));
    // No acknowledgment for more than five seconds: forced shutdown.
    assert!(client.disconnect_poll(6500));
    assert_eq!(client.state, ClientState::Disconnected);
}

#[test]
fn unknown_and_keepalive_packets_are_ignored() {
    let mut client = in_game_client();
    let mut keepalive = NetPacket::new();
    keepalive.write_u16(9);
    client.deliver_packet(keepalive);
    let mut junk = NetPacket::new();
    junk.write_u16(77);
    junk.write_u8(1);
    client.deliver_packet(junk);
    client.run(40);
    assert_eq!(client.state, ClientState::InGame);
    assert_eq!(client.recv_window_start, 0);
}

#[test]
fn console_message_is_stored() {
    let mut client = in_game_client();
    let mut msg = NetPacket::new();
    msg.write_u16(8);
    msg.write_string("hello from the server");
    client.deliver_packet(msg);
    client.run(40);
    assert_eq!(client.console_messages, vec!["hello from the server".to_string()]);
}
