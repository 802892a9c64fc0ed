//! Client-side session engine: the connection handshake and reliability
//! shim, the session state machine, the send/receive tic rings with the
//! ack/resend protocol, and the clock synchronisation controller.
//!
//! The client is written sans-I/O: packets to send are queued in
//! `outbox`, received datagrams are handed in through `inbox`, the wall
//! clock enters as a millisecond argument, and contiguous decoded tics
//! leave through `delivered`.

use vstd::prelude::*;
use vstd::string::StringExecFns;
use crate::net_packet::NetPacket;
use crate::net_structs::BACKUPTICS;
use crate::net_structs::ClientState;
use crate::net_structs::ConnectData;
use crate::net_structs::ConnectionState;
use crate::net_structs::GameSettings;
use crate::net_structs::NET_MAGIC_NUMBER;
use crate::net_structs::NET_MAXPLAYERS;
use crate::net_structs::NetPacketType;
use crate::net_structs::NetProtocol;
use crate::net_structs::NetServerRecv;
use crate::net_structs::NetServerSend;
use crate::net_structs::NetFullTicCmd;
use crate::net_structs::NetTicDiff;
use crate::net_structs::NetWaitData;
use crate::net_structs::TicCmd;
use crate::net_structs::TiccmdSet;
use crate::net_structs::ticcmd_zero;
use crate::ticdiff::apply_ticcmd_diff;
use crate::ticdiff::spec_apply_diff;
use crate::ticdiff::calculate_ticcmd_diff;
use crate::ticdiff::spec_compute_diff;

verus! {

/// Relies on `rand::random`: a value drawn from the thread-local
/// generator; nothing is promised of it.
pub assume_specification<T>[ rand::random::<T> ]() -> (r: T)
    where
        rand::distributions::Standard: rand::distributions::Distribution<T>,
;

/// A reliable message waiting for its acknowledgment; retransmitted
/// until one arrives.
#[derive(Debug, Clone)]
pub struct SendQueuedReliable {
    pub seq: u8,
    pub body: Vec<u8>,
    pub last_send_time: u64,
}

/// The datagram shim under the session: connection lifecycle and
/// stop-and-wait reliable delivery.
#[derive(Debug, Clone)]
pub struct NetConnection {
    pub state: ConnectionState,
    pub protocol: NetProtocol,
    pub connected: bool,
    pub reliable_queue: Vec<SendQueuedReliable>,
    pub reliable_send_seq: u8,
    pub reliable_recv_seq: u8,
    pub disconnecting: bool,
    pub disconnect_time: u64,
}

/// Interval after which an unacknowledged reliable message is sent again.
pub const RELIABLE_RESEND_MS: u64 = 300;

/// How long the two-way disconnect handshake may take before the
/// connection is closed by force.
pub const DISCONNECT_TIMEOUT_MS: u64 = 5000;

/// The wire form of a reliable envelope: a tag with the reliable flag
/// set and the message id in its low bits, then the enclosed message.
pub open spec fn reliable_wire(seq: u8, body: Seq<u8>) -> Seq<u8> {
    crate::net_packet::be2((0x8000 | (seq as u16)) as u16) + body
}


/// Whether a reliable message is overdue for retransmission.
pub open spec fn reliable_due(e: SendQueuedReliable, now: u64) -> bool {
    now >= e.last_send_time && now - e.last_send_time >= RELIABLE_RESEND_MS
}

/// The envelopes a periodic step re-sends: one per overdue queue entry,
/// in queue order, from entry `i` on.
pub open spec fn due_packets(q: Seq<SendQueuedReliable>, now: u64, i: int) -> Seq<Seq<u8>>
    decreases q.len() - i,
{
    if i < 0 || i >= q.len() {
        Seq::empty()
    } else if reliable_due(q[i], now) {
        seq![reliable_wire(q[i].seq, q[i].body@)] + due_packets(q, now, i + 1)
    } else {
        due_packets(q, now, i + 1)
    }
}

impl NetConnection {
    /// A closed connection with an empty reliable queue.
    pub fn new() -> (r: Self)
        ensures
            r.state == ConnectionState::Disconnected,
            r.protocol == NetProtocol::Unknown,
            !r.connected,
            r.reliable_queue@.len() == 0,
            r.reliable_send_seq == 0,
            r.reliable_recv_seq == 0,
            !r.disconnecting,
    {
        NetConnection {
            state: ConnectionState::Disconnected,
            protocol: NetProtocol::Unknown,
            connected: false,
            reliable_queue: Vec::new(),
            reliable_send_seq: 0,
            reliable_recv_seq: 0,
            disconnecting: false,
            disconnect_time: 0,
        }
    }

    /// Open the connection towards a server: the handshake starts.
    pub fn init_client(&mut self)
        ensures
            final(self).state == ConnectionState::Connecting,
            final(self).connected,
            final(self).protocol == NetProtocol::Unknown,
            final(self).reliable_queue@.len() == 0,
            !final(self).disconnecting,
    {
        self.state = ConnectionState::Connecting;
        self.protocol = NetProtocol::Unknown;
        self.connected = true;
        self.reliable_queue = Vec::new();
        self.reliable_send_seq = 0;
        self.reliable_recv_seq = 0;
        self.disconnecting = false;
    }

    /// Queue a message for reliable delivery: it is enveloped with the
    /// next message id and retransmitted until acknowledged.
    pub fn send_reliable_packet(&mut self, body: Vec<u8>, now: u64, outbox: &mut Vec<NetPacket>)
        ensures
            final(self).reliable_queue@.len() == old(self).reliable_queue@.len() + 1,
            final(self).reliable_send_seq == ((old(self).reliable_send_seq + 1) % 256) as u8,
            final(self).state == old(self).state,
            final(self).connected == old(self).connected,
            final(outbox)@.len() == old(outbox)@.len() + 1,
            final(outbox)@.last().data@ == reliable_wire(old(self).reliable_send_seq, body@),
    {
        let seq = self.reliable_send_seq;
        let mut packet = NetPacket::new();
        packet.write_u16(0x8000 | (seq as u16));
        crate::net_packet::push_all(&mut packet.data, &body);
        let entry = SendQueuedReliable { seq, body, last_send_time: now };
        self.reliable_queue.push(entry);
        self.reliable_send_seq = ((self.reliable_send_seq as u16 + 1) % 256) as u8;
        outbox.push(packet);
    }

    /// Drop every queued reliable message the peer has acknowledged.
    pub fn acknowledge(&mut self, seq: u8)
        ensures
            final(self).state == old(self).state,
            final(self).connected == old(self).connected,
            final(self).reliable_queue@ == old(self).reliable_queue@.filter(
                (|e: SendQueuedReliable| e.seq != seq),
            ),
            ({
                let q = final(self).reliable_queue@;
                forall|i: int| 0 <= i < q.len() ==> (#[trigger] q[i]).seq != seq
            }),
    {
        let ghost q0 = self.reliable_queue@;
        let ghost pred = |e: SendQueuedReliable| e.seq != seq;
        let n = self.reliable_queue.len();
        let mut kept: Vec<SendQueuedReliable> = Vec::new();
        let mut k: usize = 0;
        #[verifier::loop_isolation(false)]
        while self.reliable_queue.len() > 0
            invariant
                q0.len() == n,
                k <= q0.len(),
                self.reliable_queue@ == q0.skip(k as int),
                kept@ == q0.take(k as int).filter(pred),
                self.state == old(self).state,
                self.connected == old(self).connected,
            decreases self.reliable_queue@.len(),
        {
            let entry = self.reliable_queue.remove(0);
            proof {
                assert(q0.skip(k as int).skip(1) =~= q0.skip(k + 1));
                let t1 = q0.take(k + 1);
                assert(t1.drop_last() =~= q0.take(k as int));
                assert(t1.last() == q0[k as int]);
                assert(entry == q0[k as int]);
                reveal_with_fuel(Seq::<SendQueuedReliable>::filter, 2);
            }
            if entry.seq != seq {
                kept.push(entry);
            }
            k += 1;
        }
        proof {
            assert(q0.take(q0.len() as int) =~= q0);
            assert forall|i: int|
                0 <= i < kept@.len() implies (#[trigger] kept@[i]).seq != seq by {
                q0.lemma_filter_pred(pred, i);
            }
        }
        self.reliable_queue = kept;
    }

    /// Periodic work: send every overdue reliable envelope again, and
    /// close the connection by force when the disconnect handshake has
    /// timed out.
    pub fn run(&mut self, now: u64, outbox: &mut Vec<NetPacket>)
        ensures
            session_conn_step(old(self).state, final(self).state),
            final(self).connected ==> old(self).connected,
            final(self).reliable_queue@.len() == old(self).reliable_queue@.len(),
            ({
                let os = *old(self);
                let fs = *final(self);
                let ob1 = old(outbox)@;
                let ob2 = final(outbox)@;
                let pk = due_packets(os.reliable_queue@, now, 0);
                &&& ob2.len() == ob1.len() + pk.len()
                &&& (forall|k: int| 0 <= k < ob1.len() ==> (#[trigger] ob2[k]) == ob1[k])
                &&& (forall|k: int|
                    0 <= k < pk.len() ==> (#[trigger] ob2[ob1.len() + k]).data@ == pk[k])
                &&& (forall|i: int|
                    0 <= i < os.reliable_queue@.len() ==> (
                    #[trigger] fs.reliable_queue@[i]).seq == os.reliable_queue@[i].seq)
                &&& (forall|i: int|
                    0 <= i < os.reliable_queue@.len() ==> (
                    #[trigger] fs.reliable_queue@[i]).body == os.reliable_queue@[i].body)
                &&& (forall|i: int|
                    0 <= i < os.reliable_queue@.len() ==> (
                    #[trigger] fs.reliable_queue@[i]).last_send_time == (if reliable_due(
                        os.reliable_queue@[i],
                        now,
                    ) {
                        now
                    } else {
                        os.reliable_queue@[i].last_send_time
                    }))
                &&& ({
                    let closing = os.disconnecting && os.state == ConnectionState::Connected
                        && now >= os.disconnect_time && now - os.disconnect_time
                        > DISCONNECT_TIMEOUT_MS;
                    &&& (closing ==> fs.state == ConnectionState::Disconnected && !fs.connected
                        && !fs.disconnecting)
                    &&& (!closing ==> fs.state == os.state && fs.connected == os.connected
                        && fs.disconnecting == os.disconnecting && fs.disconnect_time
                        == os.disconnect_time)
                })
            }),
    {
        let ghost q0 = self.reliable_queue@;
        let ghost ob1 = outbox@;
        let ghost pk = due_packets(q0, now, 0);
        let n = self.reliable_queue.len();
        let mut i: usize = 0;
        #[verifier::loop_isolation(false)]
        while i < n
            invariant
                i <= n,
                n == q0.len(),
                self.reliable_queue@.len() == n,
                self.state == old(self).state,
                self.connected == old(self).connected,
                self.disconnecting == old(self).disconnecting,
                self.disconnect_time == old(self).disconnect_time,
                outbox@.len() >= ob1.len(),
                forall|k: int| 0 <= k < ob1.len() ==> (#[trigger] outbox@[k]) == ob1[k],
                pk == Seq::new(
                    (outbox@.len() - ob1.len()) as nat,
                    |k: int| outbox@[ob1.len() + k].data@,
                ) + due_packets(q0, now, i as int),
                forall|j: int|
                    0 <= j < n ==> (#[trigger] self.reliable_queue@[j]).seq == q0[j].seq,
                forall|j: int|
                    0 <= j < n ==> (#[trigger] self.reliable_queue@[j]).body == q0[j].body,
                forall|j: int|
                    0 <= j < i ==> (#[trigger] self.reliable_queue@[j]).last_send_time == (
                    if reliable_due(q0[j], now) {
                        now
                    } else {
                        q0[j].last_send_time
                    }),
                forall|j: int|
                    i <= j < n ==> (#[trigger] self.reliable_queue@[j]).last_send_time == q0[
                        j].last_send_time,
            decreases n - i,
        {
            let lst = self.reliable_queue[i].last_send_time;
            let is_due = now >= lst && now - lst >= RELIABLE_RESEND_MS;
            if is_due {
                let ghost qprev = self.reliable_queue@;
                let mut entry = self.reliable_queue.remove(i);
                let mut packet = NetPacket::new();
                packet.write_u16(0x8000 | (entry.seq as u16));
                crate::net_packet::push_all(&mut packet.data, &entry.body);
                proof {
                    assert(packet.data@ =~= reliable_wire(entry.seq, entry.body@));
                }
                outbox.push(packet);
                entry.last_send_time = now;
                let ghost entv = entry;
                self.reliable_queue.insert(i, entry);
                proof {
                    assert(self.reliable_queue@ =~= qprev.update(i as int, entv));
                    assert(pk =~= Seq::new(
                        (outbox@.len() - ob1.len()) as nat,
                        |k: int| outbox@[ob1.len() + k].data@,
                    ) + due_packets(q0, now, i + 1));
                }
            }
            i += 1;
        }
        if self.disconnecting && self.state == ConnectionState::Connected {
            if now >= self.disconnect_time && now - self.disconnect_time > DISCONNECT_TIMEOUT_MS {
                self.state = ConnectionState::Disconnected;
                self.connected = false;
                self.disconnecting = false;
            }
        }
    }


    /// Begin the two-way disconnect handshake: send DISCONNECT and wait
    /// for its acknowledgment.
    pub fn disconnect(&mut self, now: u64, outbox: &mut Vec<NetPacket>)
        ensures
            session_conn_step(old(self).state, final(self).state),
            old(self).state == ConnectionState::Connected ==> final(self).disconnecting,
            ({
                let os = *old(self);
                let fs = *final(self);
                let ob1 = old(outbox)@;
                let ob2 = final(outbox)@;
                let begins = os.state == ConnectionState::Connected && !os.disconnecting;
                &&& (begins ==> fs.disconnecting && fs.disconnect_time == now && ob2.len()
                    == ob1.len() + 1 && ob2.last().data@ == crate::net_packet::be2(11))
                &&& (!begins ==> fs == os && ob2 == ob1)
            }),
    {
        if self.state == ConnectionState::Connected && !self.disconnecting {
            let mut packet = NetPacket::new();
            packet.write_u16(NetPacketType::Disconnect.to_u16());
            proof {
                assert(packet.data@ =~= crate::net_packet::be2(11));
            }
            outbox.push(packet);
            self.disconnecting = true;
            self.disconnect_time = now;
        }
    }
}

/// The connection-state transitions a running session may take on its
/// own: progress is monotone, and once the connection is down only a new
/// handshake (`init_client`) reopens it.
pub open spec fn session_conn_step(pre: ConnectionState, post: ConnectionState) -> bool {
    &&& (pre == ConnectionState::Disconnected ==> post == ConnectionState::Disconnected)
    &&& (pre == ConnectionState::DisconnectedSleep ==> post == ConnectionState::DisconnectedSleep
        || post == ConnectionState::Disconnected)
    &&& (post == ConnectionState::Connecting ==> pre == ConnectionState::Connecting)
    &&& (pre == ConnectionState::Connected ==> post != ConnectionState::Connecting)
}

/// Law: the step relation is transitive, so a chain of session
/// operations can never leave the Disconnected state, and never
/// re-enters Connecting, until a new handshake begins.
pub proof fn lemma_session_monotone(a: ConnectionState, b: ConnectionState, c: ConnectionState)
    requires
        session_conn_step(a, b),
        session_conn_step(b, c),
    ensures
        session_conn_step(a, c),
{
}


/// Two settings values that agree field by field.
pub open spec fn settings_eq(a: GameSettings, b: GameSettings) -> bool {
    &&& a.ticdup == b.ticdup
    &&& a.extratics == b.extratics
    &&& a.deathmatch == b.deathmatch
    &&& a.episode == b.episode
    &&& a.nomonsters == b.nomonsters
    &&& a.fast_monsters == b.fast_monsters
    &&& a.respawn_monsters == b.respawn_monsters
    &&& a.map == b.map
    &&& a.skill == b.skill
    &&& a.gameversion == b.gameversion
    &&& a.lowres_turn == b.lowres_turn
    &&& a.new_sync == b.new_sync
    &&& a.timelimit == b.timelimit
    &&& a.loadgame == b.loadgame
    &&& a.random == b.random
    &&& a.num_players == b.num_players
    &&& a.consoleplayer == b.consoleplayer
    &&& a.player_classes@ == b.player_classes@
}

/// An exact field-by-field copy of a settings value.
pub fn copy_settings(s: &GameSettings) -> (r: GameSettings)
    ensures
        settings_eq(r, *s),
        r.wf() == s.wf(),
{
    let mut player_classes: Vec<i32> = Vec::new();
    let mut i: usize = 0;
    while i < s.player_classes.len()
        invariant
            i <= s.player_classes@.len(),
            player_classes@.len() == i,
            forall|j: int| 0 <= j < i ==> player_classes@[j] == s.player_classes@[j],
        decreases s.player_classes@.len() - i,
    {
        let c = s.player_classes[i];
        player_classes.push(c);
        i += 1;
    }
    proof {
        assert(player_classes@ =~= s.player_classes@);
    }
    GameSettings {
        ticdup: s.ticdup,
        extratics: s.extratics,
        deathmatch: s.deathmatch,
        episode: s.episode,
        nomonsters: s.nomonsters,
        fast_monsters: s.fast_monsters,
        respawn_monsters: s.respawn_monsters,
        map: s.map,
        skill: s.skill,
        gameversion: s.gameversion,
        lowres_turn: s.lowres_turn,
        new_sync: s.new_sync,
        timelimit: s.timelimit,
        loadgame: s.loadgame,
        random: s.random,
        num_players: s.num_players,
        consoleplayer: s.consoleplayer,
        player_classes,
    }
}

/// The client half of the lockstep session.
pub struct NetClient {
    pub connection: NetConnection,
    pub state: ClientState,
    pub settings: Option<GameSettings>,
    pub reject_reason: Option<String>,
    pub player_name: String,
    pub drone: bool,
    pub recv_window_start: u32,
    pub recv_window: Vec<NetServerRecv>,
    pub send_queue: Vec<NetServerSend>,
    pub recvwindow_cmd_base: Vec<TicCmd>,
    pub need_acknowledge: bool,
    pub gamedata_recv_time: u64,
    pub last_latency: i32,
    pub offset_ms: i32,
    pub cumul_error: i32,
    pub last_error: i32,
    pub last_ticcmd: TicCmd,
    pub net_local_wad_sha1sum: Vec<u8>,
    pub net_local_deh_sha1sum: Vec<u8>,
    pub net_local_is_freedoom: bool,
    pub net_waiting_for_launch: bool,
    pub net_client_connected: bool,
    pub net_client_received_wait_data: bool,
    pub net_client_wait_data: NetWaitData,
    pub last_send_time: u64,
    pub connect_start_time: u64,
    pub console_messages: Vec<String>,
    pub outbox: Vec<NetPacket>,
    pub inbox: Vec<NetPacket>,
    pub delivered: Vec<TiccmdSet>,
    pub delivered_seqs: Ghost<Seq<u32>>,
}

impl NetClient {
    /// Structural invariant of the client: ring and digest shapes, valid
    /// settings once in game, and a delivery history that is exactly the
    /// consecutive tics below the window start.
    pub open spec fn wf(self) -> bool {
        &&& self.recv_window@.len() == BACKUPTICS
        &&& (forall|i: int|
            0 <= i < BACKUPTICS ==> (#[trigger] self.recv_window@[i]).cmd.wf())
        &&& self.send_queue@.len() == BACKUPTICS
        &&& self.recvwindow_cmd_base@.len() == NET_MAXPLAYERS
        &&& self.net_local_wad_sha1sum@.len() == 20
        &&& self.net_local_deh_sha1sum@.len() == 20
        &&& (self.settings matches Some(s) ==> s.wf() && 1 <= s.ticdup <= 5 && 0 <= s.extratics
            < BACKUPTICS && 0 < s.num_players <= 8)
        &&& (self.state == ClientState::InGame ==> self.settings is Some)
        &&& (forall|i: int|
            0 <= i < self.delivered@.len() ==> (#[trigger] self.delivered@[i]).wf())
        &&& self.delivered_seqs@.len() <= self.recv_window_start
        &&& (forall|i: int|
            0 <= i < self.delivered_seqs@.len() ==> #[trigger] self.delivered_seqs@[i]
                == self.recv_window_start - self.delivered_seqs@.len() + i)
    }

    /// Law: the tics handed to the simulation carry strictly increasing
    /// sequence numbers, so no tic is observed twice and none out of
    /// order. Holds in every well-formed client state.
    pub proof fn lemma_delivery_in_order(self)
        requires
            self.wf(),
        ensures
            forall|i: int, j: int|
                0 <= i < j < self.delivered_seqs@.len() ==> self.delivered_seqs@[i]
                    < self.delivered_seqs@[j],
    {
    }

    /// A fresh, disconnected client.
    pub fn new(player_name: String, drone: bool) -> (r: Self)
        ensures
            r.wf(),
            r.state == ClientState::Disconnected,
            r.connection.state == ConnectionState::Disconnected,
            r.player_name == player_name,
            r.drone == drone,
            r.recv_window_start == 0,
            !r.need_acknowledge,
            !r.net_client_connected,
            r.outbox@.len() == 0,
            r.inbox@.len() == 0,
            r.delivered@.len() == 0,
            r.delivered_seqs@.len() == 0,
            r.settings is None,
            r.reject_reason is None,
            r.last_ticcmd == ticcmd_zero(),
            forall|i: int| 0 <= i < BACKUPTICS ==> !(#[trigger] r.recv_window@[i]).active,
            forall|i: int| 0 <= i < BACKUPTICS ==> !(#[trigger] r.send_queue@[i]).active,
            r.last_latency == 0 && r.offset_ms == 0 && r.cumul_error == 0 && r.last_error == 0,
            r.gamedata_recv_time == 0,
    {
        let mut recv_window: Vec<NetServerRecv> = Vec::new();
        let mut send_queue: Vec<NetServerSend> = Vec::new();
        let mut i: usize = 0;
        while i < BACKUPTICS
            invariant
                i <= BACKUPTICS,
                recv_window@.len() == i,
                send_queue@.len() == i,
                forall|j: int| 0 <= j < i ==> (#[trigger] recv_window@[j]).cmd.wf(),
                forall|j: int| 0 <= j < i ==> !(#[trigger] recv_window@[j]).active,
                forall|j: int| 0 <= j < i ==> !(#[trigger] send_queue@[j]).active,
            decreases BACKUPTICS - i,
        {
            recv_window.push(NetServerRecv::default());
            send_queue.push(NetServerSend::default());
            i += 1;
        }
        let mut recvwindow_cmd_base: Vec<TicCmd> = Vec::new();
        let mut k: usize = 0;
        while k < NET_MAXPLAYERS
            invariant
                k <= NET_MAXPLAYERS,
                recvwindow_cmd_base@.len() == k,
            decreases NET_MAXPLAYERS - k,
        {
            recvwindow_cmd_base.push(TicCmd::default());
            k += 1;
        }
        let mut wad: Vec<u8> = Vec::new();
        let mut deh: Vec<u8> = Vec::new();
        let mut m: usize = 0;
        while m < 20
            invariant
                m <= 20,
                wad@.len() == m,
                deh@.len() == m,
            decreases 20 - m,
        {
            wad.push(0);
            deh.push(0);
            m += 1;
        }
        NetClient {
            connection: NetConnection::new(),
            state: ClientState::Disconnected,
            settings: None,
            reject_reason: None,
            player_name,
            drone,
            recv_window_start: 0,
            recv_window,
            send_queue,
            recvwindow_cmd_base,
            need_acknowledge: false,
            gamedata_recv_time: 0,
            last_latency: 0,
            offset_ms: 0,
            cumul_error: 0,
            last_error: 0,
            last_ticcmd: TicCmd::default(),
            net_local_wad_sha1sum: wad,
            net_local_deh_sha1sum: deh,
            net_local_is_freedoom: false,
            net_waiting_for_launch: false,
            net_client_connected: false,
            net_client_received_wait_data: false,
            net_client_wait_data: NetWaitData::default(),
            last_send_time: 0,
            connect_start_time: 0,
            console_messages: Vec::new(),
            outbox: Vec::new(),
            inbox: Vec::new(),
            delivered: Vec::new(),
            delivered_seqs: Ghost(Seq::empty()),
        }
    }

    /// One of the built-in fallback names, drawn at random.
    pub fn get_random_pet_name() -> (r: String)
        ensures
            r@ == "Fluffy"@ || r@ == "Buddy"@ || r@ == "Max"@ || r@ == "Charlie"@ || r@
                == "Lucy"@ || r@ == "Bailey"@,
    {
        let pick: u32 = rand::random::<u32>() % 6;
        if pick == 0 {
            String::from_str("Fluffy")
        } else if pick == 1 {
            String::from_str("Buddy")
        } else if pick == 2 {
            String::from_str("Max")
        } else if pick == 3 {
            String::from_str("Charlie")
        } else if pick == 4 {
            String::from_str("Lucy")
        } else {
            String::from_str("Bailey")
        }
    }

    /// Reset bot state when running as a drone; the bot keeps no
    /// configuration yet.
    fn init_bot(&mut self)
        ensures
            *final(self) == *old(self),
    {
    }

    /// Prepare the client for a session: clear the session flags, and
    /// fall back to a random pet name when none was given.
    pub fn init(&mut self)
        ensures
            old(self).wf() ==> final(self).wf(),
            !final(self).net_client_connected,
            !final(self).net_client_received_wait_data,
            !final(self).net_waiting_for_launch,
            old(self).player_name@.len() > 0 ==> final(self).player_name == old(self).player_name,
            final(self).state == old(self).state,
            final(self).connection == old(self).connection,
    {
        self.init_bot();
        self.net_client_connected = false;
        self.net_client_received_wait_data = false;
        self.net_waiting_for_launch = false;
        if self.player_name.as_str().is_empty() {
            self.player_name = Self::get_random_pet_name();
        }
    }

    /// Take a name for the local player from the first source that
    /// offers one: an explicit argument, then the environment.
    pub fn resolve_player_name(&mut self, arg: Option<String>, env_name: Option<String>)
        ensures
            old(self).wf() ==> final(self).wf(),
            ({
                match arg {
                    Option::Some(a) => final(self).player_name == a,
                    Option::None => match env_name {
                        Option::Some(e) => final(self).player_name == e,
                        Option::None => final(self).player_name == old(self).player_name,
                    },
                }
            }),
    {
        match arg {
            Some(a) => {
                self.player_name = a;
            },
            None => {
                match env_name {
                    Some(e) => {
                        self.player_name = e;
                    },
                    None => {},
                }
            },
        }
    }

    /// Record why the server turned the client away.
    pub fn set_reject_reason(&mut self, reason: Option<String>)
        ensures
            final(self).reject_reason == reason,
            old(self).wf() ==> final(self).wf(),
            final(self).state == old(self).state,
            final(self).connection == old(self).connection,
    {
        self.reject_reason = reason;
    }

    /// The session settings, available only while a game is running.
    pub fn get_settings(&self) -> (r: Option<GameSettings>)
        requires
            self.wf(),
        ensures
            self.state != ClientState::InGame ==> r is None,
            self.state == ClientState::InGame ==> (r matches Some(s) && self.settings matches Some(
                c,
            ) && settings_eq(s, c)),
    {
        if self.state != ClientState::InGame {
            return None;
        }
        match &self.settings {
            Some(s) => Some(copy_settings(s)),
            None => None,
        }
    }

    /// Close the connection and leave the session.
    fn shutdown(&mut self, now: u64)
        ensures
            final(self).net_client_connected == old(self).net_client_connected,
            final(self).inbox == old(self).inbox,
            final(self).state == ClientState::Disconnected,
            session_conn_step(old(self).connection.state, final(self).connection.state),
            old(self).wf() ==> final(self).wf(),
            final(self).recv_window_start == old(self).recv_window_start,
            final(self).delivered == old(self).delivered,
            final(self).delivered_seqs == old(self).delivered_seqs,
            ({
                let os = *old(self);
                let fs = *final(self);
                let begins = os.connection.connected && os.connection.state
                    == ConnectionState::Connected && !os.connection.disconnecting;
                &&& fs.reject_reason == os.reject_reason
                &&& fs.last_send_time == os.last_send_time
                &&& fs.connect_start_time == os.connect_start_time
                &&& fs.player_name == os.player_name
                &&& fs.drone == os.drone
                &&& fs.settings == os.settings
                &&& fs.send_queue == os.send_queue
                &&& fs.recv_window == os.recv_window
                &&& (begins ==> fs.outbox@.len() == os.outbox@.len() + 1
                    && fs.outbox@.last().data@ == crate::net_packet::be2(11)
                    && fs.connection.disconnecting)
                &&& (!begins ==> fs.outbox@ == os.outbox@)
            }),
    {
        if self.connection.connected {
            self.connection.disconnect(now, &mut self.outbox);
        }
        self.state = ClientState::Disconnected;
    }

    /// React to the connection going down: leave the session.
    fn handle_disconnected(&mut self, now: u64)
        ensures
            final(self).net_client_connected == old(self).net_client_connected,
            final(self).inbox == old(self).inbox,
            final(self).recv_window == old(self).recv_window,
            final(self).state == ClientState::Disconnected,
            session_conn_step(old(self).connection.state, final(self).connection.state),
            old(self).wf() ==> final(self).wf(),
            final(self).recv_window_start == old(self).recv_window_start,
            final(self).delivered == old(self).delivered,
            final(self).delivered_seqs == old(self).delivered_seqs,
    {
        self.shutdown(now);
    }

    /// Handle the server's SYN reply: with a common protocol the
    /// connection is established.
    pub fn parse_syn(&mut self, packet: &mut NetPacket)
        ensures
            final(self).net_client_connected == old(self).net_client_connected,
            final(self).inbox == old(self).inbox,
            session_conn_step(old(self).connection.state, final(self).connection.state),
            old(self).wf() ==> final(self).wf(),
            final(self).state == old(self).state,
            final(self).recv_window_start == old(self).recv_window_start,
            final(self).delivered == old(self).delivered,
            final(self).delivered_seqs == old(self).delivered_seqs,
            ({
                let cs = final(self).connection.state;
                old(self).connection.state == ConnectionState::Connecting ==> (cs
                    == ConnectionState::Connected || cs == ConnectionState::Connecting)
            }),
            ({
                let p = old(packet).pos as int;
                let d = old(packet).data@;
                let fs = *final(self);
                let ver_ok = p <= d.len() && p + crate::net_packet::first_nul(d.skip(p))
                    < d.len();
                let p2 = p + crate::net_packet::first_nul(d.skip(p)) + 1;
                let proto_ok = ver_ok && p2 <= d.len() && p2 + crate::net_packet::first_nul(
                    d.skip(p2),
                ) < d.len() && crate::net_packet::lossy_decode(
                    d.subrange(p2, p2 + crate::net_packet::first_nul(d.skip(p2))),
                ) == "CHOCOLATE_DOOM_0"@;
                old(self).connection.state == ConnectionState::Connecting && proto_ok ==> (
                fs.connection.state == ConnectionState::Connected && fs.connection.protocol
                    == NetProtocol::ChocolateDoom0)
            }),
    {
        let _server_version = packet.read_safe_string();
        let protocol = packet.read_protocol();
        if protocol == NetProtocol::Unknown {
            return;
        }
        if self.connection.state == ConnectionState::Connecting {
            self.connection.state = ConnectionState::Connected;
            self.connection.protocol = protocol;
        }
    }

    /// Handle a REJECTED reply: while connecting, the connection closes
    /// and the reason is stored verbatim for the user.
    pub fn parse_reject(&mut self, packet: &mut NetPacket)
        ensures
            final(self).net_client_connected == old(self).net_client_connected,
            final(self).inbox == old(self).inbox,
            session_conn_step(old(self).connection.state, final(self).connection.state),
            old(self).wf() ==> final(self).wf(),
            final(self).state == old(self).state,
            final(self).delivered == old(self).delivered,
            final(self).delivered_seqs == old(self).delivered_seqs,
            final(self).recv_window_start == old(self).recv_window_start,
            ({
                let p = old(packet).pos as int;
                let d = old(packet).data@;
                let ok = p <= d.len() && p + crate::net_packet::first_nul(d.skip(p)) < d.len();
                let cs = final(self).connection.state;
                let rr = final(self).reject_reason;
                &&& (ok && old(self).connection.state == ConnectionState::Connecting ==> {
                    &&& cs == ConnectionState::Disconnected
                    &&& rr matches Some(m) && m@ == crate::net_packet::lossy_decode(
                        d.subrange(p, p + crate::net_packet::first_nul(d.skip(p))),
                    )
                })
                &&& (!(ok && old(self).connection.state == ConnectionState::Connecting)
                    ==> *final(self) == *old(self))
            }),
    {
        match packet.read_string() {
            Some(msg) => {
                if self.connection.state == ConnectionState::Connecting {
                    self.connection.state = ConnectionState::Disconnected;
                    self.reject_reason = Some(msg);
                }
            },
            None => {},
        }
    }

    /// Handle lobby status: while waiting for launch or start, sane
    /// payloads are stored for the UI; insane ones, and any lobby data
    /// outside those states, are ignored.
    pub fn parse_waiting_data(&mut self, packet: &mut NetPacket)
        ensures
            final(self).net_client_connected == old(self).net_client_connected,
            final(self).inbox == old(self).inbox,
            final(self).connection == old(self).connection,
            old(self).wf() ==> final(self).wf(),
            final(self).state == old(self).state,
            final(self).delivered == old(self).delivered,
            final(self).delivered_seqs == old(self).delivered_seqs,
            final(self).recv_window_start == old(self).recv_window_start,
            ({
                let os = *old(self);
                !(os.state == ClientState::WaitingLaunch || os.state == ClientState::WaitingStart)
                    ==> *final(self) == *old(self)
            }),
            ({
                let os = *old(self);
                let fs = *final(self);
                let p = old(packet).pos as int;
                let d = old(packet).data@;
                let gate = os.state == ClientState::WaitingLaunch || os.state
                    == ClientState::WaitingStart;
                let hdr_ok = p + 6 <= d.len() && d[p] <= 8;
                let num = d[p] as i32;
                let ready = d[p + 2] as i32;
                let maxp = d[p + 3] as i32;
                let cp = (d[p + 5] as i8) as i32;
                let valid = num <= maxp && ready <= num && maxp <= 8 && !((cp >= 0 && os.drone)
                    || (cp < 0 && !os.drone) || cp >= num);
                gate && hdr_ok && valid ==> match crate::net_packet::spec_read_names(
                    d,
                    p + 6,
                    d[p] as int,
                ) {
                    Some(t) => t.2 + 41 <= d.len() ==> {
                        let w = fs.net_client_wait_data;
                        &&& fs.net_client_received_wait_data
                        &&& w.num_players == num
                        &&& w.num_drones == d[p + 1] as i32
                        &&& w.ready_players == ready
                        &&& w.max_players == maxp
                        &&& w.is_controller == d[p + 4] as i32
                        &&& w.consoleplayer == cp
                        &&& w.player_names.deep_view() == t.0
                        &&& w.player_addrs.deep_view() == t.1
                        &&& w.wad_sha1sum@ == d.subrange(t.2, t.2 + 20)
                        &&& w.deh_sha1sum@ == d.subrange(t.2 + 20, t.2 + 40)
                        &&& w.is_freedoom == d[t.2 + 40] as i32
                    },
                    None => true,
                }
            }),
            ({
                let os = *old(self);
                let fs = *final(self);
                fs.net_client_received_wait_data == os.net_client_received_wait_data
                    || fs.net_client_received_wait_data
            }),
            ({
                let os = *old(self);
                let fs = *final(self);
                let p = old(packet).pos as int;
                let d = old(packet).data@;
                let gate = os.state == ClientState::WaitingLaunch || os.state
                    == ClientState::WaitingStart;
                let hdr_ok = p + 6 <= d.len() && d[p] <= 8;
                let num = d[p] as i32;
                let ready = d[p + 2] as i32;
                let maxp = d[p + 3] as i32;
                let cp = (d[p + 5] as i8) as i32;
                let valid = num <= maxp && ready <= num && maxp <= 8 && !((cp >= 0 && os.drone)
                    || (cp < 0 && !os.drone) || cp >= num);
                let stored = hdr_ok && valid && match crate::net_packet::spec_read_names(
                    d,
                    p + 6,
                    d[p] as int,
                ) {
                    Some(t) => t.2 + 41 <= d.len(),
                    None => false,
                };
                gate && !stored ==> fs.net_client_wait_data == os.net_client_wait_data
                    && fs.net_client_received_wait_data == os.net_client_received_wait_data
            }),
    {
        if self.state != ClientState::WaitingLaunch && self.state != ClientState::WaitingStart {
            return;
        }
        match packet.read_wait_data() {
            Some(wait_data) => {
                if wait_data.num_players > wait_data.max_players || wait_data.ready_players
                    > wait_data.num_players || wait_data.max_players > NET_MAXPLAYERS as i32 {
                    return;
                }
                if (wait_data.consoleplayer >= 0 && self.drone) || (wait_data.consoleplayer < 0
                    && !self.drone) || (wait_data.consoleplayer >= wait_data.num_players) {
                    return;
                }
                self.net_client_wait_data = wait_data;
                self.net_client_received_wait_data = true;
            },
            None => {},
        }
    }

    /// Handle a LAUNCH notice: while waiting for it, the session moves
    /// on to waiting for the game start.
    pub fn parse_launch(&mut self, packet: &mut NetPacket)
        ensures
            final(self).net_client_connected == old(self).net_client_connected,
            final(self).inbox == old(self).inbox,
            final(self).connection == old(self).connection,
            old(self).wf() ==> final(self).wf(),
            final(self).delivered == old(self).delivered,
            final(self).delivered_seqs == old(self).delivered_seqs,
            final(self).recv_window_start == old(self).recv_window_start,
            old(self).state != ClientState::WaitingLaunch ==> *final(self) == *old(self),
            final(self).state == old(self).state || final(self).state
                == ClientState::WaitingStart,
            ({
                let p = old(packet).pos as int;
                let d = old(packet).data@;
                let fs = *final(self);
                &&& (old(self).state == ClientState::WaitingLaunch && p < d.len() ==> (fs.state
                    == ClientState::WaitingStart && fs.net_client_wait_data.num_players == (d[
                    p] as i8) as i32))
                &&& ({
                    let unchanged = *final(self) == *old(self);
                    old(self).state == ClientState::WaitingLaunch && p >= d.len() ==> unchanged
                })
            }),
    {
        if self.state != ClientState::WaitingLaunch {
            return;
        }
        match packet.read_i8() {
            Some(num_players) => {
                self.net_client_wait_data.num_players = num_players as i32;
                self.state = ClientState::WaitingStart;
            },
            None => {},
        }
    }

    /// Store a console message from the server for the user.
    pub fn parse_console_message(&mut self, packet: &mut NetPacket)
        ensures
            final(self).net_client_connected == old(self).net_client_connected,
            final(self).inbox == old(self).inbox,
            final(self).connection == old(self).connection,
            old(self).wf() ==> final(self).wf(),
            final(self).state == old(self).state,
            final(self).delivered == old(self).delivered,
            final(self).delivered_seqs == old(self).delivered_seqs,
            final(self).recv_window_start == old(self).recv_window_start,
            ({
                let p = old(packet).pos as int;
                let d = old(packet).data@;
                let fs = *final(self);
                let ok = p <= d.len() && p + crate::net_packet::first_nul(d.skip(p)) < d.len();
                &&& (ok ==> fs.console_messages.deep_view() == old(
                    self,
                ).console_messages.deep_view().push(
                    crate::net_packet::lossy_decode(
                        d.subrange(p, p + crate::net_packet::first_nul(d.skip(p))),
                    ),
                ))
                &&& (!ok ==> fs.console_messages == old(self).console_messages)
            }),
    {
        match packet.read_string() {
            Some(msg) => {
                self.console_messages.push(msg);
            },
            None => {},
        }
    }
}


/// Reconstruct a full tic number from its low byte, relative to the
/// receive window: the byte is placed in the window's 256-tic block,
/// then moved one block down or up when the window is near a block
/// boundary and the byte lies on the far side of it.
pub open spec fn spec_expand(s: u32, b: u8) -> u32 {
    let l = s & 0xff;
    let h = s & 0xffffff00;
    let base = h | (b as u32);
    if l < 0x40 && (b as u32) > 0xb0 {
        if base >= 0x100 {
            (base - 0x100) as u32
        } else {
            base
        }
    } else if l > 0xb0 && (b as u32) < 0x40 {
        if base <= 0xfffffeff {
            (base + 0x100) as u32
        } else {
            base
        }
    } else {
        base
    }
}

/// Law: close to the window start, expansion is a left inverse of
/// taking the low byte: every tic number within 64 tics of the start is
/// reconstructed exactly from its low 8 bits. The thresholds in the
/// algorithm leave the outer half of the 128-tic send window exact only
/// away from a 256-tic block boundary.
pub proof fn lemma_expand_seq(s: u32, t: u32)
    requires
        s <= 0xfffffe00,
        (t >= s && t - s <= 64) || (t < s && s - t <= 64),
    ensures
        spec_expand(s, (t & 0xff) as u8) == t,
{
    let l = s & 0xff;
    let h = s & 0xffffff00;
    let b = (t & 0xff) as u8;
    let base = h | (b as u32);
    assert({
        let r = if l < 0x40 && (b as u32) > 0xb0 {
            if base >= 0x100 {
                (base - 0x100) as u32
            } else {
                base
            }
        } else if l > 0xb0 && (b as u32) < 0x40 {
            if base <= 0xfffffeff {
                (base + 0x100) as u32
            } else {
                base
            }
        } else {
            base
        };
        r == t
    }) by (bit_vector)
        requires
            s <= 0xfffffe00u32,
            (t >= s && t - s <= 64) || (t < s && s - t <= 64),
            l == s & 0xff,
            h == s & 0xffffff00,
            b == (t & 0xff) as u8,
            base == h | (b as u32),
    ;
}

/// The value kept within the 32-bit signed range.
pub open spec fn clamp_i32(x: int) -> int {
    if x > i32::MAX {
        i32::MAX as int
    } else if x < i32::MIN {
        i32::MIN as int
    } else {
        x
    }
}

/// Division by 100, rounded toward zero.
pub open spec fn div100_toward_zero(x: int) -> int {
    if x >= 0 {
        x / 100
    } else {
        -((-x) / 100)
    }
}

/// The round-trip latency measured against a send slot: the elapsed
/// time since the tic was sent, clamped into the signed 32-bit range.
pub open spec fn spec_latency(slot_time: u64, now: u64) -> int {
    if now >= slot_time {
        clamp_i32(now - slot_time)
    } else {
        0
    }
}

/// The proportional-integral-derivative output of the clock controller.
pub open spec fn spec_pid_offset(e: int, cumul: int, d: int) -> int {
    clamp_i32(div100_toward_zero(10 * e - cumul + 2 * d))
}

fn clamp64_to_i32(x: i64) -> (r: i32)
    ensures
        r as int == clamp_i32(x as int),
{
    if x > i32::MAX as i64 {
        i32::MAX
    } else if x < i32::MIN as i64 {
        i32::MIN
    } else {
        x as i32
    }
}

fn div100(x: i64) -> (r: i64)
    requires
        -0x4000000000000000 <= x <= 0x4000000000000000,
    ensures
        r as int == div100_toward_zero(x as int),
{
    if x >= 0 {
        ((x as u64) / 100) as i64
    } else {
        let m: u64 = (-x) as u64;
        0 - ((m / 100) as i64)
    }
}

impl NetClient {
    /// Whether the client currently takes part in a session.
    pub open spec fn spec_is_connected(self) -> bool {
        self.net_client_connected
    }

    /// Whether the client currently takes part in a session.
    pub fn is_connected(&self) -> (r: bool)
        ensures
            r == self.spec_is_connected(),
    {
        self.net_client_connected
    }

    /// Reconstruct a full tic number from its wire low byte.
    pub fn expand_tic_num(&self, b: u8) -> (r: u32)
        ensures
            r == spec_expand(self.recv_window_start, b),
    {
        let s = self.recv_window_start;
        let l = s & 0xff;
        let h = s & 0xffffff00;
        let base = h | (b as u32);
        proof {
            assert(h | (b as u32) <= 0xffffffff) by (bit_vector);
        }
        if l < 0x40 && (b as u32) > 0xb0 {
            if base >= 0x100 {
                base - 0x100
            } else {
                base
            }
        } else if l > 0xb0 && (b as u32) < 0x40 {
            if base <= 0xfffffeff {
                base + 0x100
            } else {
                base
            }
        } else {
            base
        }
    }

    /// Feed one latency report into the clock controller: when the
    /// acknowledged tic's send slot is still valid, measure the round
    /// trip, update the integral and derivative state, and publish the
    /// new offset.
    pub fn update_clock_sync(&mut self, seq: u32, remote_latency: i32, now: u64)
        requires
            old(self).wf(),
        ensures
            final(self).net_client_connected == old(self).net_client_connected,
            final(self).inbox == old(self).inbox,
            final(self).wf(),
            final(self).connection == old(self).connection,
            final(self).state == old(self).state,
            final(self).recv_window == old(self).recv_window,
            final(self).send_queue == old(self).send_queue,
            final(self).recv_window_start == old(self).recv_window_start,
            final(self).delivered == old(self).delivered,
            final(self).delivered_seqs == old(self).delivered_seqs,
            final(self).outbox == old(self).outbox,
            final(self).settings == old(self).settings,
            final(self).need_acknowledge == old(self).need_acknowledge,
            final(self).gamedata_recv_time == old(self).gamedata_recv_time,
            spec_clock_step(*old(self), *final(self), seq, remote_latency, now),
    {
        let idx: usize = (seq % 128) as usize;
        let active = self.send_queue[idx].active;
        let slot_seq = self.send_queue[idx].seq;
        if !(active && slot_seq == seq) {
            return;
        }
        let slot_time = self.send_queue[idx].time;
        let lat: i32 = if now >= slot_time {
            let dt: u64 = now - slot_time;
            if dt > 0x7fffffff {
                i32::MAX
            } else {
                dt as i32
            }
        } else {
            0
        };
        proof {
            assert(lat as int == spec_latency(slot_time, now));
        }
        let e: i32 = clamp64_to_i32(lat as i64 - remote_latency as i64);
        let cum2: i32 = clamp64_to_i32(self.cumul_error as i64 + e as i64);
        let dd: i64 = self.last_error as i64 - e as i64;
        let x: i64 = 10 * (e as i64) - cum2 as i64 + 2 * dd;
        let off: i32 = clamp64_to_i32(div100(x));
        self.last_latency = lat;
        self.cumul_error = cum2;
        self.last_error = e;
        self.offset_ms = off;
    }
}


/// The wire form of a GAMEDATA_ACK: its tag and the low byte of the
/// receive window start.
pub open spec fn ack_wire(rws: u32) -> Seq<u8> {
    crate::net_packet::be2(6) + seq![(rws % 256) as u8]
}

/// The wire form of a GAMEDATA_RESEND request for `count` tics starting
/// at `start`.
pub open spec fn resend_wire(start: u32, count: u8) -> Seq<u8> {
    crate::net_packet::be2(7) + crate::net_packet::be4(start) + seq![count]
}

/// The per-tic payload of a GAMEDATA packet: for each of the first `n`
/// tics from `start`, the current latency estimate and the stored diff.
pub open spec fn tics_payload(
    q: Seq<NetServerSend>,
    latency: i16,
    lowres: bool,
    start: u32,
    n: int,
) -> Seq<u8>
    decreases n,
{
    if n <= 0 {
        Seq::empty()
    } else {
        tics_payload(q, latency, lowres, start, n - 1) + crate::net_packet::be2(latency as u16)
            + crate::net_packet::diff_wire(q[((start + n - 1) % 128) as int].cmd, lowres)
    }
}

/// The wire form of a GAMEDATA packet carrying tics `start..=end`.
pub open spec fn gamedata_wire(
    q: Seq<NetServerSend>,
    rws: u32,
    latency: i16,
    lowres: bool,
    start: u32,
    end: u32,
) -> Seq<u8> {
    crate::net_packet::be2(5) + seq![(rws % 256) as u8, (start % 256) as u8, (end - start + 1) as u8]
        + tics_payload(q, latency, lowres, start, end - start + 1)
}

impl NetClient {
    /// Acknowledge received game data: tell the server how far the
    /// receive window has advanced.
    pub fn send_game_data_ack(&mut self)
        ensures
            final(self).net_client_connected == old(self).net_client_connected,
            final(self).inbox == old(self).inbox,
            final(self).outbox@ == old(self).outbox@.push(
                NetPacket { data: final(self).outbox@.last().data, pos: 0 },
            ),
            final(self).outbox@.last().data@ == ack_wire(old(self).recv_window_start),
            forall|k: int|
                0 <= k < old(self).outbox@.len() ==> (#[trigger] final(self).outbox@[k]) == old(
                    self,
                ).outbox@[k],
            clock_same(*old(self), *final(self)),
            final(self).gamedata_recv_time == old(self).gamedata_recv_time,
            !final(self).need_acknowledge,
            final(self).connection == old(self).connection,
            final(self).state == old(self).state,
            final(self).recv_window == old(self).recv_window,
            final(self).send_queue == old(self).send_queue,
            final(self).recv_window_start == old(self).recv_window_start,
            final(self).delivered == old(self).delivered,
            final(self).delivered_seqs == old(self).delivered_seqs,
            final(self).settings == old(self).settings,
            old(self).wf() ==> final(self).wf(),
    {
        let mut packet = NetPacket::new();
        packet.write_u16(NetPacketType::GameDataAck.to_u16());
        packet.write_u8((self.recv_window_start % 256) as u8);
        proof {
            assert(packet.data@ =~= ack_wire(self.recv_window_start));
        }
        self.outbox.push(packet);
        self.need_acknowledge = false;
    }

    /// Ask the server to send tics `start..=end` again, and note the
    /// request time on every affected slot of the receive window.
    pub fn send_resend_request(&mut self, start: u32, end: u32, now: u64)
        requires
            old(self).wf(),
            start <= end,
            end - start < 128,
        ensures
            final(self).net_client_connected == old(self).net_client_connected,
            final(self).inbox == old(self).inbox,
            final(self).wf(),
            final(self).outbox@.len() == old(self).outbox@.len() + 1,
            final(self).outbox@.last().data@ == resend_wire(start, ((end - start + 1) as u8)),
            forall|k: int|
                0 <= k < old(self).outbox@.len() ==> (#[trigger] final(self).outbox@[k]) == old(
                    self,
                ).outbox@[k],
            final(self).connection == old(self).connection,
            final(self).state == old(self).state,
            final(self).send_queue == old(self).send_queue,
            final(self).recv_window_start == old(self).recv_window_start,
            final(self).delivered == old(self).delivered,
            final(self).delivered_seqs == old(self).delivered_seqs,
            final(self).settings == old(self).settings,
            final(self).need_acknowledge == old(self).need_acknowledge,
            final(self).gamedata_recv_time == old(self).gamedata_recv_time,
            clock_same(*old(self), *final(self)),
            final(self).recv_window@.len() == BACKUPTICS,
            forall|j: int|
                0 <= j < BACKUPTICS ==> (#[trigger] final(self).recv_window@[j]).active == old(
                    self,
                ).recv_window@[j].active,
            forall|j: int|
                0 <= j < BACKUPTICS ==> (#[trigger] final(self).recv_window@[j]).cmd == old(
                    self,
                ).recv_window@[j].cmd,
            ({
                let os = *old(self);
                let fs = *final(self);
                forall|j: int|
                    0 <= j < BACKUPTICS ==> (#[trigger] fs.recv_window@[j]).resend_time == (
                    if start <= os.recv_window_start + j <= end {
                        now
                    } else {
                        os.recv_window@[j].resend_time
                    })
            }),
    {
        let mut packet = NetPacket::new();
        packet.write_u16(NetPacketType::GameDataResend.to_u16());
        packet.write_i32(start as i32);
        let count: u8 = (end - start + 1) as u8;
        packet.write_u8(count);
        proof {
            assert(crate::net_packet::be4(start as i32 as u32) =~= crate::net_packet::be4(start))
                by {
                assert(start as i32 as u32 == start) by (bit_vector);
            }
            assert(packet.data@ =~= resend_wire(start, count));
        }
        self.outbox.push(packet);
        let mut i: u32 = start;
        #[verifier::loop_isolation(false)]
        while i <= end
            invariant
                start <= i <= end + 1,
                self.recv_window@.len() == BACKUPTICS,
                self.wf(),
                self.connection == old(self).connection,
                self.state == old(self).state,
                self.send_queue == old(self).send_queue,
                self.recv_window_start == old(self).recv_window_start,
                self.delivered == old(self).delivered,
                self.delivered_seqs == old(self).delivered_seqs,
                self.settings == old(self).settings,
                self.need_acknowledge == old(self).need_acknowledge,
                self.gamedata_recv_time == old(self).gamedata_recv_time,
                self.net_client_connected == old(self).net_client_connected,
                self.inbox == old(self).inbox,
                clock_same(*old(self), *self),
                self.outbox@.len() == old(self).outbox@.len() + 1,
                self.outbox@.last().data@ == resend_wire(start, ((end - start + 1) as u8)),
                forall|k: int|
                    0 <= k < old(self).outbox@.len() ==> (#[trigger] self.outbox@[k]) == old(
                        self,
                    ).outbox@[k],
                forall|j: int|
                    0 <= j < BACKUPTICS ==> (#[trigger] self.recv_window@[j]).active == old(
                        self,
                    ).recv_window@[j].active,
                forall|j: int|
                    0 <= j < BACKUPTICS ==> (#[trigger] self.recv_window@[j]).cmd == old(
                        self,
                    ).recv_window@[j].cmd,
                forall|j: int|
                    0 <= j < BACKUPTICS ==> (#[trigger] self.recv_window@[j]).resend_time == (
                    if start <= old(self).recv_window_start + j && old(self).recv_window_start + j
                        < i {
                        now
                    } else {
                        old(self).recv_window@[j].resend_time
                    }),
            decreases end - i,
        {
            if i >= self.recv_window_start {
                let rel: u32 = i - self.recv_window_start;
                if rel < BACKUPTICS as u32 {
                    let idx: usize = rel as usize;
                    let ghost prev = self.recv_window@;
                    let mut slot = self.recv_window.remove(idx);
                    slot.resend_time = now;
                    let ghost slotval = slot;
                    self.recv_window.insert(idx, slot);
                    proof {
                        assert(self.recv_window@ =~= prev.update(idx as int, slotval));
                    }
                }
            }
            if i == end {
                break;
            }
            i += 1;
        }
    }
}


impl NetClient {
    /// Transmit the stored tics `start..=end` in one GAMEDATA packet,
    /// together with the current ack window base and latency estimate.
    pub fn send_tics(&mut self, start: u32, end: u32)
        requires
            old(self).wf(),
            start <= end,
            end - start < 128,
            old(self).settings is Some,
        ensures
            final(self).net_client_connected == old(self).net_client_connected,
            final(self).inbox == old(self).inbox,
            final(self).wf(),
            final(self).connection == old(self).connection,
            final(self).state == old(self).state,
            final(self).recv_window == old(self).recv_window,
            final(self).send_queue == old(self).send_queue,
            final(self).recv_window_start == old(self).recv_window_start,
            final(self).delivered == old(self).delivered,
            final(self).delivered_seqs == old(self).delivered_seqs,
            final(self).settings == old(self).settings,
            final(self).last_ticcmd == old(self).last_ticcmd,
            !old(self).connection.connected ==> *final(self) == *old(self),
            ({
                let lowres = old(self).settings.unwrap().lowres_turn != 0;
                let w = gamedata_wire(
                    old(self).send_queue@,
                    old(self).recv_window_start,
                    old(self).last_latency as i16,
                    lowres,
                    start,
                    end,
                );
                let fs = *final(self);
                old(self).connection.connected ==> fs.outbox@.len() == old(self).outbox@.len() + 1
                    && fs.outbox@.last().data@ == w && !fs.need_acknowledge
            }),
    {
        if !self.connection.connected {
            return;
        }
        let lowres = match &self.settings {
            Some(st) => st.lowres_turn != 0,
            None => false,
        };
        let mut packet = NetPacket::new();
        packet.write_u16(NetPacketType::GameData.to_u16());
        packet.write_u8((self.recv_window_start % 256) as u8);
        packet.write_u8((start % 256) as u8);
        let count: u8 = (end - start + 1) as u8;
        packet.write_u8(count);
        let ghost hdr = packet.data@;
        let ghost q = self.send_queue@;
        let ghost lat: i16 = self.last_latency as i16;
        let mut i: u32 = 0;
        #[verifier::loop_isolation(false)]
        while i < end - start + 1
            invariant
                i <= end - start + 1,
                packet.data@ == hdr + tics_payload(q, lat, lowres, start, i as int),
                packet.pos == 0,
                self == old(self),
                q == self.send_queue@,
            decreases end - start + 1 - i,
        {
            let tic: u32 = start + i;
            let idx: usize = (tic % 128) as usize;
            let latency: i16 = self.last_latency as i16;
            packet.write_i16(latency);
            let diff = self.send_queue[idx].cmd;
            packet.write_ticcmd_diff(&diff, lowres);
            proof {
                assert(packet.data@ =~= hdr + tics_payload(q, lat, lowres, start, i + 1));
            }
            i += 1;
        }
        proof {
            assert(packet.data@ =~= gamedata_wire(
                q,
                self.recv_window_start,
                lat,
                lowres,
                start,
                end,
            ));
        }
        self.outbox.push(packet);
        self.need_acknowledge = false;
    }

    /// Queue a locally built command: diff it against the last one,
    /// store it in the send ring, and transmit it together with the
    /// configured number of earlier tics.
    pub fn send_ticcmd(&mut self, ticcmd: &TicCmd, maketic: u32, now: u64)
        requires
            old(self).wf(),
            old(self).settings is Some,
        ensures
            final(self).net_client_connected == old(self).net_client_connected,
            final(self).inbox == old(self).inbox,
            final(self).wf(),
            final(self).connection == old(self).connection,
            final(self).state == old(self).state,
            final(self).recv_window == old(self).recv_window,
            final(self).recv_window_start == old(self).recv_window_start,
            final(self).delivered == old(self).delivered,
            final(self).delivered_seqs == old(self).delivered_seqs,
            final(self).settings == old(self).settings,
            final(self).last_ticcmd == *ticcmd,
            final(self).send_queue@ == old(self).send_queue@.update(
                (maketic % 128) as int,
                NetServerSend {
                    active: true,
                    seq: maketic,
                    time: now,
                    cmd: spec_compute_diff(old(self).last_ticcmd, *ticcmd),
                },
            ),
            old(self).connection.connected ==> final(self).outbox@.len() == old(
                self,
            ).outbox@.len() + 1,
            !old(self).connection.connected ==> final(self).outbox == old(self).outbox,
            ({
                let os = *old(self);
                let fs = *final(self);
                let q2 = os.send_queue@.update(
                    (maketic % 128) as int,
                    NetServerSend {
                        active: true,
                        seq: maketic,
                        time: now,
                        cmd: spec_compute_diff(os.last_ticcmd, *ticcmd),
                    },
                );
                let ext = os.settings.unwrap().extratics as u32;
                let starttic: u32 = if maketic < ext {
                    0
                } else {
                    (maketic - ext) as u32
                };
                os.connection.connected ==> fs.outbox@.last().data@ == gamedata_wire(
                    q2,
                    os.recv_window_start,
                    os.last_latency as i16,
                    os.settings.unwrap().lowres_turn != 0,
                    starttic,
                    maketic,
                )
            }),
    {
        let diff = calculate_ticcmd_diff(&self.last_ticcmd, ticcmd);
        self.last_ticcmd = *ticcmd;
        let idx: usize = (maketic % 128) as usize;
        let entry = NetServerSend { active: true, seq: maketic, time: now, cmd: diff };
        self.send_queue.set(idx, entry);
        let extratics: u32 = match &self.settings {
            Some(st) => st.extratics as u32,
            None => 0,
        };
        let starttic: u32 = if maketic < extratics {
            0
        } else {
            maketic - extratics
        };
        let endtic: u32 = maketic;
        self.send_tics(starttic, endtic);
    }
}



/// One step of the per-player decompression bases: each live remote
/// player's diff is applied to that player's base; other bases keep.
pub open spec fn base_step(base: Seq<TicCmd>, bundle: NetFullTicCmd, cp: int, drone: bool) -> Seq<
    TicCmd,
> {
    Seq::new(
        NET_MAXPLAYERS as nat,
        |j: int|
            if bundle.playeringame@[j] && !(j == cp && !drone) {
                spec_apply_diff(base[j], bundle.cmds@[j])
            } else {
                base[j]
            },
    )
}

/// The decompression bases after expanding the first `k` window slots.
pub open spec fn base_after(
    win: Seq<NetServerRecv>,
    base: Seq<TicCmd>,
    cp: int,
    drone: bool,
    k: int,
) -> Seq<TicCmd>
    decreases k,
{
    if k <= 0 {
        base
    } else {
        base_step(base_after(win, base, cp, drone, k - 1), win[k - 1].cmd, cp, drone)
    }
}

/// The commands the `m`-th expanded window slot hands the simulation:
/// live remote players decoded against their running base, everything
/// else all-zero.
pub open spec fn delivered_entry_cmds(
    win: Seq<NetServerRecv>,
    base: Seq<TicCmd>,
    cp: int,
    drone: bool,
    m: int,
) -> Seq<TicCmd> {
    let b = base_after(win, base, cp, drone, m);
    let bundle = win[m].cmd;
    Seq::new(
        NET_MAXPLAYERS as nat,
        |j: int|
            if bundle.playeringame@[j] && !(j == cp && !drone) {
                spec_apply_diff(b[j], bundle.cmds@[j])
            } else {
                ticcmd_zero()
            },
    )
}

/// How many slots of a receive window hold data.
pub open spec fn count_active(s: Seq<NetServerRecv>) -> nat
    decreases s.len(),
{
    if s.len() == 0 {
        0
    } else {
        (if s[0].active {
            1nat
        } else {
            0nat
        }) + count_active(s.skip(1))
    }
}

proof fn lemma_count_active_push(s: Seq<NetServerRecv>, x: NetServerRecv)
    requires
        !x.active,
    ensures
        count_active(s.push(x)) == count_active(s),
    decreases s.len(),
{
    if s.len() == 0 {
        assert(s.push(x)[0] == x);
        assert(s.push(x).skip(1) =~= Seq::<NetServerRecv>::empty());
        assert(count_active(Seq::<NetServerRecv>::empty()) == 0);
    } else {
        assert(s.push(x)[0] == s[0]);
        assert(s.push(x).skip(1) =~= s.skip(1).push(x));
        lemma_count_active_push(s.skip(1), x);
    }
}



/// A slot of the window's first tic that the client decodes from the
/// network: a live remote player (for a drone, every live player).
pub open spec fn remote_live(os: NetClient, j: int) -> bool {
    os.recv_window@[0].cmd.playeringame@[j] && !(j == os.settings.unwrap().consoleplayer
        && !os.drone)
}

/// Two client states that agree everywhere but possibly the per-player
/// decompression bases.
pub open spec fn same_but_cmd_base(a: NetClient, b: NetClient) -> bool {
    a == (NetClient { recvwindow_cmd_base: a.recvwindow_cmd_base, ..b })
}

impl NetClient {
    /// Build the per-player commands of the window's first tic by
    /// applying each live player's diff to that player's running base,
    /// and advance the bases. The local player's slot is left untouched:
    /// its inputs come from the local tic store. Decompression is a pure
    /// function of base and diff, so every peer reconstructs the same
    /// commands.
    #[verifier::rlimit(100)]
    #[verifier::spinoff_prover]
    fn expand_full_ticcmd(&mut self) -> (r: TiccmdSet)
        requires
            old(self).wf(),
            old(self).state == ClientState::InGame,
            old(self).recv_window@[0].cmd.wf(),
        ensures
            final(self).wf(),
            r.wf(),
            same_but_cmd_base(*final(self), *old(self)),
            final(self).recvwindow_cmd_base@.len() == NET_MAXPLAYERS,
            forall|j: int|
                0 <= j < NET_MAXPLAYERS ==> (#[trigger] r.ingame@[j]) == old(
                    self,
                ).recv_window@[0].cmd.playeringame@[j],
            ({
                let os = *old(self);
                forall|j: int|
                    0 <= j < NET_MAXPLAYERS && remote_live(os, j) ==> (#[trigger] r.cmds@[j])
                        == spec_apply_diff(
                        os.recvwindow_cmd_base@[j],
                        os.recv_window@[0].cmd.cmds@[j],
                    )
            }),
            ({
                let fs = *final(self);
                forall|j: int|
                    0 <= j < NET_MAXPLAYERS && remote_live(*old(self), j) ==> (
                    #[trigger] fs.recvwindow_cmd_base@[j]) == r.cmds@[j]
            }),
            ({
                let os = *old(self);
                forall|j: int|
                    0 <= j < NET_MAXPLAYERS && !remote_live(os, j) ==> (#[trigger] r.cmds@[j])
                        == ticcmd_zero()
            }),
            ({
                let fs = *final(self);
                forall|j: int|
                    0 <= j < NET_MAXPLAYERS && !remote_live(*old(self), j) ==> (
                    #[trigger] fs.recvwindow_cmd_base@[j]) == old(self).recvwindow_cmd_base@[j]
            }),
    {
        let consoleplayer: i32 = match &self.settings {
            Some(st) => st.consoleplayer,
            None => 0,
        };
        let mut out = TiccmdSet::default();
        let mut i: usize = 0;
        #[verifier::loop_isolation(false)]
        while i < NET_MAXPLAYERS
            invariant
                i <= NET_MAXPLAYERS,
                out.wf(),
                self.recvwindow_cmd_base@.len() == NET_MAXPLAYERS,
                same_but_cmd_base(*self, *old(self)),
                consoleplayer == old(self).settings.unwrap().consoleplayer,
                forall|j: int|
                    i <= j < NET_MAXPLAYERS ==> (#[trigger] self.recvwindow_cmd_base@[j]) == old(
                        self,
                    ).recvwindow_cmd_base@[j],
                forall|j: int|
                    i <= j < NET_MAXPLAYERS ==> (#[trigger] out.cmds@[j]) == ticcmd_zero(),
                forall|j: int|
                    0 <= j < i ==> (#[trigger] out.ingame@[j]) == old(
                        self,
                    ).recv_window@[0].cmd.playeringame@[j],
                forall|j: int|
                    0 <= j < i && remote_live(*old(self), j) ==> (#[trigger] out.cmds@[j])
                        == spec_apply_diff(
                        old(self).recvwindow_cmd_base@[j],
                        old(self).recv_window@[0].cmd.cmds@[j],
                    ),
                forall|j: int|
                    0 <= j < i && remote_live(*old(self), j) ==> (
                    #[trigger] self.recvwindow_cmd_base@[j]) == out.cmds@[j],
                forall|j: int|
                    0 <= j < i && !remote_live(*old(self), j) ==> (#[trigger] out.cmds@[j])
                        == ticcmd_zero(),
                forall|j: int|
                    0 <= j < i && !remote_live(*old(self), j) ==> (
                    #[trigger] self.recvwindow_cmd_base@[j]) == old(
                        self,
                    ).recvwindow_cmd_base@[j],
            decreases NET_MAXPLAYERS - i,
        {
            let ghost out0 = out;
            let ghost base0 = self.recvwindow_cmd_base@;
            let skip_local = (i as i32) == consoleplayer && !self.drone;
            let ingame = self.recv_window[0].cmd.playeringame[i];
            out.ingame.set(i, ingame);
            if !skip_local && ingame {
                let diff = self.recv_window[0].cmd.cmds[i];
                let base = self.recvwindow_cmd_base[i];
                let cmd = apply_ticcmd_diff(&base, &diff);
                out.cmds.set(i, cmd);
                self.recvwindow_cmd_base.set(i, cmd);
            }
            proof {
                let os = *old(self);
                assert forall|j: int| 0 <= j < i + 1 implies (#[trigger] out.ingame@[j])
                    == os.recv_window@[0].cmd.playeringame@[j] by {
                    if j < i {
                        assert(out0.ingame@[j] == os.recv_window@[0].cmd.playeringame@[j]);
                    }
                }
                assert forall|j: int|
                    0 <= j < i + 1 && remote_live(os, j) implies (#[trigger] out.cmds@[j])
                        == spec_apply_diff(
                        os.recvwindow_cmd_base@[j],
                        os.recv_window@[0].cmd.cmds@[j],
                    ) by {
                    if j < i {
                        assert(out.cmds@[j] == out0.cmds@[j]);
                    }
                }
                assert forall|j: int|
                    0 <= j < i + 1 && remote_live(os, j) implies (
                    #[trigger] self.recvwindow_cmd_base@[j]) == out.cmds@[j] by {
                    if j < i {
                        assert(out.cmds@[j] == out0.cmds@[j]);
                        assert(self.recvwindow_cmd_base@[j] == base0[j]);
                    }
                }
                assert forall|j: int|
                    0 <= j < i + 1 && !remote_live(os, j) implies (#[trigger] out.cmds@[j])
                        == ticcmd_zero() by {
                    if j < i {
                        assert(out.cmds@[j] == out0.cmds@[j]);
                    } else {
                        assert(out.cmds@[j] == ticcmd_zero());
                    }
                }
                assert forall|j: int|
                    0 <= j < i + 1 && !remote_live(os, j) implies (
                    #[trigger] self.recvwindow_cmd_base@[j]) == os.recvwindow_cmd_base@[j] by {
                    if j < i {
                        assert(self.recvwindow_cmd_base@[j] == base0[j]);
                    } else {
                        assert(self.recvwindow_cmd_base@[j] == os.recvwindow_cmd_base@[j]);
                    }
                }
            }
            i += 1;
        }
        proof {
            let os = *old(self);
            assert forall|j: int|
                0 <= j < NET_MAXPLAYERS && !remote_live(os, j) implies (#[trigger] out.cmds@[j])
                    == ticcmd_zero() by {}
            assert forall|j: int|
                0 <= j < NET_MAXPLAYERS && !remote_live(os, j) implies (
                #[trigger] self.recvwindow_cmd_base@[j]) == os.recvwindow_cmd_base@[j] by {
                assert(out.cmds@[j] == ticcmd_zero());
            }
            assert forall|j: int|
                0 <= j < NET_MAXPLAYERS && remote_live(os, j) implies (#[trigger] out.cmds@[j])
                    == spec_apply_diff(
                    os.recvwindow_cmd_base@[j],
                    os.recv_window@[0].cmd.cmds@[j],
                ) by {}
            assert forall|j: int|
                0 <= j < NET_MAXPLAYERS && remote_live(os, j) implies (
                #[trigger] self.recvwindow_cmd_base@[j]) == out.cmds@[j] by {
                assert(out.cmds@[j] == spec_apply_diff(
                    os.recvwindow_cmd_base@[j],
                    os.recv_window@[0].cmd.cmds@[j],
                ));
            }
        }
        out
    }

    /// Deliver every contiguous tic at the head of the receive window:
    /// decode it against the per-player bases, queue it for the
    /// simulation, and slide the window forward one tic at a time.
    pub fn advance_window(&mut self)
        requires
            old(self).wf(),
            old(self).state == ClientState::InGame,
        ensures
            final(self).net_client_connected == old(self).net_client_connected,
            final(self).inbox == old(self).inbox,
            final(self).wf(),
            final(self).connection == old(self).connection,
            final(self).state == old(self).state,
            final(self).send_queue == old(self).send_queue,
            final(self).outbox == old(self).outbox,
            final(self).settings == old(self).settings,
            ({
                let fs = *final(self);
                let os = *old(self);
                &&& fs.recv_window_start >= os.recv_window_start
                &&& fs.delivered@.len() == os.delivered@.len() + (fs.recv_window_start
                    - os.recv_window_start)
                &&& fs.delivered_seqs@ == os.delivered_seqs@ + Seq::new(
                    (fs.recv_window_start - os.recv_window_start) as nat,
                    |i: int| (os.recv_window_start + i) as u32,
                )
                &&& (forall|k: int|
                    0 <= k < os.delivered@.len() ==> fs.delivered@[k] == os.delivered@[k])
            }),
            !final(self).recv_window@[0].active || final(self).recv_window_start >= 0xffffff00,
            !old(self).recv_window@[0].active ==> *final(self) == *old(self),
            ({
                let fs = *final(self);
                let os = *old(self);
                let k = fs.recv_window_start - os.recv_window_start;
                forall|i: int|
                    0 <= i < k && i < BACKUPTICS ==> (#[trigger] os.recv_window@[i]).active
            }),
            final(self).recv_window_start - old(self).recv_window_start <= BACKUPTICS,
            ({
                let fs = *final(self);
                let os = *old(self);
                let k = fs.recv_window_start - os.recv_window_start;
                let cp = os.settings.unwrap().consoleplayer as int;
                fs.recvwindow_cmd_base@ == base_after(
                    os.recv_window@,
                    os.recvwindow_cmd_base@,
                    cp,
                    os.drone,
                    k as int,
                )
            }),
            ({
                let fs = *final(self);
                let os = *old(self);
                let k = fs.recv_window_start - os.recv_window_start;
                forall|m: int|
                    0 <= m < k ==> (#[trigger] fs.delivered@[os.delivered@.len() + m]).ingame@
                        == os.recv_window@[m].cmd.playeringame@
            }),
            ({
                let fs = *final(self);
                let os = *old(self);
                let k = fs.recv_window_start - os.recv_window_start;
                let cp = os.settings.unwrap().consoleplayer as int;
                forall|m: int|
                    0 <= m < k ==> (#[trigger] fs.delivered@[os.delivered@.len() + m]).cmds@
                        == delivered_entry_cmds(
                        os.recv_window@,
                        os.recvwindow_cmd_base@,
                        cp,
                        os.drone,
                        m,
                    )
            }),
            ({
                let fs = *final(self);
                let os = *old(self);
                let k = fs.recv_window_start - os.recv_window_start;
                let m: int = if k < 128 {
                    k as int
                } else {
                    128
                };
                &&& (forall|i: int|
                    0 <= i < BACKUPTICS - m ==> (#[trigger] fs.recv_window@[i])
                        == os.recv_window@[i + m])
                &&& (forall|i: int|
                    BACKUPTICS - m <= i < BACKUPTICS ==> !(#[trigger] fs.recv_window@[i]).active)
            }),
    {
        if !self.recv_window[0].active {
            return;
        }
        let ghost base_rws = self.recv_window_start;
        let ghost base_len = self.delivered@.len();
        let ghost w0 = self.recv_window@;
        let ghost b0 = self.recvwindow_cmd_base@;
        let ghost cp0 = self.settings.unwrap().consoleplayer as int;
        #[verifier::loop_isolation(false)]
        while self.recv_window[0].active && self.recv_window_start < 0xffffff00
            invariant
                self.wf(),
                self.state == ClientState::InGame,
                self.connection == old(self).connection,
                self.send_queue == old(self).send_queue,
                self.outbox == old(self).outbox,
                self.settings == old(self).settings,
                self.net_client_connected == old(self).net_client_connected,
                self.inbox == old(self).inbox,
                self.recv_window_start >= base_rws,
                self.delivered@.len() == base_len + (self.recv_window_start - base_rws),
                self.delivered_seqs@ == old(self).delivered_seqs@ + Seq::new(
                    (self.recv_window_start - base_rws) as nat,
                    |i: int| (base_rws + i) as u32,
                ),
                forall|k: int|
                    0 <= k < base_len ==> self.delivered@[k] == old(self).delivered@[k],
                w0 == old(self).recv_window@,
                self.drone == old(self).drone,
                self.recv_window_start - base_rws <= BACKUPTICS,
                forall|i: int|
                    0 <= i < self.recv_window_start - base_rws && i < BACKUPTICS ==> (
                    #[trigger] w0[i]).active,
                self.recvwindow_cmd_base@ == base_after(
                    w0,
                    b0,
                    cp0,
                    old(self).drone,
                    (self.recv_window_start - base_rws) as int,
                ),
                forall|m: int|
                    0 <= m < self.recv_window_start - base_rws ==> (
                    #[trigger] self.delivered@[base_len + m]).ingame@
                        == w0[m].cmd.playeringame@,
                forall|m: int|
                    0 <= m < self.recv_window_start - base_rws ==> (
                    #[trigger] self.delivered@[base_len + m]).cmds@ == delivered_entry_cmds(
                        w0,
                        b0,
                        cp0,
                        old(self).drone,
                        m,
                    ),
                ({
                    let m: int = if self.recv_window_start - base_rws < 128 {
                        (self.recv_window_start - base_rws) as int
                    } else {
                        128
                    };
                    &&& (forall|i: int|
                        0 <= i < BACKUPTICS - m ==> (#[trigger] self.recv_window@[i]) == old(
                            self,
                        ).recv_window@[i + m])
                    &&& (forall|i: int|
                        BACKUPTICS - m <= i < BACKUPTICS ==> !(
                        #[trigger] self.recv_window@[i]).active)
                }),
            decreases count_active(self.recv_window@),
        {
            let ghost pre_self = *self;
            let ghost pre_window = self.recv_window@;
            let ghost pre_base = self.recvwindow_cmd_base@;
            let ghost m = (self.recv_window_start - base_rws) as int;
            let seq = self.recv_window_start;
            let set = self.expand_full_ticcmd();
            proof {
                assert(pre_window[0] == w0[m]);
                assert(set.ingame@ =~= w0[m].cmd.playeringame@);
                assert(pre_base == base_after(w0, b0, cp0, old(self).drone, m));
                assert forall|j: int|
                    0 <= j < NET_MAXPLAYERS implies set.cmds@[j] == delivered_entry_cmds(
                    w0,
                    b0,
                    cp0,
                    old(self).drone,
                    m,
                )[j] by {
                    if remote_live(pre_self, j) {
                        assert(set.cmds@[j] == spec_apply_diff(
                            pre_self.recvwindow_cmd_base@[j],
                            pre_self.recv_window@[0].cmd.cmds@[j],
                        ));
                    } else {
                        assert(set.cmds@[j] == ticcmd_zero());
                    }
                }
                assert(set.cmds@ =~= delivered_entry_cmds(w0, b0, cp0, old(self).drone, m));
                assert forall|j: int|
                    0 <= j < NET_MAXPLAYERS implies self.recvwindow_cmd_base@[j] == base_step(
                    pre_base,
                    w0[m].cmd,
                    cp0,
                    old(self).drone,
                )[j] by {
                    if remote_live(pre_self, j) {
                        assert(self.recvwindow_cmd_base@[j] == set.cmds@[j]);
                        assert(set.cmds@[j] == spec_apply_diff(
                            pre_self.recvwindow_cmd_base@[j],
                            pre_self.recv_window@[0].cmd.cmds@[j],
                        ));
                    } else {
                        assert(self.recvwindow_cmd_base@[j] == pre_base[j]);
                    }
                }
                assert(self.recvwindow_cmd_base@ =~= base_step(
                    pre_base,
                    w0[m].cmd,
                    cp0,
                    old(self).drone,
                ));
            }
            self.delivered.push(set);
            proof {
                self.delivered_seqs@ = self.delivered_seqs@.push(seq);
            }
            let _ = self.recv_window.remove(0);
            self.recv_window.push(NetServerRecv::default());
            self.recv_window_start = self.recv_window_start + 1;
            proof {
                assert(self.recv_window@ =~= pre_window.skip(1).push(
                    self.recv_window@[BACKUPTICS - 1],
                ));
                lemma_count_active_push(pre_window.skip(1), self.recv_window@[BACKUPTICS - 1]);
                assert(count_active(pre_window) == 1 + count_active(pre_window.skip(1)));
                assert(self.delivered_seqs@ =~= old(self).delivered_seqs@ + Seq::new(
                    (self.recv_window_start - base_rws) as nat,
                    |i: int| (base_rws + i) as u32,
                ));
            }
        }
    }
}


/// A send slot still holds the tic it is asked about: it is active and
/// its stored sequence number matches, which guards against stale
/// entries after ring wraparound.
pub open spec fn spec_slot_valid(q: Seq<NetServerSend>, t: u32) -> bool {
    q[(t % 128) as int].active && q[(t % 128) as int].seq == t
}


/// The first tic in `[s, e]` the send ring still holds, or `e + 1`.
pub open spec fn first_valid(q: Seq<NetServerSend>, s: int, e: int) -> int
    decreases e + 1 - s,
{
    if s > e || s < 0 {
        e + 1
    } else if spec_slot_valid(q, s as u32) {
        s
    } else {
        first_valid(q, s + 1, e)
    }
}

/// The last tic in `[s, e]` the send ring still holds, or `s - 1`.
pub open spec fn last_valid(q: Seq<NetServerSend>, s: int, e: int) -> int
    decreases e + 1 - s,
{
    if e < s {
        s - 1
    } else if spec_slot_valid(q, e as u32) {
        e
    } else {
        last_valid(q, s, e - 1)
    }
}

impl NetClient {
    /// Whether the send ring still holds tic `t`.
    pub fn send_slot_valid(&self, t: u32) -> (r: bool)
        requires
            self.wf(),
        ensures
            r == spec_slot_valid(self.send_queue@, t),
    {
        let idx: usize = (t % 128) as usize;
        self.send_queue[idx].active && self.send_queue[idx].seq == t
    }
}


/// The four clock-controller fields, unchanged between two states.
pub open spec fn clock_same(a: NetClient, b: NetClient) -> bool {
    a.last_latency == b.last_latency && a.cumul_error == b.cumul_error && a.last_error
        == b.last_error && a.offset_ms == b.offset_ms
}

/// The effect of feeding one latency report into the clock controller.
pub open spec fn spec_clock_step(
    os: NetClient,
    fs: NetClient,
    seq: u32,
    remote_latency: i32,
    now: u64,
) -> bool {
    let slot = os.send_queue@[(seq % 128) as int];
    let valid = spec_slot_valid(os.send_queue@, seq);
    let lat = spec_latency(slot.time, now);
    let e = clamp_i32(lat - remote_latency);
    let cum2 = clamp_i32(os.cumul_error + e);
    let dd = os.last_error - e;
    &&& (valid ==> fs.last_latency as int == lat && fs.cumul_error as int == cum2
        && fs.last_error as int == e && fs.offset_ms as int == spec_pid_offset(e, cum2, dd))
    &&& (!valid ==> clock_same(os, fs))
}

/// Whether a whole server bundle can be read at position `p`.
pub open spec fn bundle_ok(d: Seq<u8>, lowres: bool, p: int) -> bool {
    p + 3 <= d.len() && crate::net_packet::spec_read_diffs(d, d[p + 2], lowres, p + 3, 0) is Some
}

/// The position just past the bundle at `p`.
pub open spec fn bundle_end(d: Seq<u8>, lowres: bool, p: int) -> int {
    crate::net_packet::spec_read_diffs(d, d[p + 2], lowres, p + 3, 0).unwrap().1
}

/// The position of the `i`-th bundle in a run starting at `p`.
pub open spec fn bundle_pos(d: Seq<u8>, lowres: bool, p: int, i: int) -> int
    decreases i,
{
    if i <= 0 {
        p
    } else {
        bundle_end(d, lowres, bundle_pos(d, lowres, p, i - 1))
    }
}

/// Whether `n` bundles in a row can be read starting at `p`.
pub open spec fn bundles_ok(d: Seq<u8>, lowres: bool, p: int, n: int) -> bool
    decreases n,
{
    n <= 0 || (bundle_ok(d, lowres, p) && bundles_ok(d, lowres, bundle_end(d, lowres, p), n - 1))
}

/// The latency estimate carried by the bundle at `p`.
pub open spec fn bundle_latency(d: Seq<u8>, p: int) -> i32 {
    (crate::net_packet::u16_be(d[p], d[p + 1]) as i16) as i32
}

/// The live-slot flags carried by the bundle at `p`.
pub open spec fn bundle_flags(d: Seq<u8>, p: int) -> Seq<bool> {
    Seq::new(
        NET_MAXPLAYERS as nat,
        |j: int| d[p + 2] & crate::net_packet::player_bit(j) != 0,
    )
}

/// The per-player diffs carried by the bundle at `p`.
pub open spec fn bundle_diffs(d: Seq<u8>, lowres: bool, p: int) -> Seq<NetTicDiff> {
    crate::net_packet::spec_read_diffs(d, d[p + 2], lowres, p + 3, 0).unwrap().0
}

/// The largest index below `e` whose window slot holds data, or -1.
pub open spec fn gap_low(win: Seq<NetServerRecv>, e: int) -> int
    decreases e,
{
    if e <= 0 {
        -1
    } else if win[e - 1].active {
        e - 1
    } else {
        gap_low(win, e - 1)
    }
}


proof fn lemma_bundle_pos_shift(d: Seq<u8>, lowres: bool, p: int, k: int)
    requires
        k >= 1,
    ensures
        bundle_pos(d, lowres, p, k) == bundle_pos(d, lowres, bundle_end(d, lowres, p), k - 1),
    decreases k,
{
    if k > 1 {
        lemma_bundle_pos_shift(d, lowres, p, k - 1);
        assert(bundle_pos(d, lowres, p, k) == bundle_end(
            d,
            lowres,
            bundle_pos(d, lowres, p, k - 1),
        ));
        assert(bundle_pos(d, lowres, bundle_end(d, lowres, p), k - 1) == bundle_end(
            d,
            lowres,
            bundle_pos(d, lowres, bundle_end(d, lowres, p), k - 2),
        ));
    } else {
        assert(bundle_pos(d, lowres, p, 0) == p);
        assert(bundle_pos(d, lowres, p, 1) == bundle_end(d, lowres, bundle_pos(d, lowres, p, 0)));
        assert(bundle_pos(d, lowres, bundle_end(d, lowres, p), 0) == bundle_end(d, lowres, p));
    }
}

proof fn lemma_bundles_ok_append(d: Seq<u8>, lowres: bool, p: int, k: int)
    requires
        k >= 0,
        bundles_ok(d, lowres, p, k),
        bundle_ok(d, lowres, bundle_pos(d, lowres, p, k)),
    ensures
        bundles_ok(d, lowres, p, k + 1),
    decreases k,
{
    if k > 0 {
        lemma_bundle_pos_shift(d, lowres, p, k);
        lemma_bundles_ok_append(d, lowres, bundle_end(d, lowres, p), k - 1);
        assert(bundles_ok(d, lowres, p, k + 1) == (bundle_ok(d, lowres, p) && bundles_ok(
            d,
            lowres,
            bundle_end(d, lowres, p),
            k,
        )));
    } else {
        assert(bundle_pos(d, lowres, p, 0) == p);
        assert(bundles_ok(d, lowres, bundle_end(d, lowres, p), 0));
        assert(bundles_ok(d, lowres, p, 1) == (bundle_ok(d, lowres, p) && bundles_ok(
            d,
            lowres,
            bundle_end(d, lowres, p),
            0,
        )));
    }
}

proof fn lemma_gap_low_actives(w1: Seq<NetServerRecv>, w2: Seq<NetServerRecv>, e: int)
    requires
        forall|j: int| 0 <= j < e ==> (#[trigger] w1[j]).active == w2[j].active,
    ensures
        gap_low(w1, e) == gap_low(w2, e),
    decreases e,
{
    if e > 0 {
        lemma_gap_low_actives(w1, w2, e - 1);
    }
}

impl NetClient {
    /// Handle a GAMESTART message: while waiting for the start, valid
    /// settings open the game, install exactly the decoded settings and
    /// reset both tic rings; anything else leaves the session as it is.
    pub fn parse_game_start(&mut self, packet: &mut NetPacket)
        requires
            old(self).wf(),
        ensures
            final(self).net_client_connected == old(self).net_client_connected,
            final(self).inbox == old(self).inbox,
            final(self).wf(),
            final(self).connection == old(self).connection,
            final(self).state == old(self).state || final(self).state == ClientState::InGame,
            old(self).state != ClientState::WaitingStart ==> final(self).state == old(self).state
                && final(self).settings == old(self).settings,
            ({
                let fs = *final(self);
                let os = *old(self);
                fs.state == os.state ==> fs.settings == os.settings && fs.recv_window_start
                    == os.recv_window_start && fs.recv_window == os.recv_window && fs.send_queue
                    == os.send_queue && fs.delivered == os.delivered && fs.delivered_seqs
                    == os.delivered_seqs
            }),
            ({
                let fs = *final(self);
                fs.state == ClientState::InGame && old(self).state != ClientState::InGame ==> (
                fs.settings matches Some(st) && st.wf() && 1 <= st.ticdup <= 5 && 0 <= st.extratics
                    < 128 && 0 < st.num_players <= 8 && fs.recv_window_start == 0
                    && fs.delivered_seqs@.len() == 0 && (forall|j: int|
                    0 <= j < BACKUPTICS ==> !(#[trigger] fs.recv_window@[j]).active) && (forall|
                    j: int,
                |
                    0 <= j < BACKUPTICS ==> !(#[trigger] fs.send_queue@[j]).active))
            }),
            ({
                let os = *old(self);
                let fs = *final(self);
                let p = old(packet).pos as int;
                let d = old(packet).data@;
                let readable = p + 20 <= d.len() && d[p + 18] <= 8 && p + 20 + d[p + 18]
                    <= d.len();
                let np = d[p + 18] as i32;
                let cp = (d[p + 19] as i8) as i32;
                let valid = 0 < np && cp < np && (os.drone ==> cp < 0) && (!os.drone ==> cp >= 0)
                    && 1 <= d[p] <= 5 && d[p + 1] < 128;
                &&& (os.state == ClientState::WaitingStart && !(readable && valid) ==> fs
                    == os)
                &&& os.state == ClientState::WaitingStart && readable && valid ==> {
                    &&& fs.state == ClientState::InGame
                    &&& fs.settings matches Some(st) && st.ticdup == d[p] as i32 && st.extratics
                        == d[p + 1] as i32 && st.deathmatch == d[p + 2] as i32 && st.nomonsters
                        == d[p + 3] as i32 && st.fast_monsters == d[p + 4] as i32
                        && st.respawn_monsters == d[p + 5] as i32 && st.episode == d[p + 6] as i32
                        && st.map == d[p + 7] as i32 && st.skill == (d[p + 8] as i8) as i32
                        && st.gameversion == d[p + 9] as i32 && st.lowres_turn == d[p + 10] as i32
                        && st.new_sync == d[p + 11] as i32 && st.timelimit
                        == crate::net_packet::u32_be(d[p + 12], d[p + 13], d[p + 14], d[p + 15])
                        && st.loadgame == (d[p + 16] as i8) as i32 && st.random == d[p + 17] as i32
                        && st.num_players == np && st.consoleplayer == cp && (forall|j: int|
                        0 <= j < np ==> st.player_classes@[j] == d[p + 20 + j] as i32)
                }
            }),
    {
        let settings = match packet.read_settings() {
            Some(st) => st,
            None => {
                return;
            },
        };
        if self.state != ClientState::WaitingStart {
            return;
        }
        if settings.num_players > NET_MAXPLAYERS as i32 || settings.num_players <= 0
            || settings.consoleplayer >= settings.num_players {
            return;
        }
        if (self.drone && settings.consoleplayer >= 0) || (!self.drone && settings.consoleplayer
            < 0) {
            return;
        }
        if settings.ticdup < 1 || settings.ticdup > 5 || settings.extratics < 0
            || settings.extratics >= 128 {
            return;
        }
        self.state = ClientState::InGame;
        self.settings = Some(settings);
        self.recv_window_start = 0;
        let mut recv_window: Vec<NetServerRecv> = Vec::new();
        let mut send_queue: Vec<NetServerSend> = Vec::new();
        let mut i: usize = 0;
        #[verifier::loop_isolation(false)]
        while i < BACKUPTICS
            invariant
                i <= BACKUPTICS,
                recv_window@.len() == i,
                send_queue@.len() == i,
                forall|j: int| 0 <= j < i ==> (#[trigger] recv_window@[j]).cmd.wf(),
                forall|j: int| 0 <= j < i ==> !(#[trigger] recv_window@[j]).active,
                forall|j: int| 0 <= j < i ==> !(#[trigger] send_queue@[j]).active,
            decreases BACKUPTICS - i,
        {
            recv_window.push(NetServerRecv::default());
            send_queue.push(NetServerSend::default());
            i += 1;
        }
        self.recv_window = recv_window;
        self.send_queue = send_queue;
        let mut base: Vec<TicCmd> = Vec::new();
        let mut k: usize = 0;
        #[verifier::loop_isolation(false)]
        while k < NET_MAXPLAYERS
            invariant
                k <= NET_MAXPLAYERS,
                base@.len() == k,
            decreases NET_MAXPLAYERS - k,
        {
            base.push(TicCmd::default());
            k += 1;
        }
        self.recvwindow_cmd_base = base;
        self.delivered = Vec::new();
        proof {
            self.delivered_seqs@ = Seq::empty();
        }
    }

    /// Handle a GAMEDATA bundle: store each carried tic that falls into
    /// the receive window, feed the clock controller from the last
    /// stored bundle, mark the data for acknowledgment, and ask for a
    /// resend when the bundle lands past a gap. Bundles outside a
    /// running game are ignored.
    #[verifier::rlimit(100)]
    #[verifier::spinoff_prover]
    pub fn parse_game_data(&mut self, packet: &mut NetPacket, now: u64)
        requires
            old(self).wf(),
        ensures
            final(self).net_client_connected == old(self).net_client_connected,
            final(self).inbox == old(self).inbox,
            final(self).wf(),
            final(self).connection == old(self).connection,
            final(self).state == old(self).state,
            final(self).recv_window_start == old(self).recv_window_start,
            final(self).delivered == old(self).delivered,
            final(self).delivered_seqs == old(self).delivered_seqs,
            final(self).send_queue == old(self).send_queue,
            final(self).settings == old(self).settings,
            old(self).state != ClientState::InGame ==> *final(self) == *old(self),
            ({
                let os = *old(self);
                let fs = *final(self);
                let p = old(packet).pos as int;
                let d = old(packet).data@;
                let lowres = os.settings.unwrap().lowres_turn != 0;
                let h = p + 2;
                let seq = spec_expand(os.recv_window_start, d[p]);
                let n = d[p + 1] as int;
                let hdr_ok = os.state == ClientState::InGame && p + 2 <= d.len();
                let all_ok = hdr_ok && bundles_ok(d, lowres, h, n);
                all_ok ==> fs.need_acknowledge && fs.gamedata_recv_time == now
            }),
            ({
                let os = *old(self);
                let fs = *final(self);
                let p = old(packet).pos as int;
                let d = old(packet).data@;
                let lowres = os.settings.unwrap().lowres_turn != 0;
                let h = p + 2;
                let seq = spec_expand(os.recv_window_start, d[p]);
                let n = d[p + 1] as int;
                let hdr_ok = os.state == ClientState::InGame && p + 2 <= d.len();
                let all_ok = hdr_ok && bundles_ok(d, lowres, h, n);
                all_ok ==> (forall|i: int|
                    0 <= i < n && 0 <= seq + i - os.recv_window_start < BACKUPTICS ==> (
                    #[trigger] fs.recv_window@[seq + i - os.recv_window_start]).active)
            }),
            ({
                let os = *old(self);
                let fs = *final(self);
                let p = old(packet).pos as int;
                let d = old(packet).data@;
                let lowres = os.settings.unwrap().lowres_turn != 0;
                let h = p + 2;
                let seq = spec_expand(os.recv_window_start, d[p]);
                let n = d[p + 1] as int;
                let hdr_ok = os.state == ClientState::InGame && p + 2 <= d.len();
                let all_ok = hdr_ok && bundles_ok(d, lowres, h, n);
                all_ok ==> (forall|i: int|
                    0 <= i < n && 0 <= seq + i - os.recv_window_start < BACKUPTICS ==> (
                    #[trigger] fs.recv_window@[seq + i - os.recv_window_start]).cmd.latency
                        == bundle_latency(d, bundle_pos(d, lowres, h, i)))
            }),
            ({
                let os = *old(self);
                let fs = *final(self);
                let p = old(packet).pos as int;
                let d = old(packet).data@;
                let lowres = os.settings.unwrap().lowres_turn != 0;
                let h = p + 2;
                let seq = spec_expand(os.recv_window_start, d[p]);
                let n = d[p + 1] as int;
                let hdr_ok = os.state == ClientState::InGame && p + 2 <= d.len();
                let all_ok = hdr_ok && bundles_ok(d, lowres, h, n);
                all_ok ==> (forall|i: int|
                    0 <= i < n && 0 <= seq + i - os.recv_window_start < BACKUPTICS ==> (
                    #[trigger] fs.recv_window@[seq + i
                        - os.recv_window_start]).cmd.playeringame@ == bundle_flags(
                        d,
                        bundle_pos(d, lowres, h, i),
                    ))
            }),
            ({
                let os = *old(self);
                let fs = *final(self);
                let p = old(packet).pos as int;
                let d = old(packet).data@;
                let lowres = os.settings.unwrap().lowres_turn != 0;
                let h = p + 2;
                let seq = spec_expand(os.recv_window_start, d[p]);
                let n = d[p + 1] as int;
                let hdr_ok = os.state == ClientState::InGame && p + 2 <= d.len();
                let all_ok = hdr_ok && bundles_ok(d, lowres, h, n);
                all_ok ==> (forall|i: int|
                    0 <= i < n && 0 <= seq + i - os.recv_window_start < BACKUPTICS ==> (
                    #[trigger] fs.recv_window@[seq + i - os.recv_window_start]).cmd.cmds@
                        == bundle_diffs(d, lowres, bundle_pos(d, lowres, h, i)))
            }),
            ({
                let os = *old(self);
                let fs = *final(self);
                let p = old(packet).pos as int;
                let d = old(packet).data@;
                let lowres = os.settings.unwrap().lowres_turn != 0;
                let h = p + 2;
                let seq = spec_expand(os.recv_window_start, d[p]);
                let n = d[p + 1] as int;
                let hdr_ok = os.state == ClientState::InGame && p + 2 <= d.len();
                let all_ok = hdr_ok && bundles_ok(d, lowres, h, n);
                all_ok ==> ({
                    let off_last = seq + n - 1 - os.recv_window_start;
                    if n > 0 && 0 <= off_last < BACKUPTICS && seq + n - 1 <= u32::MAX {
                        spec_clock_step(
                            os,
                            fs,
                            (seq + n - 1) as u32,
                            bundle_latency(d, bundle_pos(d, lowres, h, n - 1)),
                            now,
                        )
                    } else {
                        clock_same(os, fs)
                    }
                })
            }),
            ({
                let os = *old(self);
                let fs = *final(self);
                let p = old(packet).pos as int;
                let d = old(packet).data@;
                let lowres = os.settings.unwrap().lowres_turn != 0;
                let h = p + 2;
                let seq = spec_expand(os.recv_window_start, d[p]);
                let n = d[p + 1] as int;
                let hdr_ok = os.state == ClientState::InGame && p + 2 <= d.len();
                let all_ok = hdr_ok && bundles_ok(d, lowres, h, n);
                all_ok ==> ({
                    let gap = seq > os.recv_window_start && os.recv_window_start <= u32::MAX
                        - 128;
                    let e: int = if seq - os.recv_window_start < 128 {
                        seq - os.recv_window_start
                    } else {
                        128
                    };
                    let g = gap_low(fs.recv_window@, e);
                    &&& (gap && g < e - 1 ==> fs.outbox@.len() == os.outbox@.len() + 1
                        && fs.outbox@.last().data@ == resend_wire(
                        (os.recv_window_start + g + 1) as u32,
                        (e - 1 - g) as u8,
                    ))
                    &&& (!(gap && g < e - 1) ==> fs.outbox@ == os.outbox@)
                })
            }),
            ({
                let os = *old(self);
                let fs = *final(self);
                let p = old(packet).pos as int;
                let d = old(packet).data@;
                let lowres = os.settings.unwrap().lowres_turn != 0;
                let h = p + 2;
                let seq = spec_expand(os.recv_window_start, d[p]);
                let n = d[p + 1] as int;
                let hdr_ok = os.state == ClientState::InGame && p + 2 <= d.len();
                let all_ok = hdr_ok && bundles_ok(d, lowres, h, n);
                hdr_ok && !bundles_ok(d, lowres, h, n) ==> fs.need_acknowledge
                    == os.need_acknowledge && fs.gamedata_recv_time == os.gamedata_recv_time
                    && fs.outbox@ == os.outbox@ && clock_same(os, fs)
            }),
            ({
                let os = *old(self);
                let fs = *final(self);
                let p = old(packet).pos as int;
                let d = old(packet).data@;
                let lowres = os.settings.unwrap().lowres_turn != 0;
                let h = p + 2;
                let seq = spec_expand(os.recv_window_start, d[p]);
                let n = d[p + 1] as int;
                let hdr_ok = os.state == ClientState::InGame && p + 2 <= d.len();
                let all_ok = hdr_ok && bundles_ok(d, lowres, h, n);
                os.state == ClientState::InGame && p + 2 > d.len() ==> fs == os
            }),
            ({
                let os = *old(self);
                let fs = *final(self);
                let p = old(packet).pos as int;
                let d = old(packet).data@;
                let lowres = os.settings.unwrap().lowres_turn != 0;
                let h = p + 2;
                let seq = spec_expand(os.recv_window_start, d[p]);
                let n = d[p + 1] as int;
                let hdr_ok = os.state == ClientState::InGame && p + 2 <= d.len();
                let all_ok = hdr_ok && bundles_ok(d, lowres, h, n);
                all_ok ==> (forall|k: int|
                    0 <= k < BACKUPTICS && (k < seq - os.recv_window_start || k > seq + n - 1
                        - os.recv_window_start) ==> (#[trigger] fs.recv_window@[k]).active
                        == os.recv_window@[k].active)
            }),
            ({
                let os = *old(self);
                let fs = *final(self);
                let p = old(packet).pos as int;
                let d = old(packet).data@;
                let lowres = os.settings.unwrap().lowres_turn != 0;
                let h = p + 2;
                let seq = spec_expand(os.recv_window_start, d[p]);
                let n = d[p + 1] as int;
                let hdr_ok = os.state == ClientState::InGame && p + 2 <= d.len();
                let all_ok = hdr_ok && bundles_ok(d, lowres, h, n);
                all_ok ==> (forall|k: int|
                    0 <= k < BACKUPTICS && (k < seq - os.recv_window_start || k > seq + n - 1
                        - os.recv_window_start) ==> (#[trigger] fs.recv_window@[k]).cmd
                        == os.recv_window@[k].cmd)
            }),
            ({
                let os = *old(self);
                let fs = *final(self);
                let p = old(packet).pos as int;
                let d = old(packet).data@;
                let lowres = os.settings.unwrap().lowres_turn != 0;
                let h = p + 2;
                let seq = spec_expand(os.recv_window_start, d[p]);
                let n = d[p + 1] as int;
                let hdr_ok = os.state == ClientState::InGame && p + 2 <= d.len();
                let all_ok = hdr_ok && bundles_ok(d, lowres, h, n);
                all_ok ==> ({
                    let gap = seq > os.recv_window_start && os.recv_window_start <= u32::MAX
                        - 128;
                    let e: int = if seq - os.recv_window_start < 128 {
                        seq - os.recv_window_start
                    } else {
                        128
                    };
                    let g = gap_low(fs.recv_window@, e);
                    forall|k: int|
                        0 <= k < BACKUPTICS ==> (#[trigger] fs.recv_window@[k]).resend_time == (
                        if gap && g < e - 1 && g + 1 <= k <= e - 1 {
                            now
                        } else {
                            os.recv_window@[k].resend_time
                        })
                })
            }),
            ({
                let os = *old(self);
                let fs = *final(self);
                let p = old(packet).pos as int;
                let d = old(packet).data@;
                let lowres = os.settings.unwrap().lowres_turn != 0;
                let h = p + 2;
                let seq = spec_expand(os.recv_window_start, d[p]);
                let n = d[p + 1] as int;
                let hdr_ok = os.state == ClientState::InGame && p + 2 <= d.len();
                let all_ok = hdr_ok && bundles_ok(d, lowres, h, n);
                hdr_ok && !bundles_ok(d, lowres, h, n) ==> (forall|k: int|
                    0 <= k < BACKUPTICS ==> (#[trigger] fs.recv_window@[k]).resend_time
                        == os.recv_window@[k].resend_time)
            }),
            ({
                let os = *old(self);
                let fs = *final(self);
                let p = old(packet).pos as int;
                let d = old(packet).data@;
                let lowres = os.settings.unwrap().lowres_turn != 0;
                let h = p + 2;
                let seq = spec_expand(os.recv_window_start, d[p]);
                let n = d[p + 1] as int;
                let hdr_ok = os.state == ClientState::InGame && p + 2 <= d.len();
                let all_ok = hdr_ok && bundles_ok(d, lowres, h, n);
                hdr_ok && !bundles_ok(d, lowres, h, n) ==> (forall|k: int|
                    0 <= k < BACKUPTICS && (k < seq - os.recv_window_start || k > seq + n - 1
                        - os.recv_window_start) ==> (#[trigger] fs.recv_window@[k]).active
                        == os.recv_window@[k].active && fs.recv_window@[k].cmd
                        == os.recv_window@[k].cmd)
            }),
    {
        if self.state != ClientState::InGame {
            return;
        }
        let ghost os = *old(self);
        let ghost d = packet.data@;
        let ghost p0 = packet.pos as int;
        let ghost h = p0 + 2;
        let lowres = match &self.settings {
            Some(st) => st.lowres_turn != 0,
            None => false,
        };
        let seq_byte = match packet.read_u8() {
            Some(v) => v,
            None => {
                return;
            },
        };
        let num_tics = match packet.read_u8() {
            Some(v) => v,
            None => {
                return;
            },
        };
        let seq = self.expand_tic_num(seq_byte);
        let ghost n = num_tics as int;
        let mut i: u32 = 0;
        #[verifier::loop_isolation(false)]
        while i < num_tics as u32
            invariant
                i <= num_tics as u32,
                self.wf(),
                self.state == old(self).state,
                self.state == ClientState::InGame,
                self.connection == old(self).connection,
                self.recv_window_start == old(self).recv_window_start,
                self.delivered == old(self).delivered,
                self.delivered_seqs == old(self).delivered_seqs,
                self.send_queue == old(self).send_queue,
                self.settings == old(self).settings,
                self.net_client_connected == old(self).net_client_connected,
                self.inbox == old(self).inbox,
                self.outbox == old(self).outbox,
                self.need_acknowledge == old(self).need_acknowledge,
                self.gamedata_recv_time == old(self).gamedata_recv_time,
                seq == spec_expand(os.recv_window_start, d[p0]),
                n == d[p0 + 1] as int,
                lowres == (os.settings.unwrap().lowres_turn != 0),
                bundles_ok(d, lowres, h, i as int),
                packet.data@ == d,
                packet.pos == bundle_pos(d, lowres, h, i as int),
                bundles_ok(d, lowres, h, n) == bundles_ok(
                    d,
                    lowres,
                    bundle_pos(d, lowres, h, i as int),
                    n - i,
                ),
                forall|k: int|
                    0 <= k < BACKUPTICS && (k < seq - os.recv_window_start || k > seq + i as int
                        - 1 - os.recv_window_start) ==> (#[trigger] self.recv_window@[k]).active
                        == os.recv_window@[k].active,
                forall|k: int|
                    0 <= k < BACKUPTICS && (k < seq - os.recv_window_start || k > seq + i as int
                        - 1 - os.recv_window_start) ==> (#[trigger] self.recv_window@[k]).cmd
                        == os.recv_window@[k].cmd,
                forall|k: int|
                    0 <= k < BACKUPTICS ==> (#[trigger] self.recv_window@[k]).resend_time
                        == os.recv_window@[k].resend_time,
                forall|k: int|
                    0 <= k < i as int && 0 <= seq + k - os.recv_window_start < BACKUPTICS ==> (
                    #[trigger] self.recv_window@[seq + k - os.recv_window_start]).active,
                forall|k: int|
                    0 <= k < i as int && 0 <= seq + k - os.recv_window_start < BACKUPTICS ==> (
                    #[trigger] self.recv_window@[seq + k
                        - os.recv_window_start]).cmd.latency == bundle_latency(
                        d,
                        bundle_pos(d, lowres, h, k),
                    ),
                forall|k: int|
                    0 <= k < i as int && 0 <= seq + k - os.recv_window_start < BACKUPTICS ==> (
                    #[trigger] self.recv_window@[seq + k
                        - os.recv_window_start]).cmd.playeringame@ == bundle_flags(
                        d,
                        bundle_pos(d, lowres, h, k),
                    ),
                forall|k: int|
                    0 <= k < i as int && 0 <= seq + k - os.recv_window_start < BACKUPTICS ==> (
                    #[trigger] self.recv_window@[seq + k - os.recv_window_start]).cmd.cmds@
                        == bundle_diffs(d, lowres, bundle_pos(d, lowres, h, k)),
                (i as int) < n || n == 0 ==> clock_same(os, *self),
                i as int == n && n > 0 ==> ({
                    let off_last = seq + n - 1 - os.recv_window_start;
                    if 0 <= off_last < BACKUPTICS && seq + n - 1 <= u32::MAX {
                        spec_clock_step(
                            os,
                            *self,
                            (seq + n - 1) as u32,
                            bundle_latency(d, bundle_pos(d, lowres, h, n - 1)),
                            now,
                        )
                    } else {
                        clock_same(os, *self)
                    }
                }),
            decreases num_tics as u32 - i,
        {
            let ghost pos_before = packet.pos as int;
            let cmd = match packet.read_full_ticcmd(lowres) {
                Some(c) => c,
                None => {
                    return;
                },
            };
            proof {
                assert(pos_before + 3 <= d.len());
                assert(crate::net_packet::spec_read_diffs(
                    d,
                    d[pos_before + 2],
                    lowres,
                    pos_before + 3,
                    0,
                ) is Some);
                assert(bundle_ok(d, lowres, pos_before));
                lemma_bundles_ok_append(d, lowres, h, i as int);
                assert(packet.pos == bundle_end(d, lowres, pos_before));
                assert(cmd.playeringame@ =~= bundle_flags(d, pos_before));
            }
            let t: i64 = seq as i64 + i as i64 - self.recv_window_start as i64;
            if 0 <= t && t < BACKUPTICS as i64 {
                let idx: usize = t as usize;
                let latency = cmd.latency;
                let ghost prev = self.recv_window@;
                let mut slot = self.recv_window.remove(idx);
                slot.active = true;
                slot.cmd = cmd;
                let ghost slotval = slot;
                self.recv_window.insert(idx, slot);
                proof {
                    assert(self.recv_window@ =~= prev.update(idx as int, slotval));
                }
                if i == num_tics as u32 - 1 && seq <= u32::MAX - i {
                    self.update_clock_sync(seq + i, latency, now);
                }
            }
            i += 1;
        }
        self.need_acknowledge = true;
        self.gamedata_recv_time = now;
        let ghost win_call = self.recv_window@;
        self.send_gap_resend(seq, now);
        proof {
            let e: int = if seq - os.recv_window_start < 128 {
                seq - os.recv_window_start
            } else {
                128
            };
            lemma_gap_low_actives(self.recv_window@, win_call, e);
        }
    }

    /// After storing a bundle for tic `seq`, ask once for the trailing
    /// run of missing tics just below it, if any.
    fn send_gap_resend(&mut self, seq: u32, now: u64)
        requires
            old(self).wf(),
            old(self).state == ClientState::InGame,
        ensures
            final(self).net_client_connected == old(self).net_client_connected,
            final(self).inbox == old(self).inbox,
            final(self).wf(),
            final(self).connection == old(self).connection,
            final(self).state == old(self).state,
            final(self).recv_window_start == old(self).recv_window_start,
            final(self).delivered == old(self).delivered,
            final(self).delivered_seqs == old(self).delivered_seqs,
            final(self).send_queue == old(self).send_queue,
            final(self).settings == old(self).settings,
            final(self).need_acknowledge == old(self).need_acknowledge,
            final(self).gamedata_recv_time == old(self).gamedata_recv_time,
            clock_same(*old(self), *final(self)),
            final(self).recv_window@.len() == BACKUPTICS,
            forall|j: int|
                0 <= j < BACKUPTICS ==> (#[trigger] final(self).recv_window@[j]).active == old(
                    self,
                ).recv_window@[j].active,
            forall|j: int|
                0 <= j < BACKUPTICS ==> (#[trigger] final(self).recv_window@[j]).cmd == old(
                    self,
                ).recv_window@[j].cmd,
            ({
                let os = *old(self);
                let fs = *final(self);
                let gap = seq > os.recv_window_start && os.recv_window_start <= u32::MAX - 128;
                let e: int = if seq - os.recv_window_start < 128 {
                    seq - os.recv_window_start
                } else {
                    128
                };
                let g = gap_low(os.recv_window@, e);
                &&& (gap && g < e - 1 ==> fs.outbox@.len() == os.outbox@.len() + 1
                    && fs.outbox@.last().data@ == resend_wire(
                    (os.recv_window_start + g + 1) as u32,
                    (e - 1 - g) as u8,
                ))
                &&& (!(gap && g < e - 1) ==> fs.outbox@ == os.outbox@)
                &&& (forall|j: int|
                    0 <= j < BACKUPTICS ==> (#[trigger] fs.recv_window@[j]).resend_time == (
                    if gap && g < e - 1 && g + 1 <= j <= e - 1 {
                        now
                    } else {
                        os.recv_window@[j].resend_time
                    }))
            }),
    {
        let ghost win_after = self.recv_window@;
        if seq > self.recv_window_start && self.recv_window_start <= u32::MAX - 128 {            let mut resend_end: i64 = seq as i64 - self.recv_window_start as i64;
            if resend_end > BACKUPTICS as i64 {
                resend_end = BACKUPTICS as i64;
            }
            let ghost e = resend_end as int;
            let mut resend_start: i64 = resend_end - 1;
            #[verifier::loop_isolation(false)]
            while resend_start >= 0 && !self.recv_window[resend_start as usize].active
                invariant
                    -1 <= resend_start < resend_end <= BACKUPTICS as i64,
                    self.wf(),
                    gap_low(win_after, e) == gap_low(win_after, resend_start + 1),
                    self.recv_window@ == win_after,
                decreases resend_start + 1,
            {
                resend_start -= 1;
            }
            proof {
                assert(gap_low(win_after, e) == resend_start as int);
            }
            if resend_start < resend_end - 1 {
                let a: u32 = self.recv_window_start + (resend_start + 1) as u32;
                let b: u32 = self.recv_window_start + (resend_end - 1) as u32;
                self.send_resend_request(a, b, now);
                proof {
                    lemma_gap_low_actives(self.recv_window@, win_after, e);
                }
            }
        }
    }

    /// Handle a resend request from the server: shrink the interval to
    /// the tics the send ring still holds and transmit exactly those
    /// again. A drone produces no inputs and ignores the request, and an
    /// aged-out interval is ignored too.
    pub fn parse_resend_request(&mut self, packet: &mut NetPacket)
        requires
            old(self).wf(),
        ensures
            final(self).net_client_connected == old(self).net_client_connected,
            final(self).inbox == old(self).inbox,
            final(self).inbox == old(self).inbox,
            final(self).wf(),
            final(self).connection == old(self).connection,
            final(self).state == old(self).state,
            final(self).recv_window == old(self).recv_window,
            final(self).send_queue == old(self).send_queue,
            final(self).recv_window_start == old(self).recv_window_start,
            final(self).delivered == old(self).delivered,
            final(self).delivered_seqs == old(self).delivered_seqs,
            final(self).settings == old(self).settings,
            ({
                let os = *old(self);
                let fs = *final(self);
                let p = old(packet).pos as int;
                let d = old(packet).data@;
                let readable = p + 5 <= d.len();
                let start = crate::net_packet::u32_be(d[p], d[p + 1], d[p + 2], d[p + 3]) as i32;
                let num = d[p + 4] as i8;
                let wanted = os.state == ClientState::InGame && !os.drone && readable && start
                    >= 0 && num > 0 && start + num - 1 <= u32::MAX;
                let a = first_valid(os.send_queue@, start as int, start + num - 1);
                let b = last_valid(os.send_queue@, a, start + num - 1);
                &&& (wanted && a <= b && os.connection.connected ==> fs.outbox@.len()
                    == os.outbox@.len() + 1 && fs.outbox@.last().data@ == gamedata_wire(
                    os.send_queue@,
                    os.recv_window_start,
                    os.last_latency as i16,
                    os.settings.unwrap().lowres_turn != 0,
                    a as u32,
                    b as u32,
                ) && !fs.need_acknowledge)
                &&& (!(wanted && a <= b && os.connection.connected) ==> fs.outbox@ == os.outbox@
                    && fs.need_acknowledge == os.need_acknowledge && fs.gamedata_recv_time
                    == os.gamedata_recv_time)
            }),
    {
        if self.drone {
            return;
        }
        if self.state != ClientState::InGame {
            return;
        }
        let start_raw = match packet.read_i32() {
            Some(v) => v,
            None => {
                return;
            },
        };
        let num = match packet.read_i8() {
            Some(v) => v,
            None => {
                return;
            },
        };
        if start_raw < 0 || num <= 0 {
            return;
        }
        let mut resend_start: i64 = start_raw as i64;
        let mut resend_end: i64 = start_raw as i64 + num as i64 - 1;
        if resend_end > u32::MAX as i64 {
            return;
        }
        let ghost s0 = resend_start as int;
        let ghost e0 = resend_end as int;
        #[verifier::loop_isolation(false)]
        while resend_start <= resend_end && !self.send_slot_valid(resend_start as u32)
            invariant
                self.wf(),
                0 <= resend_start,
                resend_end == e0,
                s0 <= resend_start as int <= e0 + 1,
                resend_end <= u32::MAX as i64,
                resend_end - resend_start <= 126,
                first_valid(self.send_queue@, s0, e0) == first_valid(
                    self.send_queue@,
                    resend_start as int,
                    e0,
                ),
            decreases resend_end + 1 - resend_start,
        {
            resend_start += 1;
        }
        proof {
            assert(first_valid(self.send_queue@, s0, e0) == resend_start as int);
        }
        let ghost a0 = resend_start as int;
        #[verifier::loop_isolation(false)]
        while resend_start <= resend_end && !self.send_slot_valid(resend_end as u32)
            invariant
                self.wf(),
                0 <= resend_start,
                resend_start as int == a0,
                a0 - 1 <= resend_end as int <= e0,
                0 <= resend_end <= u32::MAX as i64,
                resend_end - resend_start <= 126,
                last_valid(self.send_queue@, a0, e0) == last_valid(
                    self.send_queue@,
                    a0,
                    resend_end as int,
                ),
            decreases resend_end + 1 - resend_start,
        {
            resend_end -= 1;
        }
        proof {
            assert(last_valid(self.send_queue@, a0, e0) == resend_end as int);
        }
        if resend_start <= resend_end {
            self.send_tics(resend_start as u32, resend_end as u32);
        }
    }
}

/// How long a gap may stand before a fresh resend request, and the
/// longer threshold used for the window's first slot.
pub const RESEND_INTERVAL_MS: u64 = 300;

/// Threshold after which the window head with no incoming data at all
/// is treated as possibly deadlocked.
pub const DEADLOCK_THRESHOLD_MS: u64 = 1000;

/// How long received game data may stay unacknowledged.
pub const ACK_DELAY_MS: u64 = 200;


/// Whether a window slot needs a fresh resend request: it holds no data
/// and its last request is stale — 300 ms for most slots, and for the
/// window head a full second together with the possibly-deadlocked test
/// on the last data arrival.
pub open spec fn spec_needy(win: Seq<NetServerRecv>, i: int, now: u64, grt: u64) -> bool {
    let slot = win[i];
    let overdue = now >= slot.resend_time && now - slot.resend_time > RESEND_INTERVAL_MS;
    let head = i == 0 && now >= slot.resend_time && now - slot.resend_time
        > DEADLOCK_THRESHOLD_MS && now >= grt && now - grt > DEADLOCK_THRESHOLD_MS;
    !slot.active && (overdue || head)
}


/// The resend requests one sweep emits: walking the window in order,
/// consecutive needy slots merge into one interval, and each maximal
/// run `[a, b]` becomes the wire request for tics
/// `recv_window_start + a ..= recv_window_start + b`. `cur` carries the
/// start of the run in progress, or -1.
pub open spec fn resend_runs(
    win: Seq<NetServerRecv>,
    rws: u32,
    now: u64,
    grt: u64,
    i: int,
    cur: int,
) -> Seq<Seq<u8>>
    decreases BACKUPTICS - i,
{
    if i < 0 || i >= BACKUPTICS {
        if 0 <= cur < BACKUPTICS {
            seq![resend_wire((rws + cur) as u32, (BACKUPTICS - cur) as u8)]
        } else {
            Seq::empty()
        }
    } else if spec_needy(win, i, now, grt) {
        resend_runs(
            win,
            rws,
            now,
            grt,
            i + 1,
            if cur < 0 {
                i
            } else {
                cur
            },
        )
    } else if cur >= 0 {
        seq![resend_wire((rws + cur) as u32, (i - cur) as u8)] + resend_runs(
            win,
            rws,
            now,
            grt,
            i + 1,
            -1,
        )
    } else {
        resend_runs(win, rws, now, grt, i + 1, -1)
    }
}

impl NetClient {
    /// Periodic resend sweep: request every stale gap of the receive
    /// window again — merging consecutive needy slots into one request
    /// and stamping each requested slot with the request time, so a gap
    /// is asked about at most once per interval — then acknowledge
    /// received data that has waited long enough.
    pub fn check_resends(&mut self, now: u64)
        requires
            old(self).wf(),
        ensures
            final(self).net_client_connected == old(self).net_client_connected,
            final(self).inbox == old(self).inbox,
            final(self).wf(),
            final(self).connection == old(self).connection,
            final(self).state == old(self).state,
            final(self).send_queue == old(self).send_queue,
            final(self).recv_window_start == old(self).recv_window_start,
            final(self).delivered == old(self).delivered,
            final(self).delivered_seqs == old(self).delivered_seqs,
            final(self).settings == old(self).settings,
            final(self).gamedata_recv_time == old(self).gamedata_recv_time,
            clock_same(*old(self), *final(self)),
            old(self).recv_window_start > u32::MAX - 128 ==> *final(self) == *old(self),
            ({
                let os = *old(self);
                let fs = *final(self);
                os.recv_window_start <= u32::MAX - 128 ==> (forall|j: int|
                    0 <= j < BACKUPTICS ==> (#[trigger] fs.recv_window@[j]).active
                        == os.recv_window@[j].active)
            }),
            ({
                let os = *old(self);
                let fs = *final(self);
                os.recv_window_start <= u32::MAX - 128 ==> (forall|j: int|
                    0 <= j < BACKUPTICS ==> (#[trigger] fs.recv_window@[j]).cmd
                        == os.recv_window@[j].cmd)
            }),
            ({
                let os = *old(self);
                let fs = *final(self);
                os.recv_window_start <= u32::MAX - 128 ==> (forall|j: int|
                    0 <= j < BACKUPTICS && spec_needy(os.recv_window@, j, now,
                    os.gamedata_recv_time) ==> (#[trigger] fs.recv_window@[j]).resend_time == now)
            }),
            ({
                let os = *old(self);
                let fs = *final(self);
                os.recv_window_start <= u32::MAX - 128 ==> (forall|j: int|
                    0 <= j < BACKUPTICS && !spec_needy(os.recv_window@, j, now,
                    os.gamedata_recv_time) ==> (#[trigger] fs.recv_window@[j]).resend_time
                        == os.recv_window@[j].resend_time)
            }),
            ({
                let os = *old(self);
                let fs = *final(self);
                let ack_due = os.need_acknowledge && now >= os.gamedata_recv_time && now
                    - os.gamedata_recv_time > ACK_DELAY_MS;
                os.recv_window_start <= u32::MAX - 128 ==> {
                    &&& (ack_due ==> fs.outbox@.len() > os.outbox@.len()
                        && fs.outbox@.last().data@ == ack_wire(os.recv_window_start)
                        && !fs.need_acknowledge)
                    &&& (!ack_due ==> fs.need_acknowledge == os.need_acknowledge)
                }
            }),
            final(self).outbox@.len() >= old(self).outbox@.len(),
            forall|k: int|
                0 <= k < old(self).outbox@.len() ==> (#[trigger] final(self).outbox@[k]) == old(
                    self,
                ).outbox@[k],
            ({
                let os = *old(self);
                let fs = *final(self);
                let pk = resend_runs(os.recv_window@, os.recv_window_start, now,
                    os.gamedata_recv_time, 0, -1);
                let ack_due = os.need_acknowledge && now >= os.gamedata_recv_time && now
                    - os.gamedata_recv_time > ACK_DELAY_MS;
                os.recv_window_start <= u32::MAX - 128 ==> {
                    &&& fs.outbox@.len() == os.outbox@.len() + pk.len() + (if ack_due {
                        1int
                    } else {
                        0int
                    })
                    &&& (forall|k: int|
                        0 <= k < pk.len() ==> (#[trigger] fs.outbox@[os.outbox@.len() + k]).data@
                            == pk[k])
                }
            }),
    {
        if self.recv_window_start > u32::MAX - 128 {
            return;
        }
        let maybe_deadlocked = now >= self.gamedata_recv_time && now - self.gamedata_recv_time
            > DEADLOCK_THRESHOLD_MS;
        let ghost os = *old(self);
        let ghost w0 = self.recv_window@;
        let mut resend_start: i32 = -1;
        let mut resend_end: i32 = -1;
        let mut i: usize = 0;
        #[verifier::loop_isolation(false)]
        while i < BACKUPTICS
            invariant
                i <= BACKUPTICS,
                self.wf(),
                -1 <= resend_start <= resend_end < i as i32,
                resend_start >= 0 ==> resend_end >= resend_start,
                self.connection == old(self).connection,
                self.state == old(self).state,
                self.send_queue == old(self).send_queue,
                self.recv_window_start == old(self).recv_window_start,
                self.recv_window_start <= u32::MAX - 128,
                self.delivered == old(self).delivered,
                self.delivered_seqs == old(self).delivered_seqs,
                self.settings == old(self).settings,
                self.need_acknowledge == old(self).need_acknowledge,
                self.gamedata_recv_time == old(self).gamedata_recv_time,
                self.net_client_connected == old(self).net_client_connected,
                self.inbox == old(self).inbox,
                clock_same(os, *self),
                self.outbox@.len() >= os.outbox@.len(),
                forall|k: int|
                    0 <= k < os.outbox@.len() ==> (#[trigger] self.outbox@[k]) == os.outbox@[k],
                resend_runs(w0, os.recv_window_start, now, os.gamedata_recv_time, 0, -1)
                    == Seq::new(
                    (self.outbox@.len() - os.outbox@.len()) as nat,
                    |k: int| self.outbox@[os.outbox@.len() + k].data@,
                ) + resend_runs(
                    w0,
                    os.recv_window_start,
                    now,
                    os.gamedata_recv_time,
                    i as int,
                    resend_start as int,
                ),
                forall|j: int|
                    0 <= j < BACKUPTICS ==> (#[trigger] self.recv_window@[j]).active == w0[
                        j].active,
                forall|j: int|
                    0 <= j < BACKUPTICS ==> (#[trigger] self.recv_window@[j]).cmd == w0[j].cmd,
                resend_start >= 0 ==> (forall|j: int|
                    resend_start <= j <= resend_end ==> spec_needy(
                        w0,
                        j,
                        now,
                        os.gamedata_recv_time,
                    )),
                resend_start >= 0 ==> resend_end == i as i32 - 1,
                forall|j: int|
                    0 <= j < i as int && spec_needy(w0, j, now, os.gamedata_recv_time) && !(
                    resend_start >= 0 && resend_start <= j) ==> (
                    #[trigger] self.recv_window@[j]).resend_time == now,
                forall|j: int|
                    0 <= j < BACKUPTICS && !(0 <= j < i as int && spec_needy(
                        w0,
                        j,
                        now,
                        os.gamedata_recv_time,
                    ) && !(resend_start >= 0 && resend_start <= j)) ==> (
                    #[trigger] self.recv_window@[j]).resend_time == w0[j].resend_time,
            decreases BACKUPTICS - i,
        {
            let slot_active = self.recv_window[i].active;
            let slot_resend_time = self.recv_window[i].resend_time;
            let overdue = now >= slot_resend_time && now - slot_resend_time > RESEND_INTERVAL_MS;
            let head_stalled = i == 0 && now >= slot_resend_time && now - slot_resend_time
                > DEADLOCK_THRESHOLD_MS && maybe_deadlocked;
            let need_resend = !slot_active && (overdue || head_stalled);
            proof {
                assert(need_resend == spec_needy(w0, i as int, now, os.gamedata_recv_time));
            }
            if need_resend {
                if resend_start < 0 {
                    resend_start = i as i32;
                }
                resend_end = i as i32;
            } else if resend_start >= 0 {
                let a: u32 = self.recv_window_start + resend_start as u32;
                let b: u32 = self.recv_window_start + resend_end as u32;
                self.send_resend_request(a, b, now);
                resend_start = -1;
                resend_end = -1;
            }
            i += 1;
        }
        if resend_start >= 0 {
            let a: u32 = self.recv_window_start + resend_start as u32;
            let b: u32 = self.recv_window_start + resend_end as u32;
            self.send_resend_request(a, b, now);
        }
        if self.need_acknowledge && now >= self.gamedata_recv_time && now
            - self.gamedata_recv_time > ACK_DELAY_MS {
            self.send_game_data_ack();
        }
    }

    /// A drone's input source: a randomly wandering command.
    fn generate_bot_ticcmd(&mut self) -> (r: TicCmd)
        ensures
            *final(self) == *old(self),
    {
        let fwd: u32 = rand::random::<u32>() % 100;
        let side: u32 = rand::random::<u32>() % 100;
        let turn: u32 = rand::random::<u32>();
        let mut cmd = TicCmd::default();
        cmd.forwardmove = (fwd as i32 - 50) as i8;
        cmd.sidemove = (side as i32 - 50) as i8;
        cmd.angleturn = (turn % 0x10000) as u16 as i16;
        cmd
    }

    /// Drive the drone: while in game, build a bot command for the next
    /// free tic and queue it.
    fn run_bot(&mut self, now: u64)
        requires
            old(self).wf(),
        ensures
            final(self).net_client_connected == old(self).net_client_connected,
            final(self).inbox == old(self).inbox,
            final(self).wf(),
            final(self).connection == old(self).connection,
            final(self).state == old(self).state,
            final(self).recv_window == old(self).recv_window,
            final(self).recv_window_start == old(self).recv_window_start,
            final(self).delivered == old(self).delivered,
            final(self).delivered_seqs == old(self).delivered_seqs,
            final(self).settings == old(self).settings,
    {
        if self.state == ClientState::InGame && self.drone {
            if self.recv_window_start <= u32::MAX - BACKUPTICS as u32 {
                let maketic = self.recv_window_start + BACKUPTICS as u32;
                let bot_ticcmd = self.generate_bot_ticcmd();
                self.send_ticcmd(&bot_ticcmd, maketic, now);
            }
        }
    }

    /// Dispatch one received packet by its tag. A reliable envelope is
    /// acknowledged and unwrapped first; its message is handled only the
    /// first time it arrives.
    #[verifier::rlimit(100)]
    pub fn parse_packet(&mut self, packet: &mut NetPacket, now: u64)
        requires
            old(self).wf(),
        ensures
            final(self).net_client_connected == old(self).net_client_connected,
            final(self).inbox == old(self).inbox,
            final(self).wf(),
            session_conn_step(old(self).connection.state, final(self).connection.state),
            ({
                let fs = *final(self);
                old(self).state == ClientState::InGame ==> fs.state == ClientState::InGame
                    && fs.recv_window_start == old(self).recv_window_start && fs.delivered == old(
                    self,
                ).delivered
            }),
    {
        let mut tag = match packet.read_u16() {
            Some(v) => v,
            None => {
                return;
            },
        };
        if tag & 0x8000 != 0 {
            let id: u8 = (tag & 0xff) as u8;
            let mut ack = NetPacket::new();
            ack.write_u16(NetPacketType::ReliableAck.to_u16());
            ack.write_u8(id);
            self.outbox.push(ack);
            if id != self.connection.reliable_recv_seq {
                return;
            }
            self.connection.reliable_recv_seq = ((self.connection.reliable_recv_seq as u16 + 1)
                % 256) as u8;
            tag = match packet.read_u16() {
                Some(v) => v,
                None => {
                    return;
                },
            };
        }
        let kind = match NetPacketType::try_from(tag) {
            Ok(k) => k,
            Err(_) => {
                return;
            },
        };
        match kind {
            NetPacketType::Syn => self.parse_syn(packet),
            NetPacketType::Rejected => self.parse_reject(packet),
            NetPacketType::WaitingData => self.parse_waiting_data(packet),
            NetPacketType::Launch => self.parse_launch(packet),
            NetPacketType::GameStart => self.parse_game_start(packet),
            NetPacketType::GameData => self.parse_game_data(packet, now),
            NetPacketType::GameDataResend => self.parse_resend_request(packet),
            NetPacketType::ConsoleMessage => self.parse_console_message(packet),
            NetPacketType::ReliableAck => {
                match packet.read_u8() {
                    Some(id) => self.connection.acknowledge(id),
                    None => {},
                }
            },
            NetPacketType::Disconnect => {
                let mut reply = NetPacket::new();
                reply.write_u16(NetPacketType::DisconnectAck.to_u16());
                self.outbox.push(reply);
                if self.connection.state == ConnectionState::Connected {
                    self.connection.state = ConnectionState::DisconnectedSleep;
                    self.connection.connected = false;
                }
            },
            NetPacketType::DisconnectAck => {
                if self.connection.disconnecting && self.connection.state
                    == ConnectionState::Connected {
                    self.connection.state = ConnectionState::Disconnected;
                    self.connection.connected = false;
                    self.connection.disconnecting = false;
                }
            },
            _ => {},
        }
    }

    /// One polling step of the client: feed the bot, handle every
    /// packet received since the last step, run the connection's
    /// periodic work, and while in game deliver tics and sweep for
    /// resends and acknowledgments.
    pub fn run(&mut self, now: u64)
        requires
            old(self).wf(),
        ensures
            final(self).net_client_connected == old(self).net_client_connected,
            final(self).wf(),
            session_conn_step(old(self).connection.state, final(self).connection.state),
            final(self).inbox@.len() == 0,
            ({
                let fs = *final(self);
                fs.net_waiting_for_launch == (fs.connection.state == ConnectionState::Connected
                    && fs.state == ClientState::WaitingLaunch)
            }),
            ({
                let os = *old(self);
                let fs = *final(self);
                let idle = os.inbox@.len() == 0 && !os.recv_window@[0].active
                    && os.delivered@.len() == 0;
                idle ==> fs.recv_window_start == os.recv_window_start && fs.delivered@.len() == 0
                    && !fs.recv_window@[0].active
            }),
            ({
                let fs = *final(self);
                old(self).state == ClientState::InGame ==> fs.recv_window_start >= old(
                    self,
                ).recv_window_start && fs.delivered@.len() >= old(self).delivered@.len()
            }),
    {
        self.run_bot(now);
        let mut incoming: Vec<NetPacket> = Vec::new();
        core::mem::swap(&mut incoming, &mut self.inbox);
        let ghost no_packets = incoming@.len() == 0;
        #[verifier::loop_isolation(false)]
        while incoming.len() > 0
            invariant
                self.wf(),
                session_conn_step(old(self).connection.state, self.connection.state),
                self.net_client_connected == old(self).net_client_connected,
                self.inbox@.len() == 0,
                no_packets ==> incoming@.len() == 0,
                no_packets ==> self.recv_window == old(self).recv_window
                    && self.recv_window_start == old(self).recv_window_start && self.delivered
                    == old(self).delivered && self.state == old(self).state,
                old(self).state == ClientState::InGame ==> self.state == ClientState::InGame
                    && self.recv_window_start == old(self).recv_window_start && self.delivered
                    == old(self).delivered,
            decreases incoming.len(),
        {
            let mut packet = incoming.remove(0);
            let ghost mid = self.connection.state;
            self.parse_packet(&mut packet, now);
            proof {
                lemma_session_monotone(
                    old(self).connection.state,
                    mid,
                    self.connection.state,
                );
            }
        }
        let ghost s1 = self.connection.state;
        self.connection.run(now, &mut self.outbox);
        proof {
            lemma_session_monotone(old(self).connection.state, s1, self.connection.state);
        }
        if self.connection.state == ConnectionState::Disconnected || self.connection.state
            == ConnectionState::DisconnectedSleep {
            let ghost s2 = self.connection.state;
            self.handle_disconnected(now);
            proof {
                lemma_session_monotone(old(self).connection.state, s2, self.connection.state);
            }
        }
        if self.state == ClientState::InGame {
            self.advance_window();
            self.check_resends(now);
        }
        self.net_waiting_for_launch = self.connection.state == ConnectionState::Connected
            && self.state == ClientState::WaitingLaunch;
    }

    /// Hand the tics decoded so far to the caller, in delivery order.
    pub fn take_delivered(&mut self) -> (r: Vec<TiccmdSet>)
        requires
            old(self).wf(),
        ensures
            final(self).net_client_connected == old(self).net_client_connected,
            final(self).inbox == old(self).inbox,
            final(self).wf(),
            r == old(self).delivered,
            final(self).delivered@.len() == 0,
            final(self).connection == old(self).connection,
            final(self).state == old(self).state,
            final(self).recv_window == old(self).recv_window,
            final(self).recv_window_start == old(self).recv_window_start,
            final(self).settings == old(self).settings,
            final(self).outbox == old(self).outbox,
    {
        let mut out: Vec<TiccmdSet> = Vec::new();
        core::mem::swap(&mut out, &mut self.delivered);
        out
    }

    /// Hand the packets queued for the server to the caller, in send
    /// order.
    pub fn take_outbox(&mut self) -> (r: Vec<NetPacket>)
        requires
            old(self).wf(),
        ensures
            final(self).wf(),
            r == old(self).outbox,
            final(self).outbox@.len() == 0,
            final(self).connection == old(self).connection,
            final(self).state == old(self).state,
            final(self).delivered == old(self).delivered,
            final(self).delivered_seqs == old(self).delivered_seqs,
    {
        let mut out: Vec<NetPacket> = Vec::new();
        core::mem::swap(&mut out, &mut self.outbox);
        out
    }

    /// Give the client one received datagram to handle on its next run.
    pub fn deliver_packet(&mut self, packet: NetPacket)
        requires
            old(self).wf(),
        ensures
            final(self).wf(),
            final(self).inbox@ == old(self).inbox@.push(packet),
            final(self).connection == old(self).connection,
            final(self).state == old(self).state,
    {
        self.inbox.push(packet);
    }
}



/// The wire form of a SYN: the magic number, this client's version,
/// the protocol list, the connection data and the player name.
pub open spec fn syn_wire(cd: ConnectData, name: Seq<char>) -> Seq<u8> {
    crate::net_packet::be2(0) + crate::net_packet::be4(NET_MAGIC_NUMBER)
        + crate::net_packet::str_z("RustNetClient"@) + seq![1u8]
        + crate::net_packet::protocol_wire() + crate::net_packet::connect_wire(cd)
        + crate::net_packet::str_z(name)
}

/// Interval between handshake attempts while connecting.
pub const SYN_INTERVAL_MS: u64 = 1000;

/// How long the whole handshake may take before giving up.
pub const CONNECT_TIMEOUT_MS: u64 = 120000;

impl NetClient {
    /// Queue one SYN: the magic number, this client's version, the
    /// protocols it speaks, its connection data and the player name.
    fn send_syn(&mut self, data: &ConnectData)
        requires
            old(self).wf(),
            data.wf(),
        ensures
            final(self).wf(),
            final(self).connection == old(self).connection,
            final(self).state == old(self).state,
            final(self).outbox@.len() == old(self).outbox@.len() + 1,
            final(self).delivered == old(self).delivered,
            final(self).delivered_seqs == old(self).delivered_seqs,
            final(self).recv_window_start == old(self).recv_window_start,
            final(self).net_client_connected == old(self).net_client_connected,
            final(self).inbox == old(self).inbox,
            final(self).connect_start_time == old(self).connect_start_time,
            final(self).last_send_time == old(self).last_send_time,
            final(self).outbox@.last().data@ == syn_wire(*data, old(self).player_name@),
    {
        let mut packet = NetPacket::new();
        packet.write_u16(NetPacketType::Syn.to_u16());
        packet.write_u32(NET_MAGIC_NUMBER);
        packet.write_string("RustNetClient");
        packet.write_protocol_list();
        packet.write_connect_data(data);
        let name = self.player_name.clone();
        packet.write_string(name.as_str());
        proof {
            assert(packet.data@ =~= syn_wire(*data, old(self).player_name@));
        }
        self.outbox.push(packet);
    }

    /// Start connecting to a server: remember the game identity, open
    /// the connection and send the first SYN at once.
    pub fn connect_begin(&mut self, connect_data: &ConnectData, now: u64)
        requires
            old(self).wf(),
            connect_data.wf(),
        ensures
            final(self).wf(),
            final(self).connection.state == ConnectionState::Connecting,
            final(self).net_client_connected,
            final(self).state == ClientState::Disconnected,
            final(self).connect_start_time == now,
    {
        self.connection.init_client();
        self.state = ClientState::Disconnected;
        self.reject_reason = Some(String::from_str("Unknown reason"));
        let mut wad: Vec<u8> = Vec::new();
        crate::net_packet::push_all(&mut wad, &connect_data.wad_sha1sum);
        let mut deh: Vec<u8> = Vec::new();
        crate::net_packet::push_all(&mut deh, &connect_data.deh_sha1sum);
        self.net_local_wad_sha1sum = wad;
        self.net_local_deh_sha1sum = deh;
        self.net_local_is_freedoom = connect_data.is_freedoom != 0;
        self.net_client_connected = true;
        self.net_client_received_wait_data = false;
        self.connect_start_time = now;
        self.send_syn(connect_data);
        self.last_send_time = now;
    }

    /// One step of the handshake: resend the SYN on its interval, give
    /// up after the overall timeout, and settle the session state once
    /// the connection has resolved. Returns the outcome when the
    /// handshake is over.
    pub fn connect_poll(&mut self, connect_data: &ConnectData, now: u64) -> (r: Option<bool>)
        requires
            old(self).wf(),
            connect_data.wf(),
        ensures
            final(self).wf(),
            ({
                let fs = *final(self);
                r == Some(true) ==> fs.state == ClientState::WaitingLaunch
                    && fs.reject_reason is None
            }),
            r == Some(false) ==> final(self).state == ClientState::Disconnected,
            r is None ==> final(self).connection.state == ConnectionState::Connecting,
            ({
                let os = *old(self);
                let fs = *final(self);
                let timed_out = now >= os.connect_start_time && now - os.connect_start_time
                    > CONNECT_TIMEOUT_MS;
                let syn_due = now >= os.last_send_time && now - os.last_send_time
                    >= SYN_INTERVAL_MS;
                &&& (os.connection.state == ConnectionState::Connected ==> (r == Some(true)
                    && fs.state == ClientState::WaitingLaunch && fs.reject_reason is None
                    && fs.drone == (connect_data.drone != 0)))
                &&& (os.connection.state == ConnectionState::Connecting && !timed_out ==> r
                    is None)
                &&& (os.connection.state == ConnectionState::Connecting && timed_out ==> {
                    &&& r == Some(false)
                    &&& fs.state == ClientState::Disconnected
                    &&& fs.reject_reason matches Some(m) && m@ == "No response from server"@
                })
                &&& (os.connection.state == ConnectionState::Connecting && syn_due ==> (
                fs.outbox@.len() == os.outbox@.len() + 1 && fs.outbox@.last().data@ == syn_wire(
                    *connect_data,
                    os.player_name@,
                ) && fs.last_send_time == now))
                &&& (os.connection.state == ConnectionState::Connecting && !syn_due ==> (
                fs.outbox@ == os.outbox@ && fs.last_send_time == os.last_send_time))
                &&& ((os.connection.state == ConnectionState::Disconnected
                    || os.connection.state == ConnectionState::DisconnectedSleep) ==> (r == Some(
                    false,
                ) && fs.state == ClientState::Disconnected))
            }),
    {
        if self.connection.state == ConnectionState::Connecting {
            if now >= self.last_send_time && now - self.last_send_time >= SYN_INTERVAL_MS {
                self.send_syn(connect_data);
                self.last_send_time = now;
            }
            if now >= self.connect_start_time && now - self.connect_start_time
                > CONNECT_TIMEOUT_MS {
                self.reject_reason = Some(String::from_str("No response from server"));
                self.connection.state = ConnectionState::Disconnected;
                self.connection.connected = false;
                self.shutdown(now);
                return Some(false);
            }
            return None;
        }
        if self.connection.state == ConnectionState::Connected {
            self.reject_reason = None;
            self.state = ClientState::WaitingLaunch;
            self.drone = connect_data.drone != 0;
            Some(true)
        } else {
            self.shutdown(now);
            Some(false)
        }
    }

    /// Begin leaving the session: start the two-way disconnect
    /// handshake when the client was connected at all.
    pub fn disconnect_begin(&mut self, now: u64)
        requires
            old(self).wf(),
        ensures
            final(self).wf(),
            session_conn_step(old(self).connection.state, final(self).connection.state),
            ({
                let os = *old(self);
                let fs = *final(self);
                let begins = os.net_client_connected && os.connection.state
                    == ConnectionState::Connected && !os.connection.disconnecting;
                &&& (begins ==> fs.connection.disconnecting && fs.connection.disconnect_time
                    == now && fs.outbox@.len() == os.outbox@.len() + 1
                    && fs.outbox@.last().data@ == crate::net_packet::be2(11))
                &&& fs.state == os.state
                &&& fs.net_client_connected == os.net_client_connected
                &&& fs.delivered == os.delivered
                &&& fs.delivered_seqs == os.delivered_seqs
                &&& fs.recv_window_start == os.recv_window_start
                &&& fs.recv_window == os.recv_window
                &&& fs.send_queue == os.send_queue
                &&& fs.settings == os.settings
                &&& fs.inbox == os.inbox
                &&& fs.need_acknowledge == os.need_acknowledge
                &&& clock_same(os, fs)
                &&& (!begins ==> fs.connection == os.connection && fs.outbox@ == os.outbox@)
            }),
    {
        if !self.net_client_connected {
            return;
        }
        self.connection.disconnect(now, &mut self.outbox);
    }

    /// One step of the disconnect handshake: done once the connection
    /// has closed, or once the handshake timeout has forced it closed.
    pub fn disconnect_poll(&mut self, now: u64) -> (r: bool)
        requires
            old(self).wf(),
        ensures
            final(self).wf(),
            session_conn_step(old(self).connection.state, final(self).connection.state),
            r ==> final(self).state == ClientState::Disconnected,
            ({
                let os = *old(self);
                let fs = *final(self);
                let done = !os.net_client_connected || os.connection.state
                    == ConnectionState::Disconnected || os.connection.state
                    == ConnectionState::DisconnectedSleep || (os.connection.disconnecting && now
                    >= os.connection.disconnect_time && now - os.connection.disconnect_time
                    > DISCONNECT_TIMEOUT_MS);
                &&& r == done
                &&& (r ==> !fs.net_client_connected)
                &&& (!r ==> fs == os)
            }),
    {
        if !self.net_client_connected {
            self.state = ClientState::Disconnected;
            return true;
        }
        if self.connection.state == ConnectionState::Disconnected || self.connection.state
            == ConnectionState::DisconnectedSleep {
            self.shutdown(now);
            self.net_client_connected = false;
            return true;
        }
        if self.connection.disconnecting && now >= self.connection.disconnect_time && now
            - self.connection.disconnect_time > DISCONNECT_TIMEOUT_MS {
            self.connection.state = ConnectionState::Disconnected;
            self.connection.connected = false;
            self.connection.disconnecting = false;
            self.shutdown(now);
            self.net_client_connected = false;
            return true;
        }
        false
    }

    /// Ask the server, reliably, to move the lobby into its launch
    /// phase.
    pub fn launch_game(&mut self, now: u64)
        requires
            old(self).wf(),
        ensures
            final(self).wf(),
            final(self).connection.state == old(self).connection.state,
            final(self).state == old(self).state,
            final(self).outbox@.len() == old(self).outbox@.len() + 1,
            final(self).outbox@.last().data@ == reliable_wire(
                old(self).connection.reliable_send_seq,
                crate::net_packet::be2(3),
            ),
    {
        let mut packet = NetPacket::new();
        packet.write_u16(NetPacketType::Launch.to_u16());
        proof {
            assert(packet.data@ =~= crate::net_packet::be2(3));
        }
        let body = packet.data;
        self.connection.send_reliable_packet(body, now, &mut self.outbox);
    }

    /// Announce the game settings, reliably, and reset the local diff
    /// chain for the new session.
    pub fn start_game(&mut self, settings: &GameSettings, now: u64)
        requires
            old(self).wf(),
            settings.wf(),
            0 <= settings.num_players <= 8,
        ensures
            final(self).wf(),
            final(self).connection.state == old(self).connection.state,
            final(self).state == old(self).state,
            final(self).last_ticcmd == ticcmd_zero(),
            final(self).outbox@.len() == old(self).outbox@.len() + 1,
            final(self).outbox@.last().data@ == reliable_wire(
                old(self).connection.reliable_send_seq,
                crate::net_packet::be2(4) + crate::net_packet::settings_wire(*settings),
            ),
    {
        self.last_ticcmd = TicCmd::default();
        let mut packet = NetPacket::new();
        packet.write_u16(NetPacketType::GameStart.to_u16());
        packet.write_settings(settings);
        proof {
            assert(packet.data@ =~= crate::net_packet::be2(4)
                + crate::net_packet::settings_wire(*settings));
        }
        let body = packet.data;
        self.connection.send_reliable_packet(body, now, &mut self.outbox);
    }
}

} // verus!
