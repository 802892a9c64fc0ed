//! Data model shared by the codec, the session state machine and the pacer.

use vstd::prelude::*;

verus! {

/// Largest number of players a session can carry.
pub const NET_MAXPLAYERS: usize = 8;

/// Longest accepted player name (including room for a terminator).
pub const MAXPLAYERNAME: usize = 30;

/// Ring size for both the send and the receive buffers.
pub const BACKUPTICS: usize = 128;

/// Magic number carried in the SYN payload.
pub const NET_MAGIC_NUMBER: u32 = 1454104972;

// Bits of the tic-diff field mask.
pub const NET_TICDIFF_FORWARD: u32 = 0x01;
pub const NET_TICDIFF_SIDE: u32 = 0x02;
pub const NET_TICDIFF_TURN: u32 = 0x04;
pub const NET_TICDIFF_BUTTONS: u32 = 0x08;
pub const NET_TICDIFF_CONSISTANCY: u32 = 0x10;
pub const NET_TICDIFF_CHATCHAR: u32 = 0x20;
pub const NET_TICDIFF_RAVEN: u32 = 0x40;
pub const NET_TICDIFF_STRIFE: u32 = 0x80;

/// One player's input for one tic. Plain value; freely copied.
#[derive(Debug, Clone, Copy, PartialEq, Eq, Structural)]
pub struct TicCmd {
    pub forwardmove: i8,
    pub sidemove: i8,
    pub angleturn: i16,
    pub chatchar: u8,
    pub buttons: u8,
    pub consistancy: u8,
    pub buttons2: u8,
    pub inventory: i32,
    pub lookfly: u8,
    pub arti: u8,
}

/// The all-zero tic command, the base from which diff chains start.
pub open spec fn ticcmd_zero() -> TicCmd {
    TicCmd {
        forwardmove: 0,
        sidemove: 0,
        angleturn: 0,
        chatchar: 0,
        buttons: 0,
        consistancy: 0,
        buttons2: 0,
        inventory: 0,
        lookfly: 0,
        arti: 0,
    }
}

impl Default for TicCmd {
    fn default() -> (r: Self)
        ensures
            r == ticcmd_zero(),
    {
        TicCmd {
            forwardmove: 0,
            sidemove: 0,
            angleturn: 0,
            chatchar: 0,
            buttons: 0,
            consistancy: 0,
            buttons2: 0,
            inventory: 0,
            lookfly: 0,
            arti: 0,
        }
    }
}

/// A tic command paired with the bitmask naming which fields are present.
#[derive(Debug, Clone, Copy, PartialEq, Eq, Structural)]
pub struct NetTicDiff {
    pub diff: u32,
    pub cmd: TicCmd,
}

/// The all-empty diff.
pub open spec fn ticdiff_zero() -> NetTicDiff {
    NetTicDiff { diff: 0, cmd: ticcmd_zero() }
}

impl Default for NetTicDiff {
    fn default() -> (r: Self)
        ensures
            r == ticdiff_zero(),
    {
        NetTicDiff { diff: 0, cmd: TicCmd::default() }
    }
}

/// One server-to-client bundle for one tic: a latency estimate, the set of
/// live player slots, and one diff per live player.
#[derive(Debug, Clone)]
pub struct NetFullTicCmd {
    pub latency: i32,
    pub seq: u32,
    pub playeringame: Vec<bool>,
    pub cmds: Vec<NetTicDiff>,
}

impl NetFullTicCmd {
    /// Shape every bundle must have: one slot entry and one diff per player.
    pub open spec fn wf(self) -> bool {
        self.playeringame@.len() == NET_MAXPLAYERS && self.cmds@.len() == NET_MAXPLAYERS
    }
}

impl Default for NetFullTicCmd {
    fn default() -> (r: Self)
        ensures
            r.wf(),
            r.latency == 0,
            r.seq == 0,
            forall|i: int| 0 <= i < NET_MAXPLAYERS ==> !r.playeringame@[i],
            forall|i: int| 0 <= i < NET_MAXPLAYERS ==> r.cmds@[i] == ticdiff_zero(),
    {
        let mut playeringame: Vec<bool> = Vec::new();
        let mut cmds: Vec<NetTicDiff> = Vec::new();
        let mut i: usize = 0;
        while i < NET_MAXPLAYERS
            invariant
                i <= NET_MAXPLAYERS,
                playeringame@.len() == i,
                cmds@.len() == i,
                forall|j: int| 0 <= j < i ==> !playeringame@[j],
                forall|j: int| 0 <= j < i ==> cmds@[j] == ticdiff_zero(),
            decreases NET_MAXPLAYERS - i,
        {
            playeringame.push(false);
            cmds.push(NetTicDiff::default());
            i += 1;
        }
        NetFullTicCmd { latency: 0, seq: 0, playeringame, cmds }
    }
}

/// What a client offers in its SYN: game identity and local options.
#[derive(Debug, Clone)]
pub struct ConnectData {
    pub gamemode: i32,
    pub gamemission: i32,
    pub lowres_turn: i32,
    pub drone: i32,
    pub max_players: i32,
    pub is_freedoom: i32,
    pub wad_sha1sum: Vec<u8>,
    pub deh_sha1sum: Vec<u8>,
    pub player_class: i32,
}

impl ConnectData {
    /// Both digests are raw 20-byte SHA-1 blobs.
    pub open spec fn wf(self) -> bool {
        self.wad_sha1sum@.len() == 20 && self.deh_sha1sum@.len() == 20
    }
}

/// Session-wide settings fixed by the GAMESTART message.
#[derive(Debug, Clone)]
pub struct GameSettings {
    pub ticdup: i32,
    pub extratics: i32,
    pub deathmatch: i32,
    pub episode: i32,
    pub nomonsters: i32,
    pub fast_monsters: i32,
    pub respawn_monsters: i32,
    pub map: i32,
    pub skill: i32,
    pub gameversion: i32,
    pub lowres_turn: i32,
    pub new_sync: i32,
    pub timelimit: u32,
    pub loadgame: i32,
    pub random: i32,
    pub num_players: i32,
    pub consoleplayer: i32,
    pub player_classes: Vec<i32>,
}

impl GameSettings {
    /// Shape invariant: one class entry per possible player slot.
    pub open spec fn wf(self) -> bool {
        self.player_classes@.len() == NET_MAXPLAYERS
    }
}

impl Default for GameSettings {
    fn default() -> (r: Self)
        ensures
            r.wf(),
            r.ticdup == 0 && r.extratics == 0 && r.deathmatch == 0 && r.episode == 0,
            r.nomonsters == 0 && r.fast_monsters == 0 && r.respawn_monsters == 0,
            r.map == 0 && r.skill == 0 && r.gameversion == 0 && r.lowres_turn == 0,
            r.new_sync == 0 && r.timelimit == 0 && r.loadgame == 0 && r.random == 0,
            r.num_players == 0 && r.consoleplayer == 0,
            forall|i: int| 0 <= i < NET_MAXPLAYERS ==> r.player_classes@[i] == 0,
    {
        let mut player_classes: Vec<i32> = Vec::new();
        let mut i: usize = 0;
        while i < NET_MAXPLAYERS
            invariant
                i <= NET_MAXPLAYERS,
                player_classes@.len() == i,
                forall|j: int| 0 <= j < i ==> player_classes@[j] == 0,
            decreases NET_MAXPLAYERS - i,
        {
            player_classes.push(0);
            i += 1;
        }
        GameSettings {
            ticdup: 0,
            extratics: 0,
            deathmatch: 0,
            episode: 0,
            nomonsters: 0,
            fast_monsters: 0,
            respawn_monsters: 0,
            map: 0,
            skill: 0,
            gameversion: 0,
            lowres_turn: 0,
            new_sync: 0,
            timelimit: 0,
            loadgame: 0,
            random: 0,
            num_players: 0,
            consoleplayer: 0,
            player_classes,
        }
    }
}

/// Lobby status broadcast while waiting for the game to launch.
#[derive(Debug, Clone)]
pub struct NetWaitData {
    pub num_players: i32,
    pub num_drones: i32,
    pub ready_players: i32,
    pub max_players: i32,
    pub is_controller: i32,
    pub consoleplayer: i32,
    pub player_names: Vec<String>,
    pub player_addrs: Vec<String>,
    pub wad_sha1sum: Vec<u8>,
    pub deh_sha1sum: Vec<u8>,
    pub is_freedoom: i32,
}

impl NetWaitData {
    pub open spec fn wf(self) -> bool {
        &&& self.wad_sha1sum@.len() == 20
        &&& self.deh_sha1sum@.len() == 20
        &&& self.player_names@.len() <= NET_MAXPLAYERS
        &&& self.player_addrs@.len() == self.player_names@.len()
    }
}

impl Default for NetWaitData {
    fn default() -> (r: Self)
        ensures
            r.wf(),
            r.num_players == 0 && r.num_drones == 0 && r.ready_players == 0,
            r.max_players == 0 && r.is_controller == 0 && r.consoleplayer == 0,
            r.player_names@.len() == 0 && r.player_addrs@.len() == 0,
            r.is_freedoom == 0,
    {
        let mut wad_sha1sum: Vec<u8> = Vec::new();
        let mut deh_sha1sum: Vec<u8> = Vec::new();
        let mut i: usize = 0;
        while i < 20
            invariant
                i <= 20,
                wad_sha1sum@.len() == i,
                deh_sha1sum@.len() == i,
            decreases 20 - i,
        {
            wad_sha1sum.push(0);
            deh_sha1sum.push(0);
            i += 1;
        }
        NetWaitData {
            num_players: 0,
            num_drones: 0,
            ready_players: 0,
            max_players: 0,
            is_controller: 0,
            consoleplayer: 0,
            player_names: Vec::new(),
            player_addrs: Vec::new(),
            wad_sha1sum,
            deh_sha1sum,
            is_freedoom: 0,
        }
    }
}

/// Answer to a server QUERY, describing the running game.
#[derive(Debug, Clone)]
pub struct NetQueryData {
    pub version: String,
    pub server_state: i32,
    pub num_players: i32,
    pub max_players: i32,
    pub gamemode: i32,
    pub gamemission: i32,
    pub description: String,
}

/// Client lifecycle within a session.
#[derive(Debug, Clone, Copy, PartialEq, Eq, Structural)]
pub enum ClientState {
    Disconnected,
    WaitingLaunch,
    WaitingStart,
    InGame,
    DisconnectedSleep,
}

impl Default for ClientState {
    fn default() -> (r: Self)
        ensures
            r == ClientState::Disconnected,
    {
        ClientState::Disconnected
    }
}

/// Connection lifecycle of the datagram shim under the session.
#[derive(Debug, Clone, Copy, PartialEq, Eq, Structural)]
pub enum ConnectionState {
    Connecting,
    Connected,
    Disconnected,
    DisconnectedSleep,
}

impl Default for ConnectionState {
    fn default() -> (r: Self)
        ensures
            r == ConnectionState::Disconnected,
    {
        ConnectionState::Disconnected
    }
}

/// Protocols the handshake can agree on.
#[derive(Debug, Clone, Copy, PartialEq, Eq, Structural)]
pub enum NetProtocol {
    ChocolateDoom0,
    Unknown,
}

/// Message kinds carried in the 16-bit packet tag (bit 15 is the
/// reliable-delivery flag and is not part of the kind).
#[derive(Debug, Clone, Copy, PartialEq, Eq, Structural)]
pub enum NetPacketType {
    Syn,
    Ack,
    Rejected,
    KeepAlive,
    WaitingData,
    GameStart,
    GameData,
    GameDataAck,
    Disconnect,
    DisconnectAck,
    ReliableAck,
    GameDataResend,
    ConsoleMessage,
    Query,
    QueryResponse,
    Launch,
}

/// The wire tag of each message kind.
pub open spec fn packet_type_tag(t: NetPacketType) -> u16 {
    match t {
        NetPacketType::Syn => 0,
        NetPacketType::Rejected => 1,
        NetPacketType::WaitingData => 2,
        NetPacketType::Launch => 3,
        NetPacketType::GameStart => 4,
        NetPacketType::GameData => 5,
        NetPacketType::GameDataAck => 6,
        NetPacketType::GameDataResend => 7,
        NetPacketType::ConsoleMessage => 8,
        NetPacketType::KeepAlive => 9,
        NetPacketType::ReliableAck => 10,
        NetPacketType::Disconnect => 11,
        NetPacketType::DisconnectAck => 12,
        NetPacketType::Query => 13,
        NetPacketType::QueryResponse => 14,
        NetPacketType::Ack => 15,
    }
}

impl NetPacketType {
    /// The wire tag of this message kind.
    pub fn to_u16(self) -> (r: u16)
        ensures
            r == packet_type_tag(self),
    {
        match self {
            NetPacketType::Syn => 0,
            NetPacketType::Rejected => 1,
            NetPacketType::WaitingData => 2,
            NetPacketType::Launch => 3,
            NetPacketType::GameStart => 4,
            NetPacketType::GameData => 5,
            NetPacketType::GameDataAck => 6,
            NetPacketType::GameDataResend => 7,
            NetPacketType::ConsoleMessage => 8,
            NetPacketType::KeepAlive => 9,
            NetPacketType::ReliableAck => 10,
            NetPacketType::Disconnect => 11,
            NetPacketType::DisconnectAck => 12,
            NetPacketType::Query => 13,
            NetPacketType::QueryResponse => 14,
            NetPacketType::Ack => 15,
        }
    }

    /// Decode a wire tag; tags above 15 name no message kind.
    pub fn try_from(value: u16) -> (r: Result<Self, ()>)
        ensures
            r is Ok <==> value <= 15,
            r matches Ok(t) ==> packet_type_tag(t) == value,
    {
        match value {
            0 => Ok(NetPacketType::Syn),
            1 => Ok(NetPacketType::Rejected),
            2 => Ok(NetPacketType::WaitingData),
            3 => Ok(NetPacketType::Launch),
            4 => Ok(NetPacketType::GameStart),
            5 => Ok(NetPacketType::GameData),
            6 => Ok(NetPacketType::GameDataAck),
            7 => Ok(NetPacketType::GameDataResend),
            8 => Ok(NetPacketType::ConsoleMessage),
            9 => Ok(NetPacketType::KeepAlive),
            10 => Ok(NetPacketType::ReliableAck),
            11 => Ok(NetPacketType::Disconnect),
            12 => Ok(NetPacketType::DisconnectAck),
            13 => Ok(NetPacketType::Query),
            14 => Ok(NetPacketType::QueryResponse),
            15 => Ok(NetPacketType::Ack),
            _ => Err(()),
        }
    }
}

/// One slot of the receive ring: a bundle once the server data for the tic
/// has arrived, and the time of the last resend request for the gap.
#[derive(Debug, Clone)]
pub struct NetServerRecv {
    pub active: bool,
    pub resend_time: u64,
    pub cmd: NetFullTicCmd,
}

impl Default for NetServerRecv {
    fn default() -> (r: Self)
        ensures
            !r.active,
            r.resend_time == 0,
            r.cmd.wf(),
    {
        NetServerRecv { active: false, resend_time: 0, cmd: NetFullTicCmd::default() }
    }
}

/// One slot of the send ring: a locally built diff kept for retransmission.
#[derive(Debug, Clone)]
pub struct NetServerSend {
    pub active: bool,
    pub seq: u32,
    pub time: u64,
    pub cmd: NetTicDiff,
}

impl Default for NetServerSend {
    fn default() -> (r: Self)
        ensures
            !r.active,
            r.seq == 0,
            r.time == 0,
            r.cmd == ticdiff_zero(),
    {
        NetServerSend { active: false, seq: 0, time: 0, cmd: NetTicDiff::default() }
    }
}

/// An entry queued for reliable delivery: retransmitted until acknowledged.
#[derive(Debug, Clone)]
pub struct SendQueueEntry {
    pub active: bool,
    pub seq: u32,
    pub time: u64,
    pub cmd: NetTicDiff,
}


/// One tic's complete input set: a command per player slot and the
/// in-game flag of each slot.
#[derive(Debug, Clone)]
pub struct TiccmdSet {
    pub cmds: Vec<TicCmd>,
    pub ingame: Vec<bool>,
}

impl TiccmdSet {
    /// Shape invariant: one command and one flag per player slot.
    pub open spec fn wf(self) -> bool {
        self.cmds@.len() == NET_MAXPLAYERS && self.ingame@.len() == NET_MAXPLAYERS
    }
}

impl Default for TiccmdSet {
    fn default() -> (r: Self)
        ensures
            r.wf(),
            forall|i: int| 0 <= i < NET_MAXPLAYERS ==> r.cmds@[i] == ticcmd_zero(),
            forall|i: int| 0 <= i < NET_MAXPLAYERS ==> !r.ingame@[i],
    {
        let mut cmds: Vec<TicCmd> = Vec::new();
        let mut ingame: Vec<bool> = Vec::new();
        let mut i: usize = 0;
        while i < NET_MAXPLAYERS
            invariant
                i <= NET_MAXPLAYERS,
                cmds@.len() == i,
                ingame@.len() == i,
                forall|j: int| 0 <= j < i ==> cmds@[j] == ticcmd_zero(),
                forall|j: int| 0 <= j < i ==> !ingame@[j],
            decreases NET_MAXPLAYERS - i,
        {
            cmds.push(TicCmd::default());
            ingame.push(false);
            i += 1;
        }
        TiccmdSet { cmds, ingame }
    }
}

} // verus!
