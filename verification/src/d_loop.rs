//! Game-loop pacing layer: maps the wall clock to the 35 Hz simulation
//! rate, decides each moment how many tics to build and to run, and
//! blocks — politely, with an upper bound — when the network has not
//! yet delivered the data those tics need.

use vstd::prelude::*;
use crate::net_client::NetClient;
use crate::net_structs::BACKUPTICS;
use crate::net_structs::ClientState;
use crate::net_structs::NET_MAXPLAYERS;
use crate::net_structs::TicCmd;
use crate::net_structs::TiccmdSet;

verus! {

/// Simulation tics per second.
pub const TICRATE: u32 = 35;

/// How many tics the pacer may stall waiting for network data before it
/// returns control to the caller.
pub const MAX_NETGAME_STALL_TICS: u32 = 2;

/// Upper bound on iterations of the wait loop, so that a frozen clock
/// cannot spin the pacer forever.
pub const MAX_WAIT_ITERATIONS: u32 = 100000;

/// What the pacer asks of its host: event and menu pumping, input
/// sampling, running the simulation, and the wall clock.
pub trait LoopCallbacks {
    /// Drain pending UI and input events.
    fn process_events(&mut self);

    /// Pump the interactive menu.
    fn run_menu(&mut self);

    /// Build the local player's input for tic `maketic`.
    fn build_ticcmd(&mut self, maketic: u32) -> TicCmd;

    /// Advance the simulation by one tic with the given inputs.
    fn run_tic(&mut self, cmds: &Vec<TicCmd>, ingame: &Vec<bool>)
        requires
            cmds@.len() == NET_MAXPLAYERS,
            ingame@.len() == NET_MAXPLAYERS,
    ;

    /// The wall clock, in milliseconds.
    fn now_ms(&mut self) -> u64;

    /// Yield the processor for about the given number of milliseconds.
    fn sleep_ms(&mut self, ms: u64);
}

/// The pacer's state: the local tic store and the three tic counters
/// that relate input generation, network delivery and simulation.
pub struct GameLoop {
    pub ticdata: Vec<TiccmdSet>,
    pub maketic: u32,
    pub recvtic: u32,
    pub gametic: u32,
    pub localplayer: usize,
    pub offsetms: i32,
    pub ticdup: u32,
    pub new_sync: bool,
    pub local_playeringame: Vec<bool>,
    pub lasttime: u32,
    pub skiptics: u32,
    pub oldentertics: u32,
    pub singletics: bool,
    pub drone: bool,
    pub frameon: u32,
    pub frameskip: Vec<bool>,
    pub oldnettics: u32,
    pub instance_uid: u32,
}

impl GameLoop {
    /// Structural invariant of the pacer: ring shapes, a valid tic
    /// multiplier, and a local input tic that never trails the
    /// simulation.
    pub open spec fn wf(self) -> bool {
        &&& self.ticdata@.len() == BACKUPTICS
        &&& (forall|i: int| 0 <= i < BACKUPTICS ==> (#[trigger] self.ticdata@[i]).wf())
        &&& self.local_playeringame@.len() == NET_MAXPLAYERS
        &&& self.frameskip@.len() == 4
        &&& self.localplayer < NET_MAXPLAYERS
        &&& 1 <= self.ticdup <= 5
    }
}

/// The pacer and the client agree: the simulation never runs past what
/// the local input source — and, in a network game, the server — have
/// provided.
pub open spec fn wf_pair(gl: GameLoop, client: NetClient) -> bool {
    &&& gl.wf()
    &&& client.wf()
    &&& (!gl.drone ==> gl.gametic as int / gl.ticdup as int <= gl.maketic)
    &&& (gl.drone ==> gl.gametic as int / gl.ticdup as int <= gl.recvtic)
    &&& (client.spec_is_connected() && !gl.drone ==> gl.gametic as int / gl.ticdup as int
        <= gl.recvtic)
}

/// Whether the pacer will build a local input tic now: not a drone,
/// not saturated by back-pressure, and not at the counter's end.
pub open spec fn spec_can_build(gl: GameLoop, client: NetClient) -> bool {
    let div = gl.gametic as int / gl.ticdup as int;
    &&& !gl.drone
    &&& (gl.new_sync ==> !(!client.spec_is_connected() && gl.maketic - div > 2))
    &&& (gl.new_sync ==> gl.maketic - div <= 8)
    &&& (!gl.new_sync ==> gl.maketic - div < 5)
    &&& gl.maketic < u32::MAX
}

/// The smallest confirmed tic: what the pacer may run up to. A drone
/// builds no inputs of its own, so only the server's confirmed tics
/// count for it.
pub open spec fn spec_low_tic(gl: GameLoop, client: NetClient) -> u32 {
    if gl.drone {
        gl.recvtic
    } else if client.spec_is_connected() && gl.recvtic < gl.maketic {
        gl.recvtic
    } else {
        gl.maketic
    }
}


/// Inputs on which the pacer is owed progress: adjusted-sync netcode,
/// a live player, at least one confirmed-but-unrun tic, and headroom on
/// the counters. No callback result can take these away.
pub open spec fn pacer_can_run(gl: GameLoop, client: NetClient) -> bool {
    &&& !gl.singletics
    &&& gl.new_sync
    &&& !gl.drone
    &&& gl.gametic <= u32::MAX - 5
    &&& spec_low_tic(gl, client) as int >= gl.gametic as int / gl.ticdup as int + 1
    &&& (client.spec_is_connected() ==> exists|i: int|
        0 <= i < NET_MAXPLAYERS && gl.local_playeringame@[i])
}


/// A stalled network session: nothing has arrived (no queued datagrams,
/// no buffered window head, no pending deliveries) and the server's
/// confirmed tics are already spent. A call made here may not advance
/// the simulation.
pub open spec fn pacer_stalled(gl: GameLoop, client: NetClient) -> bool {
    &&& !gl.singletics
    &&& client.spec_is_connected()
    &&& client.inbox@.len() == 0
    &&& !client.recv_window@[0].active
    &&& client.delivered@.len() == 0
    &&& gl.recvtic as int <= gl.gametic as int / gl.ticdup as int
}

/// The smallest confirmed tic never shrinks while the pacer pumps the
/// network: input and delivery counters only grow, and a session only
/// falls back from connected to local.
pub proof fn lemma_low_tic_monotone(g1: GameLoop, c1: NetClient, g2: GameLoop, c2: NetClient)
    requires
        g2.maketic >= g1.maketic,
        g2.recvtic >= g1.recvtic,
        c2.spec_is_connected() ==> c1.spec_is_connected(),
        g2.drone == g1.drone,
        !g1.drone,
    ensures
        spec_low_tic(g2, c2) >= spec_low_tic(g1, c1),
{
}

/// The wall clock mapped to 35 Hz tics, skewed by the clock controller
/// when the session runs in adjusted-sync mode.
pub open spec fn spec_adjusted_time(now_ms: u64, offset_ms: i32, new_sync: bool) -> u32 {
    let skewed: int = now_ms + offset_ms;
    let base: int = if !new_sync {
        now_ms as int
    } else if skewed < 0 {
        0
    } else if skewed > u64::MAX {
        u64::MAX as int
    } else {
        skewed
    };
    let tics = base * 35 / 1000;
    if tics > u32::MAX {
        u32::MAX
    } else {
        tics as u32
    }
}

/// Map the wall clock to simulation tics.
pub fn get_adjusted_time(now_ms: u64, offset_ms: i32, new_sync: bool) -> (r: u32)
    ensures
        r == spec_adjusted_time(now_ms, offset_ms, new_sync),
{
    let base: u64 = if new_sync {
        if offset_ms >= 0 {
            if now_ms <= u64::MAX - (offset_ms as u64) {
                now_ms + offset_ms as u64
            } else {
                u64::MAX
            }
        } else {
            let back = (-(offset_ms as i64)) as u64;
            if now_ms >= back {
                now_ms - back
            } else {
                0
            }
        }
    } else {
        now_ms
    };
    let tics128: u128 = (base as u128) * 35 / 1000;
    if tics128 > u32::MAX as u128 {
        u32::MAX
    } else {
        tics128 as u32
    }
}

impl GameLoop {
    /// A fresh pacer for a single-duplication session, with a random
    /// instance identifier.
    pub fn new() -> (r: Self)
        ensures
            r.wf(),
            r.maketic == 0,
            r.recvtic == 0,
            r.gametic == 0,
            r.ticdup == 1,
            r.new_sync,
            !r.drone,
            !r.singletics,
            r.instance_uid < 0xfffe,
    {
        let uid: u32 = rand::random::<u32>() % 0xfffe;
        let mut ticdata: Vec<TiccmdSet> = Vec::new();
        let mut i: usize = 0;
        while i < BACKUPTICS
            invariant
                i <= BACKUPTICS,
                ticdata@.len() == i,
                forall|j: int| 0 <= j < i ==> (#[trigger] ticdata@[j]).wf(),
            decreases BACKUPTICS - i,
        {
            ticdata.push(TiccmdSet::default());
            i += 1;
        }
        let mut local_playeringame: Vec<bool> = Vec::new();
        let mut k: usize = 0;
        while k < NET_MAXPLAYERS
            invariant
                k <= NET_MAXPLAYERS,
                local_playeringame@.len() == k,
            decreases NET_MAXPLAYERS - k,
        {
            local_playeringame.push(false);
            k += 1;
        }
        let mut frameskip: Vec<bool> = Vec::new();
        let mut m: usize = 0;
        while m < 4
            invariant
                m <= 4,
                frameskip@.len() == m,
            decreases 4 - m,
        {
            frameskip.push(false);
            m += 1;
        }
        GameLoop {
            ticdata,
            maketic: 0,
            recvtic: 0,
            gametic: 0,
            localplayer: 0,
            offsetms: 0,
            ticdup: 1,
            new_sync: true,
            local_playeringame,
            lasttime: 0,
            skiptics: 0,
            oldentertics: 0,
            singletics: false,
            drone: false,
            frameon: 0,
            frameskip,
            oldnettics: 0,
            instance_uid: uid,
        }
    }

    /// Adopt the settings of a freshly started game: the tic multiplier
    /// and sync mode come from the server, and the counters restart.
    pub fn start_game(&mut self, ticdup: u32, new_sync: bool, localplayer: usize, drone: bool)
        requires
            old(self).wf(),
            1 <= ticdup <= 5,
            localplayer < NET_MAXPLAYERS,
        ensures
            final(self).wf(),
            final(self).maketic == 0,
            final(self).recvtic == 0,
            final(self).gametic == 0,
            final(self).ticdup == ticdup,
            final(self).new_sync == new_sync,
            final(self).drone == drone,
    {
        self.ticdup = ticdup;
        self.new_sync = new_sync;
        self.localplayer = localplayer;
        self.drone = drone;
        self.maketic = 0;
        self.recvtic = 0;
        self.gametic = 0;
        self.lasttime = 0;
        self.skiptics = 0;
        self.oldentertics = 0;
        self.frameon = 0;
        self.oldnettics = 0;
    }

    /// Accept one delivered tic from the network: merge every remote
    /// player's command into the local tic store and count the tic as
    /// received.
    #[verifier::rlimit(100)]
    #[verifier::spinoff_prover]
    pub fn receive_tic(&mut self, set: &TiccmdSet)
        requires
            old(self).wf(),
            set.wf(),
        ensures
            final(self).wf(),
            final(self).recvtic >= old(self).recvtic,
            final(self).maketic == old(self).maketic,
            final(self).gametic == old(self).gametic,
            final(self).ticdup == old(self).ticdup,
            final(self).drone == old(self).drone,
            final(self).local_playeringame == old(self).local_playeringame,
            final(self).singletics == old(self).singletics,
            final(self).new_sync == old(self).new_sync,
            old(self).recvtic < u32::MAX ==> final(self).recvtic == old(self).recvtic + 1,
            old(self).recvtic == u32::MAX ==> *final(self) == *old(self),
            ({
                let os = *old(self);
                let fs = *final(self);
                let idx = (os.recvtic % 128) as int;
                os.recvtic < u32::MAX ==> {
                    let slot = fs.ticdata@[idx];
                    &&& (forall|j: int|
                        0 <= j < NET_MAXPLAYERS && (os.drone || j != os.localplayer) ==> (
                        #[trigger] slot.cmds@[j]) == set.cmds@[j])
                    &&& (forall|j: int|
                        0 <= j < NET_MAXPLAYERS && (os.drone || j != os.localplayer) ==> (
                        #[trigger] slot.ingame@[j]) == set.ingame@[j])
                    &&& (forall|j: int|
                        0 <= j < NET_MAXPLAYERS && !(os.drone || j != os.localplayer) ==> (
                        #[trigger] slot.cmds@[j]) == os.ticdata@[idx].cmds@[j])
                    &&& (forall|j: int|
                        0 <= j < NET_MAXPLAYERS && !(os.drone || j != os.localplayer) ==> (
                        #[trigger] slot.ingame@[j]) == os.ticdata@[idx].ingame@[j])
                    &&& (forall|k: int|
                        0 <= k < BACKUPTICS && k != idx ==> (#[trigger] fs.ticdata@[k])
                            == os.ticdata@[k])
                }
            }),
    {
        if self.recvtic == u32::MAX {
            return;
        }
        let idx: usize = (self.recvtic % 128) as usize;
        let ghost t0 = self.ticdata@;
        let mut dst = self.ticdata.remove(idx);
        let mut i: usize = 0;
        #[verifier::loop_isolation(false)]
        while i < NET_MAXPLAYERS
            invariant
                i <= NET_MAXPLAYERS,
                dst.wf(),
                forall|j: int|
                    0 <= j < i ==> (#[trigger] dst.cmds@[j]) == (if self.drone || j
                        != self.localplayer {
                        set.cmds@[j]
                    } else {
                        t0[idx as int].cmds@[j]
                    }),
                forall|j: int|
                    0 <= j < i ==> (#[trigger] dst.ingame@[j]) == (if self.drone || j
                        != self.localplayer {
                        set.ingame@[j]
                    } else {
                        t0[idx as int].ingame@[j]
                    }),
                forall|j: int|
                    i <= j < NET_MAXPLAYERS ==> (#[trigger] dst.cmds@[j]) == t0[
                        idx as int].cmds@[j],
                forall|j: int|
                    i <= j < NET_MAXPLAYERS ==> (#[trigger] dst.ingame@[j]) == t0[
                        idx as int].ingame@[j],
            decreases NET_MAXPLAYERS - i,
        {
            if self.drone || i != self.localplayer {
                let cmd = set.cmds[i];
                let ingame = set.ingame[i];
                let mut cmds = dst.cmds;
                cmds.set(i, cmd);
                dst.cmds = cmds;
                let mut flags = dst.ingame;
                flags.set(i, ingame);
                dst.ingame = flags;
            }
            i += 1;
        }
        let ghost dstv = dst;
        self.ticdata.insert(idx, dst);
        proof {
            assert(self.ticdata@ =~= t0.update(idx as int, dstv));
        }
        self.recvtic = self.recvtic + 1;
    }
}

/// The smallest confirmed tic across the local input source and, in a
/// network game, the server.
pub fn get_low_tic(gl: &GameLoop, client: &NetClient) -> (r: u32)
    ensures
        r == spec_low_tic(*gl, *client),
{
    let mut lowtic = gl.maketic;
    if gl.drone {
        lowtic = gl.recvtic;
    } else if client.is_connected() && gl.recvtic < lowtic {
        lowtic = gl.recvtic;
    }
    lowtic
}

/// Whether any player is in the game: in a network session somebody
/// must be flagged in-game; alone, a non-drone always plays.
pub open spec fn spec_players_in_game(gl: GameLoop, client: NetClient) -> bool {
    if client.spec_is_connected() {
        exists|i: int| 0 <= i < NET_MAXPLAYERS && gl.local_playeringame@[i]
    } else {
        !gl.drone
    }
}

/// Whether any player is in the game.
pub fn players_in_game(gl: &GameLoop, client: &NetClient) -> (r: bool)
    requires
        gl.wf(),
    ensures
        r == spec_players_in_game(*gl, *client),
{
    if client.is_connected() {
        let mut any = false;
        let mut i: usize = 0;
        #[verifier::loop_isolation(false)]
        while i < NET_MAXPLAYERS
            invariant
                i <= NET_MAXPLAYERS,
                any == exists|j: int| 0 <= j < i && gl.local_playeringame@[j],
            decreases NET_MAXPLAYERS - i,
        {
            if gl.local_playeringame[i] {
                any = true;
            }
            i += 1;
        }
        any
    } else {
        !gl.drone
    }
}

/// In a single-player game, only the local player's slot stays in-game
/// for the tic about to run.
pub fn single_player_clear(localplayer: usize, set: &mut TiccmdSet)
    requires
        old(set).wf(),
        localplayer < NET_MAXPLAYERS,
    ensures
        final(set).wf(),
        final(set).cmds == old(set).cmds,
        forall|i: int|
            0 <= i < NET_MAXPLAYERS && i != localplayer ==> !final(set).ingame@[i],
        final(set).ingame@[localplayer as int] == old(set).ingame@[localplayer as int],
{
    let mut i: usize = 0;
    #[verifier::loop_isolation(false)]
    while i < NET_MAXPLAYERS
        invariant
            i <= NET_MAXPLAYERS,
            set.wf(),
            set.cmds == old(set).cmds,
            forall|j: int| 0 <= j < i && j != localplayer ==> !set.ingame@[j],
            forall|j: int|
                i <= j < NET_MAXPLAYERS ==> set.ingame@[j] == old(set).ingame@[j],
            set.ingame@[localplayer as int] == old(set).ingame@[localplayer as int],
        decreases NET_MAXPLAYERS - i,
    {
        if i != localplayer {
            set.ingame.set(i, false);
        }
        i += 1;
    }
}

/// Squash a command set for a duplicated tic: chat characters and
/// special button codes fire only on the first copy.
pub fn ticdup_squash(set: &mut TiccmdSet)
    requires
        old(set).wf(),
    ensures
        final(set).wf(),
        final(set).ingame == old(set).ingame,
        forall|i: int|
            0 <= i < NET_MAXPLAYERS ==> (#[trigger] final(set).cmds@[i]) == (TicCmd {
                chatchar: 0,
                buttons: if old(set).cmds@[i].buttons & 0x80 != 0 {
                    0
                } else {
                    old(set).cmds@[i].buttons
                },
                ..old(set).cmds@[i]
            }),
{
    let mut i: usize = 0;
    #[verifier::loop_isolation(false)]
    while i < NET_MAXPLAYERS
        invariant
            i <= NET_MAXPLAYERS,
            set.wf(),
            set.ingame == old(set).ingame,
            forall|j: int|
                0 <= j < i ==> (#[trigger] set.cmds@[j]) == (TicCmd {
                    chatchar: 0,
                    buttons: if old(set).cmds@[j].buttons & 0x80 != 0 {
                        0
                    } else {
                        old(set).cmds@[j].buttons
                    },
                    ..old(set).cmds@[j]
                }),
            forall|j: int| i <= j < NET_MAXPLAYERS ==> set.cmds@[j] == old(set).cmds@[j],
        decreases NET_MAXPLAYERS - i,
    {
        let mut cmd = set.cmds[i];
        cmd.chatchar = 0;
        if cmd.buttons & 0x80 != 0 {
            cmd.buttons = 0;
        }
        set.cmds.set(i, cmd);
        i += 1;
    }
}

/// Build the local player's next input tic, unless back-pressure says
/// the simulation is too far behind. Returns whether a tic was built.
pub fn build_new_tic<C: LoopCallbacks>(
    gl: &mut GameLoop,
    client: &mut NetClient,
    cb: &mut C,
) -> (r: bool)
    requires
        wf_pair(*old(gl), *old(client)),
    ensures
        wf_pair(*final(gl), *final(client)),
        final(gl).maketic >= old(gl).maketic,
        final(gl).gametic == old(gl).gametic,
        final(gl).recvtic == old(gl).recvtic,
        final(gl).ticdup == old(gl).ticdup,
        final(gl).drone == old(gl).drone,
        final(gl).local_playeringame == old(gl).local_playeringame,
        final(gl).singletics == old(gl).singletics,
        final(gl).new_sync == old(gl).new_sync,
        final(client).spec_is_connected() == old(client).spec_is_connected(),
        final(client).delivered == old(client).delivered,
        final(client).recv_window == old(client).recv_window,
        final(client).recv_window_start == old(client).recv_window_start,
        final(client).inbox == old(client).inbox,
        r == spec_can_build(*old(gl), *old(client)),
        ({
            let og = *old(gl);
            let fg = *final(gl);
            &&& (!r ==> fg.maketic == og.maketic && fg.ticdata == og.ticdata)
            &&& (r ==> fg.maketic == og.maketic + 1 && fg.ticdata@[(og.maketic % 128) as int].ingame@[og.localplayer as int] && (forall|k: int|
                0 <= k < BACKUPTICS && k != (og.maketic % 128) as int ==> (
                #[trigger] fg.ticdata@[k]) == og.ticdata@[k]))
        }),
{
    cb.process_events();
    cb.run_menu();
    if gl.drone {
        return false;
    }
    let gameticdiv = gl.gametic / gl.ticdup;
    if gl.new_sync {
        if !client.is_connected() && gl.maketic - gameticdiv > 2 {
            return false;
        }
        if gl.maketic - gameticdiv > 8 {
            return false;
        }
    } else {
        if gl.maketic - gameticdiv >= 5 {
            return false;
        }
    }
    if gl.maketic == u32::MAX {
        return false;
    }
    let cmd = cb.build_ticcmd(gl.maketic);
    if client.is_connected() && client.state == ClientState::InGame {
        let now = cb.now_ms();
        client.send_ticcmd(&cmd, gl.maketic, now);
    }
    let idx: usize = (gl.maketic % 128) as usize;
    let mut set = gl.ticdata.remove(idx);
    let mut cmds = set.cmds;
    cmds.set(gl.localplayer, cmd);
    set.cmds = cmds;
    let mut flags = set.ingame;
    flags.set(gl.localplayer, true);
    set.ingame = flags;
    gl.ticdata.insert(idx, set);
    gl.maketic = gl.maketic + 1;
    true
}

/// Pump the network and the input side once: run the client, fold its
/// delivered tics into the local store, and build as many new input
/// tics as wall-clock time has earned.
pub fn net_update<C: LoopCallbacks>(gl: &mut GameLoop, client: &mut NetClient, cb: &mut C)
    requires
        wf_pair(*old(gl), *old(client)),
    ensures
        wf_pair(*final(gl), *final(client)),
        final(gl).maketic >= old(gl).maketic,
        final(gl).recvtic >= old(gl).recvtic,
        final(gl).gametic == old(gl).gametic,
        final(gl).ticdup == old(gl).ticdup,
        final(gl).drone == old(gl).drone,
        final(gl).local_playeringame == old(gl).local_playeringame,
        final(gl).singletics == old(gl).singletics,
        final(gl).new_sync == old(gl).new_sync,
        final(client).spec_is_connected() == old(client).spec_is_connected(),
        old(gl).singletics ==> *final(gl) == *old(gl) && *final(client) == *old(client),
        !old(gl).singletics ==> final(client).delivered@.len() == 0,
        ({
            let oc = *old(client);
            let idle = oc.inbox@.len() == 0 && !oc.recv_window@[0].active && oc.delivered@.len()
                == 0;
            idle ==> final(gl).recvtic == old(gl).recvtic && final(client).inbox@.len() == 0
                && !final(client).recv_window@[0].active && final(client).delivered@.len() == 0
        }),
{
    if gl.singletics {
        return;
    }
    let now = cb.now_ms();
    client.run(now);
    gl.offsetms = client.offset_ms;
    let sets = client.take_delivered();
    let ghost idle0 = sets@.len() == 0 && client.inbox@.len() == 0
        && !client.recv_window@[0].active;
    let mut k: usize = 0;
    #[verifier::loop_isolation(false)]
    while k < sets.len()
        invariant
            k <= sets@.len(),
            gl.wf(),
            client.wf(),
            forall|j: int| 0 <= j < sets@.len() ==> (#[trigger] sets@[j]).wf(),
            gl.recvtic >= old(gl).recvtic,
            gl.maketic == old(gl).maketic,
            gl.gametic == old(gl).gametic,
            gl.ticdup == old(gl).ticdup,
            gl.drone == old(gl).drone,
            gl.local_playeringame == old(gl).local_playeringame,
            gl.singletics == old(gl).singletics,
            gl.new_sync == old(gl).new_sync,
            wf_pair(*gl, *client),
            client.spec_is_connected() == old(client).spec_is_connected(),
            sets@.len() == 0 ==> gl.recvtic == old(gl).recvtic,
        decreases sets@.len() - k,
    {
        let set = &sets[k];
        gl.receive_tic(set);
        k += 1;
    }
    let now2 = cb.now_ms();
    let nowtime = get_adjusted_time(now2, gl.offsetms, gl.new_sync) / gl.ticdup;
    let mut newtics: u32 = if nowtime > gl.lasttime {
        nowtime - gl.lasttime
    } else {
        0
    };
    gl.lasttime = nowtime;
    if gl.skiptics <= newtics {
        newtics = newtics - gl.skiptics;
        gl.skiptics = 0;
    } else {
        gl.skiptics = gl.skiptics - newtics;
        newtics = 0;
    }
    let mut n: u32 = 0;
    #[verifier::loop_isolation(false)]
    while n < newtics
        invariant
            n <= newtics,
            wf_pair(*gl, *client),
            gl.recvtic >= old(gl).recvtic,
            gl.maketic >= old(gl).maketic,
            gl.gametic == old(gl).gametic,
            gl.ticdup == old(gl).ticdup,
            gl.drone == old(gl).drone,
            gl.local_playeringame == old(gl).local_playeringame,
            gl.singletics == old(gl).singletics,
            gl.new_sync == old(gl).new_sync,
            client.spec_is_connected() == old(client).spec_is_connected(),
            client.delivered@.len() == 0,
            idle0 ==> gl.recvtic == old(gl).recvtic && client.inbox@.len() == 0
                && !client.recv_window@[0].active,
        decreases newtics - n,
    {
        let built = build_new_tic(gl, client, cb);
        if !built {
            break;
        }
        n += 1;
    }
}

/// Anchor the pacer's notion of elapsed time at the start of a game
/// loop.
pub fn d_start_game_loop<C: LoopCallbacks>(gl: &mut GameLoop, cb: &mut C)
    requires
        old(gl).wf(),
    ensures
        final(gl).wf(),
        final(gl).maketic == old(gl).maketic,
        final(gl).recvtic == old(gl).recvtic,
        final(gl).gametic == old(gl).gametic,
        final(gl).ticdup == old(gl).ticdup,
        final(gl).drone == old(gl).drone,
        ({
            let fg = *final(gl);
            exists|t: u64|
                fg.lasttime == spec_adjusted_time(t, old(gl).offsetms, old(gl).new_sync) as int
                    / old(gl).ticdup as int
        }),
{
    let now = cb.now_ms();
    gl.lasttime = get_adjusted_time(now, gl.offsetms, gl.new_sync) / gl.ticdup;
    proof {
        let t0 = now;
        assert(gl.lasttime == spec_adjusted_time(t0, old(gl).offsetms, old(gl).new_sync) as int
            / old(gl).ticdup as int);
    }
}

/// The legacy-sync frame-skip heuristic: when this peer's input
/// generation trails the slowest peer over four consecutive frames, one
/// tic is skipped to let it catch up.
pub fn old_net_sync(gl: &mut GameLoop)
    requires
        old(gl).wf(),
    ensures
        final(gl).wf(),
        final(gl).maketic == old(gl).maketic,
        final(gl).recvtic == old(gl).recvtic,
        final(gl).gametic == old(gl).gametic,
        final(gl).ticdup == old(gl).ticdup,
        final(gl).drone == old(gl).drone,
        final(gl).local_playeringame == old(gl).local_playeringame,
        final(gl).singletics == old(gl).singletics,
        final(gl).new_sync == old(gl).new_sync,
{
    if gl.frameon < u32::MAX {
        gl.frameon = gl.frameon + 1;
    }
    let mut keyplayer: usize = 0;
    let mut found = false;
    let mut i: usize = 0;
    #[verifier::loop_isolation(false)]
    while i < NET_MAXPLAYERS
        invariant
            i <= NET_MAXPLAYERS,
            keyplayer < NET_MAXPLAYERS,
        decreases NET_MAXPLAYERS - i,
    {
        if !found && gl.local_playeringame[i] {
            keyplayer = i;
            found = true;
        }
        i += 1;
    }
    if gl.localplayer != keyplayer {
        if gl.maketic <= gl.recvtic && gl.lasttime > 0 {
            gl.lasttime = gl.lasttime - 1;
        }
        let slot: usize = (gl.frameon % 4) as usize;
        let skip = gl.oldnettics > gl.recvtic;
        gl.frameskip.set(slot, skip);
        gl.oldnettics = gl.maketic;
        let all = gl.frameskip[0] && gl.frameskip[1] && gl.frameskip[2] && gl.frameskip[3];
        if all {
            gl.skiptics = 1;
        }
    }
}

/// Run as many simulation tics as wall-clock time and confirmed network
/// data allow. Waits, with bounded patience, when data is missing; the
/// stall bound keeps the caller's UI responsive, and the simulation
/// never overruns the smallest confirmed tic.
pub fn try_run_tics<C: LoopCallbacks>(gl: &mut GameLoop, client: &mut NetClient, cb: &mut C)
    requires
        wf_pair(*old(gl), *old(client)),
    ensures
        wf_pair(*final(gl), *final(client)),
        final(gl).gametic >= old(gl).gametic,
        (final(gl).gametic as int - old(gl).gametic as int) % (old(gl).ticdup as int) == 0,
        pacer_can_run(*old(gl), *old(client)) ==> final(gl).gametic > old(gl).gametic,
        pacer_stalled(*old(gl), *old(client)) ==> final(gl).gametic == old(gl).gametic,
{
    let now0 = cb.now_ms();
    let enter_tic = get_adjusted_time(now0, gl.offsetms, gl.new_sync) / gl.ticdup;
    if gl.singletics {
        let _ = build_new_tic(gl, client, cb);
    } else {
        net_update(gl, client, cb);
    }
    proof {
        assert(gl.gametic == old(gl).gametic);
        assert(old(gl).ticdup >= 1);
        assert((0int) % (old(gl).ticdup as int) == 0);
        assert((gl.gametic as int - old(gl).gametic as int) % (old(gl).ticdup as int) == 0);
        if pacer_can_run(*old(gl), *old(client)) {
            lemma_low_tic_monotone(*old(gl), *old(client), *gl, *client);
        }
    }
    let mut lowtic = get_low_tic(gl, client);
    let gameticdiv0 = gl.gametic / gl.ticdup;
    let availabletics: i64 = lowtic as i64 - gameticdiv0 as i64;
    let realtics: i64 = enter_tic as i64 - gl.oldentertics as i64;
    gl.oldentertics = enter_tic;
    let mut counts: i64;
    if gl.new_sync {
        counts = availabletics;
    } else {
        if realtics < availabletics - 1 {
            counts = realtics + 1;
        } else if realtics < availabletics {
            counts = realtics;
        } else {
            counts = availabletics;
        }
        if counts < 1 {
            counts = 1;
        }
        if client.is_connected() {
            old_net_sync(gl);
        }
    }
    if counts < 1 {
        counts = 1;
    }
    if counts > BACKUPTICS as i64 {
        counts = BACKUPTICS as i64;
    }
    proof {
        assert(gl.gametic == old(gl).gametic);
        assert(old(gl).ticdup >= 1);
        assert((0int) % (old(gl).ticdup as int) == 0);
        assert((gl.gametic as int - old(gl).gametic as int) % (old(gl).ticdup as int) == 0);
        if pacer_can_run(*old(gl), *old(client)) {
            assert(gl.gametic == old(gl).gametic && gl.ticdup == old(gl).ticdup);
            assert(lowtic == spec_low_tic(*gl, *client));
            if client.spec_is_connected() {
                let j = choose|j: int|
                    0 <= j < NET_MAXPLAYERS && old(gl).local_playeringame@[j];
                assert(gl.local_playeringame@[j]);
            }
            assert(spec_players_in_game(*gl, *client));
        }
    }
    let mut spins: u32 = 0;
    loop
        invariant
            wf_pair(*gl, *client),
            gl.gametic == old(gl).gametic,
            gl.ticdup == old(gl).ticdup,
            gl.drone == old(gl).drone,
            gl.local_playeringame == old(gl).local_playeringame,
            (gl.gametic as int - old(gl).gametic as int) % (old(gl).ticdup as int) == 0,
            1 <= counts <= BACKUPTICS as i64,
            spins <= MAX_WAIT_ITERATIONS,
            pacer_stalled(*old(gl), *old(client)) ==> (client.spec_is_connected()
                && client.inbox@.len() == 0 && !client.recv_window@[0].active
                && client.delivered@.len() == 0 && gl.recvtic == old(gl).recvtic
                && gl.drone == old(gl).drone),
            pacer_can_run(*old(gl), *old(client)) ==> (spec_players_in_game(*gl, *client)
                && spec_low_tic(*gl, *client) as int >= gl.gametic as int / gl.ticdup as int
                + counts as int),
        ensures
            wf_pair(*gl, *client),
            gl.gametic == old(gl).gametic,
            gl.ticdup == old(gl).ticdup,
            gl.drone == old(gl).drone,
            1 <= counts <= BACKUPTICS as i64,
            lowtic as i64 >= gl.gametic as i64 / gl.ticdup as i64 + counts,
            client.spec_is_connected() ==> lowtic <= gl.recvtic,
            !gl.drone ==> lowtic <= gl.maketic,
            spec_players_in_game(*gl, *client),
            !pacer_stalled(*old(gl), *old(client)),
        decreases MAX_WAIT_ITERATIONS - spins,
    {
        let players = players_in_game(gl, client);
        lowtic = get_low_tic(gl, client);
        let gameticdiv = gl.gametic / gl.ticdup;
        if players && lowtic as i64 >= gameticdiv as i64 + counts {
            break;
        }
        if spins >= MAX_WAIT_ITERATIONS {
            return;
        }
        spins += 1;
        let ghost pre_gl = *gl;
        let ghost pre_client = *client;
        net_update(gl, client, cb);
        proof {
            if pacer_can_run(*old(gl), *old(client)) {
                lemma_low_tic_monotone(pre_gl, pre_client, *gl, *client);
            }
        }
        lowtic = get_low_tic(gl, client);
        proof {
            // The fatal state of a confirmed tic behind the simulation
            // cannot arise: the pair invariant keeps the simulation at
            // or below every confirmed counter.
            assert(lowtic >= gl.gametic / gl.ticdup);
        }
        let gameticdiv2 = gl.gametic / gl.ticdup;
        if (lowtic as i64) < gameticdiv2 as i64 + counts {
            let nown = cb.now_ms();
            let nowtics = get_adjusted_time(nown, gl.offsetms, gl.new_sync) / gl.ticdup;
            if nowtics >= enter_tic && nowtics - enter_tic >= MAX_NETGAME_STALL_TICS {
                return;
            }
            cb.sleep_ms(1);
        }
    }
    let ghost counts_entry = counts;
    #[verifier::loop_isolation(false)]
    while counts > 0
        invariant
            wf_pair(*gl, *client),
            gl.ticdup == old(gl).ticdup,
            gl.drone == old(gl).drone,
            gl.gametic >= old(gl).gametic,
            0 <= counts <= BACKUPTICS as i64,
            gl.gametic as i64 / gl.ticdup as i64 + counts <= lowtic as i64,
            client.spec_is_connected() ==> lowtic <= gl.recvtic,
            !gl.drone ==> lowtic <= gl.maketic,
            (gl.gametic as int - old(gl).gametic as int) % (old(gl).ticdup as int) == 0,
            pacer_can_run(*old(gl), *old(client)) ==> (gl.gametic > old(gl).gametic || (counts
                == counts_entry && gl.gametic == old(gl).gametic && spec_players_in_game(
                *gl,
                *client,
            ) && counts_entry >= 1)),
        decreases counts,
    {
        let players = players_in_game(gl, client);
        if !players {
            return;
        }
        let idx: usize = ((gl.gametic / gl.ticdup) % 128) as usize;
        let mut set_copy = copy_set(&gl.ticdata, idx);
        if !client.is_connected() {
            single_player_clear(gl.localplayer, &mut set_copy);
        }
        if gl.gametic > u32::MAX - 5 {
            return;
        }
        let ghost g0 = gl.gametic;
        let mut sub: u32 = 0;
        #[verifier::loop_isolation(false)]
        while sub < gl.ticdup
            invariant
                sub <= gl.ticdup,
                gl.wf(),
                client.wf(),
                gl.ticdup == old(gl).ticdup,
                gl.drone == old(gl).drone,
                set_copy.wf(),
                counts > 0,
                gl.gametic == g0 + sub,
                g0 as i64 / gl.ticdup as i64 + counts <= lowtic as i64,
                g0 >= old(gl).gametic,
                client.spec_is_connected() ==> lowtic <= gl.recvtic,
                !gl.drone ==> lowtic <= gl.maketic,
                g0 + gl.ticdup <= u32::MAX,
            decreases gl.ticdup - sub,
        {
            let mut flags: Vec<bool> = Vec::new();
            let mut fi: usize = 0;
            #[verifier::loop_isolation(false)]
            while fi < NET_MAXPLAYERS
                invariant
                    fi <= NET_MAXPLAYERS,
                    flags@.len() == fi,
                    set_copy.wf(),
                decreases NET_MAXPLAYERS - fi,
            {
                flags.push(set_copy.ingame[fi]);
                fi += 1;
            }
            gl.local_playeringame = flags;
            cb.run_tic(&set_copy.cmds, &set_copy.ingame);
            gl.gametic = gl.gametic + 1;
            ticdup_squash(&mut set_copy);
            sub += 1;
        }
        proof {
            let d = gl.ticdup as int;
            vstd::arithmetic::div_mod::lemma_div_is_ordered(
                gl.gametic as int,
                g0 as int + d,
                d,
            );
            vstd::arithmetic::div_mod::lemma_div_plus_one(g0 as int, d);
            vstd::arithmetic::div_mod::lemma_mod_multiples_vanish(
                1,
                g0 as int - old(gl).gametic as int,
                d,
            );
        }
        net_update(gl, client, cb);
        counts -= 1;
    }
}

fn copy_set(ticdata: &Vec<TiccmdSet>, idx: usize) -> (r: TiccmdSet)
    requires
        idx < ticdata@.len(),
        ticdata@[idx as int].wf(),
    ensures
        r.wf(),
        r.cmds@ == ticdata@[idx as int].cmds@,
        r.ingame@ == ticdata@[idx as int].ingame@,
{
    let src = &ticdata[idx];
    let mut cmds: Vec<TicCmd> = Vec::new();
    let mut ingame: Vec<bool> = Vec::new();
    let mut i: usize = 0;
    #[verifier::loop_isolation(false)]
    while i < NET_MAXPLAYERS
        invariant
            i <= NET_MAXPLAYERS,
            cmds@.len() == i,
            ingame@.len() == i,
            forall|j: int| 0 <= j < i ==> cmds@[j] == src.cmds@[j],
            forall|j: int| 0 <= j < i ==> ingame@[j] == src.ingame@[j],
        decreases NET_MAXPLAYERS - i,
    {
        cmds.push(src.cmds[i]);
        ingame.push(src.ingame[i]);
        i += 1;
    }
    proof {
        assert(cmds@ =~= src.cmds@);
        assert(ingame@ =~= src.ingame@);
    }
    TiccmdSet { cmds, ingame }
}

} // verus!
