use lockstep_client::bot::Bot;
use lockstep_client::d_loop::GameLoop;
use lockstep_client::d_loop::LoopCallbacks;
use lockstep_client::d_loop::get_adjusted_time;
use lockstep_client::d_loop::get_low_tic;
use lockstep_client::d_loop::ticdup_squash;
use lockstep_client::d_loop::try_run_tics;
use lockstep_client::net_client::NetClient;
use lockstep_client::net_structs::TicCmd;
use lockstep_client::net_structs::TiccmdSet;

/// A test harness standing in for the game: a controllable clock and a
/// count of simulation tics run.
struct Harness {
    now: u64,
    tics_run: u32,
    built: u32,
}

impl LoopCallbacks for Harness {
    fn process_events(&mut self) {}

    fn run_menu(&mut self) {}

    fn build_ticcmd(&mut self, _maketic: u32) -> TicCmd {
        self.built += 1;
        TicCmd { forwardmove: 25, ..TicCmd::default() }
    }

    fn run_tic(&mut self, _cmds: &Vec<TicCmd>, _ingame: &Vec<bool>) {
        self.tics_run += 1;
    }

    fn now_ms(&mut self) -> u64 {
        self.now
    }

    fn sleep_ms(&mut self, ms: u64) {
        self.now += ms;
    }
}

#[test]
fn bot_walks_forward() {
    let mut bot = Bot::new();
    bot.init();
    let cmd = bot.tick();
    assert_eq!(cmd.forwardmove, 50);
    assert_eq!(cmd.sidemove, 0);
    assert_eq!(cmd.angleturn, 0);
}

#[test]
fn adjusted_time_is_35_hz() {
    assert_eq!(get_adjusted_time(1000, 0, true), 35);
    assert_eq!(get_adjusted_time(1000, 0, false), 35);
    assert_eq!(get_adjusted_time(2000, -1000, true), 35);
    assert_eq!(get_adjusted_time(0, -100, true), 0);
}

#[test]
fn low_tic_is_min_of_confirmed() {
    let client = NetClient::new("Player1".to_string(), false);
    let mut gl = GameLoop::new();
    gl.maketic = 10;
    gl.recvtic = 7;
    // Not connected: only local input matters.
    assert_eq!(get_low_tic(&gl, &client), 10);
}

#[test]
fn ticdup_squash_fires_side_effects_once() {
    let mut set = TiccmdSet::default();
    let mut cmds = set.cmds;
    cmds[0] = TicCmd { chatchar: b'x', buttons: 0x81, ..TicCmd::default() };
    cmds[1] = TicCmd { chatchar: b'y', buttons: 0x03, ..TicCmd::default() };
    set.cmds = cmds;
    ticdup_squash(&mut set);
    assert_eq!(set.cmds[0].chatchar, 0);
    assert_eq!(set.cmds[0].buttons, 0);
    assert_eq!(set.cmds[1].chatchar, 0);
    assert_eq!(set.cmds[1].buttons, 0x03);
}

#[test]
fn single_player_advances() {
    // Offline, the pacer builds and runs tics as wall-clock time passes.
    let mut gl = GameLoop::new();
    let mut client = NetClient::new("Player1".to_string(), false);
    let mut cb = Harness { now: 0, tics_run: 0, built: 0 };
    lockstep_client::d_loop::d_start_game_loop(&mut gl, &mut cb);
    cb.now = 200; // seven 35 Hz tics later
    try_run_tics(&mut gl, &mut client, &mut cb);
    assert!(cb.tics_run > 0);
    assert_eq!(gl.gametic, cb.tics_run);
    assert!(gl.maketic >= gl.gametic);
}

#[test]
fn stall_escape() {
    // With the network frozen, try_run_tics returns within the
    // stall bound without advancing the simulation and without panic.
    let mut gl = GameLoop::new();
    gl.drone = false;
    let mut client = NetClient::new("Player1".to_string(), false);
    // Pretend we are in a network session with no data at all.
    client.net_client_connected = true;
    let mut cb = Harness { now: 1000, tics_run: 0, built: 0 };
    lockstep_client::d_loop::d_start_game_loop(&mut gl, &mut cb);
    let before = cb.now;
    try_run_tics(&mut gl, &mut client, &mut cb);
    assert_eq!(gl.gametic, 0);
    assert_eq!(cb.tics_run, 0);
    let elapsed = cb.now - before;
    // 2 tics at 35 Hz is about 57 ms; allow some slack for the exit path.
    assert!(elapsed <= 2 * (1000 / 35) + 60, "stalled for {} ms", elapsed);
}

#[test]
fn receive_tic_merges_remote_players() {
    let mut gl = GameLoop::new();
    gl.localplayer = 0;
    let mut set = TiccmdSet::default();
    let mut cmds = set.cmds;
    cmds[1] = TicCmd { forwardmove: 11, ..TicCmd::default() };
    set.cmds = cmds;
    let mut flags = set.ingame;
    flags[0] = true;
    flags[1] = true;
    set.ingame = flags;
    gl.receive_tic(&set);
    assert_eq!(gl.recvtic, 1);
    assert_eq!(gl.ticdata[0].cmds[1].forwardmove, 11);
    assert!(gl.ticdata[0].ingame[1]);
    // The local player's slot is owned by the local input store.
    assert!(!gl.ticdata[0].ingame[0]);
}
