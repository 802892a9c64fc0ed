//! Delta compression of tic commands: a diff names the fields that
//! changed against a per-player base command, and applying a diff to the
//! same base reconstructs the command on every peer alike.

use vstd::prelude::*;
use crate::net_structs::NET_TICDIFF_BUTTONS;
use crate::net_structs::NET_TICDIFF_CHATCHAR;
use crate::net_structs::NET_TICDIFF_CONSISTANCY;
use crate::net_structs::NET_TICDIFF_FORWARD;
use crate::net_structs::NET_TICDIFF_RAVEN;
use crate::net_structs::NET_TICDIFF_SIDE;
use crate::net_structs::NET_TICDIFF_STRIFE;
use crate::net_structs::NET_TICDIFF_TURN;
use crate::net_structs::NetTicDiff;
use crate::net_structs::TicCmd;

verus! {

/// Whether a mask carries the given field bit.
pub open spec fn bit_set(mask: u32, bit: u32) -> bool {
    mask & bit != 0
}

/// One when the condition holds, zero otherwise.
pub open spec fn bit01(c: bool) -> u32 {
    if c {
        1
    } else {
        0
    }
}

/// The field mask `calculate_ticcmd_diff` produces: a bit per changed
/// field, with the chat character, the artifact and the inventory
/// selector edge-triggered on a non-zero value instead.
pub open spec fn spec_mask(prev: TicCmd, cur: TicCmd) -> u32 {
    (bit01(cur.forwardmove != prev.forwardmove) + bit01(cur.sidemove != prev.sidemove) * 2 + bit01(
        cur.angleturn != prev.angleturn,
    ) * 4 + bit01(cur.buttons != prev.buttons) * 8 + bit01(cur.consistancy != prev.consistancy)
        * 16 + bit01(cur.chatchar != 0) * 32 + bit01(cur.lookfly != prev.lookfly || cur.arti != 0)
        * 64 + bit01(cur.buttons2 != prev.buttons2 || cur.inventory != 0) * 128) as u32
}

/// The diff `calculate_ticcmd_diff` produces: the mask, and each present
/// field's new value; absent fields are zeroed in the carried command.
pub open spec fn spec_compute_diff(prev: TicCmd, cur: TicCmd) -> NetTicDiff {
    let m = spec_mask(prev, cur);
    NetTicDiff {
        diff: m,
        cmd: TicCmd {
            forwardmove: if cur.forwardmove != prev.forwardmove {
                cur.forwardmove
            } else {
                0
            },
            sidemove: if cur.sidemove != prev.sidemove {
                cur.sidemove
            } else {
                0
            },
            angleturn: if cur.angleturn != prev.angleturn {
                cur.angleturn
            } else {
                0
            },
            buttons: if cur.buttons != prev.buttons {
                cur.buttons
            } else {
                0
            },
            consistancy: if cur.consistancy != prev.consistancy {
                cur.consistancy
            } else {
                0
            },
            chatchar: cur.chatchar,
            lookfly: if cur.lookfly != prev.lookfly || cur.arti != 0 {
                cur.lookfly
            } else {
                0
            },
            arti: if cur.lookfly != prev.lookfly || cur.arti != 0 {
                cur.arti
            } else {
                0
            },
            buttons2: if cur.buttons2 != prev.buttons2 || cur.inventory != 0 {
                cur.buttons2
            } else {
                0
            },
            inventory: if cur.buttons2 != prev.buttons2 || cur.inventory != 0 {
                cur.inventory
            } else {
                0
            },
        },
    }
}

/// The command `apply_ticcmd_diff` reconstructs: present fields are taken
/// from the diff, absent plain fields keep the base value, and absent
/// edge-triggered fields (chat character, artifact, inventory) reset to
/// zero.
pub open spec fn spec_apply_diff(base: TicCmd, d: NetTicDiff) -> TicCmd {
    TicCmd {
        forwardmove: if bit_set(d.diff, NET_TICDIFF_FORWARD) {
            d.cmd.forwardmove
        } else {
            base.forwardmove
        },
        sidemove: if bit_set(d.diff, NET_TICDIFF_SIDE) {
            d.cmd.sidemove
        } else {
            base.sidemove
        },
        angleturn: if bit_set(d.diff, NET_TICDIFF_TURN) {
            d.cmd.angleturn
        } else {
            base.angleturn
        },
        buttons: if bit_set(d.diff, NET_TICDIFF_BUTTONS) {
            d.cmd.buttons
        } else {
            base.buttons
        },
        consistancy: if bit_set(d.diff, NET_TICDIFF_CONSISTANCY) {
            d.cmd.consistancy
        } else {
            base.consistancy
        },
        chatchar: if bit_set(d.diff, NET_TICDIFF_CHATCHAR) {
            d.cmd.chatchar
        } else {
            0
        },
        lookfly: if bit_set(d.diff, NET_TICDIFF_RAVEN) {
            d.cmd.lookfly
        } else {
            base.lookfly
        },
        arti: if bit_set(d.diff, NET_TICDIFF_RAVEN) {
            d.cmd.arti
        } else {
            0
        },
        buttons2: if bit_set(d.diff, NET_TICDIFF_STRIFE) {
            d.cmd.buttons2
        } else {
            base.buttons2
        },
        inventory: if bit_set(d.diff, NET_TICDIFF_STRIFE) {
            d.cmd.inventory
        } else {
            0
        },
    }
}

/// The command with its edge-triggered fields zeroed whenever the
/// corresponding diff bit against `prev` would be clear. Because those
/// bits are set exactly when the fields are non-zero, this is the
/// command itself.
pub open spec fn spec_canonicalize(prev: TicCmd, cur: TicCmd) -> TicCmd {
    TicCmd {
        chatchar: if cur.chatchar != 0 {
            cur.chatchar
        } else {
            0
        },
        arti: if cur.lookfly != prev.lookfly || cur.arti != 0 {
            cur.arti
        } else {
            0
        },
        inventory: if cur.buttons2 != prev.buttons2 || cur.inventory != 0 {
            cur.inventory
        } else {
            0
        },
        ..cur
    }
}

/// Which conditions each bit of the produced mask reflects.
pub proof fn lemma_mask_bits(prev: TicCmd, cur: TicCmd)
    ensures
        bit_set(spec_mask(prev, cur), NET_TICDIFF_FORWARD) == (cur.forwardmove
            != prev.forwardmove),
        bit_set(spec_mask(prev, cur), NET_TICDIFF_SIDE) == (cur.sidemove != prev.sidemove),
        bit_set(spec_mask(prev, cur), NET_TICDIFF_TURN) == (cur.angleturn != prev.angleturn),
        bit_set(spec_mask(prev, cur), NET_TICDIFF_BUTTONS) == (cur.buttons != prev.buttons),
        bit_set(spec_mask(prev, cur), NET_TICDIFF_CONSISTANCY) == (cur.consistancy
            != prev.consistancy),
        bit_set(spec_mask(prev, cur), NET_TICDIFF_CHATCHAR) == (cur.chatchar != 0),
        bit_set(spec_mask(prev, cur), NET_TICDIFF_RAVEN) == (cur.lookfly != prev.lookfly
            || cur.arti != 0),
        bit_set(spec_mask(prev, cur), NET_TICDIFF_STRIFE) == (cur.buttons2 != prev.buttons2
            || cur.inventory != 0),
        spec_mask(prev, cur) <= 255,
{
    let f = bit01(cur.forwardmove != prev.forwardmove);
    let s = bit01(cur.sidemove != prev.sidemove);
    let t = bit01(cur.angleturn != prev.angleturn);
    let b = bit01(cur.buttons != prev.buttons);
    let c = bit01(cur.consistancy != prev.consistancy);
    let ch = bit01(cur.chatchar != 0);
    let rv = bit01(cur.lookfly != prev.lookfly || cur.arti != 0);
    let st = bit01(cur.buttons2 != prev.buttons2 || cur.inventory != 0);
    let m = spec_mask(prev, cur);
    assert((m & 0x01 != 0) == (f == 1) && (m & 0x02 != 0) == (s == 1) && (m & 0x04 != 0) == (t
        == 1) && (m & 0x08 != 0) == (b == 1) && (m & 0x10 != 0) == (c == 1) && (m & 0x20 != 0)
        == (ch == 1) && (m & 0x40 != 0) == (rv == 1) && (m & 0x80 != 0) == (st == 1) && m <= 255)
        by (bit_vector)
        requires
            f <= 1 && s <= 1 && t <= 1 && b <= 1 && c <= 1 && ch <= 1 && rv <= 1 && st <= 1,
            m == ((f + s * 2 + t * 4 + b * 8 + c * 16 + ch * 32 + rv * 64 + st * 128) as u32),
    ;
}

/// Compute the diff of a newly built command against the last one sent.
pub fn calculate_ticcmd_diff(last: &TicCmd, ticcmd: &TicCmd) -> (d: NetTicDiff)
    ensures
        d == spec_compute_diff(*last, *ticcmd),
{
    let f: u32 = if ticcmd.forwardmove != last.forwardmove {
        1
    } else {
        0
    };
    let s: u32 = if ticcmd.sidemove != last.sidemove {
        1
    } else {
        0
    };
    let t: u32 = if ticcmd.angleturn != last.angleturn {
        1
    } else {
        0
    };
    let b: u32 = if ticcmd.buttons != last.buttons {
        1
    } else {
        0
    };
    let c: u32 = if ticcmd.consistancy != last.consistancy {
        1
    } else {
        0
    };
    let ch: u32 = if ticcmd.chatchar != 0 {
        1
    } else {
        0
    };
    let rv: u32 = if ticcmd.lookfly != last.lookfly || ticcmd.arti != 0 {
        1
    } else {
        0
    };
    let st: u32 = if ticcmd.buttons2 != last.buttons2 || ticcmd.inventory != 0 {
        1
    } else {
        0
    };
    let mask: u32 = f + s * 2 + t * 4 + b * 8 + c * 16 + ch * 32 + rv * 64 + st * 128;
    NetTicDiff {
        diff: mask,
        cmd: TicCmd {
            forwardmove: if f == 1 {
                ticcmd.forwardmove
            } else {
                0
            },
            sidemove: if s == 1 {
                ticcmd.sidemove
            } else {
                0
            },
            angleturn: if t == 1 {
                ticcmd.angleturn
            } else {
                0
            },
            buttons: if b == 1 {
                ticcmd.buttons
            } else {
                0
            },
            consistancy: if c == 1 {
                ticcmd.consistancy
            } else {
                0
            },
            chatchar: ticcmd.chatchar,
            lookfly: if rv == 1 {
                ticcmd.lookfly
            } else {
                0
            },
            arti: if rv == 1 {
                ticcmd.arti
            } else {
                0
            },
            buttons2: if st == 1 {
                ticcmd.buttons2
            } else {
                0
            },
            inventory: if st == 1 {
                ticcmd.inventory
            } else {
                0
            },
        },
    }
}

/// Apply a diff to the per-player base command, yielding the command the
/// simulation runs and the next base.
pub fn apply_ticcmd_diff(base: &TicCmd, diff: &NetTicDiff) -> (r: TicCmd)
    ensures
        r == spec_apply_diff(*base, *diff),
{
    TicCmd {
        forwardmove: if diff.diff & NET_TICDIFF_FORWARD != 0 {
            diff.cmd.forwardmove
        } else {
            base.forwardmove
        },
        sidemove: if diff.diff & NET_TICDIFF_SIDE != 0 {
            diff.cmd.sidemove
        } else {
            base.sidemove
        },
        angleturn: if diff.diff & NET_TICDIFF_TURN != 0 {
            diff.cmd.angleturn
        } else {
            base.angleturn
        },
        buttons: if diff.diff & NET_TICDIFF_BUTTONS != 0 {
            diff.cmd.buttons
        } else {
            base.buttons
        },
        consistancy: if diff.diff & NET_TICDIFF_CONSISTANCY != 0 {
            diff.cmd.consistancy
        } else {
            base.consistancy
        },
        chatchar: if diff.diff & NET_TICDIFF_CHATCHAR != 0 {
            diff.cmd.chatchar
        } else {
            0
        },
        lookfly: if diff.diff & NET_TICDIFF_RAVEN != 0 {
            diff.cmd.lookfly
        } else {
            base.lookfly
        },
        arti: if diff.diff & NET_TICDIFF_RAVEN != 0 {
            diff.cmd.arti
        } else {
            0
        },
        buttons2: if diff.diff & NET_TICDIFF_STRIFE != 0 {
            diff.cmd.buttons2
        } else {
            base.buttons2
        },
        inventory: if diff.diff & NET_TICDIFF_STRIFE != 0 {
            diff.cmd.inventory
        } else {
            0
        },
    }
}

/// Law: applying the diff computed against a base to that same base
/// reconstructs the current command with its edge-triggered fields
/// canonicalized; under these diff rules that is the command itself.
/// Holds for every `base` and every `cur`.
pub proof fn lemma_diff_round_trip(base: TicCmd, cur: TicCmd)
    ensures
        spec_apply_diff(base, spec_compute_diff(base, cur)) == spec_canonicalize(base, cur),
        spec_canonicalize(base, cur) == cur,
{
    lemma_mask_bits(base, cur);
}

} // verus!
