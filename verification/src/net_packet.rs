//! Byte-level packet codec: big-endian fixed-layout primitives,
//! NUL-terminated strings and raw SHA-1 blobs over a byte buffer with a
//! read cursor. All reads return an optional value; a failed read leaves
//! the cursor at the end of the buffer so that the rest of the datagram
//! is dropped as one unit.

use vstd::prelude::*;
use vstd::string::StrSliceExecFns;
use vstd::string::StringSliceAdditionalSpecFns;
use vstd::utf8::*;
use crate::net_structs::NET_TICDIFF_BUTTONS;
use crate::net_structs::NET_TICDIFF_CHATCHAR;
use crate::net_structs::NET_TICDIFF_CONSISTANCY;
use crate::net_structs::NET_TICDIFF_FORWARD;
use crate::net_structs::NET_TICDIFF_RAVEN;
use crate::net_structs::NET_TICDIFF_SIDE;
use crate::net_structs::NET_TICDIFF_STRIFE;
use crate::net_structs::NET_TICDIFF_TURN;
use crate::net_structs::ConnectData;
use crate::net_structs::GameSettings;
use crate::net_structs::NetFullTicCmd;
use crate::net_structs::NetProtocol;
use crate::net_structs::NetTicDiff;
use crate::net_structs::NetWaitData;
use crate::net_structs::ticdiff_zero;
use crate::net_structs::TicCmd;
use vstd::string::StringExecFns;

verus! {

/// Big-endian pair a 16-bit value is split into.
pub open spec fn be2(v: u16) -> Seq<u8> {
    seq![(v / 256) as u8, (v % 256) as u8]
}

/// Big-endian quadruple a 32-bit value is split into.
pub open spec fn be4(v: u32) -> Seq<u8> {
    seq![
        (v / 0x1000000) as u8,
        ((v / 0x10000) % 256) as u8,
        ((v / 256) % 256) as u8,
        (v % 256) as u8,
    ]
}

/// The 16-bit value two big-endian bytes denote.
pub open spec fn u16_be(b0: u8, b1: u8) -> u16 {
    ((b0 as u16) * 256 + (b1 as u16)) as u16
}

/// The 32-bit value four big-endian bytes denote.
pub open spec fn u32_be(b0: u8, b1: u8, b2: u8, b3: u8) -> u32 {
    ((b0 as u32) * 0x1000000 + (b1 as u32) * 0x10000 + (b2 as u32) * 256 + (b3 as u32)) as u32
}

/// Index of the first NUL byte, or the length when there is none.
pub open spec fn first_nul(b: Seq<u8>) -> int
    decreases b.len(),
{
    if b.len() == 0 {
        0
    } else if b[0] == 0 {
        0
    } else {
        1 + first_nul(b.skip(1))
    }
}

/// Bytes that survive the safe-string filter: ASCII whitespace and
/// ASCII graphic characters plus the space.
pub open spec fn is_safe_byte(b: u8) -> bool {
    (9 <= b && b <= 13) || (0x20 <= b && b <= 0x7e)
}

/// The subsequence of safe bytes, in order.
pub open spec fn keep_safe(b: Seq<u8>) -> Seq<u8>
    decreases b.len(),
{
    if b.len() == 0 {
        Seq::empty()
    } else {
        let prefix = keep_safe(b.drop_last());
        if is_safe_byte(b.last()) {
            prefix.push(b.last())
        } else {
            prefix
        }
    }
}

/// Each byte read as one character; exact for ASCII data.
pub open spec fn ascii_chars(b: Seq<u8>) -> Seq<char> {
    Seq::new(b.len(), |i: int| b[i] as char)
}

/// The characters `String::from_utf8_lossy` decodes a byte sequence to.
/// Invalid sequences are replaced, so the result is a function of the
/// bytes alone; for valid UTF-8 it agrees with `decode_utf8`.
pub uninterp spec fn lossy_decode(b: Seq<u8>) -> Seq<char>;

/// Relies on `String::from_utf8_lossy`: the decoding depends on the bytes
/// alone, and on valid UTF-8 input it is the exact UTF-8 decoding.
#[verifier::external_body]
fn lossy_string(v: &Vec<u8>) -> (r: String)
    ensures
        r@ == lossy_decode(v@),
        valid_utf8(v@) ==> r@ == decode_utf8(v@),
{
    String::from_utf8_lossy(v).into_owned()
}

proof fn lemma_first_nul_bounds(b: Seq<u8>)
    ensures
        0 <= first_nul(b) <= b.len(),
        forall|j: int| 0 <= j < first_nul(b) ==> b[j] != 0,
        first_nul(b) < b.len() ==> b[first_nul(b)] == 0,
    decreases b.len(),
{
    if b.len() == 0 {
    } else if b[0] == 0 {
    } else {
        lemma_first_nul_bounds(b.skip(1));
        assert forall|j: int| 0 <= j < first_nul(b) implies b[j] != 0 by {
            if j > 0 {
                assert(b.skip(1)[j - 1] == b[j]);
            }
        }
        if first_nul(b) < b.len() {
            assert(b.skip(1)[first_nul(b) - 1] == b[first_nul(b)]);
        }
    }
}

/// `first_nul` is pinned down by its two defining properties.
proof fn lemma_first_nul_is(b: Seq<u8>, n: int)
    requires
        0 <= n <= b.len(),
        forall|j: int| 0 <= j < n ==> b[j] != 0,
        n < b.len() ==> b[n] == 0,
    ensures
        first_nul(b) == n,
    decreases b.len(),
{
    if b.len() == 0 {
    } else if n == 0 {
    } else {
        assert(b[0] != 0);
        assert forall|j: int| 0 <= j < n - 1 implies b.skip(1)[j] != 0 by {
            assert(b.skip(1)[j] == b[j + 1]);
        }
        if n - 1 < b.len() - 1 {
            assert(b.skip(1)[n - 1] == b[n]);
        }
        lemma_first_nul_is(b.skip(1), n - 1);
    }
}

proof fn lemma_keep_safe_all(b: Seq<u8>)
    ensures
        forall|j: int| 0 <= j < keep_safe(b).len() ==> is_safe_byte(#[trigger] keep_safe(b)[j]),
    decreases b.len(),
{
    if b.len() > 0 {
        lemma_keep_safe_all(b.drop_last());
        let prefix = keep_safe(b.drop_last());
        assert forall|j: int| 0 <= j < keep_safe(b).len() implies is_safe_byte(
            #[trigger] keep_safe(b)[j],
        ) by {
            if is_safe_byte(b.last()) {
                if j < prefix.len() {
                    assert(keep_safe(b)[j] == prefix[j]);
                } else {
                    assert(keep_safe(b)[j] == b.last());
                }
            } else {
                assert(keep_safe(b)[j] == prefix[j]);
            }
        }
    }
}

/// A sequence of bytes below 0x80 is valid UTF-8 and decodes to the
/// characters the bytes directly denote.
proof fn lemma_ascii_decode(b: Seq<u8>)
    requires
        forall|j: int| 0 <= j < b.len() ==> b[j] < 0x80,
    ensures
        valid_utf8(b),
        decode_utf8(b) == ascii_chars(b),
{
    let cs = ascii_chars(b);
    assert(is_ascii_chars(cs)) by {
        assert forall|i: int| 0 <= i < cs.len() implies (cs[i] as nat) < 128 by {
            assert(cs[i] == b[i] as char);
        }
    }
    is_ascii_chars_encode_utf8(cs);
    assert(encode_utf8(cs) =~= b) by {
        assert forall|i: int| 0 <= i < b.len() implies Seq::new(
            cs.len(),
            |i: int| cs[i] as u8,
        )[i] == b[i] by {
            assert(cs[i] == b[i] as char);
        }
    }
    encode_utf8_valid_utf8(cs);
    encode_utf8_decode_utf8(cs);
}

/// A network packet: a byte buffer and a read cursor.
#[derive(Debug, Clone)]
pub struct NetPacket {
    pub data: Vec<u8>,
    pub pos: usize,
}

impl NetPacket {
    /// An empty packet with the cursor at the start.
    pub fn new() -> (r: Self)
        ensures
            r.data@.len() == 0,
            r.pos == 0,
    {
        NetPacket { data: Vec::new(), pos: 0 }
    }

    /// Appends an unsigned 8-bit integer.
    pub fn write_u8(&mut self, value: u8)
        ensures
            final(self).data@ == old(self).data@.push(value),
            final(self).pos == old(self).pos,
    {
        self.data.push(value);
    }

    /// Appends a signed 8-bit integer.
    pub fn write_i8(&mut self, value: i8)
        ensures
            final(self).data@ == old(self).data@.push(value as u8),
            final(self).pos == old(self).pos,
    {
        self.data.push(value as u8);
    }

    /// Appends an unsigned 16-bit integer in big-endian order.
    pub fn write_u16(&mut self, value: u16)
        ensures
            final(self).data@ == old(self).data@ + be2(value),
            final(self).pos == old(self).pos,
    {
        let hi: u8 = (value / 256) as u8;
        let lo: u8 = (value % 256) as u8;
        self.data.push(hi);
        self.data.push(lo);
        proof {
            assert(final(self).data@ =~= old(self).data@ + be2(value));
        }
    }

    /// Appends a signed 16-bit integer in big-endian order.
    pub fn write_i16(&mut self, value: i16)
        ensures
            final(self).data@ == old(self).data@ + be2(value as u16),
            final(self).pos == old(self).pos,
    {
        self.write_u16(value as u16);
    }

    /// Appends an unsigned 32-bit integer in big-endian order.
    pub fn write_u32(&mut self, value: u32)
        ensures
            final(self).data@ == old(self).data@ + be4(value),
            final(self).pos == old(self).pos,
    {
        let b0: u8 = (value / 0x1000000) as u8;
        let b1: u8 = ((value / 0x10000) % 256) as u8;
        let b2: u8 = ((value / 256) % 256) as u8;
        let b3: u8 = (value % 256) as u8;
        self.data.push(b0);
        self.data.push(b1);
        self.data.push(b2);
        self.data.push(b3);
        proof {
            assert(final(self).data@ =~= old(self).data@ + be4(value));
        }
    }

    /// Appends a signed 32-bit integer in big-endian order.
    pub fn write_i32(&mut self, value: i32)
        ensures
            final(self).data@ == old(self).data@ + be4(value as u32),
            final(self).pos == old(self).pos,
    {
        self.write_u32(value as u32);
    }

    /// Appends raw bytes unchanged.
    pub fn write_blob(&mut self, buf: &Vec<u8>)
        ensures
            final(self).data@ == old(self).data@ + buf@,
            final(self).pos == old(self).pos,
    {
        let mut i: usize = 0;
        while i < buf.len()
            invariant
                i <= buf@.len(),
                self.data@ == old(self).data@ + buf@.take(i as int),
                self.pos == old(self).pos,
            decreases buf@.len() - i,
        {
            let b = buf[i];
            self.data.push(b);
            proof {
                assert(self.data@ =~= old(self).data@ + buf@.take(i + 1));
            }
            i += 1;
        }
        proof {
            assert(old(self).data@ + buf@.take(buf@.len() as int) =~= old(self).data@ + buf@);
        }
    }

    /// Appends the string's bytes up to its first NUL character, then a
    /// NUL terminator.
    pub fn write_string(&mut self, string: &str)
        ensures
            final(self).data@ == old(self).data@ + string.spec_bytes().take(
                first_nul(string.spec_bytes()),
            ).push(0),
            final(self).pos == old(self).pos,
    {
        let bytes = string.as_bytes_vec();
        let ghost bs = string.spec_bytes();
        let mut i: usize = 0;
        while i < bytes.len() && bytes[i] != 0
            invariant
                bytes@ == bs,
                i <= bs.len(),
                forall|j: int| 0 <= j < i ==> bs[j] != 0,
                self.data@ == old(self).data@ + bs.take(i as int),
                self.pos == old(self).pos,
            decreases bytes@.len() - i,
        {
            let b = bytes[i];
            self.data.push(b);
            proof {
                assert(self.data@ =~= old(self).data@ + bs.take(i + 1));
            }
            i += 1;
        }
        proof {
            lemma_first_nul_is(bs, i as int);
        }
        self.data.push(0);
        proof {
            assert(final(self).data@ =~= old(self).data@ + bs.take(first_nul(bs)).push(0));
        }
    }

    /// Reads an unsigned 8-bit integer.
    pub fn read_u8(&mut self) -> (r: Option<u8>)
        ensures
            final(self).data == old(self).data,
            old(self).pos < old(self).data@.len() ==> r == Some(
                old(self).data@[old(self).pos as int],
            ) && final(self).pos == old(self).pos + 1,
            old(self).pos >= old(self).data@.len() ==> r is None && final(self).pos == old(
                self,
            ).data@.len(),
    {
        if self.pos < self.data.len() {
            let v = self.data[self.pos];
            self.pos = self.pos + 1;
            Some(v)
        } else {
            self.pos = self.data.len();
            None
        }
    }

    /// Reads a signed 8-bit integer.
    pub fn read_i8(&mut self) -> (r: Option<i8>)
        ensures
            final(self).data == old(self).data,
            old(self).pos < old(self).data@.len() ==> r == Some(
                old(self).data@[old(self).pos as int] as i8,
            ) && final(self).pos == old(self).pos + 1,
            old(self).pos >= old(self).data@.len() ==> r is None && final(self).pos == old(
                self,
            ).data@.len(),
    {
        match self.read_u8() {
            Some(v) => Some(v as i8),
            None => None,
        }
    }

    /// Reads an unsigned 16-bit integer in big-endian order.
    pub fn read_u16(&mut self) -> (r: Option<u16>)
        ensures
            final(self).data == old(self).data,
            old(self).pos + 2 <= old(self).data@.len() ==> r == Some(
                u16_be(
                    old(self).data@[old(self).pos as int],
                    old(self).data@[old(self).pos + 1],
                ),
            ) && final(self).pos == old(self).pos + 2,
            old(self).pos + 2 > old(self).data@.len() ==> r is None && final(self).pos == old(
                self,
            ).data@.len(),
    {
        if self.pos < self.data.len() && self.data.len() - self.pos >= 2 {
            let b0 = self.data[self.pos];
            let b1 = self.data[self.pos + 1];
            self.pos = self.pos + 2;
            Some((b0 as u16) * 256 + (b1 as u16))
        } else {
            self.pos = self.data.len();
            None
        }
    }

    /// Reads a signed 16-bit integer in big-endian order.
    pub fn read_i16(&mut self) -> (r: Option<i16>)
        ensures
            final(self).data == old(self).data,
            old(self).pos + 2 <= old(self).data@.len() ==> r == Some(
                u16_be(
                    old(self).data@[old(self).pos as int],
                    old(self).data@[old(self).pos + 1],
                ) as i16,
            ) && final(self).pos == old(self).pos + 2,
            old(self).pos + 2 > old(self).data@.len() ==> r is None && final(self).pos == old(
                self,
            ).data@.len(),
    {
        match self.read_u16() {
            Some(v) => Some(v as i16),
            None => None,
        }
    }

    /// Reads an unsigned 32-bit integer in big-endian order.
    pub fn read_u32(&mut self) -> (r: Option<u32>)
        ensures
            final(self).data == old(self).data,
            old(self).pos + 4 <= old(self).data@.len() ==> r == Some(
                u32_be(
                    old(self).data@[old(self).pos as int],
                    old(self).data@[old(self).pos + 1],
                    old(self).data@[old(self).pos + 2],
                    old(self).data@[old(self).pos + 3],
                ),
            ) && final(self).pos == old(self).pos + 4,
            old(self).pos + 4 > old(self).data@.len() ==> r is None && final(self).pos == old(
                self,
            ).data@.len(),
    {
        if self.pos < self.data.len() && self.data.len() - self.pos >= 4 {
            let b0 = self.data[self.pos];
            let b1 = self.data[self.pos + 1];
            let b2 = self.data[self.pos + 2];
            let b3 = self.data[self.pos + 3];
            self.pos = self.pos + 4;
            Some((b0 as u32) * 0x1000000 + (b1 as u32) * 0x10000 + (b2 as u32) * 256 + (b3 as u32))
        } else {
            self.pos = self.data.len();
            None
        }
    }

    /// Reads a signed 32-bit integer in big-endian order.
    pub fn read_i32(&mut self) -> (r: Option<i32>)
        ensures
            final(self).data == old(self).data,
            old(self).pos + 4 <= old(self).data@.len() ==> r == Some(
                u32_be(
                    old(self).data@[old(self).pos as int],
                    old(self).data@[old(self).pos + 1],
                    old(self).data@[old(self).pos + 2],
                    old(self).data@[old(self).pos + 3],
                ) as i32,
            ) && final(self).pos == old(self).pos + 4,
            old(self).pos + 4 > old(self).data@.len() ==> r is None && final(self).pos == old(
                self,
            ).data@.len(),
    {
        match self.read_u32() {
            Some(v) => Some(v as i32),
            None => None,
        }
    }

    /// Reads a NUL-terminated string, decoding its bytes as UTF-8 with
    /// replacement of invalid sequences. Fails when no terminator is
    /// found before the end of the packet.
    pub fn read_string(&mut self) -> (r: Option<String>)
        ensures
            final(self).data == old(self).data,
            ({
                let p = old(self).pos as int;
                let d = old(self).data@;
                let ok = p <= d.len() && p + first_nul(d.skip(p)) < d.len();
                &&& (ok ==> {
                    let t = p + first_nul(d.skip(p));
                    &&& r matches Some(s) && s@ == lossy_decode(d.subrange(p, t))
                    &&& (valid_utf8(d.subrange(p, t)) ==> lossy_decode(d.subrange(p, t))
                        == decode_utf8(d.subrange(p, t)))
                    &&& final(self).pos == t + 1
                })
                &&& (!ok ==> r is None && final(self).pos == d.len())
            }),
    {
        let ghost d = self.data@;
        let ghost p = self.pos as int;
        if self.pos >= self.data.len() {
            self.pos = self.data.len();
            proof {
                if p <= d.len() {
                    lemma_first_nul_bounds(d.skip(p));
                }
            }
            return None;
        }
        let mut t: usize = self.pos;
        while t < self.data.len() && self.data[t] != 0
            invariant
                self == old(self),
                d == self.data@,
                p == self.pos as int,
                p <= t as int <= d.len(),
                forall|j: int| p <= j < t as int ==> d[j] != 0,
            decreases self.data@.len() - t,
        {
            t += 1;
        }
        proof {
            assert forall|j: int| 0 <= j < t as int - p implies d.skip(p)[j] != 0 by {
                assert(d.skip(p)[j] == d[p + j]);
            }
            if (t as int) < d.len() {
                assert(d.skip(p)[t as int - p] == d[t as int]);
            }
            lemma_first_nul_is(d.skip(p), t as int - p);
        }
        if t == self.data.len() {
            self.pos = self.data.len();
            return None;
        }
        let mut bytes: Vec<u8> = Vec::new();
        let mut i: usize = self.pos;
        while i < t
            invariant
                d == self.data@,
                p == self.pos as int,
                p <= i as int <= t as int <= d.len(),
                bytes@ == d.subrange(p, i as int),
            decreases t - i,
        {
            let b = self.data[i];
            bytes.push(b);
            proof {
                assert(bytes@ =~= d.subrange(p, i + 1));
            }
            i += 1;
        }
        let s = lossy_string(&bytes);
        self.pos = t + 1;
        Some(s)
    }

    /// Reads a NUL-terminated string, keeping only printable ASCII and
    /// whitespace bytes. Fails when no terminator is found.
    pub fn read_safe_string(&mut self) -> (r: Option<String>)
        ensures
            final(self).data == old(self).data,
            ({
                let p = old(self).pos as int;
                let d = old(self).data@;
                let ok = p <= d.len() && p + first_nul(d.skip(p)) < d.len();
                &&& (ok ==> {
                    let t = p + first_nul(d.skip(p));
                    &&& r matches Some(s) && s@ == ascii_chars(keep_safe(d.subrange(p, t)))
                    &&& final(self).pos == t + 1
                })
                &&& (!ok ==> r is None && final(self).pos == d.len())
            }),
    {
        let ghost d = self.data@;
        let ghost p = self.pos as int;
        if self.pos >= self.data.len() {
            self.pos = self.data.len();
            proof {
                if p <= d.len() {
                    lemma_first_nul_bounds(d.skip(p));
                }
            }
            return None;
        }
        let mut t: usize = self.pos;
        while t < self.data.len() && self.data[t] != 0
            invariant
                self == old(self),
                d == self.data@,
                p == self.pos as int,
                p <= t as int <= d.len(),
                forall|j: int| p <= j < t as int ==> d[j] != 0,
            decreases self.data@.len() - t,
        {
            t += 1;
        }
        proof {
            assert forall|j: int| 0 <= j < t as int - p implies d.skip(p)[j] != 0 by {
                assert(d.skip(p)[j] == d[p + j]);
            }
            if (t as int) < d.len() {
                assert(d.skip(p)[t as int - p] == d[t as int]);
            }
            lemma_first_nul_is(d.skip(p), t as int - p);
        }
        if t == self.data.len() {
            self.pos = self.data.len();
            return None;
        }
        let ghost raw = d.subrange(p, t as int);
        let mut bytes: Vec<u8> = Vec::new();
        let mut i: usize = self.pos;
        while i < t
            invariant
                d == self.data@,
                p == self.pos as int,
                p <= i as int <= t as int <= d.len(),
                raw == d.subrange(p, t as int),
                bytes@ == keep_safe(raw.take(i as int - p)),
            decreases t - i,
        {
            let b = self.data[i];
            proof {
                assert(raw.take(i as int - p + 1).drop_last() =~= raw.take(i as int - p));
                assert(raw.take(i as int - p + 1).last() == b);
            }
            if (9 <= b && b <= 13) || (0x20 <= b && b <= 0x7e) {
                bytes.push(b);
            }
            i += 1;
        }
        proof {
            assert(raw.take(t as int - p) =~= raw);
            lemma_keep_safe_all(raw);
            lemma_ascii_decode(bytes@);
        }
        let s = lossy_string(&bytes);
        self.pos = t + 1;
        Some(s)
    }

    /// Reads a raw 20-byte SHA-1 digest.
    pub fn read_sha1sum(&mut self) -> (r: Option<Vec<u8>>)
        ensures
            final(self).data == old(self).data,
            old(self).pos + 20 <= old(self).data@.len() ==> (r matches Some(v) && v@ == old(
                self,
            ).data@.subrange(old(self).pos as int, old(self).pos + 20)) && final(self).pos == old(
                self,
            ).pos + 20,
            old(self).pos + 20 > old(self).data@.len() ==> r is None && final(self).pos == old(
                self,
            ).data@.len(),
    {
        if self.pos < self.data.len() && self.data.len() - self.pos >= 20 {
            let ghost p = self.pos as int;
            let mut v: Vec<u8> = Vec::new();
            let mut i: usize = 0;
            while i < 20
                invariant
                    i <= 20,
                    p == self.pos as int,
                    p + 20 <= self.data@.len(),
                    self.data@.len() <= usize::MAX,
                    self == old(self),
                    v@ == self.data@.subrange(p, p + i as int),
                decreases 20 - i,
            {
                let b = self.data[self.pos + i];
                v.push(b);
                proof {
                    assert(v@ =~= self.data@.subrange(p, p + i + 1));
                }
                i += 1;
            }
            self.pos = self.pos + 20;
            Some(v)
        } else {
            self.pos = self.data.len();
            None
        }
    }

    /// Moves the read cursor back to the beginning of the packet.
    pub fn reset(&mut self)
        ensures
            final(self).data == old(self).data,
            final(self).pos == 0,
    {
        self.pos = 0;
    }
}

/// Contributes `n` bytes when the field is present.
pub open spec fn cnt(b: bool, n: int) -> int {
    if b {
        n
    } else {
        0
    }
}

/// How many payload bytes follow a diff's mask byte.
pub open spec fn diff_payload_len(m: u8, lowres: bool) -> int {
    cnt(m & 0x01 != 0, 1) + cnt(m & 0x02 != 0, 1) + cnt(
        m & 0x04 != 0,
        if lowres {
            1
        } else {
            2
        },
    ) + cnt(m & 0x08 != 0, 1) + cnt(m & 0x10 != 0, 1) + cnt(m & 0x20 != 0, 1) + cnt(
        m & 0x40 != 0,
        2,
    ) + cnt(m & 0x80 != 0, 3)
}

/// The single byte a turn is compressed to in low-resolution sessions:
/// the angle divided by 256, rounded toward zero.
pub open spec fn lowres_turn_byte(a: i16) -> i8 {
    (if a >= 0 {
        (a as int) / 256
    } else {
        -((-(a as int)) / 256)
    }) as i8
}

/// Wire form of the first four optional fields: movement, strafe, turn
/// and buttons.
pub open spec fn diff_wire_front(d: NetTicDiff, lowres: bool) -> Seq<u8> {
    (if d.diff & 0x01 != 0 {
        seq![d.cmd.forwardmove as u8]
    } else {
        Seq::<u8>::empty()
    }) + (if d.diff & 0x02 != 0 {
        seq![d.cmd.sidemove as u8]
    } else {
        Seq::<u8>::empty()
    }) + (if d.diff & 0x04 != 0 {
        if lowres {
            seq![lowres_turn_byte(d.cmd.angleturn) as u8]
        } else {
            be2(d.cmd.angleturn as u16)
        }
    } else {
        Seq::<u8>::empty()
    }) + (if d.diff & 0x08 != 0 {
        seq![d.cmd.buttons]
    } else {
        Seq::<u8>::empty()
    })
}

/// Wire form of the last four optional fields: consistency, chat
/// character, raven pair and strife pair.
pub open spec fn diff_wire_back(d: NetTicDiff) -> Seq<u8> {
    (if d.diff & 0x10 != 0 {
        seq![d.cmd.consistancy]
    } else {
        Seq::<u8>::empty()
    }) + (if d.diff & 0x20 != 0 {
        seq![d.cmd.chatchar]
    } else {
        Seq::<u8>::empty()
    }) + (if d.diff & 0x40 != 0 {
        seq![d.cmd.lookfly, d.cmd.arti]
    } else {
        Seq::<u8>::empty()
    }) + (if d.diff & 0x80 != 0 {
        seq![d.cmd.buttons2] + be2((d.cmd.inventory as i16) as u16)
    } else {
        Seq::<u8>::empty()
    })
}

/// The wire form of a diff: the mask byte, then each present field in
/// fixed order.
pub open spec fn diff_wire(d: NetTicDiff, lowres: bool) -> Seq<u8> {
    seq![d.diff as u8] + diff_wire_front(d, lowres) + diff_wire_back(d)
}

/// The diff a successful read at position `p` yields: the mask byte and
/// each present field at its cumulative offset; absent fields are zero.
pub open spec fn spec_read_diff(d: Seq<u8>, p: int, lowres: bool) -> NetTicDiff {
    let m = d[p];
    let o1 = p + 1;
    let o2 = o1 + cnt(m & 0x01 != 0, 1);
    let o3 = o2 + cnt(m & 0x02 != 0, 1);
    let o4 = o3 + cnt(
        m & 0x04 != 0,
        if lowres {
            1
        } else {
            2
        },
    );
    let o5 = o4 + cnt(m & 0x08 != 0, 1);
    let o6 = o5 + cnt(m & 0x10 != 0, 1);
    let o7 = o6 + cnt(m & 0x20 != 0, 1);
    let o8 = o7 + cnt(m & 0x40 != 0, 2);
    NetTicDiff {
        diff: m as u32,
        cmd: TicCmd {
            forwardmove: if m & 0x01 != 0 {
                d[o1] as i8
            } else {
                0
            },
            sidemove: if m & 0x02 != 0 {
                d[o2] as i8
            } else {
                0
            },
            angleturn: if m & 0x04 != 0 {
                if lowres {
                    (((d[o3] as i8) as int) * 256) as i16
                } else {
                    u16_be(d[o3], d[o3 + 1]) as i16
                }
            } else {
                0
            },
            buttons: if m & 0x08 != 0 {
                d[o4]
            } else {
                0
            },
            consistancy: if m & 0x10 != 0 {
                d[o5]
            } else {
                0
            },
            chatchar: if m & 0x20 != 0 {
                d[o6]
            } else {
                0
            },
            lookfly: if m & 0x40 != 0 {
                d[o7]
            } else {
                0
            },
            arti: if m & 0x40 != 0 {
                d[o7 + 1]
            } else {
                0
            },
            buttons2: if m & 0x80 != 0 {
                d[o8]
            } else {
                0
            },
            inventory: if m & 0x80 != 0 {
                (u16_be(d[o8 + 1], d[o8 + 2]) as i16) as i32
            } else {
                0
            },
        },
    }
}

impl NetPacket {
    /// Appends a diff in its wire form; the turn field shrinks to one
    /// byte in low-resolution sessions.
    fn write_diff_front(&mut self, diff: &NetTicDiff, lowres_turn: bool)
        ensures
            final(self).data@ == old(self).data@ + diff_wire_front(*diff, lowres_turn),
            final(self).pos == old(self).pos,
    {
        if diff.diff & NET_TICDIFF_FORWARD != 0 {
            self.write_i8(diff.cmd.forwardmove);
        }
        if diff.diff & NET_TICDIFF_SIDE != 0 {
            self.write_i8(diff.cmd.sidemove);
        }
        if diff.diff & NET_TICDIFF_TURN != 0 {
            if lowres_turn {
                let a = diff.cmd.angleturn;
                let q: i8;
                if a >= 0 {
                    q = ((a as u16) / 256) as i8;
                } else {
                    let na: i32 = -(a as i32);
                    let qq: i32 = ((na as u32) / 256) as i32;
                    q = (0 - qq) as i8;
                }
                assert(q == lowres_turn_byte(a));
                self.write_i8(q);
            } else {
                self.write_i16(diff.cmd.angleturn);
            }
        }
        if diff.diff & NET_TICDIFF_BUTTONS != 0 {
            self.write_u8(diff.cmd.buttons);
        }
        proof {
            assert(final(self).data@ =~= old(self).data@ + diff_wire_front(*diff, lowres_turn));
        }
    }

    fn write_diff_back(&mut self, diff: &NetTicDiff)
        ensures
            final(self).data@ == old(self).data@ + diff_wire_back(*diff),
            final(self).pos == old(self).pos,
    {
        if diff.diff & NET_TICDIFF_CONSISTANCY != 0 {
            self.write_u8(diff.cmd.consistancy);
        }
        if diff.diff & NET_TICDIFF_CHATCHAR != 0 {
            self.write_u8(diff.cmd.chatchar);
        }
        if diff.diff & NET_TICDIFF_RAVEN != 0 {
            self.write_u8(diff.cmd.lookfly);
            self.write_u8(diff.cmd.arti);
        }
        if diff.diff & NET_TICDIFF_STRIFE != 0 {
            self.write_u8(diff.cmd.buttons2);
            self.write_i16(diff.cmd.inventory as i16);
        }
        proof {
            assert(final(self).data@ =~= old(self).data@ + diff_wire_back(*diff));
        }
    }

    /// Appends a diff in its wire form; the turn field shrinks to one
    /// byte in low-resolution sessions.
    pub fn write_ticcmd_diff(&mut self, diff: &NetTicDiff, lowres_turn: bool)
        ensures
            final(self).data@ == old(self).data@ + diff_wire(*diff, lowres_turn),
            final(self).pos == old(self).pos,
    {
        self.write_u8(diff.diff as u8);
        self.write_diff_front(diff, lowres_turn);
        self.write_diff_back(diff);
        proof {
            assert(final(self).data@ =~= old(self).data@ + diff_wire(*diff, lowres_turn));
        }
    }

    #[verifier::rlimit(100)]
    pub fn read_ticcmd_diff(&mut self, lowres_turn: bool) -> (r: Option<NetTicDiff>)
        ensures
            final(self).data == old(self).data,
            ({
                let p = old(self).pos as int;
                let d = old(self).data@;
                let ok = p < d.len() && p + 1 + diff_payload_len(d[p], lowres_turn) <= d.len();
                &&& (ok ==> r == Some(spec_read_diff(d, p, lowres_turn)) && final(self).pos == p + 1
                    + diff_payload_len(d[p], lowres_turn))
                &&& (!ok ==> r is None && final(self).pos == d.len())
            }),
    {
        let ghost d = self.data@;
        let ghost p = self.pos as int;
        let m = match self.read_u8() {
            Some(v) => v,
            None => {
                return None;
            },
        };
        let ghost o1 = p + 1;
        let ghost o2 = o1 + cnt(m & 0x01 != 0, 1);
        let ghost o3 = o2 + cnt(m & 0x02 != 0, 1);
        let ghost o4 = o3 + cnt(
            m & 0x04 != 0,
            if lowres_turn {
                1
            } else {
                2
            },
        );
        let ghost o5 = o4 + cnt(m & 0x08 != 0, 1);
        let ghost o6 = o5 + cnt(m & 0x10 != 0, 1);
        let ghost o7 = o6 + cnt(m & 0x20 != 0, 1);
        let ghost o8 = o7 + cnt(m & 0x40 != 0, 2);
        let ghost oend = o8 + cnt(m & 0x80 != 0, 3);
        proof {
            assert(oend == p + 1 + diff_payload_len(d[p], lowres_turn));
        }
        let mut cmd = TicCmd::default();
        if m & 0x01 != 0 {
            match self.read_i8() {
                Some(v) => {
                    cmd.forwardmove = v;
                },
                None => {
                    return None;
                },
            }
        }
        proof {
            assert(self.pos == o2);
        }
        if m & 0x02 != 0 {
            match self.read_i8() {
                Some(v) => {
                    cmd.sidemove = v;
                },
                None => {
                    return None;
                },
            }
        }
        proof {
            assert(self.pos == o3);
        }
        if m & 0x04 != 0 {
            if lowres_turn {
                match self.read_i8() {
                    Some(v) => {
                        cmd.angleturn = (v as i16) * 256;
                    },
                    None => {
                        return None;
                    },
                }
            } else {
                match self.read_i16() {
                    Some(v) => {
                        cmd.angleturn = v;
                    },
                    None => {
                        return None;
                    },
                }
            }
        }
        proof {
            assert(self.pos == o4);
        }
        if m & 0x08 != 0 {
            match self.read_u8() {
                Some(v) => {
                    cmd.buttons = v;
                },
                None => {
                    return None;
                },
            }
        }
        proof {
            assert(self.pos == o5);
        }
        if m & 0x10 != 0 {
            match self.read_u8() {
                Some(v) => {
                    cmd.consistancy = v;
                },
                None => {
                    return None;
                },
            }
        }
        proof {
            assert(self.pos == o6);
        }
        if m & 0x20 != 0 {
            match self.read_u8() {
                Some(v) => {
                    cmd.chatchar = v;
                },
                None => {
                    return None;
                },
            }
        }
        proof {
            assert(self.pos == o7);
        }
        if m & 0x40 != 0 {
            match self.read_u8() {
                Some(v) => {
                    cmd.lookfly = v;
                },
                None => {
                    return None;
                },
            }
            match self.read_u8() {
                Some(v) => {
                    cmd.arti = v;
                },
                None => {
                    return None;
                },
            }
        }
        proof {
            assert(self.pos == o8);
        }
        if m & 0x80 != 0 {
            match self.read_u8() {
                Some(v) => {
                    cmd.buttons2 = v;
                },
                None => {
                    return None;
                },
            }
            match self.read_i16() {
                Some(v) => {
                    cmd.inventory = v as i32;
                },
                None => {
                    return None;
                },
            }
        }
        proof {
            assert(self.pos == oend);
            let sd = spec_read_diff(d, p, lowres_turn);
            assert(cmd.forwardmove == sd.cmd.forwardmove);
            assert(cmd.sidemove == sd.cmd.sidemove);
            assert(cmd.angleturn == sd.cmd.angleturn);
            assert(cmd.buttons == sd.cmd.buttons);
            assert(cmd.consistancy == sd.cmd.consistancy);
            assert(cmd.chatchar == sd.cmd.chatchar);
            assert(cmd.lookfly == sd.cmd.lookfly);
            assert(cmd.arti == sd.cmd.arti);
            assert(cmd.buttons2 == sd.cmd.buttons2);
            assert(cmd.inventory == sd.cmd.inventory);
        }
        Some(NetTicDiff { diff: m as u32, cmd })
    }
}


/// Each character taken as one byte; exact for ASCII text.
pub open spec fn ascii_bytes(s: Seq<char>) -> Seq<u8> {
    Seq::new(s.len(), |i: int| s[i] as u8)
}


/// The wire form of a NUL-terminated string: its bytes up to the first
/// NUL, then the terminator.
pub open spec fn str_z(s: Seq<char>) -> Seq<u8> {
    let b = encode_utf8(s);
    b.take(first_nul(b)).push(0)
}

/// The wire form of the one protocol this client speaks.
pub open spec fn protocol_wire() -> Seq<u8> {
    ascii_bytes("CHOCOLATE_DOOM_0"@).push(0)
}

/// The wire form of the fields a client announces in its SYN.
pub open spec fn connect_wire(c: ConnectData) -> Seq<u8> {
    seq![
        c.gamemode as u8,
        c.gamemission as u8,
        c.lowres_turn as u8,
        c.drone as u8,
        c.max_players as u8,
        c.is_freedoom as u8,
    ] + c.wad_sha1sum@ + c.deh_sha1sum@ + seq![c.player_class as u8]
}

/// The wire form of the game settings, ending in one class byte per
/// announced player.
pub open spec fn settings_wire(s: GameSettings) -> Seq<u8> {
    seq![
        s.ticdup as u8,
        s.extratics as u8,
        s.deathmatch as u8,
        s.nomonsters as u8,
        s.fast_monsters as u8,
        s.respawn_monsters as u8,
        s.episode as u8,
        s.map as u8,
        (s.skill as i8) as u8,
        s.gameversion as u8,
        s.lowres_turn as u8,
        s.new_sync as u8,
    ] + be4(s.timelimit) + seq![
        (s.loadgame as i8) as u8,
        s.random as u8,
        s.num_players as u8,
        (s.consoleplayer as i8) as u8,
    ] + Seq::new(s.num_players as nat, |i: int| s.player_classes@[i] as u8)
}

impl NetPacket {
    /// Reads the protocol name the peer announces; an unrecognised or
    /// unterminated name yields `Unknown`.
    pub fn read_protocol(&mut self) -> (r: NetProtocol)
        ensures
            final(self).data == old(self).data,
            ({
                let p = old(self).pos as int;
                let d = old(self).data@;
                let ok = p <= d.len() && p + first_nul(d.skip(p)) < d.len();
                &&& (ok ==> {
                    let t = p + first_nul(d.skip(p));
                    &&& (r == NetProtocol::ChocolateDoom0 <==> lossy_decode(d.subrange(p, t))
                        == "CHOCOLATE_DOOM_0"@)
                    &&& final(self).pos == t + 1
                })
                &&& (!ok ==> r == NetProtocol::Unknown && final(self).pos == d.len())
            }),
    {
        match self.read_string() {
            Some(name) => {
                let target = String::from_str("CHOCOLATE_DOOM_0");
                if name == target {
                    NetProtocol::ChocolateDoom0
                } else {
                    NetProtocol::Unknown
                }
            },
            None => NetProtocol::Unknown,
        }
    }

    /// Appends the wire name of a protocol; only the one known protocol
    /// can be written.
    pub fn write_protocol(&mut self, protocol: NetProtocol)
        requires
            protocol != NetProtocol::Unknown,
        ensures
            final(self).data@ == old(self).data@ + protocol_wire(),
            final(self).pos == old(self).pos,
    {
        proof {
            reveal_strlit("CHOCOLATE_DOOM_0");
        }
        let name: &str = "CHOCOLATE_DOOM_0";
        proof {
            let cs = name@;
            assert(is_ascii_chars(cs)) by {
                assert forall|i: int| 0 <= i < cs.len() implies (cs[i] as nat) < 128 by {
                    assert(cs.len() == 16);
                }
            }
            is_ascii_chars_encode_utf8(cs);
            assert(name.spec_bytes() =~= ascii_bytes(cs));
            assert forall|j: int| 0 <= j < name.spec_bytes().len() implies name.spec_bytes()[j]
                != 0 by {
                assert(name.spec_bytes()[j] == cs[j] as u8);
            }
            lemma_first_nul_is(name.spec_bytes(), name.spec_bytes().len() as int);
            assert(name.spec_bytes().take(first_nul(name.spec_bytes())) =~= name.spec_bytes());
        }
        self.write_string(name);
    }

    /// Appends the list of protocols this client supports: its count,
    /// then each name.
    pub fn write_protocol_list(&mut self)
        ensures
            final(self).data@ == old(self).data@ + seq![1u8] + protocol_wire(),
            final(self).pos == old(self).pos,
    {
        self.write_u8(1);
        self.write_protocol(NetProtocol::ChocolateDoom0);
        proof {
            assert(final(self).data@ =~= old(self).data@ + seq![1u8] + protocol_wire());
        }
    }

    /// Appends the connection data carried in a SYN.
    pub fn write_connect_data(&mut self, data: &ConnectData)
        requires
            data.wf(),
        ensures
            final(self).data@ == old(self).data@ + connect_wire(*data),
            final(self).pos == old(self).pos,
    {
        self.write_u8(data.gamemode as u8);
        self.write_u8(data.gamemission as u8);
        self.write_u8(data.lowres_turn as u8);
        self.write_u8(data.drone as u8);
        self.write_u8(data.max_players as u8);
        self.write_u8(data.is_freedoom as u8);
        self.write_blob(&data.wad_sha1sum);
        self.write_blob(&data.deh_sha1sum);
        self.write_u8(data.player_class as u8);
        proof {
            assert(final(self).data@ =~= old(self).data@ + connect_wire(*data));
        }
    }

    /// Appends the game settings; the number of announced players picks
    /// how many class bytes follow.
    pub fn write_settings(&mut self, settings: &GameSettings)
        requires
            settings.wf(),
            0 <= settings.num_players <= 8,
        ensures
            final(self).data@ == old(self).data@ + settings_wire(*settings),
            final(self).pos == old(self).pos,
    {
        let ghost d0 = old(self).data@;
        self.write_u8(settings.ticdup as u8);
        self.write_u8(settings.extratics as u8);
        self.write_u8(settings.deathmatch as u8);
        self.write_u8(settings.nomonsters as u8);
        self.write_u8(settings.fast_monsters as u8);
        self.write_u8(settings.respawn_monsters as u8);
        self.write_u8(settings.episode as u8);
        self.write_u8(settings.map as u8);
        self.write_i8(settings.skill as i8);
        self.write_u8(settings.gameversion as u8);
        self.write_u8(settings.lowres_turn as u8);
        self.write_u8(settings.new_sync as u8);
        self.write_u32(settings.timelimit);
        self.write_i8(settings.loadgame as i8);
        self.write_u8(settings.random as u8);
        self.write_u8(settings.num_players as u8);
        self.write_i8(settings.consoleplayer as i8);
        let ghost mid = self.data@;
        let n: usize = settings.num_players as usize;
        let mut i: usize = 0;
        while i < n
            invariant
                n == settings.num_players as usize,
                settings.wf(),
                i <= n <= 8,
                self.pos == old(self).pos,
                self.data@ == mid + Seq::new(i as nat, |j: int| settings.player_classes@[j] as u8),
            decreases n - i,
        {
            let c = settings.player_classes[i];
            self.write_u8(c as u8);
            proof {
                assert(self.data@ =~= mid + Seq::new(
                    (i + 1) as nat,
                    |j: int| settings.player_classes@[j] as u8,
                ));
            }
            i += 1;
        }
        proof {
            assert(final(self).data@ =~= d0 + settings_wire(*settings));
        }
    }

    /// Reads game settings written by `write_settings`. Fails, leaving
    /// the cursor at the end, on a short buffer or a player count above
    /// the supported maximum.
    pub fn read_settings(&mut self) -> (r: Option<GameSettings>)
        ensures
            final(self).data == old(self).data,
            ({
                let p = old(self).pos as int;
                let d = old(self).data@;
                let ok = p + 20 <= d.len() && d[p + 18] <= 8 && p + 20 + d[p + 18] <= d.len();
                &&& (ok ==> (r matches Some(st) && st.wf() && st.ticdup == d[p] as i32
                    && st.extratics == d[p + 1] as i32 && st.deathmatch == d[p + 2] as i32
                    && st.nomonsters == d[p + 3] as i32 && st.fast_monsters == d[p + 4] as i32
                    && st.respawn_monsters == d[p + 5] as i32 && st.episode == d[p + 6] as i32
                    && st.map == d[p + 7] as i32 && st.skill == (d[p + 8] as i8) as i32
                    && st.gameversion == d[p + 9] as i32 && st.lowres_turn == d[p + 10] as i32
                    && st.new_sync == d[p + 11] as i32 && st.timelimit == u32_be(
                    d[p + 12],
                    d[p + 13],
                    d[p + 14],
                    d[p + 15],
                ) && st.loadgame == (d[p + 16] as i8) as i32 && st.random == d[p + 17] as i32
                    && st.num_players == d[p + 18] as i32 && st.consoleplayer == (d[p
                    + 19] as i8) as i32 && (forall|j: int|
                    0 <= j < d[p + 18] ==> st.player_classes@[j] == d[p + 20 + j] as i32) && (
                forall|j: int|
                    d[p + 18] <= j < 8 ==> st.player_classes@[j] == 0) && final(self).pos == p + 20
                    + d[p + 18]))
                &&& (!ok ==> r is None && final(self).pos == d.len())
            }),
    {
        let defaults = GameSettings::default();
        let v_ticdup = match self.read_u8() {
            Some(v) => v as i32,
            None => {
                return None;
            },
        };
        let v_extratics = match self.read_u8() {
            Some(v) => v as i32,
            None => {
                return None;
            },
        };
        let v_deathmatch = match self.read_u8() {
            Some(v) => v as i32,
            None => {
                return None;
            },
        };
        let v_nomonsters = match self.read_u8() {
            Some(v) => v as i32,
            None => {
                return None;
            },
        };
        let v_fast = match self.read_u8() {
            Some(v) => v as i32,
            None => {
                return None;
            },
        };
        let v_respawn = match self.read_u8() {
            Some(v) => v as i32,
            None => {
                return None;
            },
        };
        let v_episode = match self.read_u8() {
            Some(v) => v as i32,
            None => {
                return None;
            },
        };
        let v_map = match self.read_u8() {
            Some(v) => v as i32,
            None => {
                return None;
            },
        };
        let v_skill = match self.read_i8() {
            Some(v) => v as i32,
            None => {
                return None;
            },
        };
        let v_gameversion = match self.read_u8() {
            Some(v) => v as i32,
            None => {
                return None;
            },
        };
        let v_lowres = match self.read_u8() {
            Some(v) => v as i32,
            None => {
                return None;
            },
        };
        let v_new_sync = match self.read_u8() {
            Some(v) => v as i32,
            None => {
                return None;
            },
        };
        let v_timelimit = match self.read_u32() {
            Some(v) => v,
            None => {
                return None;
            },
        };
        let v_loadgame = match self.read_i8() {
            Some(v) => v as i32,
            None => {
                return None;
            },
        };
        let v_random = match self.read_u8() {
            Some(v) => v as i32,
            None => {
                return None;
            },
        };
        let v_num_players = match self.read_u8() {
            Some(v) => v as i32,
            None => {
                return None;
            },
        };
        let v_consoleplayer = match self.read_i8() {
            Some(v) => v as i32,
            None => {
                return None;
            },
        };
        if v_num_players > 8 {
            self.pos = self.data.len();
            return None;
        }
        let n: usize = v_num_players as usize;
        let ghost base = self.pos as int;
        let mut classes = defaults.player_classes;
        let mut i: usize = 0;
        #[verifier::loop_isolation(false)]
        while i < n
            invariant
                i <= n,
                classes@.len() == 8,
                self.data == old(self).data,
                self.pos == base + i,
                base + i <= self.data@.len(),
                forall|j: int| 0 <= j < i ==> classes@[j] == self.data@[base + j] as i32,
                forall|j: int| i <= j < 8 ==> classes@[j] == 0,
            decreases n - i,
        {
            let v = match self.read_u8() {
                Some(v) => v,
                None => {
                    return None;
                },
            };
            classes.set(i, v as i32);
            i += 1;
        }
        Some(
            GameSettings {
                ticdup: v_ticdup,
                extratics: v_extratics,
                deathmatch: v_deathmatch,
                nomonsters: v_nomonsters,
                fast_monsters: v_fast,
                respawn_monsters: v_respawn,
                episode: v_episode,
                map: v_map,
                skill: v_skill,
                gameversion: v_gameversion,
                lowres_turn: v_lowres,
                new_sync: v_new_sync,
                timelimit: v_timelimit,
                loadgame: v_loadgame,
                random: v_random,
                num_players: v_num_players,
                consoleplayer: v_consoleplayer,
                player_classes: classes,
            },
        )
    }
}


/// The mask bit of player slot `i` in a bundle's live-slot bitfield.
pub open spec fn player_bit(i: int) -> u8 {
    if i == 0 {
        1
    } else if i == 1 {
        2
    } else if i == 2 {
        4
    } else if i == 3 {
        8
    } else if i == 4 {
        16
    } else if i == 5 {
        32
    } else if i == 6 {
        64
    } else {
        128
    }
}

fn player_bit_exec(i: usize) -> (r: u8)
    requires
        i < 8,
    ensures
        r == player_bit(i as int),
{
    if i == 0 {
        1
    } else if i == 1 {
        2
    } else if i == 2 {
        4
    } else if i == 3 {
        8
    } else if i == 4 {
        16
    } else if i == 5 {
        32
    } else if i == 6 {
        64
    } else {
        128
    }
}

/// Whether a whole diff can be read at position `p`.
pub open spec fn diff_ok(d: Seq<u8>, p: int, lowres: bool) -> bool {
    p < d.len() && p + 1 + diff_payload_len(d[p], lowres) <= d.len()
}

/// The per-player diffs of a bundle, read for players `i` to 7: a live
/// player contributes a wire diff, a dead slot an all-zero one.
pub open spec fn spec_read_diffs(d: Seq<u8>, bits: u8, lowres: bool, p: int, i: int) -> Option<
    (Seq<NetTicDiff>, int),
>
    decreases 8 - i,
{
    if i >= 8 {
        Some((Seq::empty(), p))
    } else if bits & player_bit(i) != 0 {
        if diff_ok(d, p, lowres) {
            match spec_read_diffs(d, bits, lowres, p + 1 + diff_payload_len(d[p], lowres), i + 1) {
                Some(t) => Some((seq![spec_read_diff(d, p, lowres)] + t.0, t.1)),
                None => None,
            }
        } else {
            None
        }
    } else {
        match spec_read_diffs(d, bits, lowres, p, i + 1) {
            Some(t) => Some((seq![ticdiff_zero()] + t.0, t.1)),
            None => None,
        }
    }
}

/// Whether a NUL-terminated string starts at position `p`.
pub open spec fn str_ok(d: Seq<u8>, p: int) -> bool {
    p <= d.len() && p + first_nul(d.skip(p)) < d.len()
}

/// The name/address string pairs of `k` lobby players, each shorter than
/// the player-name bound.
pub open spec fn spec_read_names(d: Seq<u8>, p: int, k: int) -> Option<
    (Seq<Seq<char>>, Seq<Seq<char>>, int),
>
    decreases k,
{
    if k <= 0 {
        Some((Seq::empty(), Seq::empty(), p))
    } else if str_ok(d, p) {
        let t1 = p + first_nul(d.skip(p));
        let name = lossy_decode(d.subrange(p, t1));
        if name.len() < 30 {
            let p1 = t1 + 1;
            if str_ok(d, p1) {
                let t2 = p1 + first_nul(d.skip(p1));
                let addr = lossy_decode(d.subrange(p1, t2));
                if addr.len() < 30 {
                    match spec_read_names(d, t2 + 1, k - 1) {
                        Some(t) => Some((seq![name] + t.0, seq![addr] + t.1, t.2)),
                        None => None,
                    }
                } else {
                    None
                }
            } else {
                None
            }
        } else {
            None
        }
    } else {
        None
    }
}

impl NetPacket {
    /// Reads one server bundle: a latency estimate, the live-slot
    /// bitfield, and one diff per live player.
    pub fn read_full_ticcmd(&mut self, lowres_turn: bool) -> (r: Option<NetFullTicCmd>)
        ensures
            final(self).data == old(self).data,
            ({
                let p = old(self).pos as int;
                let d = old(self).data@;
                let hdr_ok = p + 3 <= d.len();
                &&& (hdr_ok ==> match spec_read_diffs(d, d[p + 2], lowres_turn, p + 3, 0) {
                    Some(t) => r matches Some(f) && f.wf() && f.latency == (u16_be(
                        d[p],
                        d[p + 1],
                    ) as i16) as i32 && f.seq == 0 && (forall|j: int|
                        0 <= j < 8 ==> f.playeringame@[j] == (d[p + 2] & player_bit(j) != 0))
                        && f.cmds@ == t.0 && final(self).pos == t.1,
                    None => r is None && final(self).pos == d.len(),
                })
                &&& (!hdr_ok ==> r is None && final(self).pos == d.len())
            }),
    {
        let ghost d = self.data@;
        let ghost p = self.pos as int;
        let latency = match self.read_i16() {
            Some(v) => v as i32,
            None => {
                return None;
            },
        };
        let bitfield = match self.read_u8() {
            Some(v) => v,
            None => {
                return None;
            },
        };
        let ghost p3 = self.pos as int;
        let mut playeringame: Vec<bool> = Vec::new();
        let mut i: usize = 0;
        #[verifier::loop_isolation(false)]
        while i < 8
            invariant
                i <= 8,
                playeringame@.len() == i,
                forall|j: int|
                    0 <= j < i ==> playeringame@[j] == (bitfield & player_bit(j) != 0),
            decreases 8 - i,
        {
            let bit = player_bit_exec(i);
            playeringame.push(bitfield & bit != 0);
            i += 1;
        }
        let mut cmds: Vec<NetTicDiff> = Vec::new();
        let mut k: usize = 0;
        #[verifier::loop_isolation(false)]
        while k < 8
            invariant
                k <= 8,
                cmds@.len() == k,
                self.data == old(self).data,
                match spec_read_diffs(d, bitfield, lowres_turn, self.pos as int, k as int) {
                    Some(t) => spec_read_diffs(d, bitfield, lowres_turn, p3, 0) == Some(
                        (cmds@ + t.0, t.1),
                    ),
                    None => spec_read_diffs(d, bitfield, lowres_turn, p3, 0) is None,
                },
            decreases 8 - k,
        {
            let ghost pos_before = self.pos as int;
            let bit = player_bit_exec(k);
            if bitfield & bit != 0 {
                match self.read_ticcmd_diff(lowres_turn) {
                    Some(df) => {
                        proof {
                            assert(diff_ok(d, pos_before, lowres_turn));
                            assert(df == spec_read_diff(d, pos_before, lowres_turn));
                        }
                        cmds.push(df);
                        proof {
                            match spec_read_diffs(
                                d,
                                bitfield,
                                lowres_turn,
                                self.pos as int,
                                k + 1,
                            ) {
                                Some(t) => {
                                    assert(cmds@ + t.0 =~= cmds@.drop_last() + (seq![df] + t.0));
                                },
                                None => {},
                            }
                        }
                    },
                    None => {
                        return None;
                    },
                }
            } else {
                cmds.push(NetTicDiff::default());
                proof {
                    match spec_read_diffs(d, bitfield, lowres_turn, self.pos as int, k + 1) {
                        Some(t) => {
                            assert(cmds@ + t.0 =~= cmds@.drop_last() + (seq![ticdiff_zero()]
                                + t.0));
                        },
                        None => {},
                    }
                }
            }
            k += 1;
        }
        proof {
            match spec_read_diffs(d, bitfield, lowres_turn, self.pos as int, 8) {
                Some(t) => {
                    assert(cmds@ + t.0 =~= cmds@);
                },
                None => {},
            }
        }
        Some(NetFullTicCmd { latency, seq: 0, playeringame, cmds })
    }

    /// Reads the lobby status: counts, the local slot, player names and
    /// addresses, the WAD and DEH digests and the freedoom flag.
    pub fn read_wait_data(&mut self) -> (r: Option<NetWaitData>)
        ensures
            final(self).data == old(self).data,
            ({
                let p = old(self).pos as int;
                let d = old(self).data@;
                let hdr_ok = p + 6 <= d.len() && d[p] <= 8;
                &&& (hdr_ok ==> match spec_read_names(d, p + 6, d[p] as int) {
                    Some(t) => {
                        let pe = t.2;
                        &&& (pe + 41 <= d.len() ==> (r matches Some(w) && w.wf() && w.num_players
                            == d[p] as i32 && w.num_drones == d[p + 1] as i32 && w.ready_players
                            == d[p + 2] as i32 && w.max_players == d[p + 3] as i32
                            && w.is_controller == d[p + 4] as i32 && w.consoleplayer == (d[p
                            + 5] as i8) as i32 && w.player_names.deep_view() == t.0
                            && w.player_addrs.deep_view() == t.1 && w.wad_sha1sum@ == d.subrange(
                            pe,
                            pe + 20,
                        ) && w.deh_sha1sum@ == d.subrange(pe + 20, pe + 40) && w.is_freedoom == d[pe
                            + 40] as i32 && final(self).pos == pe + 41))
                        &&& (pe + 41 > d.len() ==> r is None && final(self).pos == d.len())
                    },
                    None => r is None && final(self).pos == d.len(),
                })
                &&& (!hdr_ok ==> r is None && final(self).pos == d.len())
            }),
    {
        let ghost d = self.data@;
        let ghost p = self.pos as int;
        let v_num_players = match self.read_u8() {
            Some(v) => v,
            None => {
                return None;
            },
        };
        let v_num_drones = match self.read_u8() {
            Some(v) => v as i32,
            None => {
                return None;
            },
        };
        let v_ready = match self.read_u8() {
            Some(v) => v as i32,
            None => {
                return None;
            },
        };
        let v_max = match self.read_u8() {
            Some(v) => v as i32,
            None => {
                return None;
            },
        };
        let v_controller = match self.read_u8() {
            Some(v) => v as i32,
            None => {
                return None;
            },
        };
        let v_consoleplayer = match self.read_i8() {
            Some(v) => v as i32,
            None => {
                return None;
            },
        };
        if v_num_players > 8 {
            self.pos = self.data.len();
            return None;
        }
        let n: usize = v_num_players as usize;
        let ghost p6 = self.pos as int;
        let mut names: Vec<String> = Vec::new();
        let mut addrs: Vec<String> = Vec::new();
        let mut i: usize = 0;
        #[verifier::loop_isolation(false)]
        while i < n
            invariant
                i <= n,
                names@.len() == i,
                addrs@.len() == i,
                self.data == old(self).data,
                match spec_read_names(d, self.pos as int, n - i) {
                    Some(t) => spec_read_names(d, p6, n as int) == Some(
                        (names.deep_view() + t.0, addrs.deep_view() + t.1, t.2),
                    ),
                    None => spec_read_names(d, p6, n as int) is None,
                },
            decreases n - i,
        {
            let ghost pos0 = self.pos as int;
            let name = match self.read_string() {
                Some(v) => v,
                None => {
                    return None;
                },
            };
            if name.as_str().unicode_len() >= 30 {
                self.pos = self.data.len();
                return None;
            }
            let ghost pos1 = self.pos as int;
            let addr = match self.read_string() {
                Some(v) => v,
                None => {
                    return None;
                },
            };
            if addr.as_str().unicode_len() >= 30 {
                self.pos = self.data.len();
                return None;
            }
            let ghost nv = name@;
            let ghost av = addr@;
            let ghost dn = names.deep_view();
            let ghost da = addrs.deep_view();
            names.push(name);
            addrs.push(addr);
            proof {
                assert(names.deep_view() =~= dn.push(nv));
                assert(addrs.deep_view() =~= da.push(av));
                match spec_read_names(d, self.pos as int, n - i - 1) {
                    Some(t) => {
                        assert(names.deep_view() + t.0 =~= dn + (seq![nv] + t.0));
                        assert(addrs.deep_view() + t.1 =~= da + (seq![av] + t.1));
                    },
                    None => {},
                }
            }
            i += 1;
        }
        proof {
            match spec_read_names(d, self.pos as int, 0) {
                Some(t) => {
                    assert(names.deep_view() + t.0 =~= names.deep_view());
                    assert(addrs.deep_view() + t.1 =~= addrs.deep_view());
                },
                None => {},
            }
        }
        let wad = match self.read_sha1sum() {
            Some(v) => v,
            None => {
                return None;
            },
        };
        let deh = match self.read_sha1sum() {
            Some(v) => v,
            None => {
                return None;
            },
        };
        let v_freedoom = match self.read_u8() {
            Some(v) => v as i32,
            None => {
                return None;
            },
        };
        Some(
            NetWaitData {
                num_players: v_num_players as i32,
                num_drones: v_num_drones,
                ready_players: v_ready,
                max_players: v_max,
                is_controller: v_controller,
                consoleplayer: v_consoleplayer,
                player_names: names,
                player_addrs: addrs,
                wad_sha1sum: wad,
                deh_sha1sum: deh,
                is_freedoom: v_freedoom,
            },
        )
    }
}


// Round-trip laws of the codec: reading back what was written yields the
// original value, for every typed field.

/// Law: a byte appended by `write_u8` is the byte `read_u8` returns at
/// its position.
pub proof fn lemma_u8_wire_round_trip(pre: Seq<u8>, v: u8)
    ensures
        pre.push(v)[pre.len() as int] == v,
{
}

/// Law: an 8-bit signed value survives the unsigned byte form.
pub proof fn lemma_i8_wire_round_trip(v: i8)
    ensures
        (v as u8) as i8 == v,
{
    assert((v as u8) as i8 == v) by (bit_vector);
}

/// Law: the two big-endian bytes of a 16-bit value denote that value.
pub proof fn lemma_u16_wire_round_trip(v: u16)
    ensures
        u16_be(be2(v)[0], be2(v)[1]) == v,
{
}

/// Law: a 16-bit signed value survives its unsigned big-endian form.
pub proof fn lemma_i16_wire_round_trip(v: i16)
    ensures
        u16_be(be2(v as u16)[0], be2(v as u16)[1]) as i16 == v,
{
    assert((v as u16) as i16 == v) by (bit_vector);
}

/// Law: the four big-endian bytes of a 32-bit value denote that value.
pub proof fn lemma_u32_wire_round_trip(v: u32)
    ensures
        u32_be(be4(v)[0], be4(v)[1], be4(v)[2], be4(v)[3]) == v,
{
}

/// Law: a 32-bit signed value survives its unsigned big-endian form.
pub proof fn lemma_i32_wire_round_trip(v: i32)
    ensures
        u32_be(be4(v as u32)[0], be4(v as u32)[1], be4(v as u32)[2], be4(v as u32)[3]) as i32 == v,
{
    assert((v as u32) as i32 == v) by (bit_vector);
}

/// Law: a NUL-free ASCII string written with its terminator is read back
/// unchanged: its bytes hold no NUL, so the terminator found is the one
/// written, and the bytes before it decode to the original characters.
pub proof fn lemma_string_wire_round_trip(s: Seq<char>)
    requires
        is_ascii_chars(s),
        forall|i: int| 0 <= i < s.len() ==> s[i] != '\0',
    ensures
        first_nul(encode_utf8(s)) == encode_utf8(s).len(),
        valid_utf8(encode_utf8(s)),
        decode_utf8(encode_utf8(s)) == s,
{
    let bytes = encode_utf8(s);
    is_ascii_chars_encode_utf8(s);
    assert forall|j: int| 0 <= j < bytes.len() implies bytes[j] != 0 by {
        assert(bytes[j] == s[j] as u8);
        assert((s[j] as nat) < 128);
        assert(s[j] != '\0');
        vstd::utf8::char_is_scalar(s[j]);
    }
    lemma_first_nul_is(bytes, bytes.len() as int);
    encode_utf8_valid_utf8(s);
    encode_utf8_decode_utf8(s);
}

/// Law: a 20-byte digest written as a blob is the subrange `read_sha1sum`
/// extracts at its position.
pub proof fn lemma_blob_wire_round_trip(pre: Seq<u8>, blob: Seq<u8>)
    ensures
        (pre + blob).subrange(pre.len() as int, (pre.len() + blob.len()) as int) == blob,
{
    assert((pre + blob).subrange(pre.len() as int, (pre.len() + blob.len()) as int) =~= blob);
}

/// The two hexadecimal digit characters of a byte, as ASCII codes.
pub open spec fn hex_digit(n: u8) -> u8 {
    if n < 10 {
        (48 + n) as u8
    } else {
        (55 + n) as u8
    }
}

/// The ASCII rendering of a byte buffer as space-separated uppercase
/// hexadecimal pairs.
pub open spec fn hex_bytes(b: Seq<u8>) -> Seq<u8>
    decreases b.len(),
{
    if b.len() == 0 {
        Seq::empty()
    } else if b.len() == 1 {
        seq![hex_digit(b[0] / 16), hex_digit(b[0] % 16)]
    } else {
        hex_bytes(b.drop_last()) + seq![
            32u8,
            hex_digit(b.last() / 16),
            hex_digit(b.last() % 16),
        ]
    }
}

/// The ASCII decimal rendering of a number.
pub open spec fn dec_bytes(n: nat) -> Seq<u8>
    decreases n,
{
    if n < 10 {
        seq![(48 + n) as u8]
    } else {
        dec_bytes(n / 10) + seq![(48 + n % 10) as u8]
    }
}

/// The characters of a packet's diagnostic rendering: its bytes in
/// hexadecimal and the cursor position.
pub open spec fn debug_chars(data: Seq<u8>, pos: nat) -> Seq<char> {
    ascii_chars(
        ascii_bytes("NetPacket { data: "@) + seq![34u8] + hex_bytes(data) + seq![34u8]
            + ascii_bytes(", pos: "@) + dec_bytes(pos) + ascii_bytes(" }"@),
    )
}

proof fn lemma_hex_bytes_ascii(b: Seq<u8>)
    ensures
        forall|j: int| 0 <= j < hex_bytes(b).len() ==> #[trigger] hex_bytes(b)[j] < 0x80,
    decreases b.len(),
{
    if b.len() > 1 {
        lemma_hex_bytes_ascii(b.drop_last());
        let prefix = hex_bytes(b.drop_last());
        assert forall|j: int| 0 <= j < hex_bytes(b).len() implies #[trigger] hex_bytes(b)[j]
            < 0x80 by {
            if j < prefix.len() {
                assert(hex_bytes(b)[j] == prefix[j]);
            }
        }
    }
}

proof fn lemma_dec_bytes_ascii(n: nat)
    ensures
        forall|j: int| 0 <= j < dec_bytes(n).len() ==> #[trigger] dec_bytes(n)[j] < 0x80,
    decreases n,
{
    if n >= 10 {
        lemma_dec_bytes_ascii(n / 10);
        let prefix = dec_bytes(n / 10);
        assert forall|j: int| 0 <= j < dec_bytes(n).len() implies #[trigger] dec_bytes(n)[j]
            < 0x80 by {
            if j < prefix.len() {
                assert(dec_bytes(n)[j] == prefix[j]);
            }
        }
    }
}

fn dec_push(n: usize, out: &mut Vec<u8>)
    ensures
        final(out)@ == old(out)@ + dec_bytes(n as nat),
    decreases n,
{
    if n >= 10 {
        dec_push(n / 10, out);
    }
    out.push(48 + (n % 10) as u8);
    proof {
        assert(final(out)@ =~= old(out)@ + dec_bytes(n as nat));
    }
}

fn ascii_literal_bytes(s: &str) -> (r: Vec<u8>)
    requires
        is_ascii_chars(s@),
    ensures
        r@ == ascii_bytes(s@),
        forall|j: int| 0 <= j < r@.len() ==> #[trigger] r@[j] < 0x80,
{
    let r = s.as_bytes_vec();
    proof {
        is_ascii_chars_encode_utf8(s@);
        assert(r@ =~= ascii_bytes(s@));
        assert forall|j: int| 0 <= j < r@.len() implies #[trigger] r@[j] < 0x80 by {
            assert(r@[j] == s@[j] as u8);
            assert((s@[j] as nat) < 128);
            vstd::utf8::char_is_scalar(s@[j]);
        }
    }
    r
}

pub(crate) fn push_all(out: &mut Vec<u8>, piece: &Vec<u8>)
    ensures
        final(out)@ == old(out)@ + piece@,
{
    let mut i: usize = 0;
    while i < piece.len()
        invariant
            i <= piece@.len(),
            out@ == old(out)@ + piece@.take(i as int),
        decreases piece@.len() - i,
    {
        let b = piece[i];
        out.push(b);
        proof {
            assert(out@ =~= old(out)@ + piece@.take(i + 1));
        }
        i += 1;
    }
    proof {
        assert(old(out)@ + piece@.take(piece@.len() as int) =~= old(out)@ + piece@);
    }
}

impl NetPacket {
    /// The packet rendered for diagnostics: its bytes as uppercase
    /// hexadecimal pairs and the cursor position.
    pub fn debug_string(&self) -> (r: String)
        ensures
            r@ == debug_chars(self.data@, self.pos as nat),
    {
        proof {
            reveal_strlit("NetPacket { data: ");
            reveal_strlit(", pos: ");
            reveal_strlit(" }");
        }
        let mut out: Vec<u8> = ascii_literal_bytes("NetPacket { data: ");
        out.push(34);
        let ghost after_quote = out@;
        let mut i: usize = 0;
        while i < self.data.len()
            invariant
                i <= self.data@.len(),
                out@ == after_quote + hex_bytes(self.data@.take(i as int)),
                after_quote == ascii_bytes("NetPacket { data: "@).push(34u8),
            decreases self.data@.len() - i,
        {
            let b = self.data[i];
            if i > 0 {
                out.push(32);
            }
            let hi = b / 16;
            let lo = b % 16;
            out.push(
                if hi < 10 {
                    48 + hi
                } else {
                    55 + hi
                },
            );
            out.push(
                if lo < 10 {
                    48 + lo
                } else {
                    55 + lo
                },
            );
            proof {
                let t = self.data@.take(i + 1);
                assert(t.drop_last() =~= self.data@.take(i as int));
                assert(t.last() == b);
                if i == 0 {
                    assert(hex_bytes(t) =~= seq![hex_digit(b / 16), hex_digit(b % 16)]);
                }
                assert(out@ =~= after_quote + hex_bytes(t));
            }
            i += 1;
        }
        proof {
            assert(self.data@.take(self.data@.len() as int) =~= self.data@);
        }
        out.push(34);
        let mid = ascii_literal_bytes(", pos: ");
        push_all(&mut out, &mid);
        dec_push(self.pos, &mut out);
        let tail = ascii_literal_bytes(" }");
        push_all(&mut out, &tail);
        proof {
            let whole = ascii_bytes("NetPacket { data: "@) + seq![34u8] + hex_bytes(self.data@)
                + seq![34u8] + ascii_bytes(", pos: "@) + dec_bytes(self.pos as nat) + ascii_bytes(
                " }"@,
            );
            assert(out@ =~= whole);
            lemma_hex_bytes_ascii(self.data@);
            lemma_dec_bytes_ascii(self.pos as nat);
            assert forall|j: int| 0 <= j < out@.len() implies out@[j] < 0x80 by {
                assert(out@[j] == whole[j]);
            }
            lemma_ascii_decode(out@);
        }
        let s = lossy_string(&out);
        s
    }
}

} // verus!
