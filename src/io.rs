use vstd::prelude::*;

verus! {

/// Whether bit `b` of `v` is set.
pub open spec fn bit_set(v: u8, b: u8) -> bool {
    v & (1u8 << b) != 0
}

/// A bit that goes from clear in `prev` to set in `next`.
pub open spec fn rises(prev: u8, next: u8, b: u8) -> bool {
    bit_set(next, b) && !bit_set(prev, b)
}

/// The sounds started by a latch write from `prev` to `next`, looking at
/// bits `0..n`: bit `b` starts sound `base + b`, in increasing bit order.
pub open spec fn edge_sounds(prev: u8, next: u8, base: usize, n: nat) -> Seq<usize>
    decreases n,
{
    if n == 0 {
        seq![]
    } else {
        edge_sounds(prev, next, base, (n - 1) as nat) + if rises(prev, next, (n - 1) as u8) {
            seq![(base + n - 1) as usize]
        } else {
            seq![]
        }
    }
}

/// What port 3 reads: the byte of the shift register selected by the amount.
pub open spec fn shift_read(data: u16, amount: u8) -> u8 {
    ((data >> ((8 - amount) as u16)) & 0xffu16) as u8
}

/// The shift register after a write of `v` to port 4: `v` becomes the high
/// byte and the previous high byte moves down.
pub open spec fn shift_write(data: u16, v: u8) -> u16 {
    ((v as u16) << 8u16) | (data >> 8u16)
}

/// A port byte after a key sets (`down`) or clears the bits of `mask`.
pub open spec fn key_applied(p: u8, mask: u8, down: bool) -> u8 {
    if down {
        p | mask
    } else {
        p & !mask
    }
}

/// Whether bit `bit_i` of `val` is set.
pub fn bit(val: u8, bit_i: u8) -> (r: bool)
    requires
        bit_i < 8,
    ensures
        r == bit_set(val, bit_i),
{
    val & (1u8 << bit_i) != 0
}

/// The three input latches the CPU can read.
#[derive(Clone, Copy, Debug, PartialEq, Eq, Structural)]
pub enum InputPort {
    Port0,
    Port1,
    Port2,
}

/// The logical controls of the cabinet.
#[derive(Clone, Copy, Debug, PartialEq, Eq, Structural)]
pub enum InvadersKey {
    P1Start,
    P1Shoot,
    P1Left,
    P1Right,
    P2Start,
    P2Shoot,
    P2Left,
    P2Right,
    Coin,
    Tilt,
}

impl InvadersKey {
    pub open spec fn bit_spec(self) -> u8 {
        match self {
            InvadersKey::P1Start => 0x04,
            InvadersKey::P1Shoot => 0x10,
            InvadersKey::P1Left => 0x20,
            InvadersKey::P1Right => 0x40,
            InvadersKey::P2Start => 0x02,
            InvadersKey::P2Shoot => 0x10,
            InvadersKey::P2Left => 0x20,
            InvadersKey::P2Right => 0x40,
            InvadersKey::Coin => 0x01,
            InvadersKey::Tilt => 0x04,
        }
    }

    pub open spec fn port_spec(self) -> InputPort {
        match self {
            InvadersKey::P1Start => InputPort::Port1,
            InvadersKey::P1Shoot => InputPort::Port1,
            InvadersKey::P1Left => InputPort::Port1,
            InvadersKey::P1Right => InputPort::Port1,
            InvadersKey::P2Start => InputPort::Port1,
            InvadersKey::P2Shoot => InputPort::Port2,
            InvadersKey::P2Left => InputPort::Port2,
            InvadersKey::P2Right => InputPort::Port2,
            InvadersKey::Coin => InputPort::Port1,
            InvadersKey::Tilt => InputPort::Port2,
        }
    }

    /// The single-bit mask this key drives in its port.
    pub fn bit(&self) -> (r: u8)
        ensures
            r == self.bit_spec(),
    {
        match self {
            InvadersKey::P1Start => 0x04,
            InvadersKey::P1Shoot => 0x10,
            InvadersKey::P1Left => 0x20,
            InvadersKey::P1Right => 0x40,
            InvadersKey::P2Start => 0x02,
            InvadersKey::P2Shoot => 0x10,
            InvadersKey::P2Left => 0x20,
            InvadersKey::P2Right => 0x40,
            InvadersKey::Coin => 0x01,
            InvadersKey::Tilt => 0x04,
        }
    }

    /// The input port this key is wired to.
    pub fn port(&self) -> (r: InputPort)
        ensures
            r == self.port_spec(),
    {
        match self {
            InvadersKey::P1Start => InputPort::Port1,
            InvadersKey::P1Shoot => InputPort::Port1,
            InvadersKey::P1Left => InputPort::Port1,
            InvadersKey::P1Right => InputPort::Port1,
            InvadersKey::P2Start => InputPort::Port1,
            InvadersKey::P2Shoot => InputPort::Port2,
            InvadersKey::P2Left => InputPort::Port2,
            InvadersKey::P2Right => InputPort::Port2,
            InvadersKey::Coin => InputPort::Port1,
            InvadersKey::Tilt => InputPort::Port2,
        }
    }
}

/// The board's peripheral registers: three input latches, the hardware
/// shift register and the two sound latches with their last written values.
pub struct InvadersIOHandler {
    pub port0: u8,
    pub port1: u8,
    pub port2: u8,
    pub shift_amount: u8,
    pub shift_data: u16,
    pub sound3: u8,
    pub sound5: u8,
}

impl InvadersIOHandler {
    /// The shift amount always fits in three bits.
    pub open spec fn wf(&self) -> bool {
        self.shift_amount < 8
    }

    pub open spec fn port_value(&self, p: InputPort) -> u8 {
        match p {
            InputPort::Port0 => self.port0,
            InputPort::Port1 => self.port1,
            InputPort::Port2 => self.port2,
        }
    }

    pub open spec fn with_port(self, p: InputPort, v: u8) -> InvadersIOHandler {
        match p {
            InputPort::Port0 => InvadersIOHandler { port0: v, ..self },
            InputPort::Port1 => InvadersIOHandler { port1: v, ..self },
            InputPort::Port2 => InvadersIOHandler { port2: v, ..self },
        }
    }

    /// The registers after `key` goes down or up.
    pub open spec fn key_changed(self, key: InvadersKey, is_down: bool) -> InvadersIOHandler {
        self.with_port(
            key.port_spec(),
            key_applied(self.port_value(key.port_spec()), key.bit_spec(), is_down),
        )
    }

    /// What an IN instruction on `port` reads.
    pub open spec fn read_spec(&self, port: u8) -> u8 {
        if port == 0 {
            self.port0
        } else if port == 1 {
            self.port1
        } else if port == 2 {
            self.port2
        } else if port == 3 {
            shift_read(self.shift_data, self.shift_amount)
        } else {
            0
        }
    }

    /// The registers after an OUT instruction writes `val` to `port`.
    pub open spec fn written(self, port: u8, val: u8) -> InvadersIOHandler {
        if port == 2 {
            InvadersIOHandler { shift_amount: val & 7, ..self }
        } else if port == 3 {
            InvadersIOHandler { sound3: val, ..self }
        } else if port == 4 {
            InvadersIOHandler { shift_data: shift_write(self.shift_data, val), ..self }
        } else if port == 5 {
            InvadersIOHandler { sound5: val, ..self }
        } else {
            self
        }
    }

    /// The one-shot sounds an OUT instruction writing `val` to `port` starts.
    pub open spec fn write_sounds(self, port: u8, val: u8) -> Seq<usize> {
        if port == 3 {
            edge_sounds(self.sound3, val, 0, 4)
        } else if port == 5 {
            edge_sounds(self.sound5, val, 4, 4)
        } else {
            seq![]
        }
    }

    /// All registers cleared.
    pub fn new() -> (r: InvadersIOHandler)
        ensures
            r.wf(),
            r.port0 == 0 && r.port1 == 0 && r.port2 == 0,
            r.shift_amount == 0 && r.shift_data == 0,
            r.sound3 == 0 && r.sound5 == 0,
    {
        InvadersIOHandler {
            port0: 0,
            port1: 0,
            port2: 0,
            shift_amount: 0,
            shift_data: 0,
            sound3: 0,
            sound5: 0,
        }
    }

    /// Sets (key down) or clears (key up) the key's bit in its port.
    pub fn handle_key_change(&mut self, key: InvadersKey, is_down: bool)
        ensures
            *final(self) == old(self).key_changed(key, is_down),
    {
        let mask = key.bit();
        match key.port() {
            InputPort::Port0 => {
                self.port0 = if is_down { self.port0 | mask } else { self.port0 & !mask };
            },
            InputPort::Port1 => {
                self.port1 = if is_down { self.port1 | mask } else { self.port1 & !mask };
            },
            InputPort::Port2 => {
                self.port2 = if is_down { self.port2 | mask } else { self.port2 & !mask };
            },
        }
    }

    /// The byte an IN instruction on `port` reads; unmapped ports read 0.
    pub fn inp(&self, port: u8) -> (r: u8)
        requires
            self.wf(),
        ensures
            r == self.read_spec(port),
    {
        match port {
            0 => self.port0,
            1 => self.port1,
            2 => self.port2,
            3 => ((self.shift_data >> ((8 - self.shift_amount) as u16)) & 0xff) as u8,
            _ => 0,
        }
    }

    /// Handles an OUT instruction writing `val` to `port`, and returns the
    /// indices of the one-shot sounds to start, in increasing order.
    pub fn out(&mut self, port: u8, val: u8) -> (r: Vec<usize>)
        requires
            old(self).wf(),
        ensures
            final(self).wf(),
            *final(self) == old(self).written(port, val),
            r@ == old(self).write_sounds(port, val),
    {
        match port {
            2 => {
                self.shift_amount = val & 0x7;
                assert(val & 7 < 8) by (bit_vector);
                Vec::new()
            },
            3 => {
                let sounds = rising_edges(self.sound3, val, 0);
                self.sound3 = val;
                sounds
            },
            4 => {
                self.shift_data = ((val as u16) << 8u16) | (self.shift_data >> 8u16);
                Vec::new()
            },
            5 => {
                let sounds = rising_edges(self.sound5, val, 4);
                self.sound5 = val;
                sounds
            },
            _ => Vec::new(),
        }
    }
}

/// Edge detection over bits 0 to 3 of a sound latch.
fn rising_edges(prev: u8, next: u8, base: usize) -> (r: Vec<usize>)
    requires
        base <= 4,
    ensures
        r@ == edge_sounds(prev, next, base, 4),
{
    let mut sounds: Vec<usize> = Vec::new();
    let mut i: u8 = 0;
    while i < 4
        invariant
            i <= 4,
            base <= 4,
            sounds@ == edge_sounds(prev, next, base, i as nat),
        decreases 4 - i,
    {
        if bit(next, i) && !bit(prev, i) {
            sounds.push(base + i as usize);
        }
        i = i + 1;
    }
    sounds
}

/// Two writes to port 4, `v1` then `v2`, leave `v2` in the high byte and
/// `v1` in the low byte of the shift register, whatever it held before.
pub proof fn lemma_shift_pair(h: InvadersIOHandler, v1: u8, v2: u8)
    ensures
        h.written(4, v1).written(4, v2).shift_data == ((v2 as u16) << 8u16) | (v1 as u16),
{
    let d = h.shift_data;
    assert(shift_write(shift_write(d, v1), v2) == ((v2 as u16) << 8u16) | (v1 as u16))
        by (bit_vector);
}

/// Edge detection over bits `0..n` lists sound `base + b` exactly when bit
/// `b` rises, each at most once, in increasing order, and nothing else.
pub proof fn lemma_edge_sounds_exact(prev: u8, next: u8, base: usize, n: nat)
    requires
        n <= 8,
        base <= 4,
    ensures
        forall|k: u8|
            k < n ==> (edge_sounds(prev, next, base, n).contains((base + k) as usize) <==> #[trigger] rises(
                prev,
                next,
                k,
            )),
        forall|j: int|
            0 <= j < edge_sounds(prev, next, base, n).len() ==> base <= #[trigger] edge_sounds(
                prev,
                next,
                base,
                n,
            )[j] < base + n,
        forall|i: int, j: int|
            0 <= i < j < edge_sounds(prev, next, base, n).len() ==> edge_sounds(
                prev,
                next,
                base,
                n,
            )[i] < edge_sounds(prev, next, base, n)[j],
        edge_sounds(prev, next, base, n).no_duplicates(),
    decreases n,
{
    let s = edge_sounds(prev, next, base, n);
    if n > 0 {
        let m = (n - 1) as nat;
        lemma_edge_sounds_exact(prev, next, base, m);
        let t = edge_sounds(prev, next, base, m);
        assert forall|k: u8| k < n implies (s.contains((base + k) as usize) <==> #[trigger] rises(
            prev,
            next,
            k,
        )) by {
            if k < m {
                if t.contains((base + k) as usize) {
                    let j = choose|j: int| 0 <= j < t.len() && t[j] == (base + k) as usize;
                    assert(s[j] == t[j]);
                }
                if s.contains((base + k) as usize) {
                    let j = choose|j: int| 0 <= j < s.len() && s[j] == (base + k) as usize;
                    if j < t.len() {
                        assert(t[j] == s[j]);
                    }
                }
            } else {
                if rises(prev, next, k) {
                    assert(s[t.len() as int] == (base + k) as usize);
                }
                if s.contains((base + k) as usize) {
                    let j = choose|j: int| 0 <= j < s.len() && s[j] == (base + k) as usize;
                    if j < t.len() {
                        assert(t[j] == s[j]);
                    }
                }
            }
        }
        assert forall|i: int, j: int| 0 <= i < j < s.len() implies s[i] < s[j] by {
            if j < t.len() {
                assert(s[i] == t[i] && s[j] == t[j]);
            } else {
                assert(s[i] == t[i]);
            }
        }
    }
}

/// A key change sets or clears exactly the key's own bit in its own port:
/// every other bit of that port, the other ports and the remaining
/// registers keep their values.
pub proof fn lemma_key_change_isolated(h: InvadersIOHandler, key: InvadersKey, is_down: bool)
    ensures
        forall|p: InputPort|
            p != key.port_spec() ==> #[trigger] h.key_changed(key, is_down).port_value(p)
                == h.port_value(p),
        forall|b: u8|
            b < 8 ==> #[trigger] bit_set(h.key_changed(key, is_down).port_value(key.port_spec()), b)
                == if (1u8 << b) == key.bit_spec() {
                is_down
            } else {
                bit_set(h.port_value(key.port_spec()), b)
            },
        h.key_changed(key, is_down).shift_amount == h.shift_amount,
        h.key_changed(key, is_down).shift_data == h.shift_data,
        h.key_changed(key, is_down).sound3 == h.sound3,
        h.key_changed(key, is_down).sound5 == h.sound5,
{
    let p = h.port_value(key.port_spec());
    let mask = key.bit_spec();
    assert(mask == 1 || mask == 2 || mask == 4 || mask == 16 || mask == 32 || mask == 64);
    assert forall|b: u8| b < 8 implies #[trigger] bit_set(
        h.key_changed(key, is_down).port_value(key.port_spec()),
        b,
    ) == if (1u8 << b) == mask {
        is_down
    } else {
        bit_set(p, b)
    } by {
        assert(h.key_changed(key, is_down).port_value(key.port_spec()) == key_applied(
            p,
            mask,
            is_down,
        ));
        lemma_single_bit_update(p, mask, b);
    }
}

proof fn lemma_single_bit_update(p: u8, mask: u8, b: u8)
    requires
        b < 8,
        mask == 1 || mask == 2 || mask == 4 || mask == 16 || mask == 32 || mask == 64,
    ensures
        bit_set(key_applied(p, mask, true), b) == if (1u8 << b) == mask {
            true
        } else {
            bit_set(p, b)
        },
        bit_set(key_applied(p, mask, false), b) == if (1u8 << b) == mask {
            false
        } else {
            bit_set(p, b)
        },
{
    assert(((p | mask) & (1u8 << b) != 0) == if (1u8 << b) == mask {
        true
    } else {
        p & (1u8 << b) != 0
    }) by (bit_vector)
        requires
            b < 8,
            mask == 1 || mask == 2 || mask == 4 || mask == 16 || mask == 32 || mask == 64,
    ;
    assert(((p & !mask) & (1u8 << b) != 0) == if (1u8 << b) == mask {
        false
    } else {
        p & (1u8 << b) != 0
    }) by (bit_vector)
        requires
            b < 8,
            mask == 1 || mask == 2 || mask == 4 || mask == 16 || mask == 32 || mask == 64,
    ;
}

} // verus!
