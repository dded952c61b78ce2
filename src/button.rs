//! Identities of input buttons, and the integer key each one is stored under.
use vstd::prelude::*;

verus! {

/// A distinct physical or logical button: a keyboard key, a mouse button,
/// a controller button or a controller hat direction.
#[derive(Clone, Copy, Debug, PartialEq, Eq, Structural, Hash)]
pub enum ButtonId {
    /// A keyboard key, by its key code.
    Keyboard(u32),
    /// A mouse button, by its number.
    Mouse(u32),
    /// A button on a controller.
    Controller {
        /// Which controller the button is on.
        id: u32,
        /// Which button of that controller.
        button: u8,
    },
    /// A hat (d-pad) position on a controller.
    Hat {
        /// Which controller the hat is on.
        id: u32,
        /// Which hat of that controller.
        which: u8,
        /// The direction code of the hat position.
        state: u8,
    },
}

/// The four fields `(tag, a, b, c)` packed into one `u64`: the tag in the top
/// byte, `a` in bits 16..48, `b` in bits 8..16 and `c` in the low byte.
pub open spec fn packed(tag: u64, a: u64, b: u64, c: u64) -> u64 {
    (tag << 56u64) | (a << 16u64) | (b << 8u64) | c
}

/// Packing is injective on fields within their widths.
pub proof fn lemma_packed_injective(
    t1: u64, a1: u64, b1: u64, c1: u64,
    t2: u64, a2: u64, b2: u64, c2: u64,
)
    requires
        t1 < 256, a1 < 0x1_0000_0000, b1 < 256, c1 < 256,
        t2 < 256, a2 < 0x1_0000_0000, b2 < 256, c2 < 256,
        packed(t1, a1, b1, c1) == packed(t2, a2, b2, c2),
    ensures
        t1 == t2 && a1 == a2 && b1 == b2 && c1 == c2,
{
    assert(t1 == t2 && a1 == a2 && b1 == b2 && c1 == c2) by (bit_vector)
        requires
            t1 < 256, a1 < 0x1_0000_0000, b1 < 256, c1 < 256,
            t2 < 256, a2 < 0x1_0000_0000, b2 < 256, c2 < 256,
            (t1 << 56u64) | (a1 << 16u64) | (b1 << 8u64) | c1
                == (t2 << 56u64) | (a2 << 16u64) | (b2 << 8u64) | c2,
    ;
}

impl ButtonId {
    /// The fields of this identity, as `(variant tag, a, b, c)`.
    pub open spec fn fields(self) -> (u64, u64, u64, u64) {
        match self {
            ButtonId::Keyboard(code) => (0, code as u64, 0, 0),
            ButtonId::Mouse(n) => (1, n as u64, 0, 0),
            ButtonId::Controller { id, button } => (2, id as u64, button as u64, 0),
            ButtonId::Hat { id, which, state } => (3, id as u64, which as u64, state as u64),
        }
    }

    /// The integer key under which this button is stored.
    pub open spec fn spec_key(self) -> u64 {
        let (t, a, b, c) = self.fields();
        packed(t, a, b, c)
    }

    /// Computes the integer key under which this button is stored.
    pub fn key(&self) -> (r: u64)
        ensures
            r == self.spec_key(),
    {
        let (t, a, b, c): (u64, u64, u64, u64) = match *self {
            ButtonId::Keyboard(code) => (0, code as u64, 0, 0),
            ButtonId::Mouse(n) => (1, n as u64, 0, 0),
            ButtonId::Controller { id, button } => (2, id as u64, button as u64, 0),
            ButtonId::Hat { id, which, state } => (3, id as u64, which as u64, state as u64),
        };
        (t << 56u64) | (a << 16u64) | (b << 8u64) | c
    }
}

/// Distinct buttons are stored under distinct keys.
pub proof fn lemma_key_injective(x: ButtonId, y: ButtonId)
    ensures
        x.spec_key() == y.spec_key() <==> x == y,
{
    if x.spec_key() == y.spec_key() {
        let (t1, a1, b1, c1) = x.fields();
        let (t2, a2, b2, c2) = y.fields();
        lemma_packed_injective(t1, a1, b1, c1, t2, a2, b2, c2);
    }
}

} // verus!
