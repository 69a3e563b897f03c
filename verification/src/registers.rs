use vstd::prelude::*;
use vstd::arithmetic::div_mod::lemma_fundamental_div_mod;

verus! {

/// One of the four condition flags held in the high bits of the flag
/// register F: bit 7 = Zero, bit 6 = Subtract, bit 5 = Half-carry,
/// bit 4 = Carry. Bits 3-0 of F are unused and never touched by the flag
/// accessors.
#[derive(Debug, Clone, Copy, PartialEq, Eq, Structural)]
pub enum FlagKind {
    Z,
    N,
    H,
    C,
}

/// One independently addressable 8-bit half of a register pair. F is the
/// flag register, the low byte of AF.
#[derive(Debug, Clone, Copy, PartialEq, Eq, Structural)]
pub enum R8Kind {
    A,
    F,
    B,
    C,
    D,
    E,
    H,
    L,
}

/// One of the five 16-bit quantities of the register file. AF, BC, DE and
/// HL are composed of two 8-bit halves; SP is an opaque 16-bit scalar.
#[derive(Debug, Clone, Copy, PartialEq, Eq, Structural)]
pub enum R16Kind {
    AF,
    BC,
    DE,
    HL,
    SP,
}

/// The 16-bit value composed of a high and a low byte. The composition is
/// explicit, `high * 256 + low`, and therefore independent of host byte
/// order.
pub open spec fn pair_value(high: u8, low: u8) -> u16 {
    (high * 256 + low) as u16
}

/// The single-bit mask of a flag inside the flag register F.
pub open spec fn flag_mask(kind: FlagKind) -> u8 {
    match kind {
        FlagKind::Z => 0x80,
        FlagKind::N => 0x40,
        FlagKind::H => 0x20,
        FlagKind::C => 0x10,
    }
}

/// The 8-bit register holding the high byte of a two-half pair.
pub open spec fn high_half(pair: R16Kind) -> R8Kind {
    match pair {
        R16Kind::AF => R8Kind::A,
        R16Kind::BC => R8Kind::B,
        R16Kind::DE => R8Kind::D,
        _ => R8Kind::H,
    }
}

/// The 8-bit register holding the low byte of a two-half pair.
pub open spec fn low_half(pair: R16Kind) -> R8Kind {
    match pair {
        R16Kind::AF => R8Kind::F,
        R16Kind::BC => R8Kind::C,
        R16Kind::DE => R8Kind::E,
        _ => R8Kind::L,
    }
}

/// The CPU register file: four register pairs, each stored as two
/// independently addressable bytes, and the 16-bit stack pointer. Created
/// once with all-zero state and mutated in place by an execution engine.
#[derive(Debug, Clone, PartialEq, Eq, Structural)]
pub struct Registers {
    a: u8,
    f: u8,
    b: u8,
    c: u8,
    d: u8,
    e: u8,
    h: u8,
    l: u8,
    sp: u16,
}

impl Registers {
    /// The value of one 8-bit register.
    pub closed spec fn spec_r8(self, kind: R8Kind) -> u8 {
        match kind {
            R8Kind::A => self.a,
            R8Kind::F => self.f,
            R8Kind::B => self.b,
            R8Kind::C => self.c,
            R8Kind::D => self.d,
            R8Kind::E => self.e,
            R8Kind::H => self.h,
            R8Kind::L => self.l,
        }
    }

    /// The value of the stack pointer.
    pub closed spec fn spec_sp(self) -> u16 {
        self.sp
    }

    /// The value of one 16-bit register: the explicit composition of its
    /// two halves, or the stack pointer itself.
    pub open spec fn spec_r16(self, kind: R16Kind) -> u16 {
        match kind {
            R16Kind::SP => self.spec_sp(),
            _ => pair_value(self.spec_r8(high_half(kind)), self.spec_r8(low_half(kind))),
        }
    }

    /// Whether one flag bit of F is set.
    pub open spec fn spec_flag(self, kind: FlagKind) -> bool {
        self.spec_r8(R8Kind::F) & flag_mask(kind) != 0
    }

    /// The register file after one 8-bit register is overwritten; every
    /// other register keeps its value.
    pub closed spec fn spec_with_r8(self, kind: R8Kind, value: u8) -> Registers {
        match kind {
            R8Kind::A => Registers { a: value, ..self },
            R8Kind::F => Registers { f: value, ..self },
            R8Kind::B => Registers { b: value, ..self },
            R8Kind::C => Registers { c: value, ..self },
            R8Kind::D => Registers { d: value, ..self },
            R8Kind::E => Registers { e: value, ..self },
            R8Kind::H => Registers { h: value, ..self },
            R8Kind::L => Registers { l: value, ..self },
        }
    }

    /// The register file after the stack pointer is overwritten.
    pub closed spec fn spec_with_sp(self, value: u16) -> Registers {
        Registers { sp: value, ..self }
    }

    /// The register file after one 16-bit register is overwritten: the two
    /// halves receive the explicit decomposition of the value, or the stack
    /// pointer receives it whole.
    pub open spec fn spec_with_r16(self, kind: R16Kind, value: u16) -> Registers {
        match kind {
            R16Kind::SP => self.spec_with_sp(value),
            _ => self.spec_with_r8(high_half(kind), (value / 256) as u8).spec_with_r8(
                low_half(kind),
                (value % 256) as u8,
            ),
        }
    }

    /// The register file after one flag bit of F is set or cleared; the
    /// other bits of F, bits 3-0 included, keep their values.
    pub open spec fn spec_with_flag(self, kind: FlagKind, value: bool) -> Registers {
        let flag_register = self.spec_r8(R8Kind::F);
        let updated = if value {
            flag_register | flag_mask(kind)
        } else {
            flag_register & !flag_mask(kind)
        };
        self.spec_with_r8(R8Kind::F, updated)
    }

    /// A fresh register file with all-zero state.
    pub fn new() -> (r: Registers)
        ensures
            forall|kind: R8Kind| #[trigger] r.spec_r8(kind) == 0,
            r.spec_sp() == 0,
            forall|kind: R16Kind| #[trigger] r.spec_r16(kind) == 0,
            forall|kind: FlagKind| !#[trigger] r.spec_flag(kind),
    {
        let r = Registers { a: 0, f: 0, b: 0, c: 0, d: 0, e: 0, h: 0, l: 0, sp: 0 };
        proof {
            assert forall|kind: FlagKind| !#[trigger] r.spec_flag(kind) by {
                lemma_mask_of_zero(flag_mask(kind));
            }
        }
        r
    }

    /// Read one flag bit of F.
    pub fn get_flag(&self, flag_kind: FlagKind) -> (r: bool)
        ensures
            r == self.spec_flag(flag_kind),
    {
        let mask: u8 = match flag_kind {
            FlagKind::Z => 0x80,
            FlagKind::N => 0x40,
            FlagKind::H => 0x20,
            FlagKind::C => 0x10,
        };
        self.f & mask != 0
    }

    /// Set or clear one flag bit of F, leaving every other bit of F and
    /// every other register unchanged.
    pub fn set_flag(&mut self, flag_kind: FlagKind, value: bool)
        ensures
            *final(self) == old(self).spec_with_flag(flag_kind, value),
    {
        let mask: u8 = match flag_kind {
            FlagKind::Z => 0x80,
            FlagKind::N => 0x40,
            FlagKind::H => 0x20,
            FlagKind::C => 0x10,
        };
        if value {
            self.f = self.f | mask;
        } else {
            self.f = self.f & !mask;
        }
    }

    /// Read one 8-bit register.
    pub fn get_r8(&self, r8kind: R8Kind) -> (r: u8)
        ensures
            r == self.spec_r8(r8kind),
    {
        match r8kind {
            R8Kind::A => self.a,
            R8Kind::F => self.f,
            R8Kind::B => self.b,
            R8Kind::C => self.c,
            R8Kind::D => self.d,
            R8Kind::E => self.e,
            R8Kind::H => self.h,
            R8Kind::L => self.l,
        }
    }

    /// Overwrite one 8-bit register; the other half of its pair and every
    /// other register keep their most recently written values.
    pub fn set_r8(&mut self, r8kind: R8Kind, value: u8)
        ensures
            *final(self) == old(self).spec_with_r8(r8kind, value),
    {
        match r8kind {
            R8Kind::A => self.a = value,
            R8Kind::F => self.f = value,
            R8Kind::B => self.b = value,
            R8Kind::C => self.c = value,
            R8Kind::D => self.d = value,
            R8Kind::E => self.e = value,
            R8Kind::H => self.h = value,
            R8Kind::L => self.l = value,
        }
    }

    /// Read one 16-bit register: always the explicit composition
    /// `high * 256 + low` of the two halves, regardless of the order in
    /// which they were written and of host byte order.
    pub fn get_r16(&self, r16kind: R16Kind) -> (r: u16)
        ensures
            r == self.spec_r16(r16kind),
    {
        match r16kind {
            R16Kind::AF => (self.a as u16) * 256 + (self.f as u16),
            R16Kind::BC => (self.b as u16) * 256 + (self.c as u16),
            R16Kind::DE => (self.d as u16) * 256 + (self.e as u16),
            R16Kind::HL => (self.h as u16) * 256 + (self.l as u16),
            R16Kind::SP => self.sp,
        }
    }

    /// Overwrite one 16-bit register by explicit decomposition into its two
    /// halves, or the stack pointer whole.
    pub fn set_r16(&mut self, r16kind: R16Kind, value: u16)
        ensures
            *final(self) == old(self).spec_with_r16(r16kind, value),
    {
        let high: u8 = (value / 256) as u8;
        let low: u8 = (value % 256) as u8;
        match r16kind {
            R16Kind::AF => {
                self.a = high;
                self.f = low;
            },
            R16Kind::BC => {
                self.b = high;
                self.c = low;
            },
            R16Kind::DE => {
                self.d = high;
                self.e = low;
            },
            R16Kind::HL => {
                self.h = high;
                self.l = low;
            },
            R16Kind::SP => {
                self.sp = value;
            },
        }
    }
}

/// A mask selects no bit of an all-zero flag byte.
proof fn lemma_mask_of_zero(mask: u8)
    by (bit_vector)
    ensures
        0u8 & mask == 0,
{
}

/// Bitwise facts behind the flag accessors: setting or clearing one flag
/// mask affects exactly that bit of F.
proof fn lemma_flag_bit_ops(flag_register: u8, m1: u8, m2: u8)
    by (bit_vector)
    requires
        m1 == 0x80 || m1 == 0x40 || m1 == 0x20 || m1 == 0x10,
        m2 == 0x80 || m2 == 0x40 || m2 == 0x20 || m2 == 0x10,
    ensures
        (flag_register | m1) & m1 != 0,
        (flag_register & !m1) & m1 == 0,
        m1 != m2 ==> ((flag_register | m1) & m2 == flag_register & m2),
        m1 != m2 ==> ((flag_register & !m1) & m2 == flag_register & m2),
        (flag_register | m1) & 0x0F == flag_register & 0x0F,
        (flag_register & !m1) & 0x0F == flag_register & 0x0F,
        (flag_register | m1) | m1 == flag_register | m1,
        (flag_register & !m1) & !m1 == flag_register & !m1,
{
}

/// Law: setting one flag and reading it back gives the value written,
/// independently of the other three flags' values; setting a flag never
/// alters bits 3-0 of the flag byte, nor any byte outside F; and setting
/// the same flag to the same value a second time changes nothing.
pub proof fn lemma_set_flag_get_flag(regs: Registers, kind: FlagKind, value: bool)
    ensures
        regs.spec_with_flag(kind, value).spec_flag(kind) == value,
        forall|other: FlagKind|
            other != kind ==> regs.spec_with_flag(kind, value).spec_flag(other) == regs.spec_flag(
                other,
            ),
        regs.spec_with_flag(kind, value).spec_r8(R8Kind::F) & 0x0F == regs.spec_r8(R8Kind::F)
            & 0x0F,
        forall|r8: R8Kind|
            r8 != R8Kind::F ==> regs.spec_with_flag(kind, value).spec_r8(r8) == regs.spec_r8(r8),
        regs.spec_with_flag(kind, value).spec_sp() == regs.spec_sp(),
        regs.spec_with_flag(kind, value).spec_with_flag(kind, value) == regs.spec_with_flag(
            kind,
            value,
        ),
{
    let flag_register = regs.spec_r8(R8Kind::F);
    lemma_flag_bit_ops(flag_register, flag_mask(kind), flag_mask(kind));
    assert forall|other: FlagKind|
        other != kind implies regs.spec_with_flag(kind, value).spec_flag(other) == regs.spec_flag(
        other,
    ) by {
        lemma_flag_bit_ops(flag_register, flag_mask(kind), flag_mask(other));
    }
    let once = regs.spec_with_flag(kind, value);
    lemma_flag_bit_ops(once.spec_r8(R8Kind::F), flag_mask(kind), flag_mask(kind));
    assert(once.spec_with_flag(kind, value) == once);
}

/// Law: for each of the pairs AF, BC, DE and HL, writing the high half and
/// the low half in either order and then reading the 16-bit pair yields
/// `high * 256 + low`, independent of the write order.
pub proof fn lemma_pair_write_order(regs: Registers, pair: R16Kind, high: u8, low: u8)
    requires
        pair != R16Kind::SP,
    ensures
        regs.spec_with_r8(high_half(pair), high).spec_with_r8(low_half(pair), low).spec_r16(pair)
            == high * 256 + low,
        regs.spec_with_r8(low_half(pair), low).spec_with_r8(high_half(pair), high).spec_r16(pair)
            == high * 256 + low,
{
}

/// Law: overwriting one 8-bit register stores exactly that value, leaves
/// every other 8-bit register and the stack pointer unchanged, and writing
/// a register's current value back changes nothing at all.
pub proof fn lemma_with_r8_effect(regs: Registers, kind: R8Kind, value: u8)
    ensures
        regs.spec_with_r8(kind, value).spec_r8(kind) == value,
        forall|other: R8Kind|
            other != kind ==> regs.spec_with_r8(kind, value).spec_r8(other) == regs.spec_r8(other),
        regs.spec_with_r8(kind, value).spec_sp() == regs.spec_sp(),
        value == regs.spec_r8(kind) ==> regs.spec_with_r8(kind, value) == regs,
{
}

/// Law: overwriting the stack pointer stores exactly that value and leaves
/// every 8-bit register unchanged; writing its current value back changes
/// nothing at all.
pub proof fn lemma_with_sp_effect(regs: Registers, value: u16)
    ensures
        regs.spec_with_sp(value).spec_sp() == value,
        forall|kind: R8Kind| regs.spec_with_sp(value).spec_r8(kind) == regs.spec_r8(kind),
        value == regs.spec_sp() ==> regs.spec_with_sp(value) == regs,
{
}

/// Law: writing a 16-bit register and reading it back is the identity, for
/// the four two-half pairs and for the opaque SP scalar alike, and leaves
/// every other 16-bit register unchanged.
pub proof fn lemma_r16_round_trip(regs: Registers, kind: R16Kind, value: u16)
    ensures
        regs.spec_with_r16(kind, value).spec_r16(kind) == value,
        forall|other: R16Kind|
            other != kind ==> regs.spec_with_r16(kind, value).spec_r16(other) == regs.spec_r16(
                other,
            ),
{
    lemma_fundamental_div_mod(value as int, 256);
}

} // verus!
