use vstd::prelude::*;

verus! {

/// Register identities: the seven 8-bit general registers, the four 16-bit
/// pairs (AF, BC, DE, HL) and the stack pointer.
#[derive(Clone, Copy, Debug, PartialEq, Eq, Structural)]
pub enum Register {
    A,
    B,
    C,
    D,
    E,
    H,
    L,
    AF,
    BC,
    DE,
    HL,
    SP,
}

/// The four condition flags.
#[derive(Clone, Copy, Debug, PartialEq, Eq, Structural)]
pub enum Flag {
    Z,
    N,
    H,
    C,
}

/// Zero, subtract, half-carry and carry.
#[derive(Clone, Copy, Debug, PartialEq, Eq, Structural)]
pub struct Flags {
    pub z: bool,
    pub n: bool,
    pub h: bool,
    pub c: bool,
}

impl Flags {
    pub open spec fn get(self, f: Flag) -> bool {
        match f {
            Flag::Z => self.z,
            Flag::N => self.n,
            Flag::H => self.h,
            Flag::C => self.c,
        }
    }

    /// The flags register as a byte: Z, N, H, C in bits 7 to 4, the low
    /// nibble always zero.
    #[verifier::opaque]
    pub open spec fn byte_spec(self) -> u8 {
        ((if self.z { 0x80int } else { 0 }) + (if self.n { 0x40int } else { 0 }) + (if self.h {
            0x20int
        } else {
            0
        }) + (if self.c { 0x10int } else { 0 })) as u8
    }

    /// The flags held in a byte; its low nibble is ignored.
    #[verifier::opaque]
    pub open spec fn from_byte_spec(b: u8) -> Flags {
        Flags { z: b / 128 == 1, n: (b / 64) % 2 == 1, h: (b / 32) % 2 == 1, c: (b / 16) % 2 == 1 }
    }

    pub fn to_byte(&self) -> (r: u8)
        ensures
            r == self.byte_spec(),
            r % 16 == 0,
    {
        reveal(Flags::byte_spec);
        let mut r: u8 = 0;
        if self.z {
            r = r + 0x80;
        }
        if self.n {
            r = r + 0x40;
        }
        if self.h {
            r = r + 0x20;
        }
        if self.c {
            r = r + 0x10;
        }
        r
    }

    pub fn from_byte(b: u8) -> (r: Flags)
        ensures
            r == Flags::from_byte_spec(b),
    {
        reveal(Flags::from_byte_spec);
        Flags { z: b / 128 == 1, n: (b / 64) % 2 == 1, h: (b / 32) % 2 == 1, c: (b / 16) % 2 == 1 }
    }
}

/// Reading a flags byte back gives the same flags.
pub proof fn lemma_flags_byte_round_trip(f: Flags)
    ensures
        Flags::from_byte_spec(f.byte_spec()) == f,
{
    reveal(Flags::from_byte_spec);
    reveal(Flags::byte_spec);
}

pub open spec fn is_byte_reg(r: Register) -> bool {
    match r {
        Register::A | Register::B | Register::C | Register::D | Register::E | Register::H
        | Register::L => true,
        _ => false,
    }
}

pub open spec fn pair_value(hi: u8, lo: u8) -> u16 {
    (hi as int * 256 + lo as int) as u16
}

/// The register file: seven 8-bit registers, the flags, SP and PC.
#[derive(Clone, Copy, Debug, PartialEq, Eq, Structural)]
pub struct RegisterFile {
    pub a: u8,
    pub b: u8,
    pub c: u8,
    pub d: u8,
    pub e: u8,
    pub h: u8,
    pub l: u8,
    pub flags: Flags,
    pub sp: u16,
    pub pc: u16,
}

impl RegisterFile {
    /// Value of a register, widened to 16 bits; a pair reads high register
    /// as the most significant byte.
    pub open spec fn get(self, r: Register) -> u16 {
        match r {
            Register::A => self.a as u16,
            Register::B => self.b as u16,
            Register::C => self.c as u16,
            Register::D => self.d as u16,
            Register::E => self.e as u16,
            Register::H => self.h as u16,
            Register::L => self.l as u16,
            Register::AF => pair_value(self.a, self.flags.byte_spec()),
            Register::BC => pair_value(self.b, self.c),
            Register::DE => pair_value(self.d, self.e),
            Register::HL => pair_value(self.h, self.l),
            Register::SP => self.sp,
        }
    }

    /// The register file with one register replaced. An 8-bit register takes
    /// the low byte of `v`; writing AF keeps only the flag bits of the low byte.
    pub open spec fn set(self, r: Register, v: u16) -> RegisterFile {
        let hi = (v / 256) as u8;
        let lo = (v % 256) as u8;
        match r {
            Register::A => RegisterFile { a: lo, ..self },
            Register::B => RegisterFile { b: lo, ..self },
            Register::C => RegisterFile { c: lo, ..self },
            Register::D => RegisterFile { d: lo, ..self },
            Register::E => RegisterFile { e: lo, ..self },
            Register::H => RegisterFile { h: lo, ..self },
            Register::L => RegisterFile { l: lo, ..self },
            Register::AF => RegisterFile { a: hi, flags: Flags::from_byte_spec(lo), ..self },
            Register::BC => RegisterFile { b: hi, c: lo, ..self },
            Register::DE => RegisterFile { d: hi, e: lo, ..self },
            Register::HL => RegisterFile { h: hi, l: lo, ..self },
            Register::SP => RegisterFile { sp: v, ..self },
        }
    }

    /// Power-on state: every register and flag zero.
    pub open spec fn new_spec() -> RegisterFile {
        RegisterFile {
            a: 0,
            b: 0,
            c: 0,
            d: 0,
            e: 0,
            h: 0,
            l: 0,
            flags: Flags { z: false, n: false, h: false, c: false },
            sp: 0,
            pc: 0,
        }
    }

    pub fn new() -> (r: RegisterFile)
        ensures
            r == RegisterFile::new_spec(),
    {
        RegisterFile {
            a: 0,
            b: 0,
            c: 0,
            d: 0,
            e: 0,
            h: 0,
            l: 0,
            flags: Flags { z: false, n: false, h: false, c: false },
            sp: 0,
            pc: 0,
        }
    }

    /// 16-bit read of any register.
    pub fn read(&self, r: Register) -> (v: u16)
        ensures
            v == self.get(r),
            is_byte_reg(r) ==> v < 256,
    {
        match r {
            Register::A => self.a as u16,
            Register::B => self.b as u16,
            Register::C => self.c as u16,
            Register::D => self.d as u16,
            Register::E => self.e as u16,
            Register::H => self.h as u16,
            Register::L => self.l as u16,
            Register::AF => self.a as u16 * 256 + self.flags.to_byte() as u16,
            Register::BC => self.b as u16 * 256 + self.c as u16,
            Register::DE => self.d as u16 * 256 + self.e as u16,
            Register::HL => self.h as u16 * 256 + self.l as u16,
            Register::SP => self.sp,
        }
    }

    /// 8-bit read; fails on a 16-bit register.
    pub fn read8(&self, r: Register) -> (v: Result<u8, RegError>)
        ensures
            is_byte_reg(r) <==> v is Ok,
            v is Ok ==> v->Ok_0 as u16 == self.get(r),
    {
        match r {
            Register::A => Ok(self.a),
            Register::B => Ok(self.b),
            Register::C => Ok(self.c),
            Register::D => Ok(self.d),
            Register::E => Ok(self.e),
            Register::H => Ok(self.h),
            Register::L => Ok(self.l),
            _ => Err(RegError::NotByteRegister),
        }
    }

    /// Writes one register; no other register or flag changes, except that
    /// writing AF sets the flags from the low byte. An 8-bit register rejects
    /// a value over 0xFF.
    pub fn write(&mut self, r: Register, v: u16) -> (res: Result<(), RegError>)
        ensures
            res is Ok <==> (!is_byte_reg(r) || v < 256),
            res is Ok ==> *final(self) == old(self).set(r, v),
            res is Err ==> *final(self) == *old(self),
    {
        if is_byte(r) && v >= 256 {
            return Err(RegError::ValueTooWide);
        }
        let hi = (v / 256) as u8;
        let lo = (v % 256) as u8;
        match r {
            Register::A => self.a = lo,
            Register::B => self.b = lo,
            Register::C => self.c = lo,
            Register::D => self.d = lo,
            Register::E => self.e = lo,
            Register::H => self.h = lo,
            Register::L => self.l = lo,
            Register::AF => {
                self.a = hi;
                self.flags = Flags::from_byte(lo);
            },
            Register::BC => {
                self.b = hi;
                self.c = lo;
            },
            Register::DE => {
                self.d = hi;
                self.e = lo;
            },
            Register::HL => {
                self.h = hi;
                self.l = lo;
            },
            Register::SP => self.sp = v,
        }
        Ok(())
    }

    /// Reads a pair, then decrements it (wrapping): the address for `(HL-)`.
    pub fn read_dec(&mut self, r: Register) -> (res: Result<u16, RegError>)
        ensures
            res is Ok <==> !is_byte_reg(r) && r != Register::AF,
            res is Ok ==> res->Ok_0 == old(self).get(r) && *final(self) == old(self).set(
                r,
                ((old(self).get(r) + 0xFFFF) % 0x10000) as u16,
            ),
            res is Err ==> *final(self) == *old(self),
    {
        if is_byte(r) || r == Register::AF {
            return Err(RegError::NotAddressRegister);
        }
        let v = self.read(r);
        let _ = self.write(r, v.wrapping_sub(1));
        Ok(v)
    }

    /// Reads a pair, then increments it (wrapping): the address for `(HL+)`.
    pub fn read_inc(&mut self, r: Register) -> (res: Result<u16, RegError>)
        ensures
            res is Ok <==> !is_byte_reg(r) && r != Register::AF,
            res is Ok ==> res->Ok_0 == old(self).get(r) && *final(self) == old(self).set(
                r,
                ((old(self).get(r) + 1) % 0x10000) as u16,
            ),
            res is Err ==> *final(self) == *old(self),
    {
        if is_byte(r) || r == Register::AF {
            return Err(RegError::NotAddressRegister);
        }
        let v = self.read(r);
        let _ = self.write(r, v.wrapping_add(1));
        Ok(v)
    }

    pub fn test_flag(&self, f: Flag) -> (r: bool)
        ensures
            r == self.flags.get(f),
    {
        match f {
            Flag::Z => self.flags.z,
            Flag::N => self.flags.n,
            Flag::H => self.flags.h,
            Flag::C => self.flags.c,
        }
    }

    /// Sets the named flags; a `None` leaves that flag as it was.
    pub fn write_flags(&mut self, z: Option<bool>, n: Option<bool>, h: Option<bool>, c: Option<bool>)
        ensures
            final(self).flags == update_flags(old(self).flags, z, n, h, c),
            *final(self) == (RegisterFile { flags: final(self).flags, ..*old(self) }),
    {
        self.flags = Flags {
            z: match z { Some(v) => v, None => self.flags.z },
            n: match n { Some(v) => v, None => self.flags.n },
            h: match h { Some(v) => v, None => self.flags.h },
            c: match c { Some(v) => v, None => self.flags.c },
        };
    }
}

pub open spec fn keep_or(o: Option<bool>, old: bool) -> bool {
    match o {
        Some(v) => v,
        None => old,
    }
}

pub open spec fn update_flags(f: Flags, z: Option<bool>, n: Option<bool>, h: Option<bool>, c: Option<bool>) -> Flags {
    Flags { z: keep_or(z, f.z), n: keep_or(n, f.n), h: keep_or(h, f.h), c: keep_or(c, f.c) }
}

fn is_byte(r: Register) -> (b: bool)
    ensures
        b == is_byte_reg(r),
{
    match r {
        Register::A | Register::B | Register::C | Register::D | Register::E | Register::H
        | Register::L => true,
        _ => false,
    }
}

/// Misuse of the register file.
#[derive(Clone, Copy, Debug, PartialEq, Eq, Structural)]
pub enum RegError {
    NotByteRegister,
    NotAddressRegister,
    ValueTooWide,
}

} // verus!
