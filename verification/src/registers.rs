use vstd::prelude::*;

verus! {

/// Class of a register.
#[derive(Clone, Copy, Debug, PartialEq, Eq, Structural)]
pub enum RegisterType {
    /// A full general-purpose register.
    GeneralPurpose,
    /// A 32-, 16- or 8-bit slice of a general-purpose register.
    SubRegister,
    /// A floating-point, vector, or floating-point control register.
    FloatingPoint,
    /// A hardware debug register.
    Debug,
}

/// How the bytes of a register are interpreted.
#[derive(Clone, Copy, Debug, PartialEq, Eq, Structural)]
pub enum RegisterFormat {
    /// An unsigned integer.
    UInt,
    /// A double-precision float.
    DoubleFloat,
    /// An extended-precision float.
    LongDouble,
    /// A packed vector.
    Vector,
}

/// One register descriptor of the fixed table: the register's name, its
/// DWARF number, its size in bytes, and the byte offset of its storage in
/// the OS's per-process user area.
#[derive(Debug, Clone)]
pub struct RegisterInfo {
    /// Name of the register.
    pub name: String,
    /// DWARF register number assigned in the SYSV ABI, or `-1` where none
    /// is assigned.
    pub dwarf_id: i32,
    /// Size of the register in bytes.
    pub size: usize,
    /// Byte offset of the register's storage in the OS's user area.
    pub offset: usize,
    /// Class of the register.
    pub reg_type: RegisterType,
    /// How the register's bytes are interpreted.
    pub format: RegisterFormat,
}

/// The mathematical form of a register descriptor; contracts and the table
/// specification speak of these.
pub struct RegisterDesc {
    /// Name of the register.
    pub name: Seq<char>,
    /// DWARF register number, or `-1` where none is assigned.
    pub dwarf_id: int,
    /// Size of the register in bytes.
    pub size: int,
    /// Byte offset of the register's storage in the OS's user area.
    pub offset: int,
    /// Class of the register.
    pub reg_type: RegisterType,
    /// How the register's bytes are interpreted.
    pub format: RegisterFormat,
}

impl View for RegisterInfo {
    type V = RegisterDesc;

    open spec fn view(&self) -> RegisterDesc {
        RegisterDesc {
            name: self.name@,
            dwarf_id: self.dwarf_id as int,
            size: self.size as int,
            offset: self.offset as int,
            reg_type: self.reg_type,
            format: self.format,
        }
    }
}

/// Number of descriptors in the register table.
pub const REGISTER_COUNT: usize = 125;

/// Descriptor of a full 64-bit general-purpose register.
pub open spec fn spec_gp64(name: Seq<char>, dwarf_id: int, offset: int) -> RegisterDesc {
    RegisterDesc {
        name,
        dwarf_id,
        size: 8,
        offset,
        reg_type: RegisterType::GeneralPurpose,
        format: RegisterFormat::UInt,
    }
}

/// Descriptor of a sub-register; it has no DWARF number of its own and
/// shares its parent register's storage, so its offset is the parent's.
pub open spec fn spec_gp_sub(name: Seq<char>, size: int, offset: int) -> RegisterDesc {
    RegisterDesc {
        name,
        dwarf_id: -1,
        size,
        offset,
        reg_type: RegisterType::SubRegister,
        format: RegisterFormat::UInt,
    }
}

/// Descriptor of a floating-point control or status register.
pub open spec fn spec_fp(name: Seq<char>, dwarf_id: int, size: int, offset: int) -> RegisterDesc {
    RegisterDesc {
        name,
        dwarf_id,
        size,
        offset,
        reg_type: RegisterType::FloatingPoint,
        format: RegisterFormat::UInt,
    }
}

/// Descriptor of a floating-point stack register.
pub open spec fn spec_fp_st(name: Seq<char>, dwarf_id: int, offset: int) -> RegisterDesc {
    RegisterDesc {
        name,
        dwarf_id,
        size: 16,
        offset,
        reg_type: RegisterType::FloatingPoint,
        format: RegisterFormat::LongDouble,
    }
}

/// Descriptor of a multimedia register, aliased to the low half of a
/// floating-point stack slot.
pub open spec fn spec_fp_mm(name: Seq<char>, dwarf_id: int, offset: int) -> RegisterDesc {
    RegisterDesc {
        name,
        dwarf_id,
        size: 8,
        offset,
        reg_type: RegisterType::FloatingPoint,
        format: RegisterFormat::Vector,
    }
}

/// Descriptor of a vector register.
pub open spec fn spec_fp_xmm(name: Seq<char>, dwarf_id: int, offset: int) -> RegisterDesc {
    RegisterDesc {
        name,
        dwarf_id,
        size: 16,
        offset,
        reg_type: RegisterType::FloatingPoint,
        format: RegisterFormat::Vector,
    }
}

/// Descriptor of a hardware debug register.
pub open spec fn spec_dr(name: Seq<char>, offset: int) -> RegisterDesc {
    RegisterDesc {
        name,
        dwarf_id: -1,
        size: 8,
        offset,
        reg_type: RegisterType::Debug,
        format: RegisterFormat::UInt,
    }
}

/// Entry `i` of the register table: every general-purpose register with
/// its 32-, 16- and 8-bit sub-registers, the floating-point, stack,
/// multimedia and vector registers, and the debug registers.
pub open spec fn spec_register_at(i: int) -> RegisterDesc {
    if i == 0 {
        spec_gp64("rax"@, 0, 80)
    } else if i == 1 {
        spec_gp64("rdx"@, 1, 96)
    } else if i == 2 {
        spec_gp64("rcx"@, 2, 88)
    } else if i == 3 {
        spec_gp64("rbx"@, 3, 40)
    } else if i == 4 {
        spec_gp64("rsi"@, 4, 104)
    } else if i == 5 {
        spec_gp64("rdi"@, 5, 112)
    } else if i == 6 {
        spec_gp64("rbp"@, 6, 32)
    } else if i == 7 {
        spec_gp64("rsp"@, 7, 152)
    } else if i == 8 {
        spec_gp64("r8"@, 8, 72)
    } else if i == 9 {
        spec_gp64("r9"@, 9, 64)
    } else if i == 10 {
        spec_gp64("r10"@, 10, 56)
    } else if i == 11 {
        spec_gp64("r11"@, 11, 48)
    } else if i == 12 {
        spec_gp64("r12"@, 12, 24)
    } else if i == 13 {
        spec_gp64("r13"@, 13, 16)
    } else if i == 14 {
        spec_gp64("r14"@, 14, 8)
    } else if i == 15 {
        spec_gp64("r15"@, 15, 0)
    } else if i == 16 {
        spec_gp64("rip"@, 16, 128)
    } else if i == 17 {
        spec_gp64("eflags"@, 49, 144)
    } else if i == 18 {
        spec_gp64("cs"@, 51, 136)
    } else if i == 19 {
        spec_gp64("fs"@, 54, 200)
    } else if i == 20 {
        spec_gp64("gs"@, 55, 208)
    } else if i == 21 {
        spec_gp64("ss"@, 52, 160)
    } else if i == 22 {
        spec_gp64("ds"@, 53, 184)
    } else if i == 23 {
        spec_gp64("es"@, 50, 192)
    } else if i == 24 {
        spec_gp64("orig_rax"@, -1, 120)
    } else if i == 25 {
        spec_gp_sub("eax"@, 4, 80)
    } else if i == 26 {
        spec_gp_sub("edx"@, 4, 96)
    } else if i == 27 {
        spec_gp_sub("ecx"@, 4, 88)
    } else if i == 28 {
        spec_gp_sub("ebx"@, 4, 40)
    } else if i == 29 {
        spec_gp_sub("esi"@, 4, 104)
    } else if i == 30 {
        spec_gp_sub("edi"@, 4, 112)
    } else if i == 31 {
        spec_gp_sub("ebp"@, 4, 32)
    } else if i == 32 {
        spec_gp_sub("esp"@, 4, 152)
    } else if i == 33 {
        spec_gp_sub("r8d"@, 4, 72)
    } else if i == 34 {
        spec_gp_sub("r9d"@, 4, 64)
    } else if i == 35 {
        spec_gp_sub("r10d"@, 4, 56)
    } else if i == 36 {
        spec_gp_sub("r11d"@, 4, 48)
    } else if i == 37 {
        spec_gp_sub("r12d"@, 4, 24)
    } else if i == 38 {
        spec_gp_sub("r13d"@, 4, 16)
    } else if i == 39 {
        spec_gp_sub("r14d"@, 4, 8)
    } else if i == 40 {
        spec_gp_sub("r15d"@, 4, 0)
    } else if i == 41 {
        spec_gp_sub("ax"@, 2, 80)
    } else if i == 42 {
        spec_gp_sub("dx"@, 2, 96)
    } else if i == 43 {
        spec_gp_sub("cx"@, 2, 88)
    } else if i == 44 {
        spec_gp_sub("bx"@, 2, 40)
    } else if i == 45 {
        spec_gp_sub("si"@, 2, 104)
    } else if i == 46 {
        spec_gp_sub("di"@, 2, 112)
    } else if i == 47 {
        spec_gp_sub("bp"@, 2, 32)
    } else if i == 48 {
        spec_gp_sub("sp"@, 2, 152)
    } else if i == 49 {
        spec_gp_sub("r8w"@, 2, 72)
    } else if i == 50 {
        spec_gp_sub("r9w"@, 2, 64)
    } else if i == 51 {
        spec_gp_sub("r10w"@, 2, 56)
    } else if i == 52 {
        spec_gp_sub("r11w"@, 2, 48)
    } else if i == 53 {
        spec_gp_sub("r12w"@, 2, 24)
    } else if i == 54 {
        spec_gp_sub("r13w"@, 2, 16)
    } else if i == 55 {
        spec_gp_sub("r14w"@, 2, 8)
    } else if i == 56 {
        spec_gp_sub("r15w"@, 2, 0)
    } else if i == 57 {
        spec_gp_sub("ah"@, 1, 80)
    } else if i == 58 {
        spec_gp_sub("dh"@, 1, 96)
    } else if i == 59 {
        spec_gp_sub("ch"@, 1, 88)
    } else if i == 60 {
        spec_gp_sub("bh"@, 1, 40)
    } else if i == 61 {
        spec_gp_sub("al"@, 1, 80)
    } else if i == 62 {
        spec_gp_sub("dl"@, 1, 96)
    } else if i == 63 {
        spec_gp_sub("cl"@, 1, 88)
    } else if i == 64 {
        spec_gp_sub("bl"@, 1, 40)
    } else if i == 65 {
        spec_gp_sub("sil"@, 1, 104)
    } else if i == 66 {
        spec_gp_sub("dil"@, 1, 112)
    } else if i == 67 {
        spec_gp_sub("bpl"@, 1, 32)
    } else if i == 68 {
        spec_gp_sub("spl"@, 1, 152)
    } else if i == 69 {
        spec_gp_sub("r8b"@, 1, 72)
    } else if i == 70 {
        spec_gp_sub("r9b"@, 1, 64)
    } else if i == 71 {
        spec_gp_sub("r10b"@, 1, 56)
    } else if i == 72 {
        spec_gp_sub("r11b"@, 1, 48)
    } else if i == 73 {
        spec_gp_sub("r12b"@, 1, 24)
    } else if i == 74 {
        spec_gp_sub("r13b"@, 1, 16)
    } else if i == 75 {
        spec_gp_sub("r14b"@, 1, 8)
    } else if i == 76 {
        spec_gp_sub("r15b"@, 1, 0)
    } else if i == 77 {
        spec_fp("fcw"@, 65, 2, 224)
    } else if i == 78 {
        spec_fp("fsw"@, 66, 2, 226)
    } else if i == 79 {
        spec_fp("ftw"@, -1, 2, 228)
    } else if i == 80 {
        spec_fp("fop"@, -1, 2, 230)
    } else if i == 81 {
        spec_fp("frip"@, -1, 8, 232)
    } else if i == 82 {
        spec_fp("frdp"@, -1, 8, 240)
    } else if i == 83 {
        spec_fp("mxcsr"@, 64, 4, 248)
    } else if i == 84 {
        spec_fp("mxcsrmask"@, -1, 4, 252)
    } else if i == 85 {
        spec_fp_st("st0"@, 33, 256)
    } else if i == 86 {
        spec_fp_st("st1"@, 34, 272)
    } else if i == 87 {
        spec_fp_st("st2"@, 35, 288)
    } else if i == 88 {
        spec_fp_st("st3"@, 36, 304)
    } else if i == 89 {
        spec_fp_st("st4"@, 37, 320)
    } else if i == 90 {
        spec_fp_st("st5"@, 38, 336)
    } else if i == 91 {
        spec_fp_st("st6"@, 39, 352)
    } else if i == 92 {
        spec_fp_st("st7"@, 40, 368)
    } else if i == 93 {
        spec_fp_mm("mm0"@, 41, 256)
    } else if i == 94 {
        spec_fp_mm("mm1"@, 42, 272)
    } else if i == 95 {
        spec_fp_mm("mm2"@, 43, 288)
    } else if i == 96 {
        spec_fp_mm("mm3"@, 44, 304)
    } else if i == 97 {
        spec_fp_mm("mm4"@, 45, 320)
    } else if i == 98 {
        spec_fp_mm("mm5"@, 46, 336)
    } else if i == 99 {
        spec_fp_mm("mm6"@, 47, 352)
    } else if i == 100 {
        spec_fp_mm("mm7"@, 48, 368)
    } else if i == 101 {
        spec_fp_xmm("xmm0"@, 17, 384)
    } else if i == 102 {
        spec_fp_xmm("xmm1"@, 18, 400)
    } else if i == 103 {
        spec_fp_xmm("xmm2"@, 19, 416)
    } else if i == 104 {
        spec_fp_xmm("xmm3"@, 20, 432)
    } else if i == 105 {
        spec_fp_xmm("xmm4"@, 21, 448)
    } else if i == 106 {
        spec_fp_xmm("xmm5"@, 22, 464)
    } else if i == 107 {
        spec_fp_xmm("xmm6"@, 23, 480)
    } else if i == 108 {
        spec_fp_xmm("xmm7"@, 24, 496)
    } else if i == 109 {
        spec_fp_xmm("xmm8"@, 25, 512)
    } else if i == 110 {
        spec_fp_xmm("xmm9"@, 26, 528)
    } else if i == 111 {
        spec_fp_xmm("xmm10"@, 27, 544)
    } else if i == 112 {
        spec_fp_xmm("xmm11"@, 28, 560)
    } else if i == 113 {
        spec_fp_xmm("xmm12"@, 29, 576)
    } else if i == 114 {
        spec_fp_xmm("xmm13"@, 30, 592)
    } else if i == 115 {
        spec_fp_xmm("xmm14"@, 31, 608)
    } else if i == 116 {
        spec_fp_xmm("xmm15"@, 32, 624)
    } else if i == 117 {
        spec_dr("dr0"@, 848)
    } else if i == 118 {
        spec_dr("dr1"@, 856)
    } else if i == 119 {
        spec_dr("dr2"@, 864)
    } else if i == 120 {
        spec_dr("dr3"@, 872)
    } else if i == 121 {
        spec_dr("dr4"@, 880)
    } else if i == 122 {
        spec_dr("dr5"@, 888)
    } else if i == 123 {
        spec_dr("dr6"@, 896)
    } else {
        spec_dr("dr7"@, 904)
    }
}

fn gp64(name: &str, dwarf_id: i32, offset: usize) -> (r: RegisterInfo)
    ensures
        r@ == spec_gp64(name@, dwarf_id as int, offset as int),
{
    RegisterInfo {
        name: name.to_owned(),
        dwarf_id,
        size: 8,
        offset,
        reg_type: RegisterType::GeneralPurpose,
        format: RegisterFormat::UInt,
    }
}

fn gp_sub(name: &str, size: usize, offset: usize) -> (r: RegisterInfo)
    ensures
        r@ == spec_gp_sub(name@, size as int, offset as int),
{
    RegisterInfo {
        name: name.to_owned(),
        dwarf_id: -1,
        size,
        offset,
        reg_type: RegisterType::SubRegister,
        format: RegisterFormat::UInt,
    }
}

fn fp(name: &str, dwarf_id: i32, size: usize, offset: usize) -> (r: RegisterInfo)
    ensures
        r@ == spec_fp(name@, dwarf_id as int, size as int, offset as int),
{
    RegisterInfo {
        name: name.to_owned(),
        dwarf_id,
        size,
        offset,
        reg_type: RegisterType::FloatingPoint,
        format: RegisterFormat::UInt,
    }
}

fn fp_st(name: &str, dwarf_id: i32, offset: usize) -> (r: RegisterInfo)
    ensures
        r@ == spec_fp_st(name@, dwarf_id as int, offset as int),
{
    RegisterInfo {
        name: name.to_owned(),
        dwarf_id,
        size: 16,
        offset,
        reg_type: RegisterType::FloatingPoint,
        format: RegisterFormat::LongDouble,
    }
}

fn fp_mm(name: &str, dwarf_id: i32, offset: usize) -> (r: RegisterInfo)
    ensures
        r@ == spec_fp_mm(name@, dwarf_id as int, offset as int),
{
    RegisterInfo {
        name: name.to_owned(),
        dwarf_id,
        size: 8,
        offset,
        reg_type: RegisterType::FloatingPoint,
        format: RegisterFormat::Vector,
    }
}

fn fp_xmm(name: &str, dwarf_id: i32, offset: usize) -> (r: RegisterInfo)
    ensures
        r@ == spec_fp_xmm(name@, dwarf_id as int, offset as int),
{
    RegisterInfo {
        name: name.to_owned(),
        dwarf_id,
        size: 16,
        offset,
        reg_type: RegisterType::FloatingPoint,
        format: RegisterFormat::Vector,
    }
}

fn dr(name: &str, offset: usize) -> (r: RegisterInfo)
    ensures
        r@ == spec_dr(name@, offset as int),
{
    RegisterInfo {
        name: name.to_owned(),
        dwarf_id: -1,
        size: 8,
        offset,
        reg_type: RegisterType::Debug,
        format: RegisterFormat::UInt,
    }
}

/// Table entries 0 to 24: the full 64-bit general-purpose registers.
fn gp64_at(i: usize) -> (r: RegisterInfo)
    requires
        0 <= i < 25,
    ensures
        r@ == spec_register_at(i as int),
{
    if i == 0 {
        gp64("rax", 0, 80)
    } else if i == 1 {
        gp64("rdx", 1, 96)
    } else if i == 2 {
        gp64("rcx", 2, 88)
    } else if i == 3 {
        gp64("rbx", 3, 40)
    } else if i == 4 {
        gp64("rsi", 4, 104)
    } else if i == 5 {
        gp64("rdi", 5, 112)
    } else if i == 6 {
        gp64("rbp", 6, 32)
    } else if i == 7 {
        gp64("rsp", 7, 152)
    } else if i == 8 {
        gp64("r8", 8, 72)
    } else if i == 9 {
        gp64("r9", 9, 64)
    } else if i == 10 {
        gp64("r10", 10, 56)
    } else if i == 11 {
        gp64("r11", 11, 48)
    } else if i == 12 {
        gp64("r12", 12, 24)
    } else if i == 13 {
        gp64("r13", 13, 16)
    } else if i == 14 {
        gp64("r14", 14, 8)
    } else if i == 15 {
        gp64("r15", 15, 0)
    } else if i == 16 {
        gp64("rip", 16, 128)
    } else if i == 17 {
        gp64("eflags", 49, 144)
    } else if i == 18 {
        gp64("cs", 51, 136)
    } else if i == 19 {
        gp64("fs", 54, 200)
    } else if i == 20 {
        gp64("gs", 55, 208)
    } else if i == 21 {
        gp64("ss", 52, 160)
    } else if i == 22 {
        gp64("ds", 53, 184)
    } else if i == 23 {
        gp64("es", 50, 192)
    } else {
        gp64("orig_rax", -1, 120)
    }
}

/// Table entries 25 to 40: the 32-bit sub-registers.
fn gp32_at(i: usize) -> (r: RegisterInfo)
    requires
        25 <= i < 41,
    ensures
        r@ == spec_register_at(i as int),
{
    if i == 25 {
        gp_sub("eax", 4, 80)
    } else if i == 26 {
        gp_sub("edx", 4, 96)
    } else if i == 27 {
        gp_sub("ecx", 4, 88)
    } else if i == 28 {
        gp_sub("ebx", 4, 40)
    } else if i == 29 {
        gp_sub("esi", 4, 104)
    } else if i == 30 {
        gp_sub("edi", 4, 112)
    } else if i == 31 {
        gp_sub("ebp", 4, 32)
    } else if i == 32 {
        gp_sub("esp", 4, 152)
    } else if i == 33 {
        gp_sub("r8d", 4, 72)
    } else if i == 34 {
        gp_sub("r9d", 4, 64)
    } else if i == 35 {
        gp_sub("r10d", 4, 56)
    } else if i == 36 {
        gp_sub("r11d", 4, 48)
    } else if i == 37 {
        gp_sub("r12d", 4, 24)
    } else if i == 38 {
        gp_sub("r13d", 4, 16)
    } else if i == 39 {
        gp_sub("r14d", 4, 8)
    } else {
        gp_sub("r15d", 4, 0)
    }
}

/// Table entries 41 to 56: the 16-bit sub-registers.
fn gp16_at(i: usize) -> (r: RegisterInfo)
    requires
        41 <= i < 57,
    ensures
        r@ == spec_register_at(i as int),
{
    if i == 41 {
        gp_sub("ax", 2, 80)
    } else if i == 42 {
        gp_sub("dx", 2, 96)
    } else if i == 43 {
        gp_sub("cx", 2, 88)
    } else if i == 44 {
        gp_sub("bx", 2, 40)
    } else if i == 45 {
        gp_sub("si", 2, 104)
    } else if i == 46 {
        gp_sub("di", 2, 112)
    } else if i == 47 {
        gp_sub("bp", 2, 32)
    } else if i == 48 {
        gp_sub("sp", 2, 152)
    } else if i == 49 {
        gp_sub("r8w", 2, 72)
    } else if i == 50 {
        gp_sub("r9w", 2, 64)
    } else if i == 51 {
        gp_sub("r10w", 2, 56)
    } else if i == 52 {
        gp_sub("r11w", 2, 48)
    } else if i == 53 {
        gp_sub("r12w", 2, 24)
    } else if i == 54 {
        gp_sub("r13w", 2, 16)
    } else if i == 55 {
        gp_sub("r14w", 2, 8)
    } else {
        gp_sub("r15w", 2, 0)
    }
}

/// Table entries 57 to 76: the 8-bit sub-registers.
fn gp8_at(i: usize) -> (r: RegisterInfo)
    requires
        57 <= i < 77,
    ensures
        r@ == spec_register_at(i as int),
{
    if i == 57 {
        gp_sub("ah", 1, 80)
    } else if i == 58 {
        gp_sub("dh", 1, 96)
    } else if i == 59 {
        gp_sub("ch", 1, 88)
    } else if i == 60 {
        gp_sub("bh", 1, 40)
    } else if i == 61 {
        gp_sub("al", 1, 80)
    } else if i == 62 {
        gp_sub("dl", 1, 96)
    } else if i == 63 {
        gp_sub("cl", 1, 88)
    } else if i == 64 {
        gp_sub("bl", 1, 40)
    } else if i == 65 {
        gp_sub("sil", 1, 104)
    } else if i == 66 {
        gp_sub("dil", 1, 112)
    } else if i == 67 {
        gp_sub("bpl", 1, 32)
    } else if i == 68 {
        gp_sub("spl", 1, 152)
    } else if i == 69 {
        gp_sub("r8b", 1, 72)
    } else if i == 70 {
        gp_sub("r9b", 1, 64)
    } else if i == 71 {
        gp_sub("r10b", 1, 56)
    } else if i == 72 {
        gp_sub("r11b", 1, 48)
    } else if i == 73 {
        gp_sub("r12b", 1, 24)
    } else if i == 74 {
        gp_sub("r13b", 1, 16)
    } else if i == 75 {
        gp_sub("r14b", 1, 8)
    } else {
        gp_sub("r15b", 1, 0)
    }
}

/// Table entries 77 to 100: the floating-point, stack and multimedia registers.
fn fp_at(i: usize) -> (r: RegisterInfo)
    requires
        77 <= i < 101,
    ensures
        r@ == spec_register_at(i as int),
{
    if i == 77 {
        fp("fcw", 65, 2, 224)
    } else if i == 78 {
        fp("fsw", 66, 2, 226)
    } else if i == 79 {
        fp("ftw", -1, 2, 228)
    } else if i == 80 {
        fp("fop", -1, 2, 230)
    } else if i == 81 {
        fp("frip", -1, 8, 232)
    } else if i == 82 {
        fp("frdp", -1, 8, 240)
    } else if i == 83 {
        fp("mxcsr", 64, 4, 248)
    } else if i == 84 {
        fp("mxcsrmask", -1, 4, 252)
    } else if i == 85 {
        fp_st("st0", 33, 256)
    } else if i == 86 {
        fp_st("st1", 34, 272)
    } else if i == 87 {
        fp_st("st2", 35, 288)
    } else if i == 88 {
        fp_st("st3", 36, 304)
    } else if i == 89 {
        fp_st("st4", 37, 320)
    } else if i == 90 {
        fp_st("st5", 38, 336)
    } else if i == 91 {
        fp_st("st6", 39, 352)
    } else if i == 92 {
        fp_st("st7", 40, 368)
    } else if i == 93 {
        fp_mm("mm0", 41, 256)
    } else if i == 94 {
        fp_mm("mm1", 42, 272)
    } else if i == 95 {
        fp_mm("mm2", 43, 288)
    } else if i == 96 {
        fp_mm("mm3", 44, 304)
    } else if i == 97 {
        fp_mm("mm4", 45, 320)
    } else if i == 98 {
        fp_mm("mm5", 46, 336)
    } else if i == 99 {
        fp_mm("mm6", 47, 352)
    } else {
        fp_mm("mm7", 48, 368)
    }
}

/// Table entries 101 to 116: the vector registers.
fn xmm_at(i: usize) -> (r: RegisterInfo)
    requires
        101 <= i < 117,
    ensures
        r@ == spec_register_at(i as int),
{
    if i == 101 {
        fp_xmm("xmm0", 17, 384)
    } else if i == 102 {
        fp_xmm("xmm1", 18, 400)
    } else if i == 103 {
        fp_xmm("xmm2", 19, 416)
    } else if i == 104 {
        fp_xmm("xmm3", 20, 432)
    } else if i == 105 {
        fp_xmm("xmm4", 21, 448)
    } else if i == 106 {
        fp_xmm("xmm5", 22, 464)
    } else if i == 107 {
        fp_xmm("xmm6", 23, 480)
    } else if i == 108 {
        fp_xmm("xmm7", 24, 496)
    } else if i == 109 {
        fp_xmm("xmm8", 25, 512)
    } else if i == 110 {
        fp_xmm("xmm9", 26, 528)
    } else if i == 111 {
        fp_xmm("xmm10", 27, 544)
    } else if i == 112 {
        fp_xmm("xmm11", 28, 560)
    } else if i == 113 {
        fp_xmm("xmm12", 29, 576)
    } else if i == 114 {
        fp_xmm("xmm13", 30, 592)
    } else if i == 115 {
        fp_xmm("xmm14", 31, 608)
    } else {
        fp_xmm("xmm15", 32, 624)
    }
}

/// Table entries 117 to 124: the debug registers.
fn dr_at(i: usize) -> (r: RegisterInfo)
    requires
        117 <= i < 125,
    ensures
        r@ == spec_register_at(i as int),
{
    if i == 117 {
        dr("dr0", 848)
    } else if i == 118 {
        dr("dr1", 856)
    } else if i == 119 {
        dr("dr2", 864)
    } else if i == 120 {
        dr("dr3", 872)
    } else if i == 121 {
        dr("dr4", 880)
    } else if i == 122 {
        dr("dr5", 888)
    } else if i == 123 {
        dr("dr6", 896)
    } else {
        dr("dr7", 904)
    }
}

/// Entry `i` of the register table.
pub fn register_at(i: usize) -> (r: RegisterInfo)
    requires
        i < REGISTER_COUNT,
    ensures
        r@ == spec_register_at(i as int),
{
    if i < 25 {
        gp64_at(i)
    } else if i < 41 {
        gp32_at(i)
    } else if i < 57 {
        gp16_at(i)
    } else if i < 77 {
        gp8_at(i)
    } else if i < 101 {
        fp_at(i)
    } else if i < 117 {
        xmm_at(i)
    } else {
        dr_at(i)
    }
}

/// Build the register table, entry `i` being `spec_register_at(i)`.
pub fn register_table() -> (r: Vec<RegisterInfo>)
    ensures
        r@.len() == REGISTER_COUNT,
        forall|i: int| 0 <= i < r@.len() ==> (#[trigger] r@[i])@ == spec_register_at(i),
{
    let mut v: Vec<RegisterInfo> = Vec::new();
    let mut i: usize = 0;
    while i < REGISTER_COUNT
        invariant
            v@.len() == i,
            i <= REGISTER_COUNT,
            forall|j: int| 0 <= j < i ==> (#[trigger] v@[j])@ == spec_register_at(j),
        decreases REGISTER_COUNT - i,
    {
        let e = register_at(i);
        v.push(e);
        i = i + 1;
    }
    v
}

/// The first table entry at index `i` or later whose name is `name`.
pub open spec fn spec_find_by_name(name: Seq<char>, i: int) -> Option<RegisterDesc>
    decreases REGISTER_COUNT as int - i,
{
    if i < 0 || i >= REGISTER_COUNT as int {
        None
    } else if spec_register_at(i).name == name {
        Some(spec_register_at(i))
    } else {
        spec_find_by_name(name, i + 1)
    }
}

/// The first table entry at index `i` or later whose DWARF number is
/// `dwarf_id`.
pub open spec fn spec_find_by_dwarf(dwarf_id: int, i: int) -> Option<RegisterDesc>
    decreases REGISTER_COUNT as int - i,
{
    if i < 0 || i >= REGISTER_COUNT as int {
        None
    } else if spec_register_at(i).dwarf_id == dwarf_id {
        Some(spec_register_at(i))
    } else {
        spec_find_by_dwarf(dwarf_id, i + 1)
    }
}

impl RegisterInfo {
    /// An identical copy of the descriptor.
    fn duplicate(&self) -> (r: RegisterInfo)
        ensures
            r@ == self@,
    {
        RegisterInfo {
            name: self.name.clone(),
            dwarf_id: self.dwarf_id,
            size: self.size,
            offset: self.offset,
            reg_type: self.reg_type,
            format: self.format,
        }
    }

    /// Find the register descriptor with the given name: the first table
    /// entry named `name`, or nothing when no entry has that name.
    pub fn register_info_by_name(name: &str) -> (r: Option<RegisterInfo>)
        ensures
            match r {
                Some(info) => spec_find_by_name(name@, 0) == Some(info@),
                None => spec_find_by_name(name@, 0) is None,
            },
    {
        let key: String = name.to_owned();
        let table = register_table();
        let mut i: usize = 0;
        while i < REGISTER_COUNT
            invariant
                table@.len() == REGISTER_COUNT,
                forall|j: int| 0 <= j < table@.len() ==> (#[trigger] table@[j])@
                    == spec_register_at(j),
                i <= REGISTER_COUNT,
                key@ == name@,
                spec_find_by_name(name@, 0) == spec_find_by_name(name@, i as int),
            decreases REGISTER_COUNT - i,
        {
            if table[i].name == key {
                return Some(table[i].duplicate());
            }
            i = i + 1;
        }
        None
    }

    /// Find the register descriptor with the given DWARF number: the first
    /// table entry carrying `dwarf_id`, or nothing when no entry carries
    /// it.
    pub fn register_info_by_dwarf(dwarf_id: i32) -> (r: Option<RegisterInfo>)
        ensures
            match r {
                Some(info) => spec_find_by_dwarf(dwarf_id as int, 0) == Some(info@),
                None => spec_find_by_dwarf(dwarf_id as int, 0) is None,
            },
    {
        let table = register_table();
        let mut i: usize = 0;
        while i < REGISTER_COUNT
            invariant
                table@.len() == REGISTER_COUNT,
                forall|j: int| 0 <= j < table@.len() ==> (#[trigger] table@[j])@
                    == spec_register_at(j),
                i <= REGISTER_COUNT,
                spec_find_by_dwarf(dwarf_id as int, 0) == spec_find_by_dwarf(
                    dwarf_id as int,
                    i as int,
                ),
            decreases REGISTER_COUNT - i,
        {
            if table[i].dwarf_id == dwarf_id {
                return Some(table[i].duplicate());
            }
            i = i + 1;
        }
        None
    }
}

} // verus!
