use vstd::prelude::*;

verus! {

/// The opcodes of one byte. `Next` is the prefix of the opcodes of two bytes.
#[derive(Clone, Copy, PartialEq, Eq, Debug, Structural)]
pub enum OpCode {
    Nop,
    Break,
    Ldarg0,
    Ldarg1,
    Ldarg2,
    Ldarg3,
    Ldloc0,
    Ldloc1,
    Ldloc2,
    Ldloc3,
    Stloc0,
    Stloc1,
    Stloc2,
    Stloc3,
    Ldargs,
    Ldargas,
    Stargs,
    Ldlocs,
    Ldlocas,
    Stlocs,
    Ldnull,
    Ldci4m1,
    Ldci40,
    Ldci41,
    Ldci42,
    Ldci43,
    Ldci44,
    Ldci45,
    Ldci46,
    Ldci47,
    Ldci48,
    Ldci4s,
    Ldci4,
    Ldci8,
    Ldcr4,
    Ldcr8,
    Dup,
    Pop,
    Jmp,
    Call,
    Calli,
    Ret,
    Brs,
    Brfalses,
    Brtrues,
    Beqs,
    Bges,
    Bgts,
    Bles,
    Blts,
    Bneuns,
    Bgeuns,
    Bgtuns,
    Bleuns,
    Bltuns,
    Br,
    Brfalse,
    Brtrue,
    Beq,
    Bge,
    Bgt,
    Ble,
    Blt,
    Bneun,
    Bgeun,
    Bgtun,
    Bleun,
    Bltun,
    Switch,
    Ldindi1,
    Ldindu1,
    Ldindi2,
    Ldindu2,
    Ldindi4,
    Ldindu4,
    Ldindi8,
    Ldindi,
    Ldindr4,
    Ldindr8,
    Ldindref,
    Stindref,
    Stindi1,
    Stindi2,
    Stindi4,
    Stindi8,
    Stindr4,
    Stindr8,
    Add,
    Sub,
    Mul,
    Div,
    Divun,
    Rem,
    Remun,
    And,
    Or,
    Xor,
    Shl,
    Shr,
    Shrun,
    Neg,
    Not,
    Convi1,
    Convi2,
    Convi4,
    Convi8,
    Convr4,
    Convr8,
    Convu4,
    Convu8,
    Callvirt,
    Cpobj,
    Ldobj,
    Ldstr,
    Newobj,
    Castclass,
    Isinst,
    Convrun,
    Unbox,
    Throw,
    Ldfld,
    Ldflda,
    Stfld,
    Ldsfld,
    Ldsflda,
    Stsfld,
    Stobj,
    Convovfi1un,
    Convovfi2un,
    Convovfi4un,
    Convovfi8un,
    Convovfu1un,
    Convovfu2un,
    Convovfu4un,
    Convovfu8un,
    Convovfiun,
    Convovfuun,
    Box,
    Newarr,
    Ldlen,
    Ldelema,
    Ldelemi1,
    Ldelemu1,
    Ldelemi2,
    Ldelemu2,
    Ldelemi4,
    Ldelemu4,
    Ldelemi8,
    Ldelemi,
    Ldelemr4,
    Ldelemr8,
    Ldelemref,
    Stelemi,
    Stelemi1,
    Stelemi2,
    Stelemi4,
    Stelemi8,
    Stelemr4,
    Stelemr8,
    Stelemref,
    Ldelem,
    Stelem,
    Unboxany,
    Convovfi1,
    Convovfu1,
    Convovfi2,
    Convovfu2,
    Convovfi4,
    Convovfu4,
    Convovfi8,
    Convovfu8,
    Refanyval,
    Ckfinite,
    Mkrefany,
    Ldtoken,
    Convu2,
    Convu1,
    Convi,
    Convovfi,
    Convovfu,
    Addovf,
    Addovfun,
    Mulovf,
    Mulovfun,
    Subovf,
    Subovfun,
    Endfault,
    Leave,
    Leaves,
    Stindi,
    Convu,
    Next,
}

impl OpCode {
    /// The byte of the opcode.
    pub open spec fn spec_code(self) -> u8 {
        match self {
            OpCode::Nop => 0x00,
            OpCode::Break => 0x01,
            OpCode::Ldarg0 => 0x02,
            OpCode::Ldarg1 => 0x03,
            OpCode::Ldarg2 => 0x04,
            OpCode::Ldarg3 => 0x05,
            OpCode::Ldloc0 => 0x06,
            OpCode::Ldloc1 => 0x07,
            OpCode::Ldloc2 => 0x08,
            OpCode::Ldloc3 => 0x09,
            OpCode::Stloc0 => 0x0a,
            OpCode::Stloc1 => 0x0b,
            OpCode::Stloc2 => 0x0c,
            OpCode::Stloc3 => 0x0d,
            OpCode::Ldargs => 0x0e,
            OpCode::Ldargas => 0x0f,
            OpCode::Stargs => 0x10,
            OpCode::Ldlocs => 0x11,
            OpCode::Ldlocas => 0x12,
            OpCode::Stlocs => 0x13,
            OpCode::Ldnull => 0x14,
            OpCode::Ldci4m1 => 0x15,
            OpCode::Ldci40 => 0x16,
            OpCode::Ldci41 => 0x17,
            OpCode::Ldci42 => 0x18,
            OpCode::Ldci43 => 0x19,
            OpCode::Ldci44 => 0x1a,
            OpCode::Ldci45 => 0x1b,
            OpCode::Ldci46 => 0x1c,
            OpCode::Ldci47 => 0x1d,
            OpCode::Ldci48 => 0x1e,
            OpCode::Ldci4s => 0x1f,
            OpCode::Ldci4 => 0x20,
            OpCode::Ldci8 => 0x21,
            OpCode::Ldcr4 => 0x22,
            OpCode::Ldcr8 => 0x23,
            OpCode::Dup => 0x25,
            OpCode::Pop => 0x26,
            OpCode::Jmp => 0x27,
            OpCode::Call => 0x28,
            OpCode::Calli => 0x29,
            OpCode::Ret => 0x2a,
            OpCode::Brs => 0x2b,
            OpCode::Brfalses => 0x2c,
            OpCode::Brtrues => 0x2d,
            OpCode::Beqs => 0x2e,
            OpCode::Bges => 0x2f,
            OpCode::Bgts => 0x30,
            OpCode::Bles => 0x31,
            OpCode::Blts => 0x32,
            OpCode::Bneuns => 0x33,
            OpCode::Bgeuns => 0x34,
            OpCode::Bgtuns => 0x35,
            OpCode::Bleuns => 0x36,
            OpCode::Bltuns => 0x37,
            OpCode::Br => 0x38,
            OpCode::Brfalse => 0x39,
            OpCode::Brtrue => 0x3a,
            OpCode::Beq => 0x3b,
            OpCode::Bge => 0x3c,
            OpCode::Bgt => 0x3d,
            OpCode::Ble => 0x3e,
            OpCode::Blt => 0x3f,
            OpCode::Bneun => 0x40,
            OpCode::Bgeun => 0x41,
            OpCode::Bgtun => 0x42,
            OpCode::Bleun => 0x43,
            OpCode::Bltun => 0x44,
            OpCode::Switch => 0x45,
            OpCode::Ldindi1 => 0x46,
            OpCode::Ldindu1 => 0x47,
            OpCode::Ldindi2 => 0x48,
            OpCode::Ldindu2 => 0x49,
            OpCode::Ldindi4 => 0x4a,
            OpCode::Ldindu4 => 0x4b,
            OpCode::Ldindi8 => 0x4c,
            OpCode::Ldindi => 0x4d,
            OpCode::Ldindr4 => 0x4e,
            OpCode::Ldindr8 => 0x4f,
            OpCode::Ldindref => 0x50,
            OpCode::Stindref => 0x51,
            OpCode::Stindi1 => 0x52,
            OpCode::Stindi2 => 0x53,
            OpCode::Stindi4 => 0x54,
            OpCode::Stindi8 => 0x55,
            OpCode::Stindr4 => 0x56,
            OpCode::Stindr8 => 0x57,
            OpCode::Add => 0x58,
            OpCode::Sub => 0x59,
            OpCode::Mul => 0x5a,
            OpCode::Div => 0x5b,
            OpCode::Divun => 0x5c,
            OpCode::Rem => 0x5d,
            OpCode::Remun => 0x5e,
            OpCode::And => 0x5f,
            OpCode::Or => 0x60,
            OpCode::Xor => 0x61,
            OpCode::Shl => 0x62,
            OpCode::Shr => 0x63,
            OpCode::Shrun => 0x64,
            OpCode::Neg => 0x65,
            OpCode::Not => 0x66,
            OpCode::Convi1 => 0x67,
            OpCode::Convi2 => 0x68,
            OpCode::Convi4 => 0x69,
            OpCode::Convi8 => 0x6a,
            OpCode::Convr4 => 0x6b,
            OpCode::Convr8 => 0x6c,
            OpCode::Convu4 => 0x6d,
            OpCode::Convu8 => 0x6e,
            OpCode::Callvirt => 0x6f,
            OpCode::Cpobj => 0x70,
            OpCode::Ldobj => 0x71,
            OpCode::Ldstr => 0x72,
            OpCode::Newobj => 0x73,
            OpCode::Castclass => 0x74,
            OpCode::Isinst => 0x75,
            OpCode::Convrun => 0x76,
            OpCode::Unbox => 0x79,
            OpCode::Throw => 0x7a,
            OpCode::Ldfld => 0x7b,
            OpCode::Ldflda => 0x7c,
            OpCode::Stfld => 0x7d,
            OpCode::Ldsfld => 0x7e,
            OpCode::Ldsflda => 0x7f,
            OpCode::Stsfld => 0x80,
            OpCode::Stobj => 0x81,
            OpCode::Convovfi1un => 0x82,
            OpCode::Convovfi2un => 0x83,
            OpCode::Convovfi4un => 0x84,
            OpCode::Convovfi8un => 0x85,
            OpCode::Convovfu1un => 0x86,
            OpCode::Convovfu2un => 0x87,
            OpCode::Convovfu4un => 0x88,
            OpCode::Convovfu8un => 0x89,
            OpCode::Convovfiun => 0x8a,
            OpCode::Convovfuun => 0x8b,
            OpCode::Box => 0x8c,
            OpCode::Newarr => 0x8d,
            OpCode::Ldlen => 0x8e,
            OpCode::Ldelema => 0x8f,
            OpCode::Ldelemi1 => 0x90,
            OpCode::Ldelemu1 => 0x91,
            OpCode::Ldelemi2 => 0x92,
            OpCode::Ldelemu2 => 0x93,
            OpCode::Ldelemi4 => 0x94,
            OpCode::Ldelemu4 => 0x95,
            OpCode::Ldelemi8 => 0x96,
            OpCode::Ldelemi => 0x97,
            OpCode::Ldelemr4 => 0x98,
            OpCode::Ldelemr8 => 0x99,
            OpCode::Ldelemref => 0x9a,
            OpCode::Stelemi => 0x9b,
            OpCode::Stelemi1 => 0x9c,
            OpCode::Stelemi2 => 0x9d,
            OpCode::Stelemi4 => 0x9e,
            OpCode::Stelemi8 => 0x9f,
            OpCode::Stelemr4 => 0xa0,
            OpCode::Stelemr8 => 0xa1,
            OpCode::Stelemref => 0xa2,
            OpCode::Ldelem => 0xa3,
            OpCode::Stelem => 0xa4,
            OpCode::Unboxany => 0xa5,
            OpCode::Convovfi1 => 0xb3,
            OpCode::Convovfu1 => 0xb4,
            OpCode::Convovfi2 => 0xb5,
            OpCode::Convovfu2 => 0xb6,
            OpCode::Convovfi4 => 0xb7,
            OpCode::Convovfu4 => 0xb8,
            OpCode::Convovfi8 => 0xb9,
            OpCode::Convovfu8 => 0xba,
            OpCode::Refanyval => 0xc2,
            OpCode::Ckfinite => 0xc3,
            OpCode::Mkrefany => 0xc6,
            OpCode::Ldtoken => 0xd0,
            OpCode::Convu2 => 0xd1,
            OpCode::Convu1 => 0xd2,
            OpCode::Convi => 0xd3,
            OpCode::Convovfi => 0xd4,
            OpCode::Convovfu => 0xd5,
            OpCode::Addovf => 0xd6,
            OpCode::Addovfun => 0xd7,
            OpCode::Mulovf => 0xd8,
            OpCode::Mulovfun => 0xd9,
            OpCode::Subovf => 0xda,
            OpCode::Subovfun => 0xdb,
            OpCode::Endfault => 0xdc,
            OpCode::Leave => 0xdd,
            OpCode::Leaves => 0xde,
            OpCode::Stindi => 0xdf,
            OpCode::Convu => 0xe0,
            OpCode::Next => 0xfe,
        }
    }

    /// The opcode of the byte, if the byte is one.
    pub open spec fn spec_from_code(value: int) -> Option<OpCode> {
        if value == 0x00 {
            Some(OpCode::Nop)
        } else if value == 0x01 {
            Some(OpCode::Break)
        } else if value == 0x02 {
            Some(OpCode::Ldarg0)
        } else if value == 0x03 {
            Some(OpCode::Ldarg1)
        } else if value == 0x04 {
            Some(OpCode::Ldarg2)
        } else if value == 0x05 {
            Some(OpCode::Ldarg3)
        } else if value == 0x06 {
            Some(OpCode::Ldloc0)
        } else if value == 0x07 {
            Some(OpCode::Ldloc1)
        } else if value == 0x08 {
            Some(OpCode::Ldloc2)
        } else if value == 0x09 {
            Some(OpCode::Ldloc3)
        } else if value == 0x0a {
            Some(OpCode::Stloc0)
        } else if value == 0x0b {
            Some(OpCode::Stloc1)
        } else if value == 0x0c {
            Some(OpCode::Stloc2)
        } else if value == 0x0d {
            Some(OpCode::Stloc3)
        } else if value == 0x0e {
            Some(OpCode::Ldargs)
        } else if value == 0x0f {
            Some(OpCode::Ldargas)
        } else if value == 0x10 {
            Some(OpCode::Stargs)
        } else if value == 0x11 {
            Some(OpCode::Ldlocs)
        } else if value == 0x12 {
            Some(OpCode::Ldlocas)
        } else if value == 0x13 {
            Some(OpCode::Stlocs)
        } else if value == 0x14 {
            Some(OpCode::Ldnull)
        } else if value == 0x15 {
            Some(OpCode::Ldci4m1)
        } else if value == 0x16 {
            Some(OpCode::Ldci40)
        } else if value == 0x17 {
            Some(OpCode::Ldci41)
        } else if value == 0x18 {
            Some(OpCode::Ldci42)
        } else if value == 0x19 {
            Some(OpCode::Ldci43)
        } else if value == 0x1a {
            Some(OpCode::Ldci44)
        } else if value == 0x1b {
            Some(OpCode::Ldci45)
        } else if value == 0x1c {
            Some(OpCode::Ldci46)
        } else if value == 0x1d {
            Some(OpCode::Ldci47)
        } else if value == 0x1e {
            Some(OpCode::Ldci48)
        } else if value == 0x1f {
            Some(OpCode::Ldci4s)
        } else if value == 0x20 {
            Some(OpCode::Ldci4)
        } else if value == 0x21 {
            Some(OpCode::Ldci8)
        } else if value == 0x22 {
            Some(OpCode::Ldcr4)
        } else if value == 0x23 {
            Some(OpCode::Ldcr8)
        } else if value == 0x25 {
            Some(OpCode::Dup)
        } else if value == 0x26 {
            Some(OpCode::Pop)
        } else if value == 0x27 {
            Some(OpCode::Jmp)
        } else if value == 0x28 {
            Some(OpCode::Call)
        } else if value == 0x29 {
            Some(OpCode::Calli)
        } else if value == 0x2a {
            Some(OpCode::Ret)
        } else if value == 0x2b {
            Some(OpCode::Brs)
        } else if value == 0x2c {
            Some(OpCode::Brfalses)
        } else if value == 0x2d {
            Some(OpCode::Brtrues)
        } else if value == 0x2e {
            Some(OpCode::Beqs)
        } else if value == 0x2f {
            Some(OpCode::Bges)
        } else if value == 0x30 {
            Some(OpCode::Bgts)
        } else if value == 0x31 {
            Some(OpCode::Bles)
        } else if value == 0x32 {
            Some(OpCode::Blts)
        } else if value == 0x33 {
            Some(OpCode::Bneuns)
        } else if value == 0x34 {
            Some(OpCode::Bgeuns)
        } else if value == 0x35 {
            Some(OpCode::Bgtuns)
        } else if value == 0x36 {
            Some(OpCode::Bleuns)
        } else if value == 0x37 {
            Some(OpCode::Bltuns)
        } else if value == 0x38 {
            Some(OpCode::Br)
        } else if value == 0x39 {
            Some(OpCode::Brfalse)
        } else if value == 0x3a {
            Some(OpCode::Brtrue)
        } else if value == 0x3b {
            Some(OpCode::Beq)
        } else if value == 0x3c {
            Some(OpCode::Bge)
        } else if value == 0x3d {
            Some(OpCode::Bgt)
        } else if value == 0x3e {
            Some(OpCode::Ble)
        } else if value == 0x3f {
            Some(OpCode::Blt)
        } else if value == 0x40 {
            Some(OpCode::Bneun)
        } else if value == 0x41 {
            Some(OpCode::Bgeun)
        } else if value == 0x42 {
            Some(OpCode::Bgtun)
        } else if value == 0x43 {
            Some(OpCode::Bleun)
        } else if value == 0x44 {
            Some(OpCode::Bltun)
        } else if value == 0x45 {
            Some(OpCode::Switch)
        } else if value == 0x46 {
            Some(OpCode::Ldindi1)
        } else if value == 0x47 {
            Some(OpCode::Ldindu1)
        } else if value == 0x48 {
            Some(OpCode::Ldindi2)
        } else if value == 0x49 {
            Some(OpCode::Ldindu2)
        } else if value == 0x4a {
            Some(OpCode::Ldindi4)
        } else if value == 0x4b {
            Some(OpCode::Ldindu4)
        } else if value == 0x4c {
            Some(OpCode::Ldindi8)
        } else if value == 0x4d {
            Some(OpCode::Ldindi)
        } else if value == 0x4e {
            Some(OpCode::Ldindr4)
        } else if value == 0x4f {
            Some(OpCode::Ldindr8)
        } else if value == 0x50 {
            Some(OpCode::Ldindref)
        } else if value == 0x51 {
            Some(OpCode::Stindref)
        } else if value == 0x52 {
            Some(OpCode::Stindi1)
        } else if value == 0x53 {
            Some(OpCode::Stindi2)
        } else if value == 0x54 {
            Some(OpCode::Stindi4)
        } else if value == 0x55 {
            Some(OpCode::Stindi8)
        } else if value == 0x56 {
            Some(OpCode::Stindr4)
        } else if value == 0x57 {
            Some(OpCode::Stindr8)
        } else if value == 0x58 {
            Some(OpCode::Add)
        } else if value == 0x59 {
            Some(OpCode::Sub)
        } else if value == 0x5a {
            Some(OpCode::Mul)
        } else if value == 0x5b {
            Some(OpCode::Div)
        } else if value == 0x5c {
            Some(OpCode::Divun)
        } else if value == 0x5d {
            Some(OpCode::Rem)
        } else if value == 0x5e {
            Some(OpCode::Remun)
        } else if value == 0x5f {
            Some(OpCode::And)
        } else if value == 0x60 {
            Some(OpCode::Or)
        } else if value == 0x61 {
            Some(OpCode::Xor)
        } else if value == 0x62 {
            Some(OpCode::Shl)
        } else if value == 0x63 {
            Some(OpCode::Shr)
        } else if value == 0x64 {
            Some(OpCode::Shrun)
        } else if value == 0x65 {
            Some(OpCode::Neg)
        } else if value == 0x66 {
            Some(OpCode::Not)
        } else if value == 0x67 {
            Some(OpCode::Convi1)
        } else if value == 0x68 {
            Some(OpCode::Convi2)
        } else if value == 0x69 {
            Some(OpCode::Convi4)
        } else if value == 0x6a {
            Some(OpCode::Convi8)
        } else if value == 0x6b {
            Some(OpCode::Convr4)
        } else if value == 0x6c {
            Some(OpCode::Convr8)
        } else if value == 0x6d {
            Some(OpCode::Convu4)
        } else if value == 0x6e {
            Some(OpCode::Convu8)
        } else if value == 0x6f {
            Some(OpCode::Callvirt)
        } else if value == 0x70 {
            Some(OpCode::Cpobj)
        } else if value == 0x71 {
            Some(OpCode::Ldobj)
        } else if value == 0x72 {
            Some(OpCode::Ldstr)
        } else if value == 0x73 {
            Some(OpCode::Newobj)
        } else if value == 0x74 {
            Some(OpCode::Castclass)
        } else if value == 0x75 {
            Some(OpCode::Isinst)
        } else if value == 0x76 {
            Some(OpCode::Convrun)
        } else if value == 0x79 {
            Some(OpCode::Unbox)
        } else if value == 0x7a {
            Some(OpCode::Throw)
        } else if value == 0x7b {
            Some(OpCode::Ldfld)
        } else if value == 0x7c {
            Some(OpCode::Ldflda)
        } else if value == 0x7d {
            Some(OpCode::Stfld)
        } else if value == 0x7e {
            Some(OpCode::Ldsfld)
        } else if value == 0x7f {
            Some(OpCode::Ldsflda)
        } else if value == 0x80 {
            Some(OpCode::Stsfld)
        } else if value == 0x81 {
            Some(OpCode::Stobj)
        } else if value == 0x82 {
            Some(OpCode::Convovfi1un)
        } else if value == 0x83 {
            Some(OpCode::Convovfi2un)
        } else if value == 0x84 {
            Some(OpCode::Convovfi4un)
        } else if value == 0x85 {
            Some(OpCode::Convovfi8un)
        } else if value == 0x86 {
            Some(OpCode::Convovfu1un)
        } else if value == 0x87 {
            Some(OpCode::Convovfu2un)
        } else if value == 0x88 {
            Some(OpCode::Convovfu4un)
        } else if value == 0x89 {
            Some(OpCode::Convovfu8un)
        } else if value == 0x8a {
            Some(OpCode::Convovfiun)
        } else if value == 0x8b {
            Some(OpCode::Convovfuun)
        } else if value == 0x8c {
            Some(OpCode::Box)
        } else if value == 0x8d {
            Some(OpCode::Newarr)
        } else if value == 0x8e {
            Some(OpCode::Ldlen)
        } else if value == 0x8f {
            Some(OpCode::Ldelema)
        } else if value == 0x90 {
            Some(OpCode::Ldelemi1)
        } else if value == 0x91 {
            Some(OpCode::Ldelemu1)
        } else if value == 0x92 {
            Some(OpCode::Ldelemi2)
        } else if value == 0x93 {
            Some(OpCode::Ldelemu2)
        } else if value == 0x94 {
            Some(OpCode::Ldelemi4)
        } else if value == 0x95 {
            Some(OpCode::Ldelemu4)
        } else if value == 0x96 {
            Some(OpCode::Ldelemi8)
        } else if value == 0x97 {
            Some(OpCode::Ldelemi)
        } else if value == 0x98 {
            Some(OpCode::Ldelemr4)
        } else if value == 0x99 {
            Some(OpCode::Ldelemr8)
        } else if value == 0x9a {
            Some(OpCode::Ldelemref)
        } else if value == 0x9b {
            Some(OpCode::Stelemi)
        } else if value == 0x9c {
            Some(OpCode::Stelemi1)
        } else if value == 0x9d {
            Some(OpCode::Stelemi2)
        } else if value == 0x9e {
            Some(OpCode::Stelemi4)
        } else if value == 0x9f {
            Some(OpCode::Stelemi8)
        } else if value == 0xa0 {
            Some(OpCode::Stelemr4)
        } else if value == 0xa1 {
            Some(OpCode::Stelemr8)
        } else if value == 0xa2 {
            Some(OpCode::Stelemref)
        } else if value == 0xa3 {
            Some(OpCode::Ldelem)
        } else if value == 0xa4 {
            Some(OpCode::Stelem)
        } else if value == 0xa5 {
            Some(OpCode::Unboxany)
        } else if value == 0xb3 {
            Some(OpCode::Convovfi1)
        } else if value == 0xb4 {
            Some(OpCode::Convovfu1)
        } else if value == 0xb5 {
            Some(OpCode::Convovfi2)
        } else if value == 0xb6 {
            Some(OpCode::Convovfu2)
        } else if value == 0xb7 {
            Some(OpCode::Convovfi4)
        } else if value == 0xb8 {
            Some(OpCode::Convovfu4)
        } else if value == 0xb9 {
            Some(OpCode::Convovfi8)
        } else if value == 0xba {
            Some(OpCode::Convovfu8)
        } else if value == 0xc2 {
            Some(OpCode::Refanyval)
        } else if value == 0xc3 {
            Some(OpCode::Ckfinite)
        } else if value == 0xc6 {
            Some(OpCode::Mkrefany)
        } else if value == 0xd0 {
            Some(OpCode::Ldtoken)
        } else if value == 0xd1 {
            Some(OpCode::Convu2)
        } else if value == 0xd2 {
            Some(OpCode::Convu1)
        } else if value == 0xd3 {
            Some(OpCode::Convi)
        } else if value == 0xd4 {
            Some(OpCode::Convovfi)
        } else if value == 0xd5 {
            Some(OpCode::Convovfu)
        } else if value == 0xd6 {
            Some(OpCode::Addovf)
        } else if value == 0xd7 {
            Some(OpCode::Addovfun)
        } else if value == 0xd8 {
            Some(OpCode::Mulovf)
        } else if value == 0xd9 {
            Some(OpCode::Mulovfun)
        } else if value == 0xda {
            Some(OpCode::Subovf)
        } else if value == 0xdb {
            Some(OpCode::Subovfun)
        } else if value == 0xdc {
            Some(OpCode::Endfault)
        } else if value == 0xdd {
            Some(OpCode::Leave)
        } else if value == 0xde {
            Some(OpCode::Leaves)
        } else if value == 0xdf {
            Some(OpCode::Stindi)
        } else if value == 0xe0 {
            Some(OpCode::Convu)
        } else if value == 0xfe {
            Some(OpCode::Next)
        } else {
            None
        }
    }

    pub fn from_u8(value: u8) -> (op: Option<OpCode>)
        ensures
            op == OpCode::spec_from_code(value as int),
            op.is_some() ==> op.unwrap().spec_code() == value,
    {
        match value {
            0x00 => Some(OpCode::Nop),
            0x01 => Some(OpCode::Break),
            0x02 => Some(OpCode::Ldarg0),
            0x03 => Some(OpCode::Ldarg1),
            0x04 => Some(OpCode::Ldarg2),
            0x05 => Some(OpCode::Ldarg3),
            0x06 => Some(OpCode::Ldloc0),
            0x07 => Some(OpCode::Ldloc1),
            0x08 => Some(OpCode::Ldloc2),
            0x09 => Some(OpCode::Ldloc3),
            0x0a => Some(OpCode::Stloc0),
            0x0b => Some(OpCode::Stloc1),
            0x0c => Some(OpCode::Stloc2),
            0x0d => Some(OpCode::Stloc3),
            0x0e => Some(OpCode::Ldargs),
            0x0f => Some(OpCode::Ldargas),
            0x10 => Some(OpCode::Stargs),
            0x11 => Some(OpCode::Ldlocs),
            0x12 => Some(OpCode::Ldlocas),
            0x13 => Some(OpCode::Stlocs),
            0x14 => Some(OpCode::Ldnull),
            0x15 => Some(OpCode::Ldci4m1),
            0x16 => Some(OpCode::Ldci40),
            0x17 => Some(OpCode::Ldci41),
            0x18 => Some(OpCode::Ldci42),
            0x19 => Some(OpCode::Ldci43),
            0x1a => Some(OpCode::Ldci44),
            0x1b => Some(OpCode::Ldci45),
            0x1c => Some(OpCode::Ldci46),
            0x1d => Some(OpCode::Ldci47),
            0x1e => Some(OpCode::Ldci48),
            0x1f => Some(OpCode::Ldci4s),
            0x20 => Some(OpCode::Ldci4),
            0x21 => Some(OpCode::Ldci8),
            0x22 => Some(OpCode::Ldcr4),
            0x23 => Some(OpCode::Ldcr8),
            0x25 => Some(OpCode::Dup),
            0x26 => Some(OpCode::Pop),
            0x27 => Some(OpCode::Jmp),
            0x28 => Some(OpCode::Call),
            0x29 => Some(OpCode::Calli),
            0x2a => Some(OpCode::Ret),
            0x2b => Some(OpCode::Brs),
            0x2c => Some(OpCode::Brfalses),
            0x2d => Some(OpCode::Brtrues),
            0x2e => Some(OpCode::Beqs),
            0x2f => Some(OpCode::Bges),
            0x30 => Some(OpCode::Bgts),
            0x31 => Some(OpCode::Bles),
            0x32 => Some(OpCode::Blts),
            0x33 => Some(OpCode::Bneuns),
            0x34 => Some(OpCode::Bgeuns),
            0x35 => Some(OpCode::Bgtuns),
            0x36 => Some(OpCode::Bleuns),
            0x37 => Some(OpCode::Bltuns),
            0x38 => Some(OpCode::Br),
            0x39 => Some(OpCode::Brfalse),
            0x3a => Some(OpCode::Brtrue),
            0x3b => Some(OpCode::Beq),
            0x3c => Some(OpCode::Bge),
            0x3d => Some(OpCode::Bgt),
            0x3e => Some(OpCode::Ble),
            0x3f => Some(OpCode::Blt),
            0x40 => Some(OpCode::Bneun),
            0x41 => Some(OpCode::Bgeun),
            0x42 => Some(OpCode::Bgtun),
            0x43 => Some(OpCode::Bleun),
            0x44 => Some(OpCode::Bltun),
            0x45 => Some(OpCode::Switch),
            0x46 => Some(OpCode::Ldindi1),
            0x47 => Some(OpCode::Ldindu1),
            0x48 => Some(OpCode::Ldindi2),
            0x49 => Some(OpCode::Ldindu2),
            0x4a => Some(OpCode::Ldindi4),
            0x4b => Some(OpCode::Ldindu4),
            0x4c => Some(OpCode::Ldindi8),
            0x4d => Some(OpCode::Ldindi),
            0x4e => Some(OpCode::Ldindr4),
            0x4f => Some(OpCode::Ldindr8),
            0x50 => Some(OpCode::Ldindref),
            0x51 => Some(OpCode::Stindref),
            0x52 => Some(OpCode::Stindi1),
            0x53 => Some(OpCode::Stindi2),
            0x54 => Some(OpCode::Stindi4),
            0x55 => Some(OpCode::Stindi8),
            0x56 => Some(OpCode::Stindr4),
            0x57 => Some(OpCode::Stindr8),
            0x58 => Some(OpCode::Add),
            0x59 => Some(OpCode::Sub),
            0x5a => Some(OpCode::Mul),
            0x5b => Some(OpCode::Div),
            0x5c => Some(OpCode::Divun),
            0x5d => Some(OpCode::Rem),
            0x5e => Some(OpCode::Remun),
            0x5f => Some(OpCode::And),
            0x60 => Some(OpCode::Or),
            0x61 => Some(OpCode::Xor),
            0x62 => Some(OpCode::Shl),
            0x63 => Some(OpCode::Shr),
            0x64 => Some(OpCode::Shrun),
            0x65 => Some(OpCode::Neg),
            0x66 => Some(OpCode::Not),
            0x67 => Some(OpCode::Convi1),
            0x68 => Some(OpCode::Convi2),
            0x69 => Some(OpCode::Convi4),
            0x6a => Some(OpCode::Convi8),
            0x6b => Some(OpCode::Convr4),
            0x6c => Some(OpCode::Convr8),
            0x6d => Some(OpCode::Convu4),
            0x6e => Some(OpCode::Convu8),
            0x6f => Some(OpCode::Callvirt),
            0x70 => Some(OpCode::Cpobj),
            0x71 => Some(OpCode::Ldobj),
            0x72 => Some(OpCode::Ldstr),
            0x73 => Some(OpCode::Newobj),
            0x74 => Some(OpCode::Castclass),
            0x75 => Some(OpCode::Isinst),
            0x76 => Some(OpCode::Convrun),
            0x79 => Some(OpCode::Unbox),
            0x7a => Some(OpCode::Throw),
            0x7b => Some(OpCode::Ldfld),
            0x7c => Some(OpCode::Ldflda),
            0x7d => Some(OpCode::Stfld),
            0x7e => Some(OpCode::Ldsfld),
            0x7f => Some(OpCode::Ldsflda),
            0x80 => Some(OpCode::Stsfld),
            0x81 => Some(OpCode::Stobj),
            0x82 => Some(OpCode::Convovfi1un),
            0x83 => Some(OpCode::Convovfi2un),
            0x84 => Some(OpCode::Convovfi4un),
            0x85 => Some(OpCode::Convovfi8un),
            0x86 => Some(OpCode::Convovfu1un),
            0x87 => Some(OpCode::Convovfu2un),
            0x88 => Some(OpCode::Convovfu4un),
            0x89 => Some(OpCode::Convovfu8un),
            0x8a => Some(OpCode::Convovfiun),
            0x8b => Some(OpCode::Convovfuun),
            0x8c => Some(OpCode::Box),
            0x8d => Some(OpCode::Newarr),
            0x8e => Some(OpCode::Ldlen),
            0x8f => Some(OpCode::Ldelema),
            0x90 => Some(OpCode::Ldelemi1),
            0x91 => Some(OpCode::Ldelemu1),
            0x92 => Some(OpCode::Ldelemi2),
            0x93 => Some(OpCode::Ldelemu2),
            0x94 => Some(OpCode::Ldelemi4),
            0x95 => Some(OpCode::Ldelemu4),
            0x96 => Some(OpCode::Ldelemi8),
            0x97 => Some(OpCode::Ldelemi),
            0x98 => Some(OpCode::Ldelemr4),
            0x99 => Some(OpCode::Ldelemr8),
            0x9a => Some(OpCode::Ldelemref),
            0x9b => Some(OpCode::Stelemi),
            0x9c => Some(OpCode::Stelemi1),
            0x9d => Some(OpCode::Stelemi2),
            0x9e => Some(OpCode::Stelemi4),
            0x9f => Some(OpCode::Stelemi8),
            0xa0 => Some(OpCode::Stelemr4),
            0xa1 => Some(OpCode::Stelemr8),
            0xa2 => Some(OpCode::Stelemref),
            0xa3 => Some(OpCode::Ldelem),
            0xa4 => Some(OpCode::Stelem),
            0xa5 => Some(OpCode::Unboxany),
            0xb3 => Some(OpCode::Convovfi1),
            0xb4 => Some(OpCode::Convovfu1),
            0xb5 => Some(OpCode::Convovfi2),
            0xb6 => Some(OpCode::Convovfu2),
            0xb7 => Some(OpCode::Convovfi4),
            0xb8 => Some(OpCode::Convovfu4),
            0xb9 => Some(OpCode::Convovfi8),
            0xba => Some(OpCode::Convovfu8),
            0xc2 => Some(OpCode::Refanyval),
            0xc3 => Some(OpCode::Ckfinite),
            0xc6 => Some(OpCode::Mkrefany),
            0xd0 => Some(OpCode::Ldtoken),
            0xd1 => Some(OpCode::Convu2),
            0xd2 => Some(OpCode::Convu1),
            0xd3 => Some(OpCode::Convi),
            0xd4 => Some(OpCode::Convovfi),
            0xd5 => Some(OpCode::Convovfu),
            0xd6 => Some(OpCode::Addovf),
            0xd7 => Some(OpCode::Addovfun),
            0xd8 => Some(OpCode::Mulovf),
            0xd9 => Some(OpCode::Mulovfun),
            0xda => Some(OpCode::Subovf),
            0xdb => Some(OpCode::Subovfun),
            0xdc => Some(OpCode::Endfault),
            0xdd => Some(OpCode::Leave),
            0xde => Some(OpCode::Leaves),
            0xdf => Some(OpCode::Stindi),
            0xe0 => Some(OpCode::Convu),
            0xfe => Some(OpCode::Next),
            _ => None,
        }
    }
}

/// The opcodes of two bytes, by their second byte.
#[derive(Clone, Copy, PartialEq, Eq, Debug, Structural)]
pub enum OpCode2 {
    Arglist,
    Ceq,
    Cgt,
    Cgtun,
    Clt,
    Cltun,
    Ldftn,
    Ldvirtftn,
    Ldarg,
    Ldarga,
    Starg,
    Ldloc,
    Ldloca,
    Stloc,
    Localloc,
    Endfilter,
    Unaligned,
    Volatile,
    Tail,
    Initobj,
    Constrained,
    Cpblk,
    Initblk,
    No,
    Rethrow,
    Sizeof,
    Refanytype,
    Readonly,
}

impl OpCode2 {
    /// The byte of the opcode.
    pub open spec fn spec_code(self) -> u8 {
        match self {
            OpCode2::Arglist => 0x00,
            OpCode2::Ceq => 0x01,
            OpCode2::Cgt => 0x02,
            OpCode2::Cgtun => 0x03,
            OpCode2::Clt => 0x04,
            OpCode2::Cltun => 0x05,
            OpCode2::Ldftn => 0x06,
            OpCode2::Ldvirtftn => 0x07,
            OpCode2::Ldarg => 0x09,
            OpCode2::Ldarga => 0x0a,
            OpCode2::Starg => 0x0b,
            OpCode2::Ldloc => 0x0c,
            OpCode2::Ldloca => 0x0d,
            OpCode2::Stloc => 0x0e,
            OpCode2::Localloc => 0x0f,
            OpCode2::Endfilter => 0x11,
            OpCode2::Unaligned => 0x12,
            OpCode2::Volatile => 0x13,
            OpCode2::Tail => 0x14,
            OpCode2::Initobj => 0x15,
            OpCode2::Constrained => 0x16,
            OpCode2::Cpblk => 0x17,
            OpCode2::Initblk => 0x18,
            OpCode2::No => 0x19,
            OpCode2::Rethrow => 0x1a,
            OpCode2::Sizeof => 0x1c,
            OpCode2::Refanytype => 0x1d,
            OpCode2::Readonly => 0x1e,
        }
    }

    /// The opcode of the byte, if the byte is one.
    pub open spec fn spec_from_code(value: int) -> Option<OpCode2> {
        if value == 0x00 {
            Some(OpCode2::Arglist)
        } else if value == 0x01 {
            Some(OpCode2::Ceq)
        } else if value == 0x02 {
            Some(OpCode2::Cgt)
        } else if value == 0x03 {
            Some(OpCode2::Cgtun)
        } else if value == 0x04 {
            Some(OpCode2::Clt)
        } else if value == 0x05 {
            Some(OpCode2::Cltun)
        } else if value == 0x06 {
            Some(OpCode2::Ldftn)
        } else if value == 0x07 {
            Some(OpCode2::Ldvirtftn)
        } else if value == 0x09 {
            Some(OpCode2::Ldarg)
        } else if value == 0x0a {
            Some(OpCode2::Ldarga)
        } else if value == 0x0b {
            Some(OpCode2::Starg)
        } else if value == 0x0c {
            Some(OpCode2::Ldloc)
        } else if value == 0x0d {
            Some(OpCode2::Ldloca)
        } else if value == 0x0e {
            Some(OpCode2::Stloc)
        } else if value == 0x0f {
            Some(OpCode2::Localloc)
        } else if value == 0x11 {
            Some(OpCode2::Endfilter)
        } else if value == 0x12 {
            Some(OpCode2::Unaligned)
        } else if value == 0x13 {
            Some(OpCode2::Volatile)
        } else if value == 0x14 {
            Some(OpCode2::Tail)
        } else if value == 0x15 {
            Some(OpCode2::Initobj)
        } else if value == 0x16 {
            Some(OpCode2::Constrained)
        } else if value == 0x17 {
            Some(OpCode2::Cpblk)
        } else if value == 0x18 {
            Some(OpCode2::Initblk)
        } else if value == 0x19 {
            Some(OpCode2::No)
        } else if value == 0x1a {
            Some(OpCode2::Rethrow)
        } else if value == 0x1c {
            Some(OpCode2::Sizeof)
        } else if value == 0x1d {
            Some(OpCode2::Refanytype)
        } else if value == 0x1e {
            Some(OpCode2::Readonly)
        } else {
            None
        }
    }

    pub fn from_u8(value: u8) -> (op: Option<OpCode2>)
        ensures
            op == OpCode2::spec_from_code(value as int),
            op.is_some() ==> op.unwrap().spec_code() == value,
    {
        match value {
            0x00 => Some(OpCode2::Arglist),
            0x01 => Some(OpCode2::Ceq),
            0x02 => Some(OpCode2::Cgt),
            0x03 => Some(OpCode2::Cgtun),
            0x04 => Some(OpCode2::Clt),
            0x05 => Some(OpCode2::Cltun),
            0x06 => Some(OpCode2::Ldftn),
            0x07 => Some(OpCode2::Ldvirtftn),
            0x09 => Some(OpCode2::Ldarg),
            0x0a => Some(OpCode2::Ldarga),
            0x0b => Some(OpCode2::Starg),
            0x0c => Some(OpCode2::Ldloc),
            0x0d => Some(OpCode2::Ldloca),
            0x0e => Some(OpCode2::Stloc),
            0x0f => Some(OpCode2::Localloc),
            0x11 => Some(OpCode2::Endfilter),
            0x12 => Some(OpCode2::Unaligned),
            0x13 => Some(OpCode2::Volatile),
            0x14 => Some(OpCode2::Tail),
            0x15 => Some(OpCode2::Initobj),
            0x16 => Some(OpCode2::Constrained),
            0x17 => Some(OpCode2::Cpblk),
            0x18 => Some(OpCode2::Initblk),
            0x19 => Some(OpCode2::No),
            0x1a => Some(OpCode2::Rethrow),
            0x1c => Some(OpCode2::Sizeof),
            0x1d => Some(OpCode2::Refanytype),
            0x1e => Some(OpCode2::Readonly),
            _ => None,
        }
    }
}

} // verus!
