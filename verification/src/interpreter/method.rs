use super::data_reader::{spec_u16_le, spec_u32_le, DataReader};
use super::metadata::pe::{spec_rva_to_file_offset, PE};
use super::metadata::rid_list::RidList;
use super::metadata::root::{lemma_cells, Metadata};
use super::metadata::table_kind::MDTableType;
use super::row_util::{advance_owner, spec_cell_sig, spec_first_above, spec_owner};
use super::sig_equal::spec_option_sig_view;
use super::signature::CallingConventionSig;
use crate::error::ImageError;
use super::assembly::Assembly;
use super::text::{full_name, spec_full_name};
use super::type_sig::spec_types_text;
use vstd::prelude::*;
use vstd::string::StringExecFns;

verus! {

/// What the header before the code of a method says.
#[derive(Clone, Copy, PartialEq, Eq, Debug, Structural)]
pub struct MethodHeader {
    pub flags: u16,
    /// The size of the header, in bytes.
    pub header_size: u8,
    /// The size of the code, in bytes.
    pub code_size: u32,
    /// How many values the code may keep on the operand stack.
    pub max_stack: u16,
    /// The row of the signature of the local variables; zero where there are none.
    pub local_var_rid: u32,
}

/// The header of a method without code.
pub open spec fn spec_no_header() -> MethodHeader {
    MethodHeader { flags: 0, header_size: 0, code_size: 0, max_stack: 0, local_var_rid: 0 }
}

/// The header at `pos`. A tiny header is one byte whose low two bits are `10`; the
/// other six are the size of the code, the stack holds eight values and there are
/// no local variables. A fat header has the low three bits `011` in its first byte;
/// the high four bits of its second byte are its size in words, and the stack size,
/// the code size and the token of the local variables follow.
pub open spec fn spec_method_header(s: Seq<u8>, pos: int) -> MethodHeader {
    if s[pos] % 4 == 2 {
        MethodHeader {
            flags: 2,
            header_size: 1,
            code_size: (s[pos] / 4) as u32,
            max_stack: 8,
            local_var_rid: 0,
        }
    } else {
        MethodHeader {
            flags: (s[pos + 1] * 0x100) as u16,
            header_size: (4 * (s[pos + 1] / 16)) as u8,
            code_size: spec_u32_le(s, pos + 4) as u32,
            max_stack: spec_u16_le(s, pos + 2) as u16,
            local_var_rid: (spec_u32_le(s, pos + 8) % 0x100_0000) as u32,
        }
    }
}

/// Why the header at `pos` cannot be read, if it cannot.
pub open spec fn spec_method_header_error(s: Seq<u8>, pos: int) -> Option<ImageError> {
    if pos < 0 || pos >= s.len() {
        Some(ImageError::UnexpectedEof)
    } else if s[pos] % 4 == 2 {
        None
    } else if s[pos] % 8 != 3 {
        Some(ImageError::InvalidData)
    } else if pos + 12 > s.len() || pos + 4 * (s[pos + 1] / 16) > s.len() {
        Some(ImageError::UnexpectedEof)
    } else {
        None
    }
}

/// Reads the method header at `position`.
pub fn read_method_header(reader: &DataReader, position: usize) -> (result: Result<
    MethodHeader,
    ImageError,
>)
    ensures
        match result {
            Ok(h) => spec_method_header_error(reader.bytes(), position as int).is_none() && h
                == spec_method_header(reader.bytes(), position as int),
            Err(e) => spec_method_header_error(reader.bytes(), position as int) == Some(e),
        },
{
    let mut p: usize = position;
    let b: u8 = reader.read_u8_immut(&mut p)?;
    if b % 4 == 2 {
        return Ok(
            MethodHeader {
                flags: 2,
                header_size: 1,
                code_size: (b / 4) as u32,
                max_stack: 8,
                local_var_rid: 0,
            },
        );
    }
    if b % 8 != 3 {
        return Err(ImageError::InvalidData);
    }
    reader.check_position(position, 12)?;
    let second: u8 = reader.read_u8_immut(&mut p)?;
    let flags: u16 = (second as u16) * 0x100;
    let header_size: u8 = 4 * (second / 16);
    let max_stack: u16 = reader.read_u16_immut(&mut p)?;
    let code_size: u32 = reader.read_u32_immut(&mut p)?;
    let local_var_rid: u32 = reader.read_u32_immut(&mut p)? % 0x100_0000;
    reader.check_position(position, header_size as usize)?;
    Ok(MethodHeader { flags, header_size, code_size, max_stack, local_var_rid })
}

/// A method of a type.
pub struct Method {
    /// The token of the row.
    pub token: u32,
    /// Where the header of the method lies in the loaded image; zero where the
    /// method has no code.
    pub rva: u32,
    /// How the method is implemented.
    pub impl_flags: u16,
    /// The attributes of the method: static, virtual, abstract and so on.
    pub attributes: u16,
    /// The flags of the method header.
    pub flags: u16,
    pub name: String,
    pub signature: Option<CallingConventionSig>,
    /// The parameters of the method.
    pub param_list: RidList,
    /// The place of the type that owns the method, counted from zero.
    pub owner_type: u32,
    pub max_stack: u16,
    pub header_size: u8,
    pub code_size: u32,
    pub local_var_rid: u32,
    /// Where the header lies in the image.
    pub header_position: usize,
    /// Where the code lies in the image.
    pub code_position: usize,
}

/// The kinds of code a method can be made of.
#[derive(Clone, Copy, PartialEq, Eq, Debug, Structural)]
pub enum CodeType {
    IL,
    Native,
    OPTIL,
    Runtime,
}

impl CodeType {
    /// The number of the kind among the implementation flags.
    pub open spec fn spec_code(self) -> u16 {
        match self {
            CodeType::IL => 0,
            CodeType::Native => 1,
            CodeType::OPTIL => 2,
            CodeType::Runtime => 3,
        }
    }

    pub fn code(self) -> (c: u16)
        ensures
            c == self.spec_code(),
    {
        match self {
            CodeType::IL => 0,
            CodeType::Native => 1,
            CodeType::OPTIL => 2,
            CodeType::Runtime => 3,
        }
    }
}

/// Whether the code of a method is managed.
#[derive(Clone, Copy, PartialEq, Eq, Debug, Structural)]
pub enum Managed {
    Managed,
    Unmanaged,
}

impl Managed {
    /// The number of the kind among the implementation flags.
    pub open spec fn spec_code(self) -> u16 {
        match self {
            Managed::Managed => 0,
            Managed::Unmanaged => 1,
        }
    }

    pub fn code(self) -> (c: u16)
        ensures
            c == self.spec_code(),
    {
        match self {
            Managed::Managed => 0,
            Managed::Unmanaged => 1,
        }
    }
}

/// The implementation flags that are single bits.
#[derive(Clone, Copy, PartialEq, Eq, Debug, Structural)]
pub enum CommonImplAttrFlagInfo {
    NoInlining,
    ForwardRef,
    Synchronized,
    NoOptimization,
    PreserveSig,
    AggressiveInlining,
    AggressiveOptimization,
    SecurityMitigations,
    InternalCall,
}

impl CommonImplAttrFlagInfo {
    /// The bit of the flag.
    pub open spec fn spec_code(self) -> u16 {
        match self {
            CommonImplAttrFlagInfo::NoInlining => 0x0008,
            CommonImplAttrFlagInfo::ForwardRef => 0x0010,
            CommonImplAttrFlagInfo::Synchronized => 0x0020,
            CommonImplAttrFlagInfo::NoOptimization => 0x0040,
            CommonImplAttrFlagInfo::PreserveSig => 0x0080,
            CommonImplAttrFlagInfo::AggressiveInlining => 0x0100,
            CommonImplAttrFlagInfo::AggressiveOptimization => 0x0200,
            CommonImplAttrFlagInfo::SecurityMitigations => 0x0400,
            CommonImplAttrFlagInfo::InternalCall => 0x1000,
        }
    }

    pub fn code(self) -> (c: u16)
        ensures
            c == self.spec_code(),
    {
        match self {
            CommonImplAttrFlagInfo::NoInlining => 0x0008,
            CommonImplAttrFlagInfo::ForwardRef => 0x0010,
            CommonImplAttrFlagInfo::Synchronized => 0x0020,
            CommonImplAttrFlagInfo::NoOptimization => 0x0040,
            CommonImplAttrFlagInfo::PreserveSig => 0x0080,
            CommonImplAttrFlagInfo::AggressiveInlining => 0x0100,
            CommonImplAttrFlagInfo::AggressiveOptimization => 0x0200,
            CommonImplAttrFlagInfo::SecurityMitigations => 0x0400,
            CommonImplAttrFlagInfo::InternalCall => 0x1000,
        }
    }
}

/// A question about the implementation flags of a method.
#[derive(Clone, Copy, PartialEq, Eq, Debug, Structural)]
pub enum ImplAttrFlagInfo {
    CodeType(CodeType),
    Managed(Managed),
    CommonImplAttrFlagInfo(CommonImplAttrFlagInfo),
}

impl Method {
    /// Why row `row`, counted from zero, cannot be read from the image `s`, if it cannot.
    pub open spec fn spec_row_error(md: &Metadata, pe: &PE, s: Seq<u8>, row: int) -> Option<
        ImageError,
    > {
        let rva = md.spec_cell(6, 0, row);
        let pos = spec_rva_to_file_offset(pe.image_section_headers@, rva, 0);
        if rva != 0 && spec_method_header_error(s, pos).is_some() {
            spec_method_header_error(s, pos)
        } else if md.spec_cell_string(6, 3, row).is_none() {
            Some(ImageError::UnexpectedEof)
        } else {
            None
        }
    }

    /// True where `self` is row `row`, counted from zero, of the table, with the
    /// header that the image `s` holds for it.
    pub open spec fn spec_row(
        &self,
        md: &Metadata,
        pe: &PE,
        s: Seq<u8>,
        row: int,
        owners: Seq<u32>,
    ) -> bool {
        let header = if self.rva == 0 {
            spec_no_header()
        } else {
            spec_method_header(s, self.header_position as int)
        };
        &&& self.token == 0x0600_0001 + row
        &&& self.rva == md.spec_cell(6, 0, row)
        &&& self.impl_flags == md.spec_cell(6, 1, row)
        &&& self.attributes == md.spec_cell(6, 2, row)
        &&& md.spec_cell_string(6, 3, row) == Some(self.name@)
        &&& spec_option_sig_view(self.signature) == spec_cell_sig(md, 6, 4, row)
        &&& self.param_list.rids.is_none()
        &&& (self.param_list.start_rid as int, self.param_list.count as int)
            == Metadata::spec_rid_list(&md.spec_table(6), (row + 1) as u32, 5, &md.spec_table(8))
        &&& self.owner_type + 1 == spec_owner(owners, row + 1)
        &&& self.header_position == (if self.rva == 0 {
            0
        } else {
            spec_rva_to_file_offset(pe.image_section_headers@, self.rva, 0)
        })
        &&& self.code_position == self.header_position + self.header_size
        &&& self.flags == header.flags
        &&& self.header_size == header.header_size
        &&& self.code_size == header.code_size
        &&& self.max_stack == header.max_stack
        &&& self.local_var_rid == header.local_var_rid
    }

    /// Reads all rows of the table, with the header of each method from the image
    /// that `reader` holds. `method_to_type_map` holds, for each type in order, the
    /// row of its first method.
    #[verifier::loop_isolation(false)]
    pub fn read_methods(
        pe: &PE,
        metadata: &Metadata,
        method_to_type_map: Vec<u32>,
        reader: &mut DataReader,
    ) -> (result: Result<Vec<Method>, ImageError>)
        requires
            metadata.spec_wf(),
            method_to_type_map@.len() <= 0x00FF_FFFF,
        ensures
            final(reader).bytes() == old(reader).bytes(),
            final(reader).pos() == old(reader).pos(),
            match result {
                Ok(rows) => {
                    &&& rows@.len() == metadata.spec_rows(6)
                    &&& forall|r: int|
                        0 <= r < rows@.len() ==> (#[trigger] Method::spec_row_error(
                            metadata,
                            pe,
                            old(reader).bytes(),
                            r,
                        )).is_none() && spec_owner(method_to_type_map@, r + 1) > 0
                    &&& forall|r: int|
                        0 <= r < rows@.len() ==> (#[trigger] rows@[r]).spec_row(
                            metadata,
                            pe,
                            old(reader).bytes(),
                            r,
                            method_to_type_map@,
                        )
                },
                Err(e) => exists|r: int|
                    0 <= r < metadata.spec_rows(6) && (if spec_owner(method_to_type_map@, r + 1) == 0 {
                        Some(ImageError::InvalidData)
                    } else {
                        #[trigger] Method::spec_row_error(metadata, pe, old(reader).bytes(), r)
                    }) == Some(e) && forall|q: int|
                        0 <= q < r ==> (#[trigger] Method::spec_row_error(
                            metadata,
                            pe,
                            old(reader).bytes(),
                            q,
                        )).is_none() && spec_owner(method_to_type_map@, q + 1) > 0,
            },
    {
        let ghost s = reader.bytes();
        let mut rows: Vec<Method> = Vec::new();
        let count: u32 = metadata.row_count(6);
        let mut type_map_index: usize = 0;
        let mut owner_end: usize = 0;
        let mut row: u32 = 0;
        let _ = reader.get_position();
        while row < count
            invariant
                row <= count,
                rows@.len() == row,
                type_map_index <= method_to_type_map@.len(),
                owner_end == super::row_util::spec_last_owner(
                    method_to_type_map@,
                    type_map_index as int,
                ),
                spec_first_above(method_to_type_map@, row + 1, 0) == spec_first_above(
                    method_to_type_map@,
                    row + 1,
                    type_map_index as int,
                ),
                forall|r: int|
                    0 <= r < row ==> (#[trigger] Method::spec_row_error(
                        metadata,
                        pe,
                        s,
                        r,
                    )).is_none() && spec_owner(method_to_type_map@, r + 1) > 0,
                forall|r: int|
                    0 <= r < row ==> (#[trigger] rows@[r]).spec_row(
                        metadata,
                        pe,
                        s,
                        r,
                        method_to_type_map@,
                    ),
            decreases count - row,
        {
            proof {
                lemma_cells(metadata, MDTableType::Method, row as int);
                assert(metadata.spec_table(6).spec_has_cell(0, row as int));
                assert(metadata.spec_table(6).spec_has_cell(1, row as int));
                assert(metadata.spec_table(6).spec_has_cell(2, row as int));
                assert(metadata.spec_table(6).spec_has_cell(3, row as int));
                assert(metadata.spec_table(6).spec_has_cell(4, row as int));
            }
            let found: (usize, usize) = advance_owner(
                &method_to_type_map,
                row + 1,
                type_map_index,
                owner_end,
            );
            type_map_index = found.0;
            owner_end = found.1;
            if owner_end == 0 {
                assert(spec_owner(method_to_type_map@, row + 1) == 0);
                return Err(ImageError::InvalidData);
            }
            let owner_type: u32 = (owner_end - 1) as u32;
            let rva: u32 = metadata.cell(6, 0, row);
            let mut header_position: usize = 0;
            let mut header = MethodHeader {
                flags: 0,
                header_size: 0,
                code_size: 0,
                max_stack: 0,
                local_var_rid: 0,
            };
            if rva != 0 {
                header_position = pe.rva_to_file_offset(rva);
                header = match read_method_header(reader, header_position) {
                    Ok(h) => h,
                    Err(e) => {
                        assert(Method::spec_row_error(metadata, pe, s, row as int) == Some(e));
                        return Err(e);
                    },
                };
            }
            let impl_flags: u16 = metadata.cell(6, 1, row) as u16;
            let attributes: u16 = metadata.cell(6, 2, row) as u16;
            let name: String = match metadata.cell_string(6, 3, row) {
                Ok(text) => text,
                Err(e) => {
                    assert(Method::spec_row_error(metadata, pe, s, row as int) == Some(e));
                    return Err(e);
                },
            };
            let signature: Option<CallingConventionSig> = CallingConventionSig::read_metadata_sig(
                metadata,
                metadata.cell(6, 4, row),
            );
            let param_list: RidList = metadata.get_param_rid_list(row + 1);
            rows.push(
                Method {
                    token: 0x0600_0001 + row,
                    rva,
                    impl_flags,
                    attributes,
                    flags: header.flags,
                    name,
                    signature,
                    param_list,
                    owner_type,
                    max_stack: header.max_stack,
                    header_size: header.header_size,
                    code_size: header.code_size,
                    local_var_rid: header.local_var_rid,
                    header_position,
                    code_position: header_position + header.header_size as usize,
                },
            );
            row += 1;
        }
        Ok(rows)
    }

    /// What `check_impl_flag_info` answers for the implementation flags `impl_flags`.
    pub open spec fn spec_check_impl_flag_info(impl_flags: u16, flag_info: ImplAttrFlagInfo) -> bool {
        match flag_info {
            ImplAttrFlagInfo::CodeType(t) => impl_flags & 0x0003 & t.spec_code() != 0,
            ImplAttrFlagInfo::Managed(m) => impl_flags & 0x0004 & m.spec_code() != 0,
            ImplAttrFlagInfo::CommonImplAttrFlagInfo(c) => impl_flags & c.spec_code() != 0,
        }
    }

    /// True where the implementation flags have a bit in common with the number of
    /// the flag asked for, within the bits of its kind.
    pub fn check_impl_flag_info(&self, flag_info: ImplAttrFlagInfo) -> (b: bool)
        ensures
            b == Method::spec_check_impl_flag_info(self.impl_flags, flag_info),
    {
        match flag_info {
            ImplAttrFlagInfo::CodeType(t) => self.impl_flags & 0x0003 & t.code() != 0,
            ImplAttrFlagInfo::Managed(m) => self.impl_flags & 0x0004 & m.code() != 0,
            ImplAttrFlagInfo::CommonImplAttrFlagInfo(c) => self.impl_flags & c.code() != 0,
        }
    }

    /// True where the method is marked as implemented by the runtime itself.
    pub fn is_internal_call(&self) -> (b: bool)
        ensures
            b == (self.impl_flags & 0x1000 != 0),
    {
        self.impl_flags & 0x1000 != 0
    }

    /// The text of the method: the text of the type it returns, a blank, the
    /// full name of the type that owns it, a dot, its name, and the texts of the
    /// types of its parameters in parentheses.
    pub open spec fn spec_text(&self, assembly: &Assembly) -> Seq<char> {
        let sig = self.signature->Some_0->MethodSig_0;
        let owner = assembly.type_defs.spec_values()[self.owner_type as int];
        (match sig.base.ret_type {
            Some(t) => t.spec_text(),
            None => Seq::<char>::empty(),
        }) + " "@ + spec_full_name(owner.namespace@, owner.name@) + "."@ + self.name@ + "("@
            + spec_types_text(sig.base.parameters@, sig.base.parameters@.len() as int) + ")"@
    }

    /// The text of the method, which has the signature of a method and a type
    /// that owns it in `assembly`.
    pub fn to_string(&self, assembly: &Assembly) -> (text: String)
        requires
            self.signature is Some,
            self.signature->Some_0 is MethodSig,
            self.owner_type < assembly.type_defs.spec_values().len(),
        ensures
            text@ == self.spec_text(assembly),
    {
        let sig = match &self.signature {
            Some(CallingConventionSig::MethodSig(sig)) => sig,
            _ => vstd::pervasive::unreached(),
        };
        let owner = match assembly.type_defs.index_get(self.owner_type as usize) {
            Some(owner) => owner,
            None => vstd::pervasive::unreached(),
        };
        let mut text: String = sig.get_ret_type_string();
        let ghost ret = text@;
        text.append(" ");
        let owner_name: String = full_name(&owner.namespace, &owner.name);
        text.append(owner_name.as_str());
        text.append(".");
        text.append(self.name.as_str());
        let params: String = sig.get_params_type_string();
        text.append(params.as_str());
        proof {
            let types = sig.base.parameters@;
            let head = ret + " "@ + spec_full_name(owner.namespace@, owner.name@) + "."@
                + self.name@;
            assert(head + ("("@ + spec_types_text(types, types.len() as int) + ")"@) =~= head
                + "("@ + spec_types_text(types, types.len() as int) + ")"@);
        }
        text
    }

    /// True where the method is static.
    pub fn is_static(&self) -> (b: bool)
        ensures
            b == (self.attributes & 0x10 != 0),
    {
        self.attributes & 0x10 != 0
    }
}

} // verus!
