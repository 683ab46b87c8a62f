use super::data_reader::push_char;
use super::signature::CallingConventionSig;
use super::text::{i64_to_string, spec_signed_decimal, u64_to_string};
use super::type_sig::{CorLibType, TypeSig, TypeSigView};
use vstd::prelude::*;
use vstd::string::StringExecFns;

verus! {

/// `v` brought into the range of `i32` by adding or taking away `2^32`.
pub open spec fn spec_wrap_i32(v: int) -> int {
    if v > i32::MAX {
        v - 0x1_0000_0000
    } else if v < i32::MIN {
        v + 0x1_0000_0000
    } else {
        v
    }
}

/// `v` brought into the range of `i64` by adding or taking away `2^64`.
pub open spec fn spec_wrap_i64(v: int) -> int {
    if v > i64::MAX {
        v - 0x1_0000_0000_0000_0000
    } else if v < i64::MIN {
        v + 0x1_0000_0000_0000_0000
    } else {
        v
    }
}

/// True where the bits are those of a single-precision number that is no number.
pub open spec fn spec_is_nan32(bits: u32) -> bool {
    (bits as int / 0x80_0000) % 0x100 == 0xFF && bits as int % 0x80_0000 != 0
}

/// True where the bits are those of a double-precision number that is no number.
pub open spec fn spec_is_nan64(bits: u64) -> bool {
    (bits as int / 0x10_0000_0000_0000) % 0x800 == 0x7FF && bits as int % 0x10_0000_0000_0000
        != 0
}

/// A whole number that orders the single-precision numbers as their values do:
/// the bits below the sign, negated where the sign is set.
pub open spec fn spec_key32(bits: u32) -> int {
    if bits >= 0x8000_0000 {
        -(bits - 0x8000_0000)
    } else {
        bits as int
    }
}

/// A whole number that orders the double-precision numbers as their values do.
pub open spec fn spec_key64(bits: u64) -> int {
    if bits >= 0x8000_0000_0000_0000 {
        -(bits - 0x8000_0000_0000_0000)
    } else {
        bits as int
    }
}

/// The whole part of the double-precision number with the bits `bits`, cut to the
/// range from zero to `max`: zero for what is no number and for a negative number,
/// `max` for a number beyond it.
pub open spec fn spec_double_to_unsigned(bits: u64, max: u64) -> u64 {
    let exponent = ((bits >> 52) & 0x7FF) as int;
    let fraction = bits & 0xF_FFFF_FFFF_FFFF;
    let mantissa = fraction | 0x10_0000_0000_0000;
    if spec_is_nan64(bits) || bits >= 0x8000_0000_0000_0000 || exponent < 1023 {
        0
    } else if exponent >= 1023 + 64 {
        max
    } else {
        let whole = if exponent >= 1023 + 52 {
            mantissa << ((exponent - 1023 - 52) as u64)
        } else {
            mantissa >> ((1023 + 52 - exponent) as u64)
        };
        if whole > max {
            max
        } else {
            whole
        }
    }
}

/// The double-precision number that has the value of the single-precision number
/// with the bits `bits`; subnormal numbers, which are below one, are taken as zero.
pub open spec fn spec_single_as_double(bits: u32) -> u64 {
    let sign = (bits >> 31) as u64;
    let exponent = ((bits >> 23) & 0xFF) as u64;
    let fraction = (bits & 0x7F_FFFF) as u64;
    if exponent == 0 {
        sign << 63
    } else if exponent == 0xFF {
        (sign << 63) | (0x7FFu64 << 52) | (fraction << 29)
    } else {
        (sign << 63) | (((exponent + 896) as u64) << 52) | (fraction << 29)
    }
}

fn double_to_unsigned(bits: u64, max: u64) -> (value: u64)
    ensures
        value == spec_double_to_unsigned(bits, max),
        value <= max,
{
    let exponent: u64 = (bits >> 52) & 0x7FF;
    let fraction: u64 = bits & 0xF_FFFF_FFFF_FFFF;
    let mantissa: u64 = fraction | 0x10_0000_0000_0000;
    assert(((bits >> 52) & 0x7FF) <= 0x7FF) by (bit_vector);
    assert(((bits >> 52) & 0x7FF) == (bits / 0x10_0000_0000_0000) % 0x800) by (bit_vector);
    assert((bits & 0xF_FFFF_FFFF_FFFF) == bits % 0x10_0000_0000_0000) by (bit_vector);
    let is_nan: bool = exponent == 0x7FF && fraction != 0;
    if is_nan || bits >= 0x8000_0000_0000_0000 || exponent < 1023 {
        return 0;
    }
    if exponent >= 1023 + 64 {
        return max;
    }
    let whole: u64 = if exponent >= 1023 + 52 {
        mantissa << (exponent - 1023 - 52)
    } else {
        mantissa >> (1023 + 52 - exponent)
    };
    if whole > max {
        max
    } else {
        whole
    }
}

fn single_as_double(bits: u32) -> (wide: u64)
    ensures
        wide == spec_single_as_double(bits),
{
    let sign: u64 = (bits >> 31) as u64;
    let exponent: u64 = ((bits >> 23) & 0xFF) as u64;
    let fraction: u64 = (bits & 0x7F_FFFF) as u64;
    assert(((bits >> 23) & 0xFF) <= 0xFF) by (bit_vector);
    if exponent == 0 {
        sign << 63
    } else if exponent == 0xFF {
        (sign << 63) | (0x7FFu64 << 52) | (fraction << 29)
    } else {
        (sign << 63) | ((exponent + 896) << 52) | (fraction << 29)
    }
}

/// A value of one of the primitive types. The two floating-point kinds hold the
/// bits of the number.
#[derive(Clone, Copy, PartialEq, Eq, Debug, Structural)]
pub enum ILValType {
    Boolean(bool),
    Byte(u8),
    SByte(i8),
    Char(char),
    /// The bits of a double-precision number.
    Double(u64),
    /// The bits of a single-precision number.
    Single(u32),
    Int32(i32),
    UInt32(u32),
    Int64(i64),
    UInt64(u64),
    Short(i16),
    UShort(u16),
    Isize(isize),
    Usize(usize),
}

impl ILValType {
    /// True of zero, of the character with code zero and of `false`.
    pub open spec fn spec_is_false_type(&self) -> bool {
        match *self {
            ILValType::Boolean(b) => !b,
            ILValType::Byte(b) => b == 0,
            ILValType::SByte(b) => b == 0,
            ILValType::Char(c) => c as u32 == 0,
            ILValType::Double(d) => d as int % 0x8000_0000_0000_0000 == 0,
            ILValType::Single(f) => f as int % 0x8000_0000 == 0,
            ILValType::Int32(i) => i == 0,
            ILValType::UInt32(i) => i == 0,
            ILValType::Int64(i) => i == 0,
            ILValType::UInt64(i) => i == 0,
            ILValType::Short(i) => i == 0,
            ILValType::UShort(i) => i == 0,
            ILValType::Isize(i) => i == 0,
            ILValType::Usize(i) => i == 0,
        }
    }

    pub fn is_false_type(&self) -> (b: bool)
        ensures
            b == self.spec_is_false_type(),
    {
        match *self {
            ILValType::Boolean(b) => !b,
            ILValType::Byte(b) => b == 0,
            ILValType::SByte(b) => b == 0,
            ILValType::Char(c) => c as u32 == 0,
            ILValType::Double(d) => d % 0x8000_0000_0000_0000 == 0,
            ILValType::Single(f) => f % 0x8000_0000 == 0,
            ILValType::Int32(i) => i == 0,
            ILValType::UInt32(i) => i == 0,
            ILValType::Int64(i) => i == 0,
            ILValType::UInt64(i) => i == 0,
            ILValType::Short(i) => i == 0,
            ILValType::UShort(i) => i == 0,
            ILValType::Isize(i) => i == 0,
            ILValType::Usize(i) => i == 0,
        }
    }

    /// The whole number that the value holds, for the kinds that hold one.
    pub open spec fn spec_int(&self) -> int {
        match *self {
            ILValType::Boolean(b) => if b {
                1
            } else {
                0
            },
            ILValType::Byte(b) => b as int,
            ILValType::SByte(b) => b as int,
            ILValType::Char(c) => c as u32 as int,
            ILValType::Double(d) => 0,
            ILValType::Single(f) => 0,
            ILValType::Int32(i) => i as int,
            ILValType::UInt32(i) => i as int,
            ILValType::Int64(i) => i as int,
            ILValType::UInt64(i) => i as int,
            ILValType::Short(i) => i as int,
            ILValType::UShort(i) => i as int,
            ILValType::Isize(i) => i as int,
            ILValType::Usize(i) => i as int,
        }
    }

    /// What `to_u32` returns: a whole number modulo `2^32`; the whole part of a
    /// floating-point number, cut to the range of `u32`.
    pub open spec fn spec_to_u32(&self) -> u32 {
        match *self {
            ILValType::Double(d) => spec_double_to_unsigned(d, 0xFFFF_FFFF) as u32,
            ILValType::Single(f) => spec_double_to_unsigned(
                spec_single_as_double(f),
                0xFFFF_FFFF,
            ) as u32,
            _ => (self.spec_int() % 0x1_0000_0000) as u32,
        }
    }

    pub fn to_u32(&self) -> (value: u32)
        ensures
            value == self.spec_to_u32(),
    {
        match *self {
            ILValType::Boolean(b) => if b {
                1
            } else {
                0
            },
            ILValType::Byte(b) => b as u32,
            ILValType::SByte(b) => wrap_to_u32(b as i64),
            ILValType::Char(c) => c as u32,
            ILValType::Double(d) => double_to_unsigned(d, 0xFFFF_FFFF) as u32,
            ILValType::Single(f) => double_to_unsigned(single_as_double(f), 0xFFFF_FFFF) as u32,
            ILValType::Int32(i) => wrap_to_u32(i as i64),
            ILValType::UInt32(i) => i,
            ILValType::Int64(i) => wrap_to_u32(i),
            ILValType::UInt64(i) => (i % 0x1_0000_0000) as u32,
            ILValType::Short(i) => wrap_to_u32(i as i64),
            ILValType::UShort(i) => i as u32,
            ILValType::Isize(i) => wrap_to_u32(i as i64),
            ILValType::Usize(i) => (i as u64 % 0x1_0000_0000) as u32,
        }
    }

    /// What `to_usize` returns: a whole number modulo the range of `usize`; the
    /// whole part of a floating-point number, cut to that range.
    pub open spec fn spec_to_usize(&self) -> usize {
        match *self {
            ILValType::Double(d) => spec_double_to_unsigned(d, usize::MAX as u64) as usize,
            ILValType::Single(f) => spec_double_to_unsigned(
                spec_single_as_double(f),
                usize::MAX as u64,
            ) as usize,
            _ => spec_wrap_usize(self.spec_int()),
        }
    }

    pub fn to_usize(&self) -> (value: usize)
        ensures
            value == self.spec_to_usize(),
    {
        match *self {
            ILValType::Boolean(b) => if b {
                1
            } else {
                0
            },
            ILValType::Byte(b) => b as usize,
            ILValType::SByte(b) => wrap_to_usize(b as i64),
            ILValType::Char(c) => c as u32 as usize,
            ILValType::Double(d) => double_to_unsigned(d, usize::MAX as u64) as usize,
            ILValType::Single(f) => double_to_unsigned(
                single_as_double(f),
                usize::MAX as u64,
            ) as usize,
            ILValType::Int32(i) => wrap_to_usize(i as i64),
            ILValType::UInt32(i) => i as usize,
            ILValType::Int64(i) => wrap_to_usize(i),
            ILValType::UInt64(i) => if i <= usize::MAX as u64 {
                i as usize
            } else {
                (i % 0x1_0000_0000) as usize
            },
            ILValType::Short(i) => wrap_to_usize(i as i64),
            ILValType::UShort(i) => i as usize,
            ILValType::Isize(i) => wrap_to_usize(i as i64),
            ILValType::Usize(i) => i,
        }
    }

    /// The text of the value: the decimal numeral of a whole number, `true` or
    /// `false`, the character itself. A floating-point number has no text here.
    pub open spec fn spec_text(&self) -> Option<Seq<char>> {
        match *self {
            ILValType::Boolean(b) => Some(
                if b {
                    "true"@
                } else {
                    "false"@
                },
            ),
            ILValType::Char(c) => Some(seq![c]),
            ILValType::Double(d) => None,
            ILValType::Single(f) => None,
            _ => Some(spec_signed_decimal(self.spec_int())),
        }
    }

    /// The text of the value; `None` for a floating-point number, whose text the
    /// caller makes from its bits.
    pub fn to_text(&self) -> (text: Option<String>)
        ensures
            match text {
                Some(t) => self.spec_text() == Some(t@),
                None => self.spec_text().is_none(),
            },
    {
        match *self {
            ILValType::Boolean(b) => Some(
                if b {
                    String::from_str("true")
                } else {
                    String::from_str("false")
                },
            ),
            ILValType::Byte(b) => Some(i64_to_string(b as i64)),
            ILValType::SByte(b) => Some(i64_to_string(b as i64)),
            ILValType::Char(c) => {
                let mut text = String::new();
                push_char(&mut text, c);
                assert(text@ =~= seq![c]);
                Some(text)
            },
            ILValType::Double(d) => None,
            ILValType::Single(f) => None,
            ILValType::Int32(i) => Some(i64_to_string(i as i64)),
            ILValType::UInt32(i) => Some(i64_to_string(i as i64)),
            ILValType::Int64(i) => Some(i64_to_string(i)),
            ILValType::UInt64(i) => Some(u64_to_string(i)),
            ILValType::Short(i) => Some(i64_to_string(i as i64)),
            ILValType::UShort(i) => Some(i64_to_string(i as i64)),
            ILValType::Isize(i) => Some(i64_to_string(i as i64)),
            ILValType::Usize(i) => Some(u64_to_string(i as u64)),
        }
    }

    /// The element-type code of the kind of the value.
    pub open spec fn spec_element_code(&self) -> u8 {
        match *self {
            ILValType::Boolean(_) => 0x02,
            ILValType::Char(_) => 0x03,
            ILValType::SByte(_) => 0x04,
            ILValType::Byte(_) => 0x05,
            ILValType::Short(_) => 0x06,
            ILValType::UShort(_) => 0x07,
            ILValType::Int32(_) => 0x08,
            ILValType::UInt32(_) => 0x09,
            ILValType::Int64(_) => 0x0A,
            ILValType::UInt64(_) => 0x0B,
            ILValType::Single(_) => 0x0C,
            ILValType::Double(_) => 0x0D,
            ILValType::Isize(_) => 0x18,
            ILValType::Usize(_) => 0x19,
        }
    }

    pub fn element_code(&self) -> (code: u8)
        ensures
            code == self.spec_element_code(),
    {
        match *self {
            ILValType::Boolean(_) => 0x02,
            ILValType::Char(_) => 0x03,
            ILValType::SByte(_) => 0x04,
            ILValType::Byte(_) => 0x05,
            ILValType::Short(_) => 0x06,
            ILValType::UShort(_) => 0x07,
            ILValType::Int32(_) => 0x08,
            ILValType::UInt32(_) => 0x09,
            ILValType::Int64(_) => 0x0A,
            ILValType::UInt64(_) => 0x0B,
            ILValType::Single(_) => 0x0C,
            ILValType::Double(_) => 0x0D,
            ILValType::Isize(_) => 0x18,
            ILValType::Usize(_) => 0x19,
        }
    }
}

fn wrap_to_u32(v: i64) -> (value: u32)
    ensures
        value == v as int % 0x1_0000_0000,
{
    if v >= 0 {
        (v as u64 % 0x1_0000_0000) as u32
    } else {
        let k: u64 = (-(v + 1)) as u64;
        (0xFFFF_FFFFu64 - k % 0x1_0000_0000) as u32
    }
}

/// `v` brought into the range of `usize`: itself where it is in the range, else
/// modulo the size of the range.
pub open spec fn spec_wrap_usize(v: int) -> usize {
    if 0 <= v <= usize::MAX {
        v as usize
    } else if usize::MAX == 0xFFFF_FFFF {
        (v % 0x1_0000_0000) as usize
    } else {
        (v % 0x1_0000_0000_0000_0000) as usize
    }
}

fn wrap_to_usize(v: i64) -> (value: usize)
    ensures
        value == spec_wrap_usize(v as int),
{
    if v >= 0 && v as u64 <= usize::MAX as u64 {
        v as usize
    } else if usize::MAX as u64 == 0xFFFF_FFFF {
        wrap_to_u32(v) as usize
    } else {
        assert(usize::MAX == 0xFFFF_FFFF_FFFF_FFFF);
        let k: u64 = (-(v + 1)) as u64;
        (0xFFFF_FFFF_FFFF_FFFFu64 - k) as usize
    }
}

/// A reference: to nothing, to a string of the string heap, or to an object of
/// the object heap.
#[derive(Clone, Copy, PartialEq, Eq, Debug, Structural)]
pub enum ILRefType {
    Null,
    /// The place of the string in the string heap.
    String(usize),
    /// The place of the object in the object heap.
    Object(usize),
}

/// A managed pointer: to a parameter or a local variable of a call, or to a static
/// field.
#[derive(Clone, Copy, PartialEq, Eq, Debug, Structural)]
pub enum ILPtr {
    /// The number of the call, and the place of the parameter.
    Param(usize, usize),
    /// The number of the call, and the place of the local variable.
    Local(usize, usize),
    /// The place of the assembly, and the token of the field.
    Static(usize, u32),
}

/// A native pointer: a block of bytes of its own, and a place in it.
#[derive(Debug)]
pub struct ILNPtr {
    data: Option<Vec<u8>>,
    offset: usize,
}

impl ILNPtr {
    /// The bytes that the pointer owns, if it owns any.
    pub closed spec fn spec_data(&self) -> Option<Seq<u8>> {
        match self.data {
            Some(d) => Some(d@),
            None => None,
        }
    }

    /// The place of the pointer in its bytes.
    pub closed spec fn spec_offset(&self) -> usize {
        self.offset
    }

    /// A pointer to the start of `size` fresh bytes, all zero.
    pub fn new(size: usize) -> (ptr: ILNPtr)
        ensures
            ptr.spec_data() == Some(Seq::new(size as nat, |i: int| 0u8)),
            ptr.spec_offset() == 0,
    {
        let mut data: Vec<u8> = Vec::new();
        let mut i: usize = 0;
        while i < size
            invariant
                i <= size,
                data@ == Seq::new(i as nat, |j: int| 0u8),
            decreases size - i,
        {
            data.push(0);
            i += 1;
            assert(data@ =~= Seq::new(i as nat, |j: int| 0u8));
        }
        ILNPtr { data: Some(data), offset: 0 }
    }

    /// Where the pointer stands after a move by `off`: `off` further, or where it
    /// stood where that place cannot be counted.
    pub open spec fn spec_moved(offset: usize, off: int) -> usize {
        if 0 <= offset + off <= usize::MAX {
            (offset + off) as usize
        } else {
            offset
        }
    }

    /// Moves the pointer by `off` bytes.
    pub fn offset(&mut self, off: isize)
        ensures
            final(self).spec_data() == old(self).spec_data(),
            final(self).spec_offset() == ILNPtr::spec_moved(old(self).spec_offset(), off as int),
    {
        if off < 0 {
            let back: usize = if off == isize::MIN {
                (isize::MAX as usize) + 1
            } else {
                (-off) as usize
            };
            if back <= self.offset {
                self.offset = self.offset - back;
            }
        } else {
            let forward: usize = off as usize;
            if forward <= usize::MAX - self.offset {
                self.offset = self.offset + forward;
            }
        }
    }

    /// The place of the pointer in its bytes.
    pub fn offset_value(&self) -> (offset: usize)
        ensures
            offset == self.spec_offset(),
    {
        self.offset
    }

    /// True where the pointer owns no bytes.
    pub fn is_null(&self) -> (b: bool)
        ensures
            b == self.spec_data().is_none(),
    {
        self.data.is_none()
    }

    /// A pointer with bytes of its own that equal those of `self`.
    pub fn duplicate(&self) -> (copy: ILNPtr)
        ensures
            copy.spec_data() == self.spec_data(),
            copy.spec_offset() == self.spec_offset(),
    {
        match &self.data {
            None => ILNPtr { data: None, offset: self.offset },
            Some(d) => {
                let mut data: Vec<u8> = Vec::new();
                let mut i: usize = 0;
                while i < d.len()
                    invariant
                        i <= d@.len(),
                        data@ == d@.subrange(0, i as int),
                    decreases d@.len() - i,
                {
                    data.push(d[i]);
                    i += 1;
                    assert(data@ =~= d@.subrange(0, i as int));
                }
                assert(data@ =~= d@);
                ILNPtr { data: Some(data), offset: self.offset }
            },
        }
    }

    /// True where the two pointers stand at the same place of equal bytes.
    pub fn same(&self, other: &ILNPtr) -> (b: bool)
        ensures
            b == (self.spec_data() == other.spec_data() && self.spec_offset()
                == other.spec_offset()),
    {
        if self.offset != other.offset {
            return false;
        }
        match (&self.data, &other.data) {
            (None, None) => true,
            (Some(a), Some(c)) => {
                if a.len() != c.len() {
                    assert(a@ != c@);
                    return false;
                }
                let mut i: usize = 0;
                while i < a.len()
                    invariant
                        i <= a@.len(),
                        a@.len() == c@.len(),
                        self.data == Some(*a),
                        other.data == Some(*c),
                        self.offset == other.offset,
                        forall|j: int| 0 <= j < i ==> a@[j] == c@[j],
                    decreases a@.len() - i,
                {
                    if a[i] != c[i] {
                        assert(a@[i as int] != c@[i as int]);
                        return false;
                    }
                    i += 1;
                }
                assert(a@ =~= c@);
                true
            },
            _ => false,
        }
    }
}

/// What a value on the operand stack, in a local variable, a parameter or a field is.
#[derive(Debug)]
pub enum ILType {
    Val(ILValType),
    Ref(ILRefType),
    Ptr(ILPtr),
    NPtr(ILNPtr),
}

/// What an `ILType` holds, as a mathematical value.
pub enum ILTypeView {
    Val(ILValType),
    Ref(ILRefType),
    Ptr(ILPtr),
    NPtr(Option<Seq<u8>>, usize),
}

/// What a binary operator gives.
pub enum BinaryOutcome {
    /// The result.
    Value(ILType),
    /// The operands are two floating-point numbers of one width: the bits of the
    /// left and of the right operand. The caller does the arithmetic.
    Float { wide: bool, lhs: u64, rhs: u64 },
    /// The operator is not defined on the operands.
    Invalid,
}

/// What a binary operator gives, as a mathematical value.
pub enum BinaryOutcomeView {
    Value(ILTypeView),
    Float { wide: bool, lhs: u64, rhs: u64 },
    Invalid,
}

impl BinaryOutcome {
    pub open spec fn view(&self) -> BinaryOutcomeView {
        match self {
            BinaryOutcome::Value(v) => BinaryOutcomeView::Value(v.view()),
            BinaryOutcome::Float { wide, lhs, rhs } => BinaryOutcomeView::Float {
                wide: *wide,
                lhs: *lhs,
                rhs: *rhs,
            },
            BinaryOutcome::Invalid => BinaryOutcomeView::Invalid,
        }
    }
}

/// How two values stand to each other.
#[derive(Clone, Copy, PartialEq, Eq, Debug, Structural)]
pub enum CompareOutcome {
    Less,
    Equal,
    Greater,
    /// One of the two is a floating-point number that is no number.
    Unordered,
    /// The two are not numbers of one kind that can be compared.
    Invalid,
}

/// How the whole numbers `a` and `b` stand to each other.
pub open spec fn spec_compare_int(a: int, b: int) -> CompareOutcome {
    if a < b {
        CompareOutcome::Less
    } else if a == b {
        CompareOutcome::Equal
    } else {
        CompareOutcome::Greater
    }
}

fn compare_i64(a: i64, b: i64) -> (outcome: CompareOutcome)
    ensures
        outcome == spec_compare_int(a as int, b as int),
{
    if a < b {
        CompareOutcome::Less
    } else if a == b {
        CompareOutcome::Equal
    } else {
        CompareOutcome::Greater
    }
}

fn key64(bits: u64) -> (key: i64)
    ensures
        key == spec_key64(bits),
{
    if bits >= 0x8000_0000_0000_0000 {
        let magnitude: u64 = bits - 0x8000_0000_0000_0000;
        -(magnitude as i64)
    } else {
        bits as i64
    }
}

fn is_nan64(bits: u64) -> (b: bool)
    ensures
        b == spec_is_nan64(bits),
{
    (bits / 0x10_0000_0000_0000) % 0x800 == 0x7FF && bits % 0x10_0000_0000_0000 != 0
}

fn is_nan32(bits: u32) -> (b: bool)
    ensures
        b == spec_is_nan32(bits),
{
    (bits / 0x80_0000) % 0x100 == 0xFF && bits % 0x80_0000 != 0
}

fn key32(bits: u32) -> (key: i64)
    ensures
        key == spec_key32(bits),
{
    if bits >= 0x8000_0000 {
        -((bits - 0x8000_0000) as i64)
    } else {
        bits as i64
    }
}

impl ILType {
    pub open spec fn view(&self) -> ILTypeView {
        match self {
            ILType::Val(v) => ILTypeView::Val(*v),
            ILType::Ref(r) => ILTypeView::Ref(*r),
            ILType::Ptr(p) => ILTypeView::Ptr(*p),
            ILType::NPtr(n) => ILTypeView::NPtr(n.spec_data(), n.spec_offset()),
        }
    }

    /// A value equal to `self`. A reference is copied as a reference: the copy
    /// names the same place of the heap.
    pub fn duplicate(&self) -> (copy: ILType)
        ensures
            copy.view() == self.view(),
    {
        match self {
            ILType::Val(v) => ILType::Val(*v),
            ILType::Ref(r) => ILType::Ref(*r),
            ILType::Ptr(p) => ILType::Ptr(*p),
            ILType::NPtr(n) => ILType::NPtr(n.duplicate()),
        }
    }

    pub fn is_ref(self) -> (b: bool)
        ensures
            b == (self is Ref),
    {
        match self {
            ILType::Ref(_) => true,
            _ => false,
        }
    }

    /// The place in the heap that the reference names.
    pub fn get_ref(&self) -> (index: usize)
        requires
            *self is Ref,
            !(self->Ref_0 is Null),
        ensures
            self.view() == ILTypeView::Ref(ILRefType::Object(index)) || self.view()
                == ILTypeView::Ref(ILRefType::String(index)),
    {
        match self {
            ILType::Ref(ILRefType::Object(o)) => *o,
            ILType::Ref(ILRefType::String(s)) => *s,
            _ => vstd::pervasive::unreached(),
        }
    }

    /// True of the values that count as false: zero, the character with code
    /// zero, `false`, the null reference and a native pointer without bytes.
    pub open spec fn spec_is_false_type(v: ILTypeView) -> bool {
        match v {
            ILTypeView::Val(val) => val.spec_is_false_type(),
            ILTypeView::Ref(r) => r is Null,
            ILTypeView::NPtr(data, offset) => data.is_none(),
            ILTypeView::Ptr(_) => false,
        }
    }

    pub fn is_false_type(&self) -> (b: bool)
        ensures
            b == ILType::spec_is_false_type(self.view()),
    {
        match self {
            ILType::Val(val) => val.is_false_type(),
            ILType::Ref(r) => match r {
                ILRefType::Null => true,
                _ => false,
            },
            ILType::NPtr(p) => p.is_null(),
            ILType::Ptr(_) => false,
        }
    }

    /// The zero value of a type: the zero of a primitive type, the null reference
    /// for every other type.
    pub open spec fn spec_zero(sig: TypeSigView) -> ILTypeView {
        match sig {
            TypeSigView::CorLib(c) => match c {
                CorLibType::Boolean => ILTypeView::Val(ILValType::Boolean(false)),
                CorLibType::Byte => ILTypeView::Val(ILValType::Byte(0)),
                CorLibType::SByte => ILTypeView::Val(ILValType::SByte(0)),
                CorLibType::Char => ILTypeView::Val(ILValType::Char(0u8 as char)),
                CorLibType::Double => ILTypeView::Val(ILValType::Double(0)),
                CorLibType::Single => ILTypeView::Val(ILValType::Single(0)),
                CorLibType::Int16 => ILTypeView::Val(ILValType::Short(0)),
                CorLibType::UInt16 => ILTypeView::Val(ILValType::UShort(0)),
                CorLibType::Int32 => ILTypeView::Val(ILValType::Int32(0)),
                CorLibType::UInt32 => ILTypeView::Val(ILValType::UInt32(0)),
                CorLibType::Int64 => ILTypeView::Val(ILValType::Int64(0)),
                CorLibType::UInt64 => ILTypeView::Val(ILValType::UInt64(0)),
                _ => ILTypeView::Ref(ILRefType::Null),
            },
            _ => ILTypeView::Ref(ILRefType::Null),
        }
    }

    pub fn from_type_sig(sig: &TypeSig) -> (value: ILType)
        ensures
            value.view() == ILType::spec_zero(sig.view()),
    {
        match sig {
            TypeSig::CorLibTypeSig(c) => match c {
                CorLibType::Boolean => ILType::Val(ILValType::Boolean(false)),
                CorLibType::Byte => ILType::Val(ILValType::Byte(0)),
                CorLibType::SByte => ILType::Val(ILValType::SByte(0)),
                CorLibType::Char => ILType::Val(ILValType::Char(0u8 as char)),
                CorLibType::Double => ILType::Val(ILValType::Double(0)),
                CorLibType::Single => ILType::Val(ILValType::Single(0)),
                CorLibType::Int16 => ILType::Val(ILValType::Short(0)),
                CorLibType::UInt16 => ILType::Val(ILValType::UShort(0)),
                CorLibType::Int32 => ILType::Val(ILValType::Int32(0)),
                CorLibType::UInt32 => ILType::Val(ILValType::UInt32(0)),
                CorLibType::Int64 => ILType::Val(ILValType::Int64(0)),
                CorLibType::UInt64 => ILType::Val(ILValType::UInt64(0)),
                _ => ILType::Ref(ILRefType::Null),
            },
            _ => ILType::Ref(ILRefType::Null),
        }
    }

    /// The zero values of the types of a list.
    pub fn from_type_sigs(sigs: &Vec<TypeSig>) -> (values: Vec<ILType>)
        ensures
            values@.len() == sigs@.len(),
            forall|i: int|
                0 <= i < sigs@.len() ==> (#[trigger] values@[i]).view() == ILType::spec_zero(
                    sigs@[i].view(),
                ),
    {
        let mut values: Vec<ILType> = Vec::new();
        let mut i: usize = 0;
        while i < sigs.len()
            invariant
                i <= sigs@.len(),
                values@.len() == i,
                forall|j: int|
                    0 <= j < i ==> (#[trigger] values@[j]).view() == ILType::spec_zero(
                        sigs@[j].view(),
                    ),
            decreases sigs@.len() - i,
        {
            values.push(ILType::from_type_sig(&sigs[i]));
            i += 1;
        }
        values
    }

    /// The zero value of a field with the signature `sig`; the null reference
    /// where the signature holds no type.
    pub fn from_signature(sig: &CallingConventionSig) -> (value: ILType)
        requires
            sig is FieldSig,
        ensures
            value.view() == (match sig->FieldSig_0.type_sig {
                Some(t) => ILType::spec_zero(t.view()),
                None => ILTypeView::Ref(ILRefType::Null),
            }),
    {
        match sig {
            CallingConventionSig::FieldSig(f) => match &f.type_sig {
                Some(t) => ILType::from_type_sig(t),
                None => ILType::Ref(ILRefType::Null),
            },
            _ => vstd::pervasive::unreached(),
        }
    }

    /// The zero values of fields with the signatures `sigs`.
    pub fn from_signatures(sigs: &Vec<CallingConventionSig>) -> (values: Vec<ILType>)
        requires
            forall|i: int| 0 <= i < sigs@.len() ==> #[trigger] sigs@[i] is FieldSig,
        ensures
            values@.len() == sigs@.len(),
            forall|i: int|
                0 <= i < sigs@.len() ==> (#[trigger] values@[i]).view() == (
                match sigs@[i]->FieldSig_0.type_sig {
                    Some(t) => ILType::spec_zero(t.view()),
                    None => ILTypeView::Ref(ILRefType::Null),
                }),
    {
        let mut values: Vec<ILType> = Vec::new();
        let mut i: usize = 0;
        while i < sigs.len()
            invariant
                i <= sigs@.len(),
                values@.len() == i,
                forall|j: int| 0 <= j < sigs@.len() ==> #[trigger] sigs@[j] is FieldSig,
                forall|j: int|
                    0 <= j < i ==> (#[trigger] values@[j]).view() == (
                    match sigs@[j]->FieldSig_0.type_sig {
                        Some(t) => ILType::spec_zero(t.view()),
                        None => ILTypeView::Ref(ILRefType::Null),
                    }),
            decreases sigs@.len() - i,
        {
            assert(sigs@[i as int] is FieldSig);
            values.push(ILType::from_signature(&sigs[i]));
            i += 1;
        }
        values
    }

    /// The sum of two values, or their difference where `negate` holds. Whole
    /// numbers of thirty-two and sixty-four bits are added with wrapping, the
    /// narrower one widened where the widths differ; a whole number added to a
    /// native pointer moves the pointer.
    pub open spec fn spec_add(a: ILTypeView, b: ILTypeView, negate: bool) -> BinaryOutcomeView {
        match (a, b) {
            (ILTypeView::Val(ILValType::Int32(x)), ILTypeView::Val(ILValType::Int32(y))) => {
                BinaryOutcomeView::Value(
                    ILTypeView::Val(
                        ILValType::Int32(
                            spec_wrap_i32(
                                if negate {
                                    x - y
                                } else {
                                    x + y
                                },
                            ) as i32,
                        ),
                    ),
                )
            },
            (ILTypeView::Val(ILValType::Int32(x)), ILTypeView::Val(ILValType::Int64(y))) => {
                BinaryOutcomeView::Value(
                    ILTypeView::Val(
                        ILValType::Int64(
                            spec_wrap_i64(
                                if negate {
                                    x - y
                                } else {
                                    x + y
                                },
                            ) as i64,
                        ),
                    ),
                )
            },
            (ILTypeView::Val(ILValType::Int64(x)), ILTypeView::Val(ILValType::Int32(y))) => {
                BinaryOutcomeView::Value(
                    ILTypeView::Val(
                        ILValType::Int64(
                            spec_wrap_i64(
                                if negate {
                                    x - y
                                } else {
                                    x + y
                                },
                            ) as i64,
                        ),
                    ),
                )
            },
            (ILTypeView::Val(ILValType::Int64(x)), ILTypeView::Val(ILValType::Int64(y))) => {
                BinaryOutcomeView::Value(
                    ILTypeView::Val(
                        ILValType::Int64(
                            spec_wrap_i64(
                                if negate {
                                    x - y
                                } else {
                                    x + y
                                },
                            ) as i64,
                        ),
                    ),
                )
            },
            (ILTypeView::Val(ILValType::Single(x)), ILTypeView::Val(ILValType::Single(y))) => {
                BinaryOutcomeView::Float { wide: false, lhs: x as u64, rhs: y as u64 }
            },
            (ILTypeView::Val(ILValType::Double(x)), ILTypeView::Val(ILValType::Double(y))) => {
                BinaryOutcomeView::Float { wide: true, lhs: x, rhs: y }
            },
            (ILTypeView::NPtr(data, offset), ILTypeView::Val(ILValType::Int32(y))) => {
                if negate {
                    BinaryOutcomeView::Invalid
                } else {
                    BinaryOutcomeView::Value(
                        ILTypeView::NPtr(data, ILNPtr::spec_moved(offset, y as int)),
                    )
                }
            },
            (ILTypeView::NPtr(data, offset), ILTypeView::Val(ILValType::Int64(y))) => {
                if negate || y < isize::MIN || y > isize::MAX {
                    BinaryOutcomeView::Invalid
                } else {
                    BinaryOutcomeView::Value(
                        ILTypeView::NPtr(data, ILNPtr::spec_moved(offset, y as int)),
                    )
                }
            },
            _ => BinaryOutcomeView::Invalid,
        }
    }

    /// The sum of the two values.
    pub fn add(self, other: ILType) -> (outcome: BinaryOutcome)
        ensures
            outcome.view() == ILType::spec_add(self.view(), other.view(), false),
    {
        match (self, other) {
            (ILType::Val(v1), ILType::Val(v2)) => ILType::add_values(v1, v2, false),
            (ILType::NPtr(mut p1), ILType::Val(ILValType::Int32(i2))) => {
                p1.offset(i2 as isize);
                BinaryOutcome::Value(ILType::NPtr(p1))
            },
            (ILType::NPtr(mut p1), ILType::Val(ILValType::Int64(i2))) => {
                if i2 < isize::MIN as i64 || i2 > isize::MAX as i64 {
                    BinaryOutcome::Invalid
                } else {
                    p1.offset(i2 as isize);
                    BinaryOutcome::Value(ILType::NPtr(p1))
                }
            },
            _ => BinaryOutcome::Invalid,
        }
    }

    /// The difference of the two values.
    pub fn sub(self, other: ILType) -> (outcome: BinaryOutcome)
        ensures
            outcome.view() == ILType::spec_add(self.view(), other.view(), true),
    {
        match (self, other) {
            (ILType::Val(v1), ILType::Val(v2)) => ILType::add_values(v1, v2, true),
            _ => BinaryOutcome::Invalid,
        }
    }

    fn add_values(v1: ILValType, v2: ILValType, negate: bool) -> (outcome: BinaryOutcome)
        ensures
            outcome.view() == ILType::spec_add(
                ILTypeView::Val(v1),
                ILTypeView::Val(v2),
                negate,
            ),
    {
        match (v1, v2) {
            (ILValType::Int32(i1), ILValType::Int32(i2)) => BinaryOutcome::Value(
                ILType::Val(
                    ILValType::Int32(
                        if negate {
                            i1.wrapping_sub(i2)
                        } else {
                            i1.wrapping_add(i2)
                        },
                    ),
                ),
            ),
            (ILValType::Int32(i1), ILValType::Int64(i2)) => BinaryOutcome::Value(
                ILType::Val(
                    ILValType::Int64(
                        if negate {
                            (i1 as i64).wrapping_sub(i2)
                        } else {
                            (i1 as i64).wrapping_add(i2)
                        },
                    ),
                ),
            ),
            (ILValType::Int64(i1), ILValType::Int32(i2)) => BinaryOutcome::Value(
                ILType::Val(
                    ILValType::Int64(
                        if negate {
                            i1.wrapping_sub(i2 as i64)
                        } else {
                            i1.wrapping_add(i2 as i64)
                        },
                    ),
                ),
            ),
            (ILValType::Int64(i1), ILValType::Int64(i2)) => BinaryOutcome::Value(
                ILType::Val(
                    ILValType::Int64(
                        if negate {
                            i1.wrapping_sub(i2)
                        } else {
                            i1.wrapping_add(i2)
                        },
                    ),
                ),
            ),
            (ILValType::Single(f1), ILValType::Single(f2)) => BinaryOutcome::Float {
                wide: false,
                lhs: f1 as u64,
                rhs: f2 as u64,
            },
            (ILValType::Double(d1), ILValType::Double(d2)) => BinaryOutcome::Float {
                wide: true,
                lhs: d1,
                rhs: d2,
            },
            _ => BinaryOutcome::Invalid,
        }
    }

    /// What a bitwise operator gives: `and` for 0, `or` for 1, `xor` for every
    /// other number, on two whole numbers of thirty-two or of sixty-four bits.
    pub open spec fn spec_bitwise(a: ILTypeView, b: ILTypeView, op: u8) -> Option<ILTypeView> {
        match (a, b) {
            (ILTypeView::Val(ILValType::Int32(x)), ILTypeView::Val(ILValType::Int32(y))) => Some(
                ILTypeView::Val(
                    ILValType::Int32(
                        if op == 0 {
                            x & y
                        } else if op == 1 {
                            x | y
                        } else {
                            x ^ y
                        },
                    ),
                ),
            ),
            (ILTypeView::Val(ILValType::Int64(x)), ILTypeView::Val(ILValType::Int64(y))) => Some(
                ILTypeView::Val(
                    ILValType::Int64(
                        if op == 0 {
                            x & y
                        } else if op == 1 {
                            x | y
                        } else {
                            x ^ y
                        },
                    ),
                ),
            ),
            _ => None,
        }
    }

    fn bitwise(self, other: ILType, op: u8) -> (value: Option<ILType>)
        ensures
            ILType::spec_bitwise(self.view(), other.view(), op) == (match value {
                Some(v) => Some(v.view()),
                None => None,
            }),
    {
        match (self, other) {
            (ILType::Val(ILValType::Int32(i1)), ILType::Val(ILValType::Int32(i2))) => Some(
                ILType::Val(
                    ILValType::Int32(
                        if op == 0 {
                            i1 & i2
                        } else if op == 1 {
                            i1 | i2
                        } else {
                            i1 ^ i2
                        },
                    ),
                ),
            ),
            (ILType::Val(ILValType::Int64(i1)), ILType::Val(ILValType::Int64(i2))) => Some(
                ILType::Val(
                    ILValType::Int64(
                        if op == 0 {
                            i1 & i2
                        } else if op == 1 {
                            i1 | i2
                        } else {
                            i1 ^ i2
                        },
                    ),
                ),
            ),
            _ => None,
        }
    }

    /// The bits that both values have; `None` where the operator is not defined.
    pub fn bitand(self, other: ILType) -> (value: Option<ILType>)
        ensures
            ILType::spec_bitwise(self.view(), other.view(), 0) == (match value {
                Some(v) => Some(v.view()),
                None => None,
            }),
    {
        self.bitwise(other, 0)
    }

    /// The bits that either value has; `None` where the operator is not defined.
    pub fn bitor(self, other: ILType) -> (value: Option<ILType>)
        ensures
            ILType::spec_bitwise(self.view(), other.view(), 1) == (match value {
                Some(v) => Some(v.view()),
                None => None,
            }),
    {
        self.bitwise(other, 1)
    }

    /// The bits that exactly one of the values has; `None` where the operator is
    /// not defined.
    pub fn bitxor(self, other: ILType) -> (value: Option<ILType>)
        ensures
            ILType::spec_bitwise(self.view(), other.view(), 2) == (match value {
                Some(v) => Some(v.view()),
                None => None,
            }),
    {
        self.bitwise(other, 2)
    }

    /// How two values stand to each other: numbers of one kind, of thirty-two or
    /// sixty-four bits or floating point, are compared by their value.
    pub open spec fn spec_compare(a: ILTypeView, b: ILTypeView) -> CompareOutcome {
        match (a, b) {
            (ILTypeView::Val(ILValType::Int32(x)), ILTypeView::Val(ILValType::Int32(y))) => {
                spec_compare_int(x as int, y as int)
            },
            (ILTypeView::Val(ILValType::Int64(x)), ILTypeView::Val(ILValType::Int64(y))) => {
                spec_compare_int(x as int, y as int)
            },
            (ILTypeView::Val(ILValType::Single(x)), ILTypeView::Val(ILValType::Single(y))) => {
                if spec_is_nan32(x) || spec_is_nan32(y) {
                    CompareOutcome::Unordered
                } else {
                    spec_compare_int(spec_key32(x), spec_key32(y))
                }
            },
            (ILTypeView::Val(ILValType::Double(x)), ILTypeView::Val(ILValType::Double(y))) => {
                if spec_is_nan64(x) || spec_is_nan64(y) {
                    CompareOutcome::Unordered
                } else {
                    spec_compare_int(spec_key64(x), spec_key64(y))
                }
            },
            _ => CompareOutcome::Invalid,
        }
    }

    pub fn compare(&self, other: &ILType) -> (outcome: CompareOutcome)
        ensures
            outcome == ILType::spec_compare(self.view(), other.view()),
    {
        match (self, other) {
            (ILType::Val(ILValType::Int32(x)), ILType::Val(ILValType::Int32(y))) => compare_i64(
                *x as i64,
                *y as i64,
            ),
            (ILType::Val(ILValType::Int64(x)), ILType::Val(ILValType::Int64(y))) => compare_i64(
                *x,
                *y,
            ),
            (ILType::Val(ILValType::Single(x)), ILType::Val(ILValType::Single(y))) => {
                if is_nan32(*x) || is_nan32(*y) {
                    CompareOutcome::Unordered
                } else {
                    compare_i64(key32(*x), key32(*y))
                }
            },
            (ILType::Val(ILValType::Double(x)), ILType::Val(ILValType::Double(y))) => {
                if is_nan64(*x) || is_nan64(*y) {
                    CompareOutcome::Unordered
                } else {
                    compare_i64(key64(*x), key64(*y))
                }
            },
            _ => CompareOutcome::Invalid,
        }
    }

    /// True where the two values are equal: of one kind and with equal contents.
    /// Two floating-point numbers are equal where neither is no number and their
    /// values are the same.
    pub open spec fn spec_equals(a: ILTypeView, b: ILTypeView) -> bool {
        match (a, b) {
            (ILTypeView::Val(ILValType::Single(x)), ILTypeView::Val(ILValType::Single(y))) => {
                !spec_is_nan32(x) && !spec_is_nan32(y) && spec_key32(x) == spec_key32(y)
            },
            (ILTypeView::Val(ILValType::Double(x)), ILTypeView::Val(ILValType::Double(y))) => {
                !spec_is_nan64(x) && !spec_is_nan64(y) && spec_key64(x) == spec_key64(y)
            },
            _ => a == b,
        }
    }

    pub fn equals(&self, other: &ILType) -> (b: bool)
        ensures
            b == ILType::spec_equals(self.view(), other.view()),
    {
        match (self, other) {
            (ILType::Val(ILValType::Single(x)), ILType::Val(ILValType::Single(y))) => {
                !is_nan32(*x) && !is_nan32(*y) && key32(*x) == key32(*y)
            },
            (ILType::Val(ILValType::Double(x)), ILType::Val(ILValType::Double(y))) => {
                !is_nan64(*x) && !is_nan64(*y) && key64(*x) == key64(*y)
            },
            (ILType::Val(x), ILType::Val(y)) => *x == *y,
            (ILType::Ref(x), ILType::Ref(y)) => *x == *y,
            (ILType::Ptr(x), ILType::Ptr(y)) => *x == *y,
            (ILType::NPtr(x), ILType::NPtr(y)) => x.same(y),
            _ => false,
        }
    }
}

/// The zero value of a primitive type has the element-type code of the type: the
/// code of the zero value, read as a signature, is the type again.
pub proof fn lemma_zero_value_round_trip(c: CorLibType)
    requires
        c != CorLibType::Void,
        c != CorLibType::String,
        c != CorLibType::TypedReference,
        c != CorLibType::IntPtr,
        c != CorLibType::UIntPtr,
        c != CorLibType::Object,
    ensures
        ILType::spec_zero(TypeSigView::CorLib(c)) is Val,
        super::signature::spec_type(
            seq![ILType::spec_zero(TypeSigView::CorLib(c))->Val_0.spec_element_code()],
            0,
            32,
        ) == Some((TypeSigView::CorLib(c), 1int)),
{
}

} // verus!
