use super::coded_kind::{coded_bits, coded_tables, spec_coded_bits, spec_coded_tables};
use super::table_kind::{MDTableType, MDType};
use vstd::prelude::*;

verus! {

/// The bits of a token that hold the row number.
pub const RID_MASK: u32 = 0x00FF_FFFF;

/// The largest row number a token can hold.
pub const RID_MAX: u32 = 0x00FF_FFFF;

/// How far the table number is shifted inside a token.
pub const TABLE_SHIFT: u32 = 24;

/// The token of row `rid` of the table numbered `table`: the table number in the
/// top eight bits, the row number in the other twenty-four.
pub open spec fn spec_token(table: u8, rid: u32) -> u32
    recommends
        rid <= RID_MAX,
{
    (table as int * 0x100_0000 + rid as int) as u32
}

/// The row number held in a token.
pub open spec fn spec_rid(token: u32) -> u32 {
    token % 0x100_0000
}

/// The table number held in a token.
pub open spec fn spec_table_type(token: u32) -> u32 {
    token / 0x100_0000
}

/// `2^bits` for the tag widths that coded tokens use.
pub open spec fn spec_tag_span(bits: u32) -> int
    recommends
        bits < 8,
{
    if bits == 0 {
        1
    } else if bits == 1 {
        2
    } else if bits == 2 {
        4
    } else if bits == 3 {
        8
    } else if bits == 4 {
        16
    } else if bits == 5 {
        32
    } else if bits == 6 {
        64
    } else {
        128
    }
}

proof fn lemma_token_bits(table: u8, rid: u32)
    requires
        rid <= RID_MAX,
    ensures
        ((table as u32) << 24) | rid == spec_token(table, rid),
        spec_token(table, rid) == table as int * 0x100_0000 + rid as int,
{
    let t: u32 = table as u32;
    assert(t < 256 && rid <= 0x00FF_FFFF ==> ((t << 24) | rid) == t * 0x100_0000 + rid)
        by (bit_vector);
}

proof fn lemma_token_parts(token: u32)
    ensures
        token & 0x00FF_FFFF == spec_rid(token),
        token >> 24 == spec_table_type(token),
        spec_table_type(token) < 256,
        spec_rid(token) <= RID_MAX,
{
    assert(token & 0x00FF_FFFF == token % 0x100_0000) by (bit_vector);
    assert(token >> 24 == token / 0x100_0000) by (bit_vector);
}

proof fn lemma_tag_bits(coded: u32, bits: u32)
    requires
        bits < 8,
    ensures
        (1u32 << bits) == spec_tag_span(bits),
        coded >> bits == coded as int / spec_tag_span(bits),
        coded & (((1u32 << bits) - 1) as u32) == coded as int % spec_tag_span(bits),
{
    assert(bits < 8 ==> (1u32 << bits) == (if bits == 0 {
        1u32
    } else if bits == 1 {
        2u32
    } else if bits == 2 {
        4u32
    } else if bits == 3 {
        8u32
    } else if bits == 4 {
        16u32
    } else if bits == 5 {
        32u32
    } else if bits == 6 {
        64u32
    } else {
        128u32
    })) by (bit_vector);
    let span: u32 = 1u32 << bits;
    assert(bits < 8 && span == 1u32 << bits ==> coded >> bits == coded / span) by (bit_vector);
    assert(bits < 8 && span == 1u32 << bits ==> coded & ((span - 1) as u32) == coded % span)
        by (bit_vector);
}

proof fn lemma_tag_join(rid: u32, index: u32, bits: u32)
    requires
        bits < 8,
        index < spec_tag_span(bits),
        rid <= RID_MAX,
    ensures
        (rid << bits) | index == rid as int * spec_tag_span(bits) + index as int,
{
    lemma_tag_bits(0, bits);
    let span: u32 = 1u32 << bits;
    assert(bits < 8 && span == 1u32 << bits && index < span && rid <= 0x00FF_FFFF ==> ((rid
        << bits) | index) == rid * span + index) by (bit_vector);
}

/// A metadata token: one cell that names a row of a table.
pub struct MDToken {
    pub token: u32,
}

impl MDToken {
    /// The token of row `rid` of `table`.
    pub fn new(table: MDTableType, rid: u32) -> (t: MDToken)
        requires
            rid <= RID_MAX,
        ensures
            t.token == spec_token(table.spec_code(), rid),
    {
        proof {
            lemma_token_bits(table.spec_code(), rid);
        }
        let code: u8 = table.code();
        MDToken { token: ((code as u32) << 24) | rid }
    }

    pub fn to_rid(token: u32) -> (rid: u32)
        ensures
            rid == spec_rid(token),
            rid <= RID_MAX,
    {
        proof {
            lemma_token_parts(token);
        }
        token & RID_MASK
    }

    pub fn to_table_type(token: u32) -> (table: u32)
        ensures
            table == spec_table_type(token),
            table < 256,
    {
        proof {
            lemma_token_parts(token);
        }
        token >> TABLE_SHIFT
    }

    /// The column kind that stands for the table of `token`, if its table number is one.
    pub fn to_table(token: u32) -> (kind: Option<MDType>)
        ensures
            match kind {
                Some(k) => k.spec_code() == spec_table_type(token),
                None => forall|k: MDType| k.spec_code() != spec_table_type(token),
            },
    {
        MDType::from_u32(MDToken::to_table_type(token))
    }
}

/// A token taken apart gives back the table and the row it was made of.
pub proof fn lemma_token_round_trip(table: MDTableType, rid: u32)
    requires
        rid <= RID_MAX,
    ensures
        spec_table_type(spec_token(table.spec_code(), rid)) == table.spec_code(),
        spec_rid(spec_token(table.spec_code(), rid)) == rid,
{
    lemma_token_bits(table.spec_code(), rid);
}

/// The first place at or after `from` where `tables` holds the table numbered `code`.
pub open spec fn spec_first_index(tables: Seq<MDTableType>, code: u32, from: int) -> Option<int>
    decreases tables.len() - from,
{
    if from < 0 || from >= tables.len() {
        None
    } else if tables[from].spec_code() == code {
        Some(from)
    } else {
        spec_first_index(tables, code, from + 1)
    }
}

/// One kind of coded token: a tag of `bits` bits that picks one of `table_types`,
/// with the row number in the bits above it.
pub struct CodedToken {
    pub bits: u32,
    pub mask: u32,
    pub table_types: Vec<MDTableType>,
}

impl CodedToken {
    /// The tag is narrower than a byte, and the mask covers exactly the tag.
    pub open spec fn wf(&self) -> bool {
        &&& self.bits < 8
        &&& self.mask == spec_tag_span(self.bits) - 1
    }

    pub fn new(bits: u32, table_types: Vec<MDTableType>) -> (coded: CodedToken)
        requires
            bits < 8,
        ensures
            coded.wf(),
            coded.bits == bits,
            coded.table_types == table_types,
    {
        proof {
            lemma_tag_bits(0, bits);
        }
        CodedToken { bits, mask: (1u32 << bits) - 1, table_types }
    }

    /// What `decode` returns: the tag picks the table, the rest is the row number.
    pub open spec fn spec_decode(&self, coded_token: u32) -> Option<u32> {
        let rid = coded_token as int / spec_tag_span(self.bits);
        let index = coded_token as int % spec_tag_span(self.bits);
        if rid > RID_MAX || index >= self.table_types@.len() {
            None
        } else {
            Some(spec_token(self.table_types@[index].spec_code(), rid as u32))
        }
    }

    pub fn decode(&self, coded_token: u32) -> (token: Option<u32>)
        requires
            self.wf(),
        ensures
            token == self.spec_decode(coded_token),
    {
        proof {
            lemma_tag_bits(coded_token, self.bits);
        }
        let rid: u32 = coded_token >> self.bits;
        let index: u32 = coded_token & self.mask;
        if rid > RID_MAX || index as usize >= self.table_types.len() {
            return None;
        }
        let table: MDTableType = self.table_types[index as usize];
        Some(MDToken::new(table, rid).token)
    }

    /// The table that `decode` would name, as a table kind.
    pub fn decode_as_md_table_type(&self, coded_token: u32) -> (table: Option<MDTableType>)
        requires
            self.wf(),
        ensures
            match self.spec_decode(coded_token) {
                Some(token) => table == Some(
                    self.table_types@[coded_token as int % spec_tag_span(self.bits)],
                ),
                None => table.is_none(),
            },
    {
        proof {
            lemma_tag_bits(coded_token, self.bits);
        }
        let rid: u32 = coded_token >> self.bits;
        let index: u32 = coded_token & self.mask;
        if rid > RID_MAX || index as usize >= self.table_types.len() {
            return None;
        }
        Some(self.table_types[index as usize])
    }

    /// What `encode` returns: the row number above the tag of the first candidate
    /// that is the token's table; `None` where no candidate is, or where the
    /// place of the candidate is no tag.
    pub open spec fn spec_encode(&self, token: u32) -> Option<u32> {
        match spec_first_index(self.table_types@, spec_table_type(token), 0) {
            Some(index) => if index < spec_tag_span(self.bits) {
                Some((spec_rid(token) as int * spec_tag_span(self.bits) + index) as u32)
            } else {
                None
            },
            None => None,
        }
    }

    /// The coded form of `token` in this kind.
    pub fn encode(&self, token: u32) -> (coded_token: Option<u32>)
        requires
            self.wf(),
        ensures
            coded_token == self.spec_encode(token),
    {
        let table: u32 = MDToken::to_table_type(token);
        let rid: u32 = MDToken::to_rid(token);
        let mut i: usize = 0;
        while i < self.table_types.len()
            invariant
                self.wf(),
                i <= self.table_types@.len(),
                table == spec_table_type(token),
                rid == spec_rid(token),
                rid <= RID_MAX,
                spec_first_index(self.table_types@, table, 0) == spec_first_index(
                    self.table_types@,
                    table,
                    i as int,
                ),
            decreases self.table_types@.len() - i,
        {
            if self.table_types[i].code() as u32 == table {
                proof {
                    lemma_tag_bits(0, self.bits);
                }
                if i > self.mask as usize {
                    return None;
                }
                proof {
                    lemma_tag_join(rid, i as u32, self.bits);
                }
                return Some((rid << self.bits) | (i as u32));
            }
            i += 1;
        }
        None
    }

    /// The candidate tables of each kind of coded token.
    pub fn from_md_type(column_size: MDType) -> (coded: CodedToken)
        requires
            column_size.spec_is_coded_token(),
        ensures
            coded.wf(),
            coded.bits == spec_coded_bits(column_size),
            coded.table_types@ == spec_coded_tables(column_size),
    {
        let tables: Vec<MDTableType> = coded_tables(column_size);
        CodedToken::new(coded_bits(column_size), tables)
    }
}

/// Coding a token and decoding the result gives the token back, for every token
/// whose table is among the candidates.
pub proof fn lemma_coded_token_round_trip(coded: CodedToken, token: u32)
    requires
        coded.wf(),
        coded.spec_encode(token).is_some(),
    ensures
        coded.spec_decode(coded.spec_encode(token).unwrap()) == Some(token),
{
    let tables = coded.table_types@;
    let table = spec_table_type(token);
    let rid = spec_rid(token);
    lemma_first_index(tables, table, 0);
    let index = spec_first_index(tables, table, 0).unwrap();
    let span = spec_tag_span(coded.bits);
    let c = rid as int * span + index;
    assert(c <= 0x00FF_FFFF * 128 + 127) by (nonlinear_arith)
        requires
            c == rid as int * span + index,
            0 <= rid <= 0x00FF_FFFF,
            0 <= index < span,
            1 <= span <= 128,
    ;
    assert(c / span == rid as int && c % span == index) by (nonlinear_arith)
        requires
            c == rid as int * span + index,
            0 <= index < span,
            span > 0,
    ;
    assert(tables[index].spec_code() as int * 0x100_0000 + rid as int == token as int);
}

proof fn lemma_first_index(tables: Seq<MDTableType>, code: u32, from: int)
    requires
        0 <= from,
    ensures
        match spec_first_index(tables, code, from) {
            Some(i) => from <= i < tables.len() && tables[i].spec_code() == code,
            None => true,
        },
    decreases tables.len() - from,
{
    if from < tables.len() && tables[from].spec_code() != code {
        lemma_first_index(tables, code, from + 1);
    }
}

} // verus!
