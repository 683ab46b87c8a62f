use super::coded_kind::{spec_coded_bits, spec_coded_tables};
use super::md_token::{spec_tag_span, CodedToken};
use super::table_kind::{MDTableType, MDType};
use super::table_schema::{
    spec_fresh_table, spec_is_v1_1, spec_max_present_tables, spec_schema,
};
use crate::error::ImageError;
use crate::interpreter::data_reader::{spec_u16_le, spec_u32_le, spec_u64_le, DataReader};
use vstd::prelude::*;

verus! {

/// The `#Strings` heap has offsets of four bytes.
pub const BIG_STRINGS: u8 = 0x01;

/// The `#GUID` heap has indices of four bytes.
pub const BIG_GUID: u8 = 0x02;

/// The `#Blob` heap has offsets of four bytes.
pub const BIG_BLOB: u8 = 0x04;

pub const PADDING: u8 = 0x08;

pub const DELTA_ONLY: u8 = 0x20;

/// Four more bytes follow the row counts.
pub const EXTRA_DATA: u8 = 0x40;

pub const HAS_DELETE: u8 = 0x80;

/// The flag bits with a meaning.
pub const KNOWN_FLAGS: u8 = 0xEF;

/// One column of a table: its kind, its width in bytes, and the cells of all rows,
/// one after the other.
pub struct MDColumn {
    pub name: &'static str,
    /// What the cells hold.
    pub column_type: MDType,
    /// The width of a cell, in bytes.
    pub size: u8,
    /// Where the cell starts within a row.
    pub offset: u32,
    /// The place of the column in its table.
    pub index: u8,
    /// The cells, `size` bytes each, little-endian.
    pub data: Vec<u8>,
}

impl MDColumn {
    pub fn new(index: u8, name: &'static str, column_size: MDType) -> (column: MDColumn)
        ensures
            column.index == index,
            column.name@ == name@,
            column.column_type == column_size,
            column.size == 0,
            column.offset == 0,
            column.data@.len() == 0,
    {
        MDColumn { index, name, column_type: column_size, size: 0, offset: 0, data: Vec::new() }
    }

    /// The number of whole cells the column holds.
    pub open spec fn spec_rows(&self) -> int {
        if self.size == 0 {
            0
        } else {
            self.data@.len() as int / self.size as int
        }
    }

    /// True where the column holds row `rid`, counted from one.
    pub open spec fn spec_check_rid(&self, rid: u32) -> bool {
        rid > 0 && rid * self.size <= self.data@.len()
    }

    pub fn check_rid(&self, rid: u32) -> (b: bool)
        ensures
            b == self.spec_check_rid(rid),
    {
        assert(rid * self.size <= 0xFFFF_FFFF * 0xFF) by (nonlinear_arith)
            requires
                0 <= rid <= 0xFFFF_FFFF,
                0 <= self.size <= 0xFF,
        ;
        rid > 0 && (rid as u64) * (self.size as u64) <= self.data.len() as u64
    }

    /// The cell of row `row`, counted from zero, read at the column's width.
    pub open spec fn spec_cell(&self, row: int) -> int {
        if self.size == 1 {
            self.data@[row] as int
        } else if self.size == 2 {
            spec_u16_le(self.data@, row * 2)
        } else if self.size == 4 {
            spec_u32_le(self.data@, row * 4)
        } else {
            spec_u64_le(self.data@, row * 8)
        }
    }

    /// Reads the row number in row `rid`, counted from one, of a column two or four
    /// bytes wide. Returns false, and leaves `result`, where there is no such row or
    /// the column has another width.
    pub fn try_read_rid(&self, rid: u32, result: &mut u32) -> (found: bool)
        ensures
            found == (self.spec_check_rid(rid) && (self.size == 2 || self.size == 4)),
            found ==> *final(result) == self.spec_cell(rid - 1),
            !found ==> *final(result) == *old(result),
    {
        if !self.check_rid(rid) {
            return false;
        }
        match self.size {
            2 => {
                *result = self.get_cell_u16(rid - 1) as u32;
                true
            },
            4 => {
                *result = self.get_cell_u32(rid - 1);
                true
            },
            _ => false,
        }
    }

    pub fn get_cell_u8(&self, row: u32) -> (cell: u8)
        requires
            self.size == 1,
            row < self.data@.len(),
        ensures
            cell == self.spec_cell(row as int),
    {
        self.data[row as usize]
    }

    pub fn get_cell_u16(&self, row: u32) -> (cell: u16)
        requires
            self.size == 2,
            (row + 1) * 2 <= self.data@.len(),
        ensures
            cell == self.spec_cell(row as int),
    {
        let len: usize = self.data.len();
        let p: usize = row as usize * 2;
        self.data[p] as u16 + 0x100 * (self.data[p + 1] as u16)
    }

    pub fn get_cell_u32(&self, row: u32) -> (cell: u32)
        requires
            self.size == 4,
            (row + 1) * 4 <= self.data@.len(),
        ensures
            cell == self.spec_cell(row as int),
    {
        let len: usize = self.data.len();
        let p: usize = row as usize * 4;
        let low: u32 = self.data[p] as u32 + 0x100 * (self.data[p + 1] as u32);
        let high: u32 = self.data[p + 2] as u32 + 0x100 * (self.data[p + 3] as u32);
        low + 0x1_0000 * high
    }

    /// The cell of a column two or four bytes wide, widened to four.
    pub fn get_cell_u16_or_u32(&self, row: u32) -> (cell: u32)
        requires
            self.size == 2 || self.size == 4,
            (row + 1) * self.size <= self.data@.len(),
        ensures
            cell == self.spec_cell(row as int),
    {
        if self.size == 2 {
            self.get_cell_u16(row) as u32
        } else {
            self.get_cell_u32(row)
        }
    }

    pub fn get_cell_u64(&self, row: u32) -> (cell: u64)
        requires
            self.size == 8,
            (row + 1) * 8 <= self.data@.len(),
        ensures
            cell == self.spec_cell(row as int),
    {
        let len: usize = self.data.len();
        let p: usize = row as usize * 8;
        let a: u64 = self.data[p] as u64 + 0x100 * (self.data[p + 1] as u64);
        let b: u64 = self.data[p + 2] as u64 + 0x100 * (self.data[p + 3] as u64);
        let c: u64 = self.data[p + 4] as u64 + 0x100 * (self.data[p + 5] as u64);
        let d: u64 = self.data[p + 6] as u64 + 0x100 * (self.data[p + 7] as u64);
        (a + 0x1_0000 * b) + 0x1_0000_0000 * (c + 0x1_0000 * d)
    }
}

/// One metadata table: its rows are kept column by column.
pub struct MDTable {
    pub table_type: MDTableType,
    pub name: &'static str,
    /// The number of rows.
    pub row_count: u32,
    /// The width of a row, in bytes.
    pub row_size: u32,
    pub columns: Vec<MDColumn>,
    /// Where the rows start in the data they are read from.
    pub position: usize,
}

/// The sum of the widths of the first `n` columns.
pub open spec fn spec_offset_of(columns: Seq<MDColumn>, n: int) -> int
    decreases n,
{
    if n <= 0 {
        0
    } else {
        spec_offset_of(columns, n - 1) + columns[n - 1].size
    }
}

impl MDTable {
    pub fn new(table_type: MDTableType, name: &'static str, columns: Vec<MDColumn>) -> (table:
        MDTable)
        ensures
            table.table_type == table_type,
            table.name@ == name@,
            table.columns == columns,
            table.row_count == 0,
            table.row_size == 0,
            table.position == 0,
    {
        MDTable { table_type, name, columns, row_count: 0, row_size: 0, position: 0 }
    }

    /// The columns lie one after the other in a row, each one, two or four bytes wide.
    pub open spec fn spec_laid_out(&self) -> bool {
        &&& self.columns@.len() <= 16
        &&& self.row_size == spec_offset_of(self.columns@, self.columns@.len() as int)
        &&& forall|c: int|
            0 <= c < self.columns@.len() ==> {
                &&& (#[trigger] self.columns@[c]).offset == spec_offset_of(self.columns@, c)
                &&& (self.columns@[c].size == 1 || self.columns@[c].size == 2
                    || self.columns@[c].size == 4)
            }
    }

    /// Every column holds exactly one cell for each row.
    pub open spec fn spec_loaded(&self) -> bool {
        forall|c: int|
            0 <= c < self.columns@.len() ==> (#[trigger] self.columns@[c]).data@.len()
                == self.row_count * self.columns@[c].size
    }

    /// Every cell byte is the byte of `s` at the cell's place in its row.
    pub open spec fn spec_cells_from(&self, s: Seq<u8>) -> bool {
        forall|c: int, r: int, k: int|
            0 <= c < self.columns@.len() && 0 <= r < self.row_count && 0 <= k
                < self.columns@[c].size ==> #[trigger] self.columns@[c].data@[r
                * self.columns@[c].size + k] == s[self.position + r * self.row_size
                + self.columns@[c].offset + k]
    }

    /// True where row `row` and column `col` are there and the cell can be read.
    pub open spec fn spec_has_cell(&self, col: int, row: int) -> bool {
        &&& 0 <= col < self.columns@.len()
        &&& 0 <= row < self.row_count
        &&& self.columns@[col].data@.len() == self.row_count * self.columns@[col].size
        &&& (self.columns@[col].size == 1 || self.columns@[col].size == 2
            || self.columns@[col].size == 4)
    }

    /// The cell of row `row`, counted from zero, and column `col`.
    pub fn cell(&self, col: usize, row: u32) -> (value: u32)
        requires
            self.spec_has_cell(col as int, row as int),
        ensures
            value == self.columns@[col as int].spec_cell(row as int),
            self.columns@[col as int].size == 1 ==> value <= 0xFF,
            self.columns@[col as int].size == 2 ==> value <= 0xFFFF,
    {
        let column: &MDColumn = &self.columns[col];
        proof {
            let size = column.size as int;
            assert((row + 1) * size <= self.row_count * size) by (nonlinear_arith)
                requires
                    0 <= row < self.row_count,
                    0 <= size,
            ;
            assert(row < (row + 1) * size) by (nonlinear_arith)
                requires
                    0 <= row,
                    1 <= size,
            ;
        }
        if column.size == 1 {
            column.get_cell_u8(row) as u32
        } else {
            column.get_cell_u16_or_u32(row)
        }
    }

    /// Reads the cells of all rows from `reader`, column by column. A table whose
    /// position is zero has no rows to read and is left as it is.
    pub fn read_all(&mut self, reader: &mut DataReader) -> (result: Result<(), ImageError>)
        requires
            old(self).spec_laid_out(),
        ensures
            final(reader).bytes() == old(reader).bytes(),
            final(self).table_type == old(self).table_type,
            final(self).name == old(self).name,
            final(self).row_count == old(self).row_count,
            final(self).row_size == old(self).row_size,
            final(self).position == old(self).position,
            final(self).columns@.len() == old(self).columns@.len(),
            final(self).spec_laid_out(),
            forall|c: int|
                0 <= c < old(self).columns@.len() ==> {
                    &&& (#[trigger] final(self).columns@[c]).size == old(self).columns@[c].size
                    &&& final(self).columns@[c].offset == old(self).columns@[c].offset
                    &&& final(self).columns@[c].column_type == old(self).columns@[c].column_type
                    &&& final(self).columns@[c].index == old(self).columns@[c].index
                    &&& final(self).columns@[c].name == old(self).columns@[c].name
                },
            old(self).position == 0 ==> result.is_ok() && *final(self) == *old(self) && final(reader).pos() == old(reader).pos(),
            old(self).position != 0 ==> match result {
                Ok(()) => {
                    &&& old(self).position + old(self).row_count * old(self).row_size <= old(reader).bytes().len()
                    &&& final(self).spec_loaded()
                    &&& final(self).spec_cells_from(old(reader).bytes())
                    &&& final(reader).pos() == old(self).position + old(self).row_count * old(self).row_size
                },
                Err(e) => old(self).position + old(self).row_count * old(self).row_size > old(reader).bytes().len() && e == ImageError::UnexpectedEof,
            },
    {
        if self.position == 0 {
            return Ok(());
        }
        let ghost s = reader.bytes();
        let position: usize = self.position;
        let row_count: usize = self.row_count as usize;
        let row_size: usize = self.row_size as usize;
        proof {
            lemma_offsets_bounded(self.columns@, self.columns@.len() as int);
        }
        assert(self.row_count * self.row_size <= 0xFFFF_FFFF * 0xFFFF_FFFF) by (nonlinear_arith)
            requires
                0 <= self.row_count <= 0xFFFF_FFFF,
                0 <= self.row_size <= 0xFFFF_FFFF,
        ;
        let total: u64 = (self.row_count as u64) * (self.row_size as u64);
        let room: usize = reader.len();
        if position > room || total > (room - position) as u64 {
            return Err(ImageError::UnexpectedEof);
        }
        let mut c: usize = 0;
        while c < self.columns.len()
            invariant
                c <= self.columns@.len(),
                reader.bytes() == s,
                reader.pos() == old(reader).pos(),
                self.table_type == old(self).table_type,
                self.name == old(self).name,
                self.row_count == old(self).row_count,
                self.row_size == old(self).row_size,
                self.position == old(self).position,
                self.columns@.len() == old(self).columns@.len(),
                old(self).spec_laid_out(),
                position == self.position,
                row_count == self.row_count,
                row_size == self.row_size,
                position + row_count * row_size <= s.len() <= usize::MAX,
                forall|j: int|
                    0 <= j < self.columns@.len() ==> {
                        &&& (#[trigger] self.columns@[j]).size == old(self).columns@[j].size
                        &&& self.columns@[j].offset == old(self).columns@[j].offset
                        &&& self.columns@[j].column_type == old(self).columns@[j].column_type
                        &&& self.columns@[j].index == old(self).columns@[j].index
                        &&& self.columns@[j].name == old(self).columns@[j].name
                    },
                forall|j: int|
                    0 <= j < c ==> (#[trigger] self.columns@[j]).data@.len() == row_count
                        * self.columns@[j].size,
                forall|j: int, r: int, k: int|
                    0 <= j < c && 0 <= r < row_count && 0 <= k < self.columns@[j].size
                        ==> #[trigger] self.columns@[j].data@[r * self.columns@[j].size + k]
                        == s[position + r * row_size + self.columns@[j].offset + k],
            decreases self.columns@.len() - c,
        {
            let size: usize = self.columns[c].size as usize;
            let offset: usize = self.columns[c].offset as usize;
            proof {
                lemma_offsets_monotone(old(self).columns@, c as int, self.columns@.len() as int);
            }
            let data: Vec<u8> = read_column(reader, position, row_count, row_size, offset, size);
            self.columns[c].data = data;
            c += 1;
        }
        proof {
            assert(row_count * row_size == total) by (nonlinear_arith)
                requires
                    total == (self.row_count as u64) * (self.row_size as u64),
                    row_count == self.row_count,
                    row_size == self.row_size,
            ;
        }
        let _ = reader.set_position(position + row_count * row_size);
        proof {
            assert forall|j: int| 0 <= j <= self.columns@.len() implies spec_offset_of(
                self.columns@,
                j,
            ) == spec_offset_of(old(self).columns@, j) by {
                lemma_offset_of_same_sizes(old(self).columns@, self.columns@, j);
            }
        }
        Ok(())
    }
}

proof fn lemma_offsets_bounded(columns: Seq<MDColumn>, n: int)
    requires
        0 <= n <= columns.len(),
    ensures
        0 <= spec_offset_of(columns, n) <= 255 * n,
    decreases n,
{
    if n > 0 {
        lemma_offsets_bounded(columns, n - 1);
    }
}

proof fn lemma_offsets_monotone(columns: Seq<MDColumn>, c: int, n: int)
    requires
        0 <= c < n <= columns.len(),
    ensures
        spec_offset_of(columns, c) + columns[c].size <= spec_offset_of(columns, n),
        0 <= spec_offset_of(columns, c),
    decreases n,
{
    lemma_offsets_bounded(columns, c);
    if c + 1 < n {
        lemma_offsets_monotone(columns, c, n - 1);
    }
}

/// The cells of one column: from each row of `row_size` bytes, the `size` bytes at `offset`.
fn read_column(
    reader: &DataReader,
    position: usize,
    row_count: usize,
    row_size: usize,
    offset: usize,
    size: usize,
) -> (data: Vec<u8>)
    requires
        offset + size <= row_size,
        position + row_count * row_size <= reader.bytes().len() <= usize::MAX,
    ensures
        data@.len() == row_count * size,
        forall|r: int, k: int|
            0 <= r < row_count && 0 <= k < size ==> #[trigger] data@[r * size + k]
                == reader.bytes()[position + r * row_size + offset + k],
{
    let mut data: Vec<u8> = Vec::new();
    let mut r: usize = 0;
    while r < row_count
        invariant
            r <= row_count,
            offset + size <= row_size,
            position + row_count * row_size <= reader.bytes().len() <= usize::MAX,
            data@.len() == r * size,
            forall|r2: int, k: int|
                0 <= r2 < r && 0 <= k < size ==> #[trigger] data@[r2 * size + k]
                    == reader.bytes()[position + r2 * row_size + offset + k],
        decreases row_count - r,
    {
        proof {
            assert((r + 1) * row_size <= row_count * row_size) by (nonlinear_arith)
                requires
                    r < row_count,
                    0 <= row_size,
            ;
            assert((r + 1) * row_size == r * row_size + row_size) by (nonlinear_arith);
            assert((r + 1) * size == r * size + size) by (nonlinear_arith);
            assert(r * row_size >= 0 && r * size >= 0) by (nonlinear_arith)
                requires
                    r >= 0,
                    row_size >= 0,
                    size >= 0,
            ;
        }
        let start: usize = position + r * row_size + offset;
        let mut k: usize = 0;
        let ghost before = data@;
        while k < size
            invariant
                k <= size,
                r < row_count,
                start == position + r * row_size + offset,
                start + size <= reader.bytes().len() <= usize::MAX,
                data@.len() == r * size + k,
                r * size >= 0,
                before.len() == r * size,
                forall|i: int| 0 <= i < before.len() ==> data@[i] == before[i],
                forall|k2: int|
                    0 <= k2 < k ==> #[trigger] data@[r * size + k2] == reader.bytes()[start
                        + k2],
            decreases size - k,
        {
            let mut p: usize = start + k;
            match reader.read_u8_immut(&mut p) {
                Ok(b) => {
                    data.push(b);
                },
                Err(_) => {
                    assert(false);
                },
            }
            k += 1;
        }
        proof {
            assert forall|r2: int, k3: int| 0 <= r2 < r + 1 && 0 <= k3 < size implies #[trigger] data@[r2
                * size + k3] == reader.bytes()[position + r2 * row_size + offset + k3] by {
                if r2 < r {
                    assert(r2 * size + k3 < r * size) by (nonlinear_arith)
                        requires
                            0 <= r2 < r,
                            0 <= k3 < size,
                    ;
                    assert(r2 * size + k3 >= 0) by (nonlinear_arith)
                        requires
                            0 <= r2,
                            0 <= k3,
                            0 <= size,
                    ;
                    assert(before[r2 * size + k3] == reader.bytes()[position + r2 * row_size
                        + offset + k3]);
                }
            }
        }
        r += 1;
    }
    data
}

/// The number of bits of `valid` that are set below bit `n`.
pub open spec fn spec_bits_below(valid: u64, n: nat) -> nat
    decreases n,
{
    if n == 0 {
        0
    } else {
        spec_bits_below(valid, (n - 1) as nat) + (if spec_bit(valid, (n - 1) as nat) {
            1nat
        } else {
            0nat
        })
    }
}

/// True where bit `i` of `valid` is set.
pub open spec fn spec_bit(valid: u64, i: nat) -> bool {
    (valid >> (i as u64)) & 1 == 1
}

/// The number of rows that the stream at `pos` gives for table `i`: the count that
/// the header holds for it where its bit in the valid mask is set, cut to twenty-four
/// bits; zero for a table that the mask leaves out or the format version lacks.
pub open spec fn spec_row_count(s: Seq<u8>, pos: int, i: nat) -> int {
    let valid = spec_u64_le(s, pos + 8) as u64;
    if i < 64 && i < spec_max_present_tables(s[pos + 4], s[pos + 5]) && spec_bit(valid, i) {
        spec_u32_le(s, pos + 24 + 4 * spec_bits_below(valid, i)) % 0x100_0000
    } else {
        0
    }
}

/// The largest number of rows among the first `n` of `tables`; a table that
/// `row_counts` does not reach counts as empty.
pub open spec fn spec_max_rows(tables: Seq<MDTableType>, row_counts: Seq<u32>, n: int) -> int
    decreases n,
{
    if n <= 0 {
        0
    } else {
        let rest = spec_max_rows(tables, row_counts, n - 1);
        let index = tables[n - 1].spec_code() as int;
        let rows = if index < row_counts.len() {
            row_counts[index] as int
        } else {
            0
        };
        if rows > rest {
            rows
        } else {
            rest
        }
    }
}

/// The width of a column of kind `kind`. A row number takes two bytes while the
/// table it points into has at most 0xFFFF rows; a coded token takes two while the
/// largest candidate table, shifted by the width of the tag, stays within 0xFFFF; an
/// offset into a heap takes two unless the heap is flagged big.
pub open spec fn spec_col_size(
    big_strings: bool,
    big_guid: bool,
    big_blob: bool,
    kind: MDType,
    row_counts: Seq<u32>,
) -> u8 {
    if kind.spec_is_rid() {
        let index = kind.spec_code() as int;
        if index >= row_counts.len() || row_counts[index] <= 0xFFFF {
            2
        } else {
            4
        }
    } else if kind.spec_is_coded_token() {
        if spec_max_rows(
            spec_coded_tables(kind),
            row_counts,
            spec_coded_tables(kind).len() as int,
        ) * spec_tag_span(spec_coded_bits(kind)) <= 0xFFFF {
            2
        } else {
            4
        }
    } else {
        match kind {
            MDType::Byte => 1,
            MDType::Int16 => 2,
            MDType::UInt16 => 2,
            MDType::Int32 => 4,
            MDType::UInt32 => 4,
            MDType::Strings => if big_strings {
                4
            } else {
                2
            },
            MDType::GUID => if big_guid {
                4
            } else {
                2
            },
            _ => if big_blob {
                4
            } else {
                2
            },
        }
    }
}

/// The row counts that the header of the stream at `pos` gives, for all sixty-four
/// table numbers.
pub open spec fn spec_counts(s: Seq<u8>, pos: int) -> Seq<u32> {
    Seq::new(64, |i: int| spec_row_count(s, pos, i as nat) as u32)
}

/// The flags of the stream at `pos`, cut to the bits with a meaning.
pub open spec fn spec_flags(s: Seq<u8>, pos: int) -> u8 {
    s[pos + 6] & 0xEF
}

/// The width that a column of kind `kind` has under `flags` and `counts`.
pub open spec fn spec_kind_size(flags: u8, counts: Seq<u32>, kind: MDType) -> u8 {
    spec_col_size(flags & 0x01 != 0, flags & 0x02 != 0, flags & 0x04 != 0, kind, counts)
}

/// The sum of the widths of the first `n` columns of kinds `kinds`.
pub open spec fn spec_row_size(flags: u8, counts: Seq<u32>, kinds: Seq<MDType>, n: int) -> int
    decreases n,
{
    if n <= 0 {
        0
    } else {
        spec_row_size(flags, counts, kinds, n - 1) + spec_kind_size(flags, counts, kinds[n - 1])
    }
}

/// Where the header of the stream at `pos` ends: behind the row counts, and the
/// extra data where the flags announce it.
pub open spec fn spec_header_end(s: Seq<u8>, pos: int) -> int {
    pos + 24 + 4 * spec_bits_below(spec_u64_le(s, pos + 8) as u64, 64) + (if spec_flags(s, pos)
        & 0x40 != 0 {
        4int
    } else {
        0int
    })
}

/// The number of bytes that the rows of the table numbered `t` take.
pub open spec fn spec_table_bytes(s: Seq<u8>, pos: int, t: int) -> int {
    match MDTableType::spec_from_code(t) {
        Some(kind) => {
            let kinds = spec_schema(kind, spec_is_v1_1(s[pos + 4], s[pos + 5]));
            spec_row_count(s, pos, t as nat) * spec_row_size(
                spec_flags(s, pos),
                spec_counts(s, pos),
                kinds,
                kinds.len() as int,
            )
        },
        None => 0,
    }
}

/// Where the rows of the table numbered `t` start: the tables follow the header
/// one after the other.
pub open spec fn spec_table_start(s: Seq<u8>, pos: int, t: nat) -> int
    decreases t,
{
    if t == 0 {
        spec_header_end(s, pos)
    } else {
        spec_table_start(s, pos, (t - 1) as nat) + spec_table_bytes(s, pos, t - 1)
    }
}

/// The table stream: its header and the tables with their rows.
pub struct TableStream {
    pub reserved1: u32,
    pub major_version: u8,
    pub minor_version: u8,
    pub flags: u8,
    pub log2_rid: u8,
    pub valid_mask: u64,
    pub sorted_mask: u64,
    pub md_tables: Vec<MDTable>,
    pub extra_data: u32,
    pub md_tables_pos: usize,
}

/// True where `table` is the table numbered `t` of the stream at `pos`: it has the
/// columns of the schema, the row count, the column widths, the place and the cells
/// that the bytes give it.
pub open spec fn spec_table_from(table: MDTable, s: Seq<u8>, pos: int, t: int) -> bool {
    &&& table.spec_laid_out()
    &&& table.spec_loaded()
    &&& table.row_count <= 0x00FF_FFFF
    &&& spec_sized_table(
        table,
        MDTableType::spec_from_code(t).unwrap(),
        spec_is_v1_1(s[pos + 4], s[pos + 5]),
    )
    &&& table.row_count == spec_row_count(s, pos, t as nat)
    &&& table.position == spec_table_start(s, pos, t as nat)
    &&& table.spec_cells_from(s)
    &&& spec_widths(table.columns@, spec_flags(s, pos), spec_counts(s, pos))
}

/// True where `size` is a width that a column of kind `kind` can have: a byte for
/// bytes, two for the sixteen-bit kinds, four for the thirty-two-bit kinds, two or
/// four for row numbers, coded tokens and offsets into heaps.
pub open spec fn spec_width_ok(kind: MDType, size: u8) -> bool {
    match kind {
        MDType::Byte => size == 1,
        MDType::Int16 => size == 2,
        MDType::UInt16 => size == 2,
        MDType::Int32 => size == 4,
        MDType::UInt32 => size == 4,
        _ => size == 2 || size == 4,
    }
}

/// True where every column has the width that its kind calls for.
pub open spec fn spec_widths(columns: Seq<MDColumn>, flags: u8, counts: Seq<u32>) -> bool {
    forall|c: int|
        0 <= c < columns.len() ==> (#[trigger] columns[c]).size == spec_kind_size(
            flags,
            counts,
            columns[c].column_type,
        )
}

impl TableStream {
    /// All tables are there, in the order of their numbers, with the columns of the
    /// schema, laid out and filled.
    pub open spec fn spec_wf(&self) -> bool {
        &&& self.md_tables@.len() == 56
        &&& forall|t: int|
            0 <= t < 56 ==> {
                &&& (#[trigger] self.md_tables@[t]).spec_laid_out()
                &&& self.md_tables@[t].spec_loaded()
                &&& self.md_tables@[t].row_count <= 0x00FF_FFFF
                &&& spec_sized_table(
                    self.md_tables@[t],
                    MDTableType::spec_from_code(t).unwrap(),
                    spec_is_v1_1(self.major_version, self.minor_version),
                )
                &&& forall|c: int|
                    0 <= c < self.md_tables@[t].columns@.len() ==> spec_width_ok(
                        (#[trigger] self.md_tables@[t].columns@[c]).column_type,
                        self.md_tables@[t].columns@[c].size,
                    )
            }
    }

    /// True where the header fields are what the bytes at `pos` hold.
    pub open spec fn spec_header_from(&self, s: Seq<u8>, pos: int) -> bool {
        &&& self.reserved1 == spec_u32_le(s, pos)
        &&& self.major_version == s[pos + 4]
        &&& self.minor_version == s[pos + 5]
        &&& self.flags == spec_flags(s, pos)
        &&& self.log2_rid == s[pos + 7]
        &&& self.valid_mask == spec_u64_le(s, pos + 8)
        &&& self.sorted_mask == spec_u64_le(s, pos + 16)
        &&& self.extra_data == (if self.flags & 0x40 != 0 {
            spec_u32_le(s, spec_header_end(s, pos) - 4)
        } else {
            0
        })
    }

    /// True where every table is the table of its number of the stream at `pos`.
    pub open spec fn spec_tables_from(&self, s: Seq<u8>, pos: int) -> bool {
        forall|t: int| 0 <= t < 56 ==> spec_table_from(#[trigger] self.md_tables@[t], s, pos, t)
    }

    /// Reads the table stream at the cursor: the header, then the rows of every table.
    #[verifier::spinoff_prover]
    #[verifier::rlimit(100)]
    pub fn new(reader: &mut DataReader) -> (result: Result<TableStream, ImageError>)
        ensures
            final(reader).bytes() == old(reader).bytes(),
            match result {
                Ok(stream) => {
                    &&& spec_table_start(old(reader).bytes(), old(reader).pos() as int, 56)
                        <= old(reader).bytes().len()
                    &&& stream.spec_wf()
                    &&& stream.spec_header_from(old(reader).bytes(), old(reader).pos() as int)
                    &&& stream.spec_tables_from(old(reader).bytes(), old(reader).pos() as int)
                    &&& stream.md_tables_pos == spec_table_start(
                        old(reader).bytes(),
                        old(reader).pos() as int,
                        56,
                    )
                    &&& final(reader).pos() == stream.md_tables_pos
                },
                Err(e) => {
                    &&& e == ImageError::UnexpectedEof
                    &&& spec_table_start(old(reader).bytes(), old(reader).pos() as int, 56) > old(reader).bytes().len()
                },
            },
    {
        let ghost s = reader.bytes();
        let ghost pos = reader.pos() as int;
        let start: usize = reader.get_position();
        proof {
            lemma_table_start_grows(s, pos, 0, 56);
        }
        if reader.check_position(start, 24).is_err() {
            return Err(ImageError::UnexpectedEof);
        }
        let reserved1: u32 = reader.read_u32()?;
        let major_version: u8 = reader.read_u8()?;
        let minor_version: u8 = reader.read_u8()?;
        let flags: u8 = reader.read_u8()? & KNOWN_FLAGS;
        let log2_rid: u8 = reader.read_u8()?;
        let valid_mask: u64 = reader.read_u64()?;
        let sorted_mask: u64 = reader.read_u64()?;
        let mut md_tables: Vec<MDTable> = Vec::new();
        let max_present_tables: usize = TableStream::create_tables(&mut md_tables, major_version, minor_version);
        let ghost v1_1 = spec_is_v1_1(major_version, minor_version);
        let sizes: Vec<u32> = read_row_counts(reader, start, valid_mask, max_present_tables)?;
        assert(sizes@ =~= spec_counts(s, pos));
        let mut extra_data: u32 = 0;
        if flags & EXTRA_DATA != 0 {
            extra_data = reader.read_u32()?;
        }
        assert(reader.pos() == spec_header_end(s, pos));
        load_tables(&mut md_tables, reader, flags, &sizes, Ghost(pos))?;
        let md_tables_pos: usize = reader.get_position();
        proof {
            assert forall|t: int, c: int|
                0 <= t < 56 && 0 <= c < md_tables@[t].columns@.len() implies spec_width_ok(
                (#[trigger] md_tables@[t].columns@[c]).column_type,
                md_tables@[t].columns@[c].size,
            ) by {
                assert(spec_table_from(md_tables@[t], s, pos, t));
            }
        }
        Ok(
            TableStream {
                reserved1,
                major_version,
                minor_version,
                flags,
                log2_rid,
                valid_mask,
                sorted_mask,
                md_tables,
                extra_data,
                md_tables_pos,
            },
        )
    }

    /// The width of a column of kind `column_size`, given which heaps are big and
    /// how many rows each table has.
    pub fn get_col_size(
        big_strings: bool,
        big_guid: bool,
        big_blob: bool,
        column_size: MDType,
        row_counts: &[u32],
    ) -> (size: u8)
        ensures
            size == spec_col_size(big_strings, big_guid, big_blob, column_size, row_counts@),
            size == 1 || size == 2 || size == 4,
    {
        if column_size.is_rid() {
            let table_index: usize = column_size.code() as usize;
            if table_index >= row_counts.len() || row_counts[table_index] <= 0xFFFF {
                return 2;
            } else {
                return 4;
            }
        }
        if column_size.is_coded_token() {
            let info: CodedToken = CodedToken::from_md_type(column_size);
            let mut max_rows: u32 = 0;
            let mut n: usize = 0;
            while n < info.table_types.len()
                invariant
                    n <= info.table_types@.len(),
                    max_rows == spec_max_rows(info.table_types@, row_counts@, n as int),
                decreases info.table_types@.len() - n,
            {
                let table_index: usize = info.table_types[n].code() as usize;
                let table_rows: u32 = if table_index >= row_counts.len() {
                    0
                } else {
                    row_counts[table_index]
                };
                if table_rows > max_rows {
                    max_rows = table_rows;
                }
                n += 1;
            }
            let span: u64 = info.mask as u64 + 1;
            assert(max_rows * span <= 0xFFFF_FFFF * 128) by (nonlinear_arith)
                requires
                    0 <= max_rows <= 0xFFFF_FFFF,
                    0 <= span <= 128,
            ;
            let final_rows: u64 = (max_rows as u64) * span;
            if final_rows <= 0xFFFF {
                return 2;
            } else {
                return 4;
            }
        }
        match column_size {
            MDType::Byte => 1,
            MDType::Int16 => 2,
            MDType::UInt16 => 2,
            MDType::Int32 => 4,
            MDType::UInt32 => 4,
            MDType::Strings => if big_strings {
                4
            } else {
                2
            },
            MDType::GUID => if big_guid {
                4
            } else {
                2
            },
            _ => if big_blob {
                4
            } else {
                2
            },
        }
    }
}

/// Reads the row counts that follow the fixed part of the header: one for each bit
/// set in `valid_mask`, in the order of the bits.
#[verifier::loop_isolation(false)]
fn read_row_counts(
    reader: &mut DataReader,
    start: usize,
    valid_mask: u64,
    max_present_tables: usize,
) -> (result: Result<Vec<u32>, ImageError>)
    requires
        old(reader).pos() == start + 24,
        valid_mask == spec_u64_le(old(reader).bytes(), start + 8),
        max_present_tables == spec_max_present_tables(
            old(reader).bytes()[start + 4],
            old(reader).bytes()[start + 5],
        ),
    ensures
        final(reader).bytes() == old(reader).bytes(),
        match result {
            Ok(counts) => {
                &&& counts@.len() == 64
                &&& forall|i: int|
                    0 <= i < 64 ==> #[trigger] counts@[i] == spec_row_count(
                        old(reader).bytes(),
                        start as int,
                        i as nat,
                    )
                &&& final(reader).pos() == start + 24 + 4 * spec_bits_below(valid_mask, 64)
            },
            Err(e) => e == ImageError::UnexpectedEof && start + 24 + 4 * spec_bits_below(
                valid_mask,
                64,
            ) > old(reader).bytes().len(),
        },
{
    let ghost s = reader.bytes();
    let mut counts: Vec<u32> = Vec::with_capacity(64);
    let mut i: usize = 0;
    while i < 64
        invariant
            i <= 64,
            reader.bytes() == s,
            valid_mask == spec_u64_le(s, start + 8),
            max_present_tables == spec_max_present_tables(s[start + 4], s[start + 5]),
            reader.pos() == start + 24 + 4 * spec_bits_below(valid_mask, i as nat),
            counts@.len() == i,
            forall|j: int|
                0 <= j < i ==> #[trigger] counts@[j] == spec_row_count(s, start as int, j as nat),
        decreases 64 - i,
    {
        let present: bool = (valid_mask >> (i as u64)) & 1 == 1;
        let mut rows: u32 = 0;
        if present {
            rows = match reader.read_u32() {
                Ok(v) => v % 0x100_0000,
                Err(e) => {
                    proof {
                        lemma_bits_below_grows(valid_mask, (i + 1) as nat, 64);
                    }
                    return Err(e);
                },
            };
        }
        if i >= max_present_tables {
            rows = 0;
        }
        counts.push(rows);
        i += 1;
    }
    Ok(counts)
}

/// Gives every table its rows, one table after the other from the cursor on.
fn load_tables(
    md_tables: &mut Vec<MDTable>,
    reader: &mut DataReader,
    flags: u8,
    sizes: &Vec<u32>,
    Ghost(pos): Ghost<int>,
) -> (result: Result<(), ImageError>)
    requires
        old(md_tables)@.len() == 56,
        0 <= pos,
        old(reader).pos() == spec_header_end(old(reader).bytes(), pos),
        flags == spec_flags(old(reader).bytes(), pos),
        sizes@ == spec_counts(old(reader).bytes(), pos),
        forall|t: MDTableType| #[trigger]
            spec_fresh_table(
                old(md_tables)@[t.spec_code() as int],
                t,
                spec_is_v1_1(old(reader).bytes()[pos + 4], old(reader).bytes()[pos + 5]),
            ),
    ensures
        final(reader).bytes() == old(reader).bytes(),
        final(md_tables)@.len() == 56,
        match result {
            Ok(()) => {
                &&& forall|t: int|
                    0 <= t < 56 ==> spec_table_from(
                        #[trigger] final(md_tables)@[t],
                        old(reader).bytes(),
                        pos,
                        t,
                    )
                &&& final(reader).pos() == spec_table_start(old(reader).bytes(), pos, 56)
            },
            Err(e) => e == ImageError::UnexpectedEof && spec_table_start(
                old(reader).bytes(),
                pos,
                56,
            ) > old(reader).bytes().len(),
        },
{
    let ghost s = reader.bytes();
    let ghost v1_1 = spec_is_v1_1(s[pos + 4], s[pos + 5]);
    proof {
        lemma_table_start_grows(s, pos, 0, 56);
        assert forall|j: int| 0 <= j < 56 implies spec_fresh_table(
            #[trigger] md_tables@[j],
            MDTableType::spec_from_code(j).unwrap(),
            v1_1,
        ) by {
            super::table_kind::lemma_table_type_of_index(j);
            let kind = MDTableType::spec_from_code(j).unwrap();
            assert(spec_fresh_table(md_tables@[kind.spec_code() as int], kind, v1_1));
        }
    }
    let mut t: usize = 0;
    while t < 56
        invariant
            t <= 56,
            0 <= pos,
            md_tables@.len() == 56,
            reader.bytes() == s,
            s == old(reader).bytes(),
            v1_1 == spec_is_v1_1(s[pos + 4], s[pos + 5]),
            flags == spec_flags(s, pos),
            sizes@ == spec_counts(s, pos),
            reader.pos() == spec_table_start(s, pos, t as nat),
            forall|j: int|
                t <= j < 56 ==> spec_fresh_table(
                    #[trigger] md_tables@[j],
                    MDTableType::spec_from_code(j).unwrap(),
                    v1_1,
                ),
            forall|j: int| 0 <= j < t ==> spec_table_from(#[trigger] md_tables@[j], s, pos, j),
        decreases 56 - t,
    {
        let ghost before = md_tables@;
        proof {
            lemma_table_start_grows(s, pos, (t + 1) as nat, 56);
        }
        let rows: u32 = sizes[t];
        let result = load_table(&mut md_tables[t], reader, rows, flags, sizes, Ghost(pos), Ghost(t as int));
        match result {
            Ok(()) => {},
            Err(e) => {
                return Err(e);
            },
        }
        t += 1;
    }
    Ok(())
}

/// Gives `table` its rows: `rows` of them, read at the cursor with the column
/// widths that `flags` and `row_counts` call for.
fn load_table(
    table: &mut MDTable,
    reader: &mut DataReader,
    rows: u32,
    flags: u8,
    row_counts: &Vec<u32>,
    Ghost(pos): Ghost<int>,
    Ghost(t): Ghost<int>,
) -> (result: Result<(), ImageError>)
    requires
        0 <= pos,
        0 <= t < 56,
        spec_fresh_table(
            *old(table),
            MDTableType::spec_from_code(t).unwrap(),
            spec_is_v1_1(old(reader).bytes()[pos + 4], old(reader).bytes()[pos + 5]),
        ),
        old(reader).pos() == spec_table_start(old(reader).bytes(), pos, t as nat),
        flags == spec_flags(old(reader).bytes(), pos),
        row_counts@ == spec_counts(old(reader).bytes(), pos),
        rows == row_counts@[t],
    ensures
        final(reader).bytes() == old(reader).bytes(),
        match result {
            Ok(()) => {
                &&& spec_table_from(*final(table), old(reader).bytes(), pos, t)
                &&& final(reader).pos() == spec_table_start(
                    old(reader).bytes(),
                    pos,
                    (t + 1) as nat,
                )
            },
            Err(e) => e == ImageError::UnexpectedEof && spec_table_start(
                old(reader).bytes(),
                pos,
                (t + 1) as nat,
            ) > old(reader).bytes().len(),
        },
{
    let ghost s = reader.bytes();
    let ghost kind = MDTableType::spec_from_code(t).unwrap();
    let ghost v1_1 = spec_is_v1_1(s[pos + 4], s[pos + 5]);
    proof {
        lemma_table_start_grows(s, pos, 0, t as nat);
        super::table_kind::lemma_table_type_of_index(t);
    }
    table.row_count = rows;
    table.position = reader.get_position();
    size_table(
        table,
        flags & BIG_STRINGS != 0,
        flags & BIG_GUID != 0,
        flags & BIG_BLOB != 0,
        row_counts,
    );
    proof {
        lemma_row_size(
            flags,
            row_counts@,
            table.columns@,
            spec_schema(kind, v1_1),
            table.columns@.len() as int,
        );
        assert(rows * table.row_size == spec_table_bytes(s, pos, t));
    }
    table.read_all(reader)
}

/// Gives every column of `table` its width and its place in the row, and the table
/// the width of its rows.
fn size_table(
    table: &mut MDTable,
    big_strings: bool,
    big_guid: bool,
    big_blob: bool,
    row_counts: &Vec<u32>,
)
    requires
        old(table).columns@.len() <= 16,
    ensures
        final(table).spec_laid_out(),
        final(table).table_type == old(table).table_type,
        final(table).name == old(table).name,
        final(table).row_count == old(table).row_count,
        final(table).position == old(table).position,
        final(table).columns@.len() == old(table).columns@.len(),
        forall|c: int|
            0 <= c < old(table).columns@.len() ==> {
                &&& (#[trigger] final(table).columns@[c]).column_type == old(table).columns@[c].column_type
                &&& final(table).columns@[c].name == old(table).columns@[c].name
                &&& final(table).columns@[c].index == old(table).columns@[c].index
                &&& final(table).columns@[c].data == old(table).columns@[c].data
                &&& final(table).columns@[c].size == spec_col_size(
                    big_strings,
                    big_guid,
                    big_blob,
                    old(table).columns@[c].column_type,
                    row_counts@,
                )
            },
{
    let mut col_offset: u32 = 0;
    let mut c: usize = 0;
    while c < table.columns.len()
        invariant
            c <= table.columns@.len() <= 16,
            col_offset == spec_offset_of(table.columns@, c as int),
            col_offset <= 4 * c,
            table.table_type == old(table).table_type,
            table.name == old(table).name,
            table.row_count == old(table).row_count,
            table.position == old(table).position,
            table.columns@.len() == old(table).columns@.len(),
            forall|j: int|
                0 <= j < table.columns@.len() ==> {
                    &&& (#[trigger] table.columns@[j]).column_type == old(table).columns@[j].column_type
                    &&& table.columns@[j].name == old(table).columns@[j].name
                    &&& table.columns@[j].index == old(table).columns@[j].index
                    &&& table.columns@[j].data == old(table).columns@[j].data
                },
            forall|j: int|
                0 <= j < c ==> {
                    &&& (#[trigger] table.columns@[j]).offset == spec_offset_of(table.columns@, j)
                    &&& table.columns@[j].size == spec_col_size(
                        big_strings,
                        big_guid,
                        big_blob,
                        table.columns@[j].column_type,
                        row_counts@,
                    )
                    &&& (table.columns@[j].size == 1 || table.columns@[j].size == 2
                        || table.columns@[j].size == 4)
                },
        decreases table.columns@.len() - c,
    {
        let ghost cols = table.columns@;
        let col_size: u8 = TableStream::get_col_size(
            big_strings,
            big_guid,
            big_blob,
            table.columns[c].column_type,
            row_counts.as_slice(),
        );
        table.columns[c].offset = col_offset;
        table.columns[c].size = col_size;
        proof {
            lemma_offset_of_update(cols, table.columns@, c as int);
            assert forall|j: int| 0 <= j < c implies (#[trigger] table.columns@[j]).offset
                == spec_offset_of(table.columns@, j) by {
                lemma_offset_of_update(cols, table.columns@, j);
            }
        }
        col_offset = col_offset + col_size as u32;
        c += 1;
    }
    table.row_size = col_offset;
}

/// True where `table` has the columns of the schema of `kind`, whatever their widths.
pub open spec fn spec_sized_table(table: MDTable, kind: MDTableType, v1_1: bool) -> bool {
    &&& table.table_type == kind
    &&& table.columns@.len() == spec_schema(kind, v1_1).len()
    &&& forall|c: int|
        0 <= c < table.columns@.len() ==> (#[trigger] table.columns@[c]).column_type
            == spec_schema(kind, v1_1)[c]
}

proof fn lemma_row_size(
    flags: u8,
    counts: Seq<u32>,
    columns: Seq<MDColumn>,
    kinds: Seq<MDType>,
    n: int,
)
    requires
        0 <= n <= columns.len(),
        columns.len() == kinds.len(),
        forall|c: int|
            0 <= c < columns.len() ==> (#[trigger] columns[c]).column_type == kinds[c]
                && columns[c].size == spec_kind_size(flags, counts, kinds[c]),
    ensures
        spec_offset_of(columns, n) == spec_row_size(flags, counts, kinds, n),
    decreases n,
{
    if n > 0 {
        lemma_row_size(flags, counts, columns, kinds, n - 1);
    }
}

proof fn lemma_bits_below_bounds(valid: u64, n: nat)
    ensures
        0 <= spec_bits_below(valid, n) <= n,
    decreases n,
{
    if n > 0 {
        lemma_bits_below_bounds(valid, (n - 1) as nat);
    }
}

proof fn lemma_bits_below_grows(valid: u64, k: nat, n: nat)
    requires
        k <= n,
    ensures
        spec_bits_below(valid, k) <= spec_bits_below(valid, n),
    decreases n,
{
    if k < n {
        lemma_bits_below_grows(valid, k, (n - 1) as nat);
    }
}

proof fn lemma_row_size_nonnegative(flags: u8, counts: Seq<u32>, kinds: Seq<MDType>, n: int)
    ensures
        spec_row_size(flags, counts, kinds, n) >= 0,
    decreases n,
{
    if n > 0 {
        lemma_row_size_nonnegative(flags, counts, kinds, n - 1);
    }
}

/// The tables end behind the fixed part of the header.
pub proof fn lemma_table_start_after(s: Seq<u8>, pos: int, n: nat)
    ensures
        pos + 24 <= spec_table_start(s, pos, n),
{
    lemma_table_start_grows(s, pos, 0, n);
}

proof fn lemma_table_start_grows(s: Seq<u8>, pos: int, k: nat, n: nat)
    requires
        k <= n,
    ensures
        spec_table_start(s, pos, k) <= spec_table_start(s, pos, n),
        pos + 24 <= spec_header_end(s, pos) <= spec_table_start(s, pos, k),
    decreases n,
{
    lemma_bits_below_bounds(spec_u64_le(s, pos + 8) as u64, 64);
    if k < n {
        lemma_table_start_grows(s, pos, k, (n - 1) as nat);
        lemma_table_bytes_nonnegative(s, pos, n - 1);
    } else if n > 0 {
        lemma_table_start_grows(s, pos, (k - 1) as nat, (n - 1) as nat);
        lemma_table_bytes_nonnegative(s, pos, n - 1);
    }
}

proof fn lemma_table_bytes_nonnegative(s: Seq<u8>, pos: int, t: int)
    ensures
        spec_table_bytes(s, pos, t) >= 0,
{
    match MDTableType::spec_from_code(t) {
        Some(kind) => {
            let kinds = spec_schema(kind, spec_is_v1_1(s[pos + 4], s[pos + 5]));
            lemma_row_size_nonnegative(
                spec_flags(s, pos),
                spec_counts(s, pos),
                kinds,
                kinds.len() as int,
            );
            let a = spec_row_count(s, pos, t as nat);
            let b = spec_row_size(spec_flags(s, pos), spec_counts(s, pos), kinds, kinds.len() as int);
            assert(a * b >= 0) by (nonlinear_arith)
                requires
                    a >= 0,
                    b >= 0,
            ;
        },
        None => {},
    }
}

/// Giving column `c` a width and an offset leaves the offsets before it as they were.
pub proof fn lemma_offset_of_update(before: Seq<MDColumn>, after: Seq<MDColumn>, c: int)
    requires
        0 <= c < before.len(),
        before.len() == after.len(),
        forall|j: int| 0 <= j < c ==> (#[trigger] after[j]).size == before[j].size,
    ensures
        spec_offset_of(after, c) == spec_offset_of(before, c),
        spec_offset_of(after, c + 1) == spec_offset_of(before, c) + after[c].size,
    decreases c,
{
    if c > 0 {
        lemma_offset_of_update(before, after, c - 1);
        assert(after[c - 1].size == before[c - 1].size);
    }
}

/// The offsets depend on the widths alone.
pub proof fn lemma_offset_of_same_sizes(before: Seq<MDColumn>, after: Seq<MDColumn>, n: int)
    requires
        0 <= n <= before.len(),
        before.len() == after.len(),
        forall|j: int| 0 <= j < before.len() ==> (#[trigger] after[j]).size == before[j].size,
    ensures
        spec_offset_of(after, n) == spec_offset_of(before, n),
    decreases n,
{
    if n > 0 {
        lemma_offset_of_same_sizes(before, after, n - 1);
        assert(after[n - 1].size == before[n - 1].size);
    }
}

} // verus!
