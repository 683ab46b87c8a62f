use vstd::prelude::*;

verus! {

/// A list of row numbers: either a run of `count` numbers from `start_rid` on, or
/// the numbers that `rids` holds.
#[derive(Debug)]
pub struct RidList {
    pub start_rid: u32,
    pub count: u32,
    pub rids: Option<Vec<u32>>,
}

impl RidList {
    /// The row numbers of the list, in order.
    pub open spec fn spec_rids(&self) -> Seq<int> {
        match self.rids {
            Some(rids) => Seq::new(rids@.len(), |i: int| rids@[i] as int),
            None => Seq::new(self.count as nat, |i: int| self.start_rid + i),
        }
    }

    /// The run of `row_count` row numbers from `start_row` on.
    pub fn create(start_row: u32, row_count: u32) -> (list: RidList)
        ensures
            list.start_rid == start_row,
            list.count == row_count,
            list.rids.is_none(),
            list.spec_rids() == Seq::new(row_count as nat, |i: int| start_row + i),
    {
        RidList { start_rid: start_row, count: row_count, rids: None }
    }

    /// The list of the given row numbers.
    pub fn create_from_rids(rids: Vec<u32>) -> (list: RidList)
        requires
            rids@.len() <= u32::MAX,
        ensures
            list.start_rid == 0,
            list.count == rids@.len(),
            list.rids == Some(rids),
            list.spec_rids() == Seq::new(rids@.len(), |i: int| rids@[i] as int),
    {
        let count: u32 = rids.len() as u32;
        RidList { start_rid: 0, count, rids: Some(rids) }
    }

    /// The empty list.
    pub fn empty() -> (list: RidList)
        ensures
            list.start_rid == 0,
            list.count == 0,
            list.rids.is_none(),
            list.spec_rids().len() == 0,
    {
        RidList { start_rid: 0, count: 0, rids: None }
    }

    /// The number of row numbers in the list.
    pub fn len(&self) -> (n: u32)
        requires
            self.rids.is_some() ==> self.rids.unwrap()@.len() <= u32::MAX,
        ensures
            n == self.spec_rids().len(),
    {
        match &self.rids {
            Some(rids) => rids.len() as u32,
            None => self.count,
        }
    }

    /// The row number at place `index`; zero, the null row, beyond the end of the
    /// list and where the run would pass the largest number.
    pub open spec fn spec_get(&self, index: u32) -> u32 {
        if index < self.spec_rids().len() && self.spec_rids()[index as int] <= u32::MAX {
            self.spec_rids()[index as int] as u32
        } else {
            0
        }
    }

    pub fn get(&self, index: u32) -> (rid: u32)
        ensures
            rid == self.spec_get(index),
    {
        match &self.rids {
            Some(rids) => {
                if index as usize >= rids.len() {
                    0
                } else {
                    rids[index as usize]
                }
            },
            None => {
                if index >= self.count || index > u32::MAX - self.start_rid {
                    0
                } else {
                    self.start_rid + index
                }
            },
        }
    }
}

} // verus!
