use super::fault::Fault;
use super::il_type::ILType;
use crate::hash_vec::HashVec;
use vstd::prelude::*;

verus! {

/// An entry of the object heap: an object with its fields, or a box with its value.
pub struct Object {
    /// Locked, pinned, the generation and the mark of the collector, which is not
    /// there yet.
    flags: u8,
    /// The token of the type that the object was made of. It never changes.
    origin_type_token: u32,
    /// The token of the type that the object counts as; a cast changes it.
    type_token: u32,
    /// The fields, found by their row numbers, in the order in which they were
    /// collected from the type and its ancestors.
    field_map: HashVec<u32, ILType>,
    /// The value, where the object is a box.
    box_value: Option<ILType>,
}

/// The row number that a field token, or a row number, holds.
pub open spec fn spec_field_rid(field_token_or_rid: u32) -> u32 {
    field_token_or_rid % 0x100_0000
}

impl Object {
    /// The token of the type that the object was made of.
    pub closed spec fn spec_origin(&self) -> u32 {
        self.origin_type_token
    }

    /// The token of the type that the object counts as.
    pub closed spec fn spec_type_token(&self) -> u32 {
        self.type_token
    }

    /// The value, where the object is a box.
    pub closed spec fn spec_box_value(&self) -> Option<ILType> {
        self.box_value
    }

    /// The reserved flags.
    pub closed spec fn spec_flags(&self) -> u8 {
        self.flags
    }

    /// The row numbers of the fields, in order.
    pub closed spec fn spec_field_rids(&self) -> Seq<u32> {
        self.field_map.spec_keys()
    }

    /// The values of the fields, in the order of their row numbers.
    pub closed spec fn spec_field_values(&self) -> Seq<ILType> {
        self.field_map.spec_values()
    }

    /// The place of the field with row number `rid` among the fields.
    pub closed spec fn spec_field_index(&self, rid: u32) -> Option<usize> {
        self.field_map.spec_index_of(rid)
    }

    /// An object of the type `type_token` with the fields `field_map`.
    pub fn new(type_token: u32, field_map: HashVec<u32, ILType>) -> (object: Object)
        ensures
            object.spec_origin() == type_token,
            object.spec_type_token() == type_token,
            object.spec_flags() == 0,
            object.spec_box_value().is_none(),
            object.spec_field_rids() == field_map.spec_keys(),
            object.spec_field_values() == field_map.spec_values(),
            forall|rid: u32| object.spec_field_index(rid) == field_map.spec_index_of(rid),
    {
        Object { flags: 0, origin_type_token: type_token, type_token, field_map, box_value: None }
    }

    /// A box of the type `type_token` that holds `value`.
    pub fn new_box(type_token: u32, value: ILType) -> (object: Object)
        ensures
            object.spec_origin() == type_token,
            object.spec_type_token() == type_token,
            object.spec_flags() == 0,
            object.spec_box_value() == Some(value),
            object.spec_field_rids().len() == 0,
            object.spec_field_values().len() == 0,
    {
        Object {
            flags: 0,
            origin_type_token: type_token,
            type_token,
            field_map: HashVec::new(),
            box_value: Some(value),
        }
    }

    /// The field with the given token or row number.
    pub fn get_field(&self, field_token_or_rid: u32) -> (field: Option<&ILType>)
        ensures
            match field {
                Some(v) => self.spec_field_index(spec_field_rid(field_token_or_rid)).is_some()
                    && self.spec_field_index(spec_field_rid(field_token_or_rid)).unwrap()
                    < self.spec_field_values().len()
                    && *v == self.spec_field_values()[self.spec_field_index(
                    spec_field_rid(field_token_or_rid),
                ).unwrap() as int],
                None => self.spec_field_index(spec_field_rid(field_token_or_rid)).is_none(),
            },
    {
        let rid: u32 = field_token_or_rid % 0x100_0000;
        self.field_map.key_get(&rid)
    }

    /// Gives the field with the given token or row number the value `value`.
    /// Returns false, and changes nothing, where the object has no such field.
    pub fn set_field(&mut self, field_token_or_rid: u32, value: ILType) -> (done: bool)
        ensures
            final(self).spec_origin() == old(self).spec_origin(),
            final(self).spec_type_token() == old(self).spec_type_token(),
            final(self).spec_flags() == old(self).spec_flags(),
            final(self).spec_box_value() == old(self).spec_box_value(),
            final(self).spec_field_rids() == old(self).spec_field_rids(),
            forall|rid: u32| final(self).spec_field_index(rid) == old(self).spec_field_index(rid),
            done == old(self).spec_field_index(spec_field_rid(field_token_or_rid)).is_some(),
            done ==> old(self).spec_field_index(spec_field_rid(field_token_or_rid)).unwrap()
                < old(self).spec_field_values().len(),
            done ==> final(self).spec_field_values() == old(self).spec_field_values().update(
                old(self).spec_field_index(spec_field_rid(field_token_or_rid)).unwrap() as int,
                value,
            ),
            !done ==> final(self).spec_field_values() == old(self).spec_field_values(),
    {
        let rid: u32 = field_token_or_rid % 0x100_0000;
        self.field_map.key_set(&rid, value)
    }

    /// The three low bytes of a type token, lowest first.
    pub fn parse_type_token(type_token: u32) -> (bytes: [u8; 3])
        ensures
            bytes@[0] == type_token % 0x100,
            bytes@[1] == (type_token / 0x100) % 0x100,
            bytes@[2] == (type_token / 0x1_0000) % 0x100,
    {
        [
            (type_token % 0x100) as u8,
            ((type_token / 0x100) % 0x100) as u8,
            ((type_token / 0x1_0000) % 0x100) as u8,
        ]
    }

    pub fn is_locked(&self) -> (b: bool)
        ensures
            b == (self.spec_flags() >> 7 != 0),
    {
        self.flags >> 7 != 0
    }

    pub fn is_pinned(&self) -> (b: bool)
        ensures
            b == ((self.spec_flags() >> 6) & 1 != 0),
    {
        (self.flags >> 6) & 1 != 0
    }

    pub fn get_generation(&self) -> (generation: u8)
        ensures
            generation == (self.spec_flags() >> 4) & 0b11,
    {
        (self.flags >> 4) & 0b11
    }

    pub fn get_gc_mark(&self) -> (b: bool)
        ensures
            b == ((self.spec_flags() >> 3) & 1 != 0),
    {
        (self.flags >> 3) & 1 != 0
    }

    pub fn set_gc_mark(&mut self, mark: bool)
        ensures
            final(self).spec_origin() == old(self).spec_origin(),
            final(self).spec_type_token() == old(self).spec_type_token(),
            final(self).spec_box_value() == old(self).spec_box_value(),
            final(self).spec_field_rids() == old(self).spec_field_rids(),
            final(self).spec_field_values() == old(self).spec_field_values(),
            final(self).spec_flags() == (old(self).spec_flags() & !(1u8 << 3)) | (if mark {
                1u8 << 3
            } else {
                0u8
            }),
            ((final(self).spec_flags() >> 3) & 1 != 0) == mark,
    {
        let flags: u8 = self.flags;
        let bit: u8 = if mark {
            1u8 << 3
        } else {
            0
        };
        assert((((flags & !(1u8 << 3)) | (1u8 << 3)) >> 3) & 1 != 0) by (bit_vector);
        assert((((flags & !(1u8 << 3)) | 0u8) >> 3) & 1 == 0) by (bit_vector);
        self.flags = (flags & !(1u8 << 3)) | bit;
    }

    /// The token of the type that the object counts as.
    pub fn get_current_type(&self) -> (token: u32)
        ensures
            token == self.spec_type_token(),
    {
        self.type_token
    }

    /// The value, where the object is a box.
    pub fn get_box_value(&self) -> (value: Option<&ILType>)
        ensures
            match value {
                Some(v) => self.spec_box_value() == Some(*v),
                None => self.spec_box_value().is_none(),
            },
    {
        match &self.box_value {
            Some(v) => Some(v),
            None => None,
        }
    }

    /// The token of the type that the object was made of.
    pub fn get_type(&self) -> (token: u32)
        ensures
            token == self.spec_origin(),
    {
        self.origin_type_token
    }

    /// Makes the object count as the type `type_token`. The type stands at
    /// `target`, and the cast succeeds where `target` is among `chain`, the places
    /// of the type that the object was made of and of its ancestors.
    pub fn cast_to(
        &mut self,
        chain: &Vec<(usize, usize)>,
        target: (usize, usize),
        type_token: u32,
    ) -> (result: Result<(), Fault>)
        ensures
            final(self).spec_origin() == old(self).spec_origin(),
            final(self).spec_flags() == old(self).spec_flags(),
            final(self).spec_box_value() == old(self).spec_box_value(),
            final(self).spec_field_rids() == old(self).spec_field_rids(),
            final(self).spec_field_values() == old(self).spec_field_values(),
            match result {
                Ok(()) => chain@.contains(target) && final(self).spec_type_token() == type_token,
                Err(e) => !chain@.contains(target) && e == Fault::InvalidCast && final(self).spec_type_token() == old(self).spec_type_token(),
            },
    {
        let mut found: bool = false;
        let mut i: usize = 0;
        while i < chain.len() && !found
            invariant
                i <= chain@.len(),
                !found ==> forall|j: int| 0 <= j < i ==> chain@[j] != target,
                found ==> chain@.contains(target),
            decreases chain@.len() - i + (if found { 0int } else { 1int }),
        {
            if chain[i].0 == target.0 && chain[i].1 == target.1 {
                found = true;
            } else {
                i += 1;
            }
        }
        if found {
            self.type_token = type_token;
            return Ok(());
        }
        Err(Fault::InvalidCast)
    }
}

} // verus!
