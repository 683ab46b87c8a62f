use vstd::prelude::*;

verus! {

pub const ASSEMBLY_FLAG_NONE: u32 = 0x0;

pub const ASSEMBLY_FLAG_PUBLIC_KEY: u32 = 0x1;

pub const ASSEMBLY_FLAG_RETARGETABLE: u32 = 0x100;

pub const ASSEMBLY_FLAG_ENABLE_JIT_COMPILE_OPTIMIZER: u32 = 0x4000;

pub const ASSEMBLY_FLAG_ENABLE_JIT_COMPILE_TRACKING: u32 = 0x8000;

/// The identity of an assembly. Two identities are the same where their names are.
#[derive(Debug)]
pub struct AssemblyName {
    pub major_version: u16,
    pub minor_version: u16,
    pub build_number: u16,
    pub revision_number: u16,
    pub flags: u32,
    pub public_key_token: Vec<u8>,
    pub name: String,
}

impl AssemblyName {
    /// True where every byte of `vec` is zero.
    pub fn all_zero(vec: &Vec<u8>) -> (b: bool)
        ensures
            b == (forall|i: int| 0 <= i < vec@.len() ==> vec@[i] == 0),
    {
        let mut i: usize = 0;
        while i < vec.len()
            invariant
                i <= vec@.len(),
                forall|j: int| 0 <= j < i ==> vec@[j] == 0,
            decreases vec@.len() - i,
        {
            if vec[i] != 0 {
                return false;
            }
            i += 1;
        }
        true
    }

    /// True where the two identities name the same assembly.
    pub fn same(&self, other: &AssemblyName) -> (b: bool)
        ensures
            b == (self.name@ == other.name@),
    {
        self.name.eq(&other.name)
    }

    /// A copy of the identity.
    pub fn duplicate(&self) -> (copy: AssemblyName)
        ensures
            copy.major_version == self.major_version,
            copy.minor_version == self.minor_version,
            copy.build_number == self.build_number,
            copy.revision_number == self.revision_number,
            copy.flags == self.flags,
            copy.public_key_token@ == self.public_key_token@,
            copy.name@ == self.name@,
    {
        let mut public_key_token: Vec<u8> = Vec::new();
        let mut i: usize = 0;
        while i < self.public_key_token.len()
            invariant
                i <= self.public_key_token@.len(),
                public_key_token@ == self.public_key_token@.subrange(0, i as int),
            decreases self.public_key_token@.len() - i,
        {
            public_key_token.push(self.public_key_token[i]);
            i += 1;
            assert(public_key_token@ =~= self.public_key_token@.subrange(0, i as int));
        }
        assert(public_key_token@ =~= self.public_key_token@);
        AssemblyName {
            major_version: self.major_version,
            minor_version: self.minor_version,
            build_number: self.build_number,
            revision_number: self.revision_number,
            flags: self.flags,
            public_key_token,
            name: self.name.clone(),
        }
    }
}

} // verus!
