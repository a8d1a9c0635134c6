//! Immutable snapshot of a loaded module.
//!
//! The host discovers a module through the operating system and hands the
//! library a plain-value snapshot: the module handle, its base address and
//! size, the filename it was loaded under, a copy of its memory bytes, and its
//! export table.  A snapshot is never mutated; when the module is reloaded the
//! host builds a new one.  Signature search and export lookup inside the
//! module's address range are verified against this snapshot.

use vstd::prelude::*;

use crate::pattern;
use crate::pattern::Pattern;

verus! {

/// Mathematical image of a module snapshot.
pub ghost struct ModuleInfoV {
    pub handle: usize,
    pub base: usize,
    pub size: usize,
    pub filename: Seq<char>,
    pub bytes: Seq<u8>,
    pub exports: Seq<(Seq<char>, usize)>,
}

/// A module snapshot: identity, address range, filename, memory bytes, and
/// export table, all as plain values.
pub struct ModuleInfo {
    /// Loader identity of the module instance; two loads of the same file get
    /// distinct handles.
    pub handle: usize,
    /// Address the module is mapped at.
    pub base: usize,
    /// Size in bytes of the mapped image.
    pub size: usize,
    /// Filename (final path component) the module was loaded under.
    pub filename: String,
    /// Snapshot of the module's memory, `size` bytes starting at `base`.
    pub bytes: Vec<u8>,
    /// Exported symbol table: name and absolute address per entry.
    pub exports: Vec<(String, usize)>,
}

impl View for ModuleInfo {
    type V = ModuleInfoV;

    open spec fn view(&self) -> ModuleInfoV {
        ModuleInfoV {
            handle: self.handle,
            base: self.base,
            size: self.size,
            filename: self.filename@,
            bytes: self.bytes@,
            exports: self.exports@.map_values(|p: (String, usize)| (p.0@, p.1)),
        }
    }
}

/// Address of the first export with the given name, if any.
pub open spec fn spec_export(exports: Seq<(Seq<char>, usize)>, name: Seq<char>) -> Option<usize>
    decreases exports.len(),
{
    if exports.len() == 0 {
        None
    } else if exports[0].0 == name {
        Some(exports[0].1)
    } else {
        spec_export(exports.drop_first(), name)
    }
}

impl ModuleInfo {
    /// The snapshot covers exactly the module's address range, and that range
    /// fits in the address space.
    pub open spec fn wf(&self) -> bool {
        &&& self@.bytes.len() == self@.size
        &&& self@.base + self@.size <= usize::MAX
    }

    /// Scan the module's memory for the leftmost match of `pat`; return the
    /// absolute address of the match.
    pub fn find(&self, pat: &Pattern) -> (r: Option<usize>)
        requires
            self.wf(),
            pat.wf(),
        ensures
            match r {
                Some(a) => {
                    &&& self@.base <= a
                    &&& pattern::spec_find(self@.bytes, pat@) == Some(a - self@.base)
                },
                None => pattern::spec_find(self@.bytes, pat@) is None,
            },
    {
        match pattern::find(&self.bytes, pat) {
            Some(off) => {
                proof {
                    pattern::lemma_first_match_some(self@.bytes, pat@, 0, off as int);
                }
                Some(self.base + off)
            },
            None => None,
        }
    }

    /// Look the given name up in the module's export table; return the address
    /// of the first entry with that name.
    pub fn get_function(&self, name: &String) -> (r: Option<usize>)
        ensures
            r == spec_export(self@.exports, name@),
    {
        let n = self.exports.len();
        let ghost all = self@.exports;
        proof {
            assert(all.skip(0) =~= all);
        }
        for i in 0..n
            invariant
                n == self.exports@.len(),
                all == self@.exports,
                all.len() == n,
                spec_export(all, name@) == spec_export(all.skip(i as int), name@),
        {
            let entry = &self.exports[i];
            proof {
                assert(all.skip(i as int)[0] == all[i as int]);
                assert(all.skip(i as int).drop_first() =~= all.skip(i as int + 1));
            }
            if entry.0 == *name {
                return Some(entry.1);
            }
        }
        None
    }

    /// Read the little-endian 32-bit value stored at `offset` inside the
    /// module's memory snapshot.
    pub fn read_u32_le(&self, offset: usize) -> (r: u32)
        requires
            self.wf(),
            offset + 4 <= self@.size,
        ensures
            r as int == spec_u32_le(self@.bytes, offset as int),
    {
        let b0 = self.bytes[offset] as u32;
        let b1 = self.bytes[offset + 1] as u32;
        let b2 = self.bytes[offset + 2] as u32;
        let b3 = self.bytes[offset + 3] as u32;
        b0 + b1 * 0x100 + b2 * 0x10000 + b3 * 0x1000000
    }

    /// Build an equal snapshot that can be owned independently.
    pub fn duplicate(&self) -> (r: ModuleInfo)
        ensures
            r@ == self@,
    {
        let r = ModuleInfo {
            handle: self.handle,
            base: self.base,
            size: self.size,
            filename: self.filename.clone(),
            bytes: copy_bytes(&self.bytes),
            exports: copy_exports(&self.exports),
        };
        proof {
            assert(r@.exports =~= self@.exports);
            assert(r@ == self@);
        }
        r
    }
}

/// The little-endian 32-bit value formed by four consecutive bytes.
pub open spec fn spec_u32_le(bytes: Seq<u8>, i: int) -> int
    recommends
        0 <= i,
        i + 4 <= bytes.len(),
{
    bytes[i] + bytes[i + 1] * 0x100 + bytes[i + 2] * 0x10000 + bytes[i + 3] * 0x1000000
}

fn copy_bytes(v: &Vec<u8>) -> (r: Vec<u8>)
    ensures
        r@ == v@,
{
    let n = v.len();
    let mut r: Vec<u8> = Vec::new();
    for i in 0..n
        invariant
            n == v@.len(),
            r@ == v@.take(i as int),
    {
        r.push(v[i]);
        proof {
            assert(r@ =~= v@.take(i as int + 1));
        }
    }
    proof {
        assert(v@.take(n as int) =~= v@);
    }
    r
}

fn copy_exports(v: &Vec<(String, usize)>) -> (r: Vec<(String, usize)>)
    ensures
        r@ == v@,
{
    let n = v.len();
    let mut r: Vec<(String, usize)> = Vec::new();
    for i in 0..n
        invariant
            n == v@.len(),
            r@ == v@.take(i as int),
    {
        let entry = &v[i];
        r.push((entry.0.clone(), entry.1));
        proof {
            assert(r@ =~= v@.take(i as int + 1));
        }
    }
    proof {
        assert(v@.take(n as int) =~= v@);
    }
    r
}

} // verus!
