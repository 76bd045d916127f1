use vstd::prelude::*;
use std::collections::HashMap;
use crate::text::{parse_uuid, uuid_of};

verus! {

broadcast use vstd::std_specs::hash::group_hash_axioms;

/// Architecture tag attached to every finalized library.
pub open spec fn arch_tag() -> Seq<char> {
    seq!['x', '8', '6', '_', '6', '4']
}

/// A module load seen in the trace: its file name and its size in bytes.
pub struct ImageInfo {
    pub file_name: String,
    pub size: u32,
}

/// Module loads keyed by image base address.
pub struct LibraryTable {
    images: HashMap<u64, ImageInfo>,
}

/// A finalized library, ready for a symbolicator.
pub struct LibraryRecord {
    pub name: String,
    pub debug_name: String,
    pub uuid: u128,
    pub age: u32,
    pub arch: String,
    /// First address of the image.
    pub start: u64,
    /// One past the last address of the image.
    pub end: u64,
}

/// Abstract value of a [`LibraryRecord`].
pub struct LibraryView {
    pub name: Seq<char>,
    pub debug_name: Seq<char>,
    pub uuid: u128,
    pub age: u32,
    pub arch: Seq<char>,
    pub start: u64,
    pub end: u64,
}

impl View for LibraryRecord {
    type V = LibraryView;

    open spec fn view(&self) -> LibraryView {
        LibraryView {
            name: self.name@,
            debug_name: self.debug_name@,
            uuid: self.uuid,
            age: self.age,
            arch: self.arch@,
            start: self.start,
            end: self.end,
        }
    }
}

/// Why a library could not be finalized.
#[derive(PartialEq, Eq, Structural, Clone, Copy, Debug)]
pub enum LibraryError {
    /// A debug identifier names an image base that no module load recorded.
    MissingImageRecord { base: u64 },
    /// The image's end address does not fit in 64 bits.
    AddressOverflow { base: u64 },
    /// The debug GUID's text is not a valid identifier.
    InvalidDebugId,
}

impl View for LibraryTable {
    type V = Map<u64, (Seq<char>, u32)>;

    closed spec fn view(&self) -> Map<u64, (Seq<char>, u32)> {
        self.images@.map_values(|i: ImageInfo| (i.file_name@, i.size))
    }
}

/// The library finalized from the image recorded at `base` and a debug
/// identity, or why there is none.
pub open spec fn finalize_spec(
    images: Map<u64, (Seq<char>, u32)>,
    base: u64,
    guid: Seq<char>,
    age: u32,
    pdb: Seq<char>,
) -> Result<LibraryView, LibraryError> {
    if !images.contains_key(base) {
        Err(LibraryError::MissingImageRecord { base })
    } else if base + images[base].1 > u64::MAX {
        Err(LibraryError::AddressOverflow { base })
    } else {
        match uuid_of(guid) {
            None => Err(LibraryError::InvalidDebugId),
            Some(uuid) => Ok(
                LibraryView {
                    name: pdb,
                    debug_name: pdb,
                    uuid,
                    age,
                    arch: arch_tag(),
                    start: base,
                    end: (base + images[base].1) as u64,
                },
            ),
        }
    }
}

impl LibraryTable {
    pub fn new() -> (r: Self)
        ensures
            r@ == Map::<u64, (Seq<char>, u32)>::empty(),
    {
        let r = LibraryTable { images: HashMap::new() };
        assert(r@ =~= Map::<u64, (Seq<char>, u32)>::empty());
        r
    }

    /// Records (or replaces) the module loaded at `base`.
    pub fn record_image(&mut self, base: u64, size: u32, file_name: String)
        ensures
            final(self)@ == old(self)@.insert(base, (file_name@, size)),
    {
        let ghost fname = file_name@;
        self.images.insert(base, ImageInfo { file_name, size });
        assert(self@ =~= old(self)@.insert(base, (fname, size)));
    }

    /// Combines the module recorded at `base` with its debug identity.
    pub fn finalize(&self, base: u64, guid_text: &str, age: u32, pdb_file_name: &str) -> (r:
        Result<LibraryRecord, LibraryError>)
        ensures
            match r {
                Ok(rec) => finalize_spec(self@, base, guid_text@, age, pdb_file_name@) == Ok::<
                    LibraryView,
                    LibraryError,
                >(rec@),
                Err(e) => finalize_spec(self@, base, guid_text@, age, pdb_file_name@) == Err::<
                    LibraryView,
                    LibraryError,
                >(e),
            },
    {
        let info = match self.images.get(&base) {
            Some(i) => i,
            None => {
                return Err(LibraryError::MissingImageRecord { base });
            },
        };
        assert(self@[base] == (info.file_name@, info.size));
        if info.size as u64 > u64::MAX - base {
            return Err(LibraryError::AddressOverflow { base });
        }
        let uuid = match parse_uuid(guid_text) {
            Some(u) => u,
            None => {
                return Err(LibraryError::InvalidDebugId);
            },
        };
        proof {
            reveal_strlit("x86_64");
        }
        let arch = "x86_64".to_owned();
        assert(arch@ =~= arch_tag());
        Ok(
            LibraryRecord {
                name: pdb_file_name.to_owned(),
                debug_name: pdb_file_name.to_owned(),
                uuid,
                age,
                arch,
                start: base,
                end: base + info.size as u64,
            },
        )
    }
}

} // verus!
