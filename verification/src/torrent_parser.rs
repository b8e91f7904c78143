//! The pack: the files that a torrent names, and the plan of its chunks.

use crate::error::Error;
use crate::plan::{
    file_specs, plan_chunks, plan_outcome, plans_as, valid_files, ChunkPlan, FileSpec, PackFile,
};
use crate::text::{binary_size, binary_size_text};
use crate::RplChunk;
use lava_torrent::torrent::v1::Torrent;
use vstd::prelude::*;

verus! {

/// `lava_torrent`'s torrent. Verus sees nothing inside it: the library
/// reads it only through the items below, which name what it holds.
#[verifier::external_type_specification]
#[verifier::external_body]
pub struct ExTorrent(Torrent);

/// The name that a torrent holds: that of its only file, or of the
/// directory of its files.
pub uninterp spec fn torrent_name(torrent: Torrent) -> Seq<char>;

/// The length that a torrent holds: the bytes of all its files.
pub uninterp spec fn torrent_length(torrent: Torrent) -> i64;

/// The files that a torrent holds, in its order, each with its path as
/// text and its length; `None` for a torrent of one file, which holds no
/// list.
pub uninterp spec fn torrent_files(torrent: Torrent) -> Option<Seq<FileSpec>>;

/// Whether a torrent is marked private.
pub uninterp spec fn torrent_private(torrent: Torrent) -> bool;

/// The info hash of a torrent, in hexadecimal.
pub uninterp spec fn torrent_hash(torrent: Torrent) -> Seq<char>;

/// The fields `name`, `length` and `files` of a `lava_torrent` torrent,
/// each file as its path, made text, and its length. The contract claims
/// only that these are what the torrent holds: the same torrent gives the
/// same parts.
#[verifier::external_body]
fn torrent_parts(torrent: &Torrent) -> (parts: (String, i64, Option<Vec<PackFile>>))
    ensures
        parts.0@ == torrent_name(*torrent),
        parts.1 == torrent_length(*torrent),
        match torrent_files(*torrent) {
            Some(files) => parts.2 is Some && file_specs(parts.2->Some_0@) == files,
            None => parts.2 is None,
        },
{
    let files = torrent.files.as_ref().map(
        |files|
            files.iter().map(
                |file|
                    PackFile {
                        path: file.path.to_string_lossy().into_owned(),
                        length: file.length,
                    },
            ).collect(),
    );
    (torrent.name.clone(), torrent.length, files)
}

/// `Torrent::is_private` of `lava_torrent`: whether the torrent's info
/// holds `private` with the value 1. The result depends on the torrent
/// alone.
#[verifier::external_body]
fn torrent_is_private(torrent: &Torrent) -> (private: bool)
    ensures
        private == torrent_private(*torrent),
{
    torrent.is_private()
}

/// `Torrent::info_hash` of `lava_torrent`: the SHA-1 of the torrent's
/// info in bencode, whose keys are written in sorted order. The result
/// depends on the torrent alone.
#[verifier::external_body]
fn torrent_info_hash(torrent: &Torrent) -> (hash: String)
    ensures
        hash@ == torrent_hash(*torrent),
{
    torrent.info_hash()
}

/// What the pipeline reads of a torrent, as the contracts see it.
pub struct PackSpec {
    /// The name of the only file, or of the directory of the files.
    pub name: Seq<char>,
    /// The bytes of all files.
    pub length: int,
    /// The files, unless the torrent holds one file only.
    pub files: Option<Seq<FileSpec>>,
}

impl PackSpec {
    /// The files to plan: those of the list, or the one file of a torrent
    /// without a list.
    pub open spec fn entries(self) -> Seq<FileSpec> {
        match self.files {
            Some(files) => files,
            None => seq![FileSpec { path: self.name, length: self.length }],
        }
    }

    /// A pack that can be planned: its files are valid and its length is
    /// not negative.
    pub open spec fn is_valid(self) -> bool {
        &&& 0 <= self.length <= i64::MAX
        &&& valid_files(self.entries())
    }
}

/// What the pipeline reads of a torrent, as the torrent holds it.
pub open spec fn torrent_pack(torrent: Torrent) -> PackSpec {
    PackSpec {
        name: torrent_name(torrent),
        length: torrent_length(torrent) as int,
        files: torrent_files(torrent),
    }
}

/// What the pipeline reads of a torrent: its name, its length and its files.
pub struct Pack {
    name: String,
    length: i64,
    files: Option<Vec<PackFile>>,
}

impl View for Pack {
    type V = PackSpec;

    closed spec fn view(&self) -> PackSpec {
        PackSpec {
            name: self.name@,
            length: self.length as int,
            files: match self.files {
                Some(files) => Some(file_specs(files@)),
                None => None,
            },
        }
    }
}

/// Whether `largest` is the length of a file, and no file is longer.
pub open spec fn is_largest(files: Seq<FileSpec>, largest: int) -> bool {
    &&& forall|i: int| 0 <= i < files.len() ==> (#[trigger] files[i]).length <= largest
    &&& exists|i: int| 0 <= i < files.len() && (#[trigger] files[i]).length == largest
}

/// The view of the parts that a pack is made of.
pub open spec fn pack_spec(name: String, length: i64, files: Option<Vec<PackFile>>) -> PackSpec {
    PackSpec {
        name: name@,
        length: length as int,
        files: match files {
            Some(files) => Some(file_specs(files@)),
            None => None,
        },
    }
}

impl Pack {
    #[verifier::type_invariant]
    pub open spec fn is_valid(self) -> bool {
        self@.is_valid()
    }

    /// The pack of these parts, if they are valid: no negative length, and
    /// fewer than `i32::MAX` files.
    pub fn new(name: String, length: i64, files: Option<Vec<PackFile>>) -> (pack: Option<Self>)
        ensures
            pack is Some <==> pack_spec(name, length, files).is_valid(),
            pack matches Some(p) ==> p@ == pack_spec(name, length, files),
    {
        let ghost spec = pack_spec(name, length, files);
        if length < 0 {
            return None;
        }
        match &files {
            Some(list) => {
                let ghost specs = file_specs(list@);
                assert(spec.entries() == specs);
                if list.len() >= i32::MAX as usize {
                    return None;
                }
                let mut index: usize = 0;
                while index < list.len()
                    invariant
                        0 <= index <= list.len(),
                        specs == file_specs(list@),
                        spec == pack_spec(name, length, files),
                        spec.entries() == specs,
                        forall|j: int| 0 <= j < index ==> 0 <= (#[trigger] specs[j]).length,
                    decreases list.len() - index,
                {
                    if list[index].length < 0 {
                        assert(specs[index as int].length < 0);
                        return None;
                    }
                    index = index + 1;
                }
            },
            None => {},
        }
        Some(Pack { name, length, files })
    }

    /// What the pipeline reads of `torrent`: its name, its length and its
    /// files. `None` if they are no valid pack: a length is negative, or
    /// there are `i32::MAX` files or more.
    pub fn read(torrent: &Torrent) -> (pack: Option<Self>)
        ensures
            pack is Some <==> torrent_pack(*torrent).is_valid(),
            pack matches Some(p) ==> p@ == torrent_pack(*torrent),
    {
        let (name, length, files) = torrent_parts(torrent);
        assert(pack_spec(name, length, files) == torrent_pack(*torrent));
        Pack::new(name, length, files)
    }

    pub fn name(&self) -> (name: &String)
        ensures
            name@ == self@.name,
    {
        &self.name
    }

    /// The bytes of all files.
    pub fn length(&self) -> (length: i64)
        ensures
            length == self@.length,
            length >= 0,
    {
        proof {
            use_type_invariant(self);
        }
        self.length
    }

    /// The number of files to plan.
    pub fn file_count(&self) -> (count: usize)
        ensures
            count == self@.entries().len(),
    {
        match &self.files {
            Some(files) => files.len(),
            None => 1,
        }
    }

    /// The size of the largest file.
    pub fn largest_filesize(&self) -> (largest: i64)
        requires
            self@.entries().len() > 0,
        ensures
            is_largest(self@.entries(), largest as int),
    {
        match &self.files {
            None => {
                assert(self@.entries()[0].length == self.length);
                self.length
            },
            Some(files) => {
                let ghost specs = file_specs(files@);
                let mut largest: i64 = files[0].length;
                let mut index: usize = 1;
                assert(specs[0].length == largest);
                while index < files.len()
                    invariant
                        1 <= index <= files.len(),
                        specs == file_specs(files@),
                        forall|j: int| 0 <= j < index ==> (#[trigger] specs[j]).length <= largest,
                        exists|j: int| 0 <= j < index && (#[trigger] specs[j]).length == largest,
                    decreases files.len() - index,
                {
                    if files[index].length > largest {
                        largest = files[index].length;
                        assert(specs[index as int].length == largest);
                    }
                    index = index + 1;
                }
                largest
            },
        }
    }
}

/// The size of the largest file of a pack.
pub fn get_largest_filesize(pack: &Pack) -> (largest: i64)
    requires
        pack@.entries().len() > 0,
    ensures
        is_largest(pack@.entries(), largest as int),
{
    pack.largest_filesize()
}

/// A pack with its budget and policy, as the contracts see it.
pub struct TorrentPackSpec {
    /// The chunk budget in bytes.
    pub max_size_allow: int,
    pub pack: PackSpec,
    pub private: bool,
    pub info_hash: Seq<char>,
    /// Whether a file over the budget is skipped rather than fatal.
    pub ignore_warning: bool,
}

/// A pack to move: its files, the chunk budget, and the policy on files that
/// are larger than the budget.
pub struct TorrentPack {
    max_size_allow: i64,
    pack: Pack,
    private: bool,
    info_hash: String,
    ignore_warning: bool,
}

impl View for TorrentPack {
    type V = TorrentPackSpec;

    closed spec fn view(&self) -> TorrentPackSpec {
        TorrentPackSpec {
            max_size_allow: self.max_size_allow as int,
            pack: self.pack@,
            private: self.private,
            info_hash: self.info_hash@,
            ignore_warning: self.ignore_warning,
        }
    }
}

impl TorrentPack {
    /// The pack of `torrent` with a budget of 0: its files, whether it is
    /// private, and its info hash. `None` if what the torrent holds is no
    /// valid pack.
    pub fn new(torrent: Torrent, ignore_warning: bool) -> (result: Option<Self>)
        ensures
            result is Some <==> torrent_pack(torrent).is_valid(),
            result matches Some(pack) ==> pack@ == (TorrentPackSpec {
                max_size_allow: 0,
                pack: torrent_pack(torrent),
                private: torrent_private(torrent),
                info_hash: torrent_hash(torrent),
                ignore_warning,
            }),
    {
        let private = torrent_is_private(&torrent);
        let info_hash = torrent_info_hash(&torrent);
        match Pack::read(&torrent) {
            Some(pack) => Some(TorrentPack::from_pack(pack, private, info_hash, ignore_warning)),
            None => None,
        }
    }

    /// The pack of these parts with a budget of 0.
    pub fn from_pack(pack: Pack, private: bool, info_hash: String, ignore_warning: bool) -> (result:
        Self)
        ensures
            result@ == (TorrentPackSpec {
                max_size_allow: 0,
                pack: pack@,
                private,
                info_hash: info_hash@,
                ignore_warning,
            }),
            result@.pack.is_valid(),
    {
        proof {
            use_type_invariant(&pack);
        }
        Self { max_size_allow: 0, pack, private, info_hash, ignore_warning }
    }

    /// The same pack with the budget `size`.
    pub fn max_size(self, size: i64) -> (result: Self)
        ensures
            result@ == (TorrentPackSpec { max_size_allow: size as int, ..self@ }),
    {
        let mut result = self;
        result.max_size_allow = size;
        result
    }

    /// The chunk budget in bytes.
    pub fn max_size_allow(&self) -> (size: i64)
        ensures
            size == self@.max_size_allow,
    {
        self.max_size_allow
    }

    pub fn ignore_warning(&self) -> (ignore: bool)
        ensures
            ignore == self@.ignore_warning,
    {
        self.ignore_warning
    }

    pub fn pack(&self) -> (pack: &Pack)
        ensures
            pack@ == self@.pack,
    {
        &self.pack
    }

    pub fn is_private(&self) -> (private: bool)
        ensures
            private == self@.private,
    {
        self.private
    }

    pub fn info_hash(&self) -> (hash: String)
        ensures
            hash@ == self@.info_hash,
    {
        self.info_hash.clone()
    }

    /// The size of the pack in binary units.
    pub fn get_pack_size_human(&self) -> (text: String)
        ensures
            text@ == binary_size_text(self@.pack.length as i64),
    {
        binary_size(self.pack.length()).unwrap()
    }

    /// The chunk budget in binary units.
    pub fn get_max_size_chunk_human(&self) -> (text: String)
        requires
            self@.max_size_allow >= 0,
        ensures
            text@ == binary_size_text(self@.max_size_allow as i64),
    {
        binary_size(self.max_size_allow).unwrap()
    }
}

impl RplChunk for TorrentPack {
    /// Plans the files of the pack under its budget and policy.
    fn chunks(&self) -> (result: Result<ChunkPlan, Error>)
        ensures
            plans_as(
                result,
                plan_outcome(self@.pack.entries(), self@.max_size_allow, self@.ignore_warning),
            ),
    {
        self.pack.plan(self.max_size_allow, self.ignore_warning)
    }
}

impl Pack {
    /// Plans the files of the pack under the budget `max`. With `force` a
    /// file over the budget is excluded; without it such a file fails the plan.
    pub fn plan(&self, max: i64, force: bool) -> (result: Result<ChunkPlan, Error>)
        ensures
            plans_as(result, plan_outcome(self@.entries(), max as int, force)),
    {
        proof {
            use_type_invariant(self);
        }
        match &self.files {
            Some(files) => plan_chunks(files, max, force),
            None => {
                let mut single: Vec<PackFile> = Vec::new();
                single.push(PackFile { path: self.name.clone(), length: self.length });
                assert(file_specs(single@) =~= self@.entries());
                plan_chunks(&single, max, force)
            },
        }
    }
}

} // verus!
