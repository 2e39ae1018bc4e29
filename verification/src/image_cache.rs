//! The remote asset cache: resolves a logical asset name to a reusable
//! platform media handle, uploading the asset's bytes once on first use
//! and memoizing the handle in a durable store. A repeated resolution is
//! a pure store lookup: no second upload happens.

use vstd::prelude::*;
use vstd::slice::slice_to_vec;

use crate::platform::ChatPlatform;
use crate::platform::HandleModel;
use crate::platform::ImageHandle;
use crate::strutil::str_eq;

verus! {

/// One memoized asset: the logical name, the repository subfolder the
/// bytes came from, and the platform's handle.
pub struct CachedImage {
    pub name: String,
    pub subfolder: String,
    pub file_id: i64,
    pub access_hash: i64,
    pub file_reference: Vec<u8>,
}

/// The mathematical value of a [`CachedImage`].
pub struct CacheEntryModel {
    pub name: Seq<char>,
    pub subfolder: Seq<char>,
    pub file_id: i64,
    pub access_hash: i64,
    pub file_reference: Seq<u8>,
}

impl View for CachedImage {
    type V = CacheEntryModel;

    open spec fn view(&self) -> CacheEntryModel {
        CacheEntryModel {
            name: self.name@,
            subfolder: self.subfolder@,
            file_id: self.file_id,
            access_hash: self.access_hash,
            file_reference: self.file_reference@,
        }
    }
}

/// The handle a cache entry stands for.
pub open spec fn spec_handle_of(e: CacheEntryModel) -> HandleModel {
    HandleModel {
        file_id: e.file_id,
        access_hash: e.access_hash,
        file_reference: e.file_reference,
    }
}

impl CachedImage {
    /// Rebuilds the platform handle this entry memoizes.
    pub fn to_handle(&self) -> (h: ImageHandle)
        ensures
            h@ == spec_handle_of(self@),
    {
        ImageHandle {
            file_id: self.file_id,
            access_hash: self.access_hash,
            file_reference: slice_to_vec(self.file_reference.as_slice()),
        }
    }
}

/// One file of the local asset repository.
pub struct AssetFile {
    pub path: String,
    pub bytes: Vec<u8>,
}

/// The mathematical value of an [`AssetFile`].
pub struct FileModel {
    pub path: Seq<char>,
    pub bytes: Seq<u8>,
}

impl View for AssetFile {
    type V = FileModel;

    open spec fn view(&self) -> FileModel {
        FileModel { path: self.path@, bytes: self.bytes@ }
    }
}

/// The bytes the repository holds under a path: the first file with that
/// path, if any. Absence is an error for a resolution, never an empty
/// result.
pub open spec fn spec_repo_lookup(files: Seq<FileModel>, path: Seq<char>) -> Option<Seq<u8>>
    decreases files.len(),
{
    if files.len() == 0 {
        None
    } else if files[0].path == path {
        Some(files[0].bytes)
    } else {
        spec_repo_lookup(files.drop_first(), path)
    }
}

/// The local asset repository: raw bytes readable by logical path.
pub struct AssetRepo {
    files: Vec<AssetFile>,
}

impl View for AssetRepo {
    type V = Seq<FileModel>;

    closed spec fn view(&self) -> Seq<FileModel> {
        self.files@.map_values(|f: AssetFile| f@)
    }
}

impl AssetRepo {
    /// An empty repository.
    pub fn new() -> (r: AssetRepo)
        ensures
            r@ == Seq::<FileModel>::empty(),
    {
        let r = AssetRepo { files: Vec::new() };
        proof {
            assert(r@ =~= Seq::<FileModel>::empty());
        }
        r
    }

    /// Adds a file to the repository.
    pub fn add(&mut self, path: String, bytes: Vec<u8>)
        ensures
            final(self)@ == old(self)@.push(FileModel { path: path@, bytes: bytes@ }),
    {
        self.files.push(AssetFile { path: path, bytes: bytes });
        proof {
            assert(self@ =~= old(self)@.push(FileModel { path: path@, bytes: bytes@ }));
        }
    }

    /// Reads the bytes under a path; absent paths read as nothing.
    pub fn read(&self, path: &str) -> (r: Option<&Vec<u8>>)
        ensures
            match r {
                Some(bytes) => spec_repo_lookup(self@, path@) == Some(bytes@),
                None => spec_repo_lookup(self@, path@) is None,
            },
    {
        let n = self.files.len();
        let mut i: usize = 0;
        while i < n
            invariant
                n == self.files@.len(),
                i <= n,
                forall|j: int| 0 <= j < i ==> (#[trigger] self@[j]).path != path@,
            decreases n - i,
        {
            if str_eq(self.files[i].path.as_str(), path) {
                proof {
                    lemma_repo_lookup_first(self@, path@, i as int);
                }
                return Some(&self.files[i].bytes);
            }
            i += 1;
        }
        proof {
            lemma_repo_lookup_none(self@, path@);
        }
        None
    }
}

/// When nothing before `i` has the path and `i` has it, the lookup reads
/// file `i`.
proof fn lemma_repo_lookup_first(files: Seq<FileModel>, path: Seq<char>, i: int)
    requires
        0 <= i < files.len(),
        files[i].path == path,
        forall|j: int| 0 <= j < i ==> (#[trigger] files[j]).path != path,
    ensures
        spec_repo_lookup(files, path) == Some(files[i].bytes),
    decreases i,
{
    if i == 0 {
    } else {
        lemma_repo_lookup_first(files.drop_first(), path, i - 1);
    }
}

/// When no file has the path, the lookup reads nothing.
proof fn lemma_repo_lookup_none(files: Seq<FileModel>, path: Seq<char>)
    requires
        forall|j: int| 0 <= j < files.len() ==> (#[trigger] files[j]).path != path,
    ensures
        spec_repo_lookup(files, path) is None,
    decreases files.len(),
{
    if files.len() == 0 {
    } else {
        lemma_repo_lookup_none(files.drop_first(), path);
    }
}

/// The repository path of a logical asset: `name.png` under the
/// subfolder, or at the root when the subfolder is empty.
pub open spec fn spec_asset_path(subfolder: Seq<char>, name: Seq<char>) -> Seq<char> {
    if subfolder.len() == 0 {
        name + ".png"@
    } else {
        subfolder + "/"@ + name + ".png"@
    }
}

/// Builds the repository path of a logical asset.
pub fn asset_path(subfolder: &str, name: &str) -> (p: String)
    ensures
        p@ == spec_asset_path(subfolder@, name@),
{
    let mut p = String::new();
    if !subfolder.is_empty() {
        p.append(subfolder);
        p.append("/");
    }
    p.append(name);
    p.append(".png");
    proof {
        if subfolder@.len() == 0 {
            assert(p@ =~= name@ + ".png"@);
        } else {
            assert(p@ =~= subfolder@ + "/"@ + name@ + ".png"@);
        }
    }
    p
}

/// The index of the entry holding a name, if any.
pub open spec fn spec_cache_index(entries: Seq<CacheEntryModel>, name: Seq<char>) -> Option<int>
    decreases entries.len(),
{
    if entries.len() == 0 {
        None
    } else if entries[0].name == name {
        Some(0)
    } else {
        match spec_cache_index(entries.drop_first(), name) {
            Some(i) => Some(i + 1),
            None => None,
        }
    }
}

/// The entry memoized under a name, if any.
pub open spec fn spec_cache_lookup(entries: Seq<CacheEntryModel>, name: Seq<char>) -> Option<
    CacheEntryModel,
> {
    match spec_cache_index(entries, name) {
        Some(i) => Some(entries[i]),
        None => None,
    }
}

/// The store after an entry is written: the entry replaces the one with
/// its name, or is appended when the name is new.
pub open spec fn spec_cache_upsert(
    entries: Seq<CacheEntryModel>,
    e: CacheEntryModel,
) -> Seq<CacheEntryModel> {
    match spec_cache_index(entries, e.name) {
        Some(i) => entries.update(i, e),
        None => entries.push(e),
    }
}

/// What the index function finds: a first match, or a witness that no
/// entry has the name.
pub proof fn lemma_cache_index_characterization(entries: Seq<CacheEntryModel>, name: Seq<char>)
    ensures
        match spec_cache_index(entries, name) {
            Some(i) => 0 <= i < entries.len() && entries[i].name == name && forall|j: int|
                0 <= j < i ==> (#[trigger] entries[j]).name != name,
            None => forall|j: int|
                0 <= j < entries.len() ==> (#[trigger] entries[j]).name != name,
        },
    decreases entries.len(),
{
    if entries.len() == 0 {
    } else if entries[0].name == name {
    } else {
        let rest = entries.drop_first();
        lemma_cache_index_characterization(rest, name);
        match spec_cache_index(rest, name) {
            Some(i) => {
                assert(entries[i + 1] == rest[i]);
                assert forall|j: int| 0 <= j < i + 1 implies (#[trigger] entries[j]).name
                    != name by {
                    if j > 0 {
                        assert(rest[j - 1].name != name);
                    }
                }
            },
            None => {
                assert forall|j: int| 0 <= j < entries.len() implies (#[trigger] entries[j]).name
                    != name by {
                    if j > 0 {
                        assert(rest[j - 1].name != name);
                    }
                }
            },
        }
    }
}

/// The converse: a first match pins the index down.
pub proof fn lemma_cache_index_first(entries: Seq<CacheEntryModel>, name: Seq<char>, i: int)
    requires
        0 <= i < entries.len(),
        entries[i].name == name,
        forall|j: int| 0 <= j < i ==> (#[trigger] entries[j]).name != name,
    ensures
        spec_cache_index(entries, name) == Some(i),
    decreases i,
{
    if i == 0 {
    } else {
        lemma_cache_index_first(entries.drop_first(), name, i - 1);
    }
}

/// No match means no index.
pub proof fn lemma_cache_index_none(entries: Seq<CacheEntryModel>, name: Seq<char>)
    requires
        forall|j: int| 0 <= j < entries.len() ==> (#[trigger] entries[j]).name != name,
    ensures
        spec_cache_index(entries, name) is None,
    decreases entries.len(),
{
    if entries.len() == 0 {
    } else {
        lemma_cache_index_none(entries.drop_first(), name);
    }
}

/// After an entry is written, its name reads back exactly that entry.
pub proof fn lemma_cache_lookup_after_upsert(entries: Seq<CacheEntryModel>, e: CacheEntryModel)
    ensures
        spec_cache_lookup(spec_cache_upsert(entries, e), e.name) == Some(e),
    decreases entries.len(),
{
    lemma_cache_index_characterization(entries, e.name);
    match spec_cache_index(entries, e.name) {
        Some(i) => {
            let updated = entries.update(i, e);
            assert(updated[i] == e);
            assert(forall|j: int| 0 <= j < i ==> (#[trigger] updated[j]).name != e.name);
            lemma_cache_index_first(updated, e.name, i);
        },
        None => {
            let pushed = entries.push(e);
            assert(pushed[entries.len() as int] == e);
            assert(forall|j: int|
                0 <= j < entries.len() ==> (#[trigger] pushed[j]).name != e.name);
            lemma_cache_index_first(pushed, e.name, entries.len() as int);
        },
    }
}

/// The durable asset cache store.
pub struct AssetCacheStore {
    entries: Vec<CachedImage>,
}

impl View for AssetCacheStore {
    type V = Seq<CacheEntryModel>;

    closed spec fn view(&self) -> Seq<CacheEntryModel> {
        self.entries@.map_values(|e: CachedImage| e@)
    }
}

impl AssetCacheStore {
    /// At most one entry per logical name.
    pub open spec fn wf(self) -> bool {
        forall|i: int, j: int|
            0 <= i < j < self@.len() ==> (#[trigger] self@[i]).name != (#[trigger] self@[j]).name
    }

    /// An empty store.
    pub fn new() -> (s: AssetCacheStore)
        ensures
            s@ == Seq::<CacheEntryModel>::empty(),
            s.wf(),
    {
        let s = AssetCacheStore { entries: Vec::new() };
        proof {
            assert(s@ =~= Seq::<CacheEntryModel>::empty());
        }
        s
    }

    /// Looks a name up; a name never written reads as nothing.
    pub fn get(&self, name: &str) -> (r: Option<&CachedImage>)
        ensures
            match r {
                Some(e) => spec_cache_lookup(self@, name@) == Some(e@),
                None => spec_cache_lookup(self@, name@) is None,
            },
    {
        let n = self.entries.len();
        let mut i: usize = 0;
        while i < n
            invariant
                n == self.entries@.len(),
                i <= n,
                forall|j: int| 0 <= j < i ==> (#[trigger] self@[j]).name != name@,
            decreases n - i,
        {
            if str_eq(self.entries[i].name.as_str(), name) {
                proof {
                    lemma_cache_index_first(self@, name@, i as int);
                }
                return Some(&self.entries[i]);
            }
            i += 1;
        }
        proof {
            lemma_cache_index_none(self@, name@);
        }
        None
    }

    /// Writes an entry under its name: the last writer's handle is
    /// authoritative for that name, and other names keep their entries.
    pub fn upsert(&mut self, entry: CachedImage)
        ensures
            final(self)@ == spec_cache_upsert(old(self)@, entry@),
            old(self).wf() ==> final(self).wf(),
    {
        let ghost nm = entry@.name;
        let n = self.entries.len();
        let mut i: usize = 0;
        while i < n
            invariant
                n == self.entries@.len(),
                i <= n,
                *self == *old(self),
                forall|j: int| 0 <= j < i ==> (#[trigger] self@[j]).name != nm,
                nm == entry@.name,
            decreases n - i,
        {
            if str_eq(self.entries[i].name.as_str(), entry.name.as_str()) {
                proof {
                    lemma_cache_index_first(self@, nm, i as int);
                }
                let ghost idx = i as int;
                self.entries.set(i, entry);
                proof {
                    assert(self@ =~= old(self)@.update(idx, entry@));
                    assert(old(self)@[idx].name == nm);
                    if old(self).wf() {
                        assert forall|a: int, b: int| 0 <= a < b < self@.len() implies (
                        #[trigger] self@[a]).name != (#[trigger] self@[b]).name by {
                            assert(old(self)@[a].name != old(self)@[b].name);
                        }
                    }
                }
                return ;
            }
            i += 1;
        }
        proof {
            lemma_cache_index_none(self@, nm);
        }
        self.entries.push(entry);
        proof {
            assert(self@ =~= old(self)@.push(entry@));
            if old(self).wf() {
                assert forall|a: int, b: int| 0 <= a < b < self@.len() implies (
                #[trigger] self@[a]).name != (#[trigger] self@[b]).name by {
                    if b < old(self)@.len() {
                        assert(old(self)@[a].name != old(self)@[b].name);
                    } else {
                        assert(old(self)@[a].name != nm);
                    }
                }
            }
        }
    }
}

/// An asset resolution that fails leaves the caller to fall back; the one
/// failure the model knows is a logical name whose file is missing from
/// the repository.
#[derive(Clone, Copy, Debug, PartialEq, Eq, Structural)]
pub enum AssetError {
    /// The repository has no file under the asset's path.
    MissingFile,
}

/// Everything one resolution changes and returns.
pub struct ResolveModel {
    /// The cache store afterwards.
    pub cache: Seq<CacheEntryModel>,
    /// The platform's upload count afterwards.
    pub uploads: u64,
    /// The platform's next media identifier afterwards.
    pub next_file_id: i64,
    /// The resolved handle, or nothing when the file is missing.
    pub result: Option<HandleModel>,
}

/// What resolving a logical name does: a memoized name is a pure store
/// lookup; a new name reads the file, uploads it once and memoizes the
/// platform's handle; a name without a file fails and changes nothing.
pub open spec fn spec_resolve(
    cache: Seq<CacheEntryModel>,
    repo: Seq<FileModel>,
    uploads: u64,
    next_file_id: i64,
    subfolder: Seq<char>,
    name: Seq<char>,
) -> ResolveModel {
    match spec_cache_lookup(cache, name) {
        Some(e) => ResolveModel {
            cache: cache,
            uploads: uploads,
            next_file_id: next_file_id,
            result: Some(spec_handle_of(e)),
        },
        None => match spec_repo_lookup(repo, spec_asset_path(subfolder, name)) {
            None => ResolveModel {
                cache: cache,
                uploads: uploads,
                next_file_id: next_file_id,
                result: None,
            },
            Some(bytes) => {
                let entry = CacheEntryModel {
                    name: name,
                    subfolder: subfolder,
                    file_id: next_file_id,
                    access_hash: next_file_id,
                    file_reference: bytes,
                };
                ResolveModel {
                    cache: spec_cache_upsert(cache, entry),
                    uploads: (uploads + 1) as u64,
                    next_file_id: (next_file_id + 1) as i64,
                    result: Some(spec_handle_of(entry)),
                }
            },
        },
    }
}

/// Resolves a logical asset name to a platform handle: on a hit the
/// stored handle comes back with no platform traffic; on a miss the bytes
/// are read under `subfolder/name.png`, uploaded to the side channel, and
/// the platform's handle is memoized and returned; a missing file is an
/// error for this resolution and changes nothing.
pub fn get_cached_image(
    cache: &mut AssetCacheStore,
    repo: &AssetRepo,
    platform: &mut ChatPlatform,
    subfolder: &str,
    name: &str,
) -> (r: Result<ImageHandle, AssetError>)
    requires
        old(platform)@.next_file_id < 0x7fff_ffff_ffff_ffff,
        old(platform)@.uploads < 0xffff_ffff_ffff_ffff,
    ensures
        ({
            let m = spec_resolve(
                old(cache)@,
                repo@,
                old(platform)@.uploads,
                old(platform)@.next_file_id,
                subfolder@,
                name@,
            );
            &&& final(cache)@ == m.cache
            &&& final(platform)@.uploads == m.uploads
            &&& final(platform)@.next_file_id == m.next_file_id
            &&& final(platform)@.messages == old(platform)@.messages
            &&& final(platform)@.next_message_id == old(platform)@.next_message_id
            &&& match r {
                Ok(h) => m.result == Some(h@),
                Err(e) => m.result is None && e == AssetError::MissingFile,
            }
        }),
        old(cache).wf() ==> final(cache).wf(),
{
    let hit = match cache.get(name) {
        Some(e) => Some(e.to_handle()),
        None => None,
    };
    match hit {
        Some(h) => Ok(h),
        None => {
            let path = asset_path(subfolder, name);
            match repo.read(path.as_str()) {
                None => Err(AssetError::MissingFile),
                Some(bytes) => {
                    let h = platform.upload_photo(bytes.as_slice());
                    let entry = CachedImage {
                        name: name.to_owned(),
                        subfolder: subfolder.to_owned(),
                        file_id: h.file_id,
                        access_hash: h.access_hash,
                        file_reference: slice_to_vec(h.file_reference.as_slice()),
                    };
                    cache.upsert(entry);
                    Ok(h)
                },
            }
        },
    }
}

/// Resolving the same logical name twice performs exactly one upload in
/// total and returns the same handle both times: the first successful
/// resolution memoizes the handle, so the second is a pure store lookup
/// that changes nothing.
pub proof fn lemma_resolve_idempotent(
    cache: Seq<CacheEntryModel>,
    repo: Seq<FileModel>,
    uploads: u64,
    next_file_id: i64,
    subfolder: Seq<char>,
    name: Seq<char>,
)
    requires
        uploads < 0xffff_ffff_ffff_ffff,
        next_file_id < 0x7fff_ffff_ffff_ffff,
        spec_resolve(cache, repo, uploads, next_file_id, subfolder, name).result is Some,
    ensures
        ({
            let first = spec_resolve(cache, repo, uploads, next_file_id, subfolder, name);
            let second = spec_resolve(
                first.cache,
                repo,
                first.uploads,
                first.next_file_id,
                subfolder,
                name,
            );
            &&& second.result == first.result
            &&& second.cache == first.cache
            &&& second.uploads == first.uploads
            &&& second.next_file_id == first.next_file_id
            &&& first.uploads <= uploads + 1
        }),
{
    match spec_cache_lookup(cache, name) {
        Some(e) => {
        },
        None => {
            match spec_repo_lookup(repo, spec_asset_path(subfolder, name)) {
                None => {
                },
                Some(bytes) => {
                    let entry = CacheEntryModel {
                        name: name,
                        subfolder: subfolder,
                        file_id: next_file_id,
                        access_hash: next_file_id,
                        file_reference: bytes,
                    };
                    lemma_cache_lookup_after_upsert(cache, entry);
                },
            }
        },
    }
}

} // verus!
