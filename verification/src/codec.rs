//! Archive codec: decodes tar+gzip, tar+xz and zip sources into entry lists
//! and plans extraction under three layout conventions — a single named
//! file, the full tree with its wrapping directory stripped, or one named
//! subdirectory re-rooted at the target.
//!
//! Decompression and container parsing are done by outside crates behind
//! trusted wrappers; everything that decides which entries are kept and
//! where they land is verified.

use vstd::prelude::*;

use crate::errors::UserError;
use crate::paths::{base_name, base_name_of, is_safe_rel_path, safe_rel_path, strip_top,
    strip_top_component, subtree_suffix, subtree_suffix_of};
use crate::text::{chars_to_string, ends_with, ends_with_chars, str_to_chars};

verus! {

/// The archive container formats the engine accepts.
#[derive(Debug, Clone, Copy, PartialEq, Eq, Structural)]
pub enum ArchiveType {
    TarGz,
    TarXz,
    Zip,
}

/// One entry of a decoded archive: its path inside the archive, its
/// contents, whether it is a directory, and its permission bits where the
/// container records them.
#[derive(Debug, Clone)]
pub struct ArchiveEntry {
    pub path: String,
    pub data: Vec<u8>,
    pub is_dir: bool,
    pub mode: Option<u32>,
}

/// The mathematical model of an archive entry.
pub struct EntryModel {
    pub path: Seq<char>,
    pub data: Seq<u8>,
    pub is_dir: bool,
    pub mode: Option<u32>,
}

impl View for ArchiveEntry {
    type V = EntryModel;

    open spec fn view(&self) -> EntryModel {
        EntryModel { path: self.path@, data: self.data@, is_dir: self.is_dir, mode: self.mode }
    }
}

/// One planned filesystem write: a path relative to the extraction target,
/// the contents to put there, and the permission bits to set.
#[derive(Debug, Clone)]
pub struct PlannedEntry {
    pub path: String,
    pub data: Vec<u8>,
    pub is_dir: bool,
    pub mode: Option<u32>,
}

impl View for PlannedEntry {
    type V = EntryModel;

    open spec fn view(&self) -> EntryModel {
        EntryModel { path: self.path@, data: self.data@, is_dir: self.is_dir, mode: self.mode }
    }
}

/// The models of a vector of decoded entries.
pub open spec fn models(es: Seq<ArchiveEntry>) -> Seq<EntryModel> {
    es.map_values(|e: ArchiveEntry| e@)
}

/// The models of an optional entry list.
pub open spec fn opt_models(r: Option<Vec<ArchiveEntry>>) -> Option<Seq<EntryModel>> {
    match r {
        Some(v) => Some(models(v@)),
        None => None,
    }
}

/// The models of a vector of planned entries.
pub open spec fn planned_models(es: Seq<PlannedEntry>) -> Seq<EntryModel> {
    es.map_values(|e: PlannedEntry| e@)
}

/// The archive format implied by an asset file name: `.tar.gz`, `.tar.xz`
/// or `.zip`; `None` for anything else.
pub open spec fn archive_type_of(name: Seq<char>) -> Option<ArchiveType> {
    if ends_with(name, ".tar.gz"@) {
        Some(ArchiveType::TarGz)
    } else if ends_with(name, ".tar.xz"@) {
        Some(ArchiveType::TarXz)
    } else if ends_with(name, ".zip"@) {
        Some(ArchiveType::Zip)
    } else {
        None
    }
}

impl ArchiveType {
    /// Determines the archive type from the asset's file name.
    pub fn from_asset_name(name: &str) -> (r: Result<Self, UserError>)
        ensures
            match r {
                Ok(t) => archive_type_of(name@) == Some(t),
                Err(e) => archive_type_of(name@) is None && (e matches
                    UserError::UnsupportedArchiveFormat { name: n } && n@ == name@),
            },
    {
        let chars = str_to_chars(name);
        if ends_with_chars(&chars, &str_to_chars(".tar.gz")) {
            Ok(ArchiveType::TarGz)
        } else if ends_with_chars(&chars, &str_to_chars(".tar.xz")) {
            Ok(ArchiveType::TarXz)
        } else if ends_with_chars(&chars, &str_to_chars(".zip")) {
            Ok(ArchiveType::Zip)
        } else {
            Err(UserError::UnsupportedArchiveFormat { name: name.to_owned() })
        }
    }
}

/// What a gzip stream decompresses to; `None` when the stream is invalid.
pub uninterp spec fn gunzip_of(b: Seq<u8>) -> Option<Seq<u8>>;

/// What an xz stream decompresses to; `None` when the stream is invalid.
pub uninterp spec fn unxz_of(b: Seq<u8>) -> Option<Seq<u8>>;

/// The entries of a tar archive; `None` when the bytes are not a readable
/// tar archive.
pub uninterp spec fn tar_entries_of(b: Seq<u8>) -> Option<Seq<EntryModel>>;

/// The entries of a zip archive; `None` when the bytes are not a readable
/// zip archive.
pub uninterp spec fn zip_entries_of(b: Seq<u8>) -> Option<Seq<EntryModel>>;

/// Relies on flate2's `read::GzDecoder`: gzip decompression is a function
/// of the input bytes alone, and fails exactly on invalid streams.
#[verifier::external_body]
fn gunzip(data: &Vec<u8>) -> (r: Result<Vec<u8>, UserError>)
    ensures
        match r {
            Ok(v) => gunzip_of(data@) == Some(v@),
            Err(e) => gunzip_of(data@) is None && e matches UserError::ArchiveExtractionFailed,
        },
{
    let mut decoder = flate2::read::GzDecoder::new(data.as_slice());
    let mut out: Vec<u8> = Vec::new();
    match std::io::Read::read_to_end(&mut decoder, &mut out) {
        Ok(_) => Ok(out),
        Err(_) => Err(UserError::ArchiveExtractionFailed),
    }
}

/// Relies on xz2's `read::XzDecoder`: xz decompression is a function of the
/// input bytes alone, and fails exactly on invalid streams.
#[verifier::external_body]
fn unxz(data: &Vec<u8>) -> (r: Result<Vec<u8>, UserError>)
    ensures
        match r {
            Ok(v) => unxz_of(data@) == Some(v@),
            Err(e) => unxz_of(data@) is None && e matches UserError::ArchiveExtractionFailed,
        },
{
    let mut decoder = xz2::read::XzDecoder::new(data.as_slice());
    let mut out: Vec<u8> = Vec::new();
    match std::io::Read::read_to_end(&mut decoder, &mut out) {
        Ok(_) => Ok(out),
        Err(_) => Err(UserError::ArchiveExtractionFailed),
    }
}

/// Relies on tar's `Archive`: listing a tar archive held in memory yields
/// its entries — path, contents, directory flag and mode — in archive
/// order, as a function of the bytes alone.
#[verifier::external_body]
fn tar_entries_opt(data: &Vec<u8>) -> (r: Option<Vec<ArchiveEntry>>)
    ensures
        tar_entries_of(data@) == opt_models(r),
{
    let mut archive = tar::Archive::new(data.as_slice());
    let mut out = Vec::new();
    for entry in archive.entries().ok()? {
        let mut entry = entry.ok()?;
        let path = entry.path().ok()?.to_string_lossy().into_owned();
        let is_dir = entry.header().entry_type().is_dir();
        let mode = entry.header().mode().ok();
        let mut data = Vec::new();
        std::io::Read::read_to_end(&mut entry, &mut data).ok()?;
        out.push(ArchiveEntry { path, data, is_dir, mode });
    }
    Some(out)
}

/// Lists a tar archive, reporting an unreadable one as an extraction
/// failure.
fn tar_entries(data: &Vec<u8>) -> (r: Result<Vec<ArchiveEntry>, UserError>)
    ensures
        match r {
            Ok(v) => tar_entries_of(data@) == Some(models(v@)),
            Err(e) => tar_entries_of(data@) is None && e matches
                UserError::ArchiveExtractionFailed,
        },
{
    match tar_entries_opt(data) {
        Some(v) => Ok(v),
        None => Err(UserError::ArchiveExtractionFailed),
    }
}

/// Relies on zip's `ZipArchive`: listing a zip archive held in memory
/// yields its entries — name, contents, directory flag and unix mode — in
/// index order, as a function of the bytes alone.
#[verifier::external_body]
fn zip_entries_opt(data: &Vec<u8>) -> (r: Option<Vec<ArchiveEntry>>)
    ensures
        zip_entries_of(data@) == opt_models(r),
{
    let cursor = std::io::Cursor::new(data.as_slice());
    let mut archive = zip::ZipArchive::new(cursor).ok()?;
    let mut out = Vec::new();
    for i in 0..archive.len() {
        let mut file = archive.by_index(i).ok()?;
        let path = file.name().to_owned();
        let is_dir = file.is_dir();
        let mode = file.unix_mode();
        let mut data = Vec::new();
        std::io::Read::read_to_end(&mut file, &mut data).ok()?;
        out.push(ArchiveEntry { path, data, is_dir, mode });
    }
    Some(out)
}

/// Lists a zip archive, reporting an unreadable one as an extraction
/// failure.
fn zip_entries(data: &Vec<u8>) -> (r: Result<Vec<ArchiveEntry>, UserError>)
    ensures
        match r {
            Ok(v) => zip_entries_of(data@) == Some(models(v@)),
            Err(e) => zip_entries_of(data@) is None && e matches
                UserError::ArchiveExtractionFailed,
        },
{
    match zip_entries_opt(data) {
        Some(v) => Ok(v),
        None => Err(UserError::ArchiveExtractionFailed),
    }
}

/// The entries an archive of the given format decodes to: tar formats are
/// decompressed first, then listed; zip is listed directly.
pub open spec fn decoded_entries(kind: ArchiveType, b: Seq<u8>) -> Option<Seq<EntryModel>> {
    match kind {
        ArchiveType::TarGz => match gunzip_of(b) {
            Some(t) => tar_entries_of(t),
            None => None,
        },
        ArchiveType::TarXz => match unxz_of(b) {
            Some(t) => tar_entries_of(t),
            None => None,
        },
        ArchiveType::Zip => zip_entries_of(b),
    }
}

/// Defines how a downloaded archive should be processed.
#[derive(Debug, Clone)]
pub enum ExtractionStrategy {
    /// Extract a single binary file from the archive into the target.
    SingleBinary { binary_name: String },
    /// Extract the entire archive into the target, stripping the single
    /// wrapping directory; `path_in_archive` locates the binary afterwards.
    FullArchive { path_in_archive: String },
}

/// Sub-tree planning: an entry is kept exactly when its path contains the
/// delimited segment with something after it; its planned path is the part
/// after the segment — the segment and everything before it are excluded.
pub open spec fn spec_plan_sub(es: Seq<EntryModel>, seg: Seq<char>) -> Seq<EntryModel>
    decreases es.len(),
{
    if es.len() == 0 {
        Seq::empty()
    } else {
        let rest = spec_plan_sub(es.drop_first(), seg);
        match subtree_suffix(es[0].path, seg) {
            Some(s) => if s.len() > 0 {
                seq![
                    EntryModel { path: s, data: es[0].data, is_dir: es[0].is_dir, mode: es[0].mode },
                ] + rest
            } else {
                rest
            },
            None => rest,
        }
    }
}

/// Full-tree planning keeps every entry and strips exactly its first path
/// component.
pub open spec fn is_full_plan(es: Seq<EntryModel>, plan: Seq<EntryModel>) -> bool {
    &&& plan.len() == es.len()
    &&& forall|i: int| 0 <= i < es.len() ==> {
        &&& (#[trigger] plan[i]).path == strip_top(es[i].path)
        &&& plan[i].data == es[i].data
        &&& plan[i].is_dir == es[i].is_dir
        &&& plan[i].mode == es[i].mode
    }
}

/// The planned entries of a full-tree extraction, as a function of the
/// decoded entries.
pub open spec fn spec_plan_full(es: Seq<EntryModel>) -> Seq<EntryModel> {
    es.map_values(
        |e: EntryModel|
            EntryModel { path: strip_top(e.path), data: e.data, is_dir: e.is_dir, mode: e.mode },
    )
}

/// A full plan is exactly `spec_plan_full` of its input.
pub proof fn lemma_full_plan_is_map(es: Seq<EntryModel>, plan: Seq<EntryModel>)
    requires
        is_full_plan(es, plan),
    ensures
        plan == spec_plan_full(es),
{
    assert(plan =~= spec_plan_full(es));
}

/// The plan of a single-binary extraction: one write, directly under the
/// target, named after the binary, marked executable, holding the contents
/// of the first entry whose base name is the binary's.
pub open spec fn single_plan_ok(
    es: Seq<EntryModel>,
    binary: Seq<char>,
    plan: Seq<EntryModel>,
) -> bool {
    &&& plan.len() == 1
    &&& plan[0].path == binary
    &&& !plan[0].is_dir
    &&& plan[0].mode == Some(0o755u32)
    &&& exists|i: int|
        {
            &&& 0 <= i < es.len()
            &&& base_name(#[trigger] es[i].path) == binary
            &&& (forall|j: int| 0 <= j < i ==> base_name(#[trigger] es[j].path) != binary)
            &&& plan[0].data == es[i].data
        }
}

/// Every planned path is safe to write beneath the target: relative, with
/// no parent-directory step. A plan that is not wholly safe is refused
/// whole by the caller, failing the tool.
pub open spec fn plan_is_safe(es: Seq<EntryModel>) -> bool {
    forall|i: int| 0 <= i < es.len() ==> safe_rel_path((#[trigger] es[i]).path)
}

/// Checks a plan before it is written: true exactly when every planned
/// path is a safe relative path.
pub fn check_plan_safety(entries: &Vec<PlannedEntry>) -> (r: bool)
    ensures
        r == plan_is_safe(planned_models(entries@)),
{
    let n = entries.len();
    for i in 0..n
        invariant
            n == entries@.len(),
            forall|k: int| 0 <= k < i ==> safe_rel_path((#[trigger] entries@[k])@.path),
    {
        let path_chars = str_to_chars(entries[i].path.as_str());
        if !is_safe_rel_path(&path_chars) {
            proof {
                assert(planned_models(entries@)[i as int] == entries@[i as int]@);
            }
            return false;
        }
    }
    proof {
        assert forall|k: int| 0 <= k < planned_models(entries@).len() implies safe_rel_path(
            (#[trigger] planned_models(entries@)[k]).path,
        ) by {
            assert(planned_models(entries@)[k] == entries@[k]@);
        }
    }
    true
}

/// No entry's base name is the binary's.
pub open spec fn no_single_match(es: Seq<EntryModel>, binary: Seq<char>) -> bool {
    forall|i: int| 0 <= i < es.len() ==> base_name((#[trigger] es[i]).path) != binary
}

/// Full-tree extraction strips exactly one leading path component per
/// entry: the planned path is everything after the first slash, and the
/// original path is the stripped component followed by the planned path.
/// A path without a wrapping component is kept whole.
pub proof fn lemma_strip_top_characterization(p: Seq<char>)
    ensures
        match p.index_of_first('/') {
            Some(i) => {
                &&& 0 <= i < p.len() && p[i] == '/' && (forall|j: int| 0 <= j < i ==> p[j] != '/')
                &&& i + 1 < p.len() ==> strip_top(p) == p.subrange(i + 1, p.len() as int) && p
                    == p.subrange(0, i + 1) + strip_top(p)
            },
            None => strip_top(p) == p && !p.contains('/'),
        },
{
    p.index_of_first_ensures('/');
    match p.index_of_first('/') {
        Some(i) => {
            if i + 1 < p.len() {
                assert(p =~= p.subrange(0, i + 1) + p.subrange(i + 1, p.len() as int));
            }
        },
        None => {},
    }
}

/// Sub-tree extraction includes only entries whose path contains the
/// delimited segment with content after it: every planned entry comes from
/// an input entry, its path is that entry's path with the segment and
/// everything before it excluded, and contents, kind and mode are the
/// input's.
pub proof fn lemma_sub_tree_membership(es: Seq<EntryModel>, seg: Seq<char>)
    ensures
        forall|m: EntryModel| #[trigger] spec_plan_sub(es, seg).contains(m) ==> exists|i: int|
            0 <= i < es.len() && subtree_suffix(#[trigger] es[i].path, seg) == Some(m.path)
                && m.path.len() > 0 && m.data == es[i].data && m.is_dir == es[i].is_dir && m.mode
                == es[i].mode,
    decreases es.len(),
{
    if es.len() == 0 {
    } else {
        let rest = es.drop_first();
        lemma_sub_tree_membership(rest, seg);
        assert forall|m: EntryModel| #[trigger] spec_plan_sub(es, seg).contains(m) implies exists|
            i: int,
        |
            0 <= i < es.len() && subtree_suffix(#[trigger] es[i].path, seg) == Some(m.path)
                && m.path.len() > 0 && m.data == es[i].data && m.is_dir == es[i].is_dir && m.mode
                == es[i].mode by {
            let plan = spec_plan_sub(es, seg);
            let rest_plan = spec_plan_sub(rest, seg);
            let k = choose|k: int| 0 <= k < plan.len() && plan[k] == m;
            match subtree_suffix(es[0].path, seg) {
                Some(s) => {
                    if s.len() > 0 {
                        if k == 0 {
                            assert(subtree_suffix(es[0].path, seg) == Some(m.path));
                        } else {
                            assert(plan[k] == rest_plan[k - 1]);
                            assert(rest_plan.contains(m));
                            let i = choose|i: int|
                                0 <= i < rest.len() && subtree_suffix(
                                    #[trigger] rest[i].path,
                                    seg,
                                ) == Some(m.path) && m.path.len() > 0 && m.data == rest[i].data
                                    && m.is_dir == rest[i].is_dir && m.mode == rest[i].mode;
                            assert(rest[i] == es[i + 1]);
                        }
                    } else {
                        assert(rest_plan.contains(m));
                        let i = choose|i: int|
                            0 <= i < rest.len() && subtree_suffix(#[trigger] rest[i].path, seg)
                                == Some(m.path) && m.path.len() > 0 && m.data == rest[i].data
                                && m.is_dir == rest[i].is_dir && m.mode == rest[i].mode;
                        assert(rest[i] == es[i + 1]);
                    }
                },
                None => {
                    assert(rest_plan.contains(m));
                    let i = choose|i: int|
                        0 <= i < rest.len() && subtree_suffix(#[trigger] rest[i].path, seg)
                            == Some(m.path) && m.path.len() > 0 && m.data == rest[i].data
                            && m.is_dir == rest[i].is_dir && m.mode == rest[i].mode;
                    assert(rest[i] == es[i + 1]);
                },
            }
        }
    }
}

/// Plans a full-tree extraction: one write per entry, with the single
/// wrapping directory stripped from each path.
pub fn plan_full_tree(entries: &Vec<ArchiveEntry>) -> (r: Vec<PlannedEntry>)
    ensures
        is_full_plan(models(entries@), planned_models(r@)),
{
    let mut r: Vec<PlannedEntry> = Vec::new();
    let n = entries.len();
    for i in 0..n
        invariant
            n == entries@.len(),
            r@.len() == i,
            forall|k: int| 0 <= k < i ==> {
                &&& (#[trigger] r@[k])@.path == strip_top(entries@[k]@.path)
                &&& r@[k]@.data == entries@[k]@.data
                &&& r@[k]@.is_dir == entries@[k]@.is_dir
                &&& r@[k]@.mode == entries@[k]@.mode
            },
    {
        let path_chars = str_to_chars(entries[i].path.as_str());
        let stripped = strip_top_component(&path_chars);
        r.push(
            PlannedEntry {
                path: chars_to_string(&stripped),
                data: clone_bytes(&entries[i].data),
                is_dir: entries[i].is_dir,
                mode: entries[i].mode,
            },
        );
    }
    proof {
        assert forall|i: int| 0 <= i < models(entries@).len() implies {
            &&& (#[trigger] planned_models(r@)[i]).path == strip_top(models(entries@)[i].path)
            &&& planned_models(r@)[i].data == models(entries@)[i].data
            &&& planned_models(r@)[i].is_dir == models(entries@)[i].is_dir
            &&& planned_models(r@)[i].mode == models(entries@)[i].mode
        } by {
            assert(planned_models(r@)[i] == r@[i]@);
            assert(models(entries@)[i] == entries@[i]@);
        }
    }
    r
}

/// Plans a sub-tree extraction: keeps exactly the entries inside the
/// delimited segment, re-rooted at the extraction target.
pub fn plan_sub_tree(entries: &Vec<ArchiveEntry>, segment: &str) -> (r: Vec<PlannedEntry>)
    ensures
        planned_models(r@) == spec_plan_sub(models(entries@), segment@),
{
    let seg = str_to_chars(segment);
    let mut r: Vec<PlannedEntry> = Vec::new();
    let n = entries.len();
    proof {
        assert(models(entries@).skip(0) =~= models(entries@));
        assert(planned_models(r@) =~= Seq::<EntryModel>::empty());
    }
    for i in 0..n
        invariant
            n == entries@.len(),
            seg@ == segment@,
            spec_plan_sub(models(entries@), segment@) =~= planned_models(r@) + spec_plan_sub(
                models(entries@).skip(i as int),
                segment@,
            ),
    {
        proof {
            assert(models(entries@).skip(i as int)[0] == entries@[i as int]@);
            assert(models(entries@).skip(i as int).drop_first() =~= models(entries@).skip(i + 1));
        }
        let path_chars = str_to_chars(entries[i].path.as_str());
        match subtree_suffix_of(&path_chars, &seg) {
            Some(suffix) => {
                if suffix.len() > 0 {
                    r.push(
                        PlannedEntry {
                            path: chars_to_string(&suffix),
                            data: clone_bytes(&entries[i].data),
                            is_dir: entries[i].is_dir,
                            mode: entries[i].mode,
                        },
                    );
                }
                proof {
                    if suffix@.len() > 0 {
                        assert(planned_models(r@) =~= planned_models(r@.drop_last()) + seq![
                            r@.last()@,
                        ]);
                    }
                }
            },
            None => {},
        }
        proof {
            assert(spec_plan_sub(models(entries@), segment@) =~= planned_models(r@)
                + spec_plan_sub(models(entries@).skip(i + 1), segment@));
        }
    }
    proof {
        assert(models(entries@).skip(n as int) =~= Seq::<EntryModel>::empty());
    }
    r
}

/// Finds the first entry whose base name equals the binary name.
pub fn find_single_file(entries: &Vec<ArchiveEntry>, binary_name: &str) -> (r: Result<
    usize,
    UserError,
>)
    ensures
        match r {
            Ok(i) => i < entries@.len() && base_name(entries@[i as int]@.path) == binary_name@
                && forall|j: int| 0 <= j < i ==> base_name(#[trigger] entries@[j]@.path)
                != binary_name@,
            Err(e) => (forall|j: int| 0 <= j < entries@.len() ==> base_name(
                #[trigger] entries@[j]@.path,
            ) != binary_name@) && (e matches UserError::BinaryNotFoundInArchive { binary_name: b }
                && b@ == binary_name@),
        },
{
    let target = str_to_chars(binary_name);
    let n = entries.len();
    for i in 0..n
        invariant
            n == entries@.len(),
            target@ == binary_name@,
            forall|j: int| 0 <= j < i ==> base_name(#[trigger] entries@[j]@.path) != binary_name@,
    {
        let path_chars = str_to_chars(entries[i].path.as_str());
        let base = base_name_of(&path_chars);
        if eq_chars(&base, &target) {
            return Ok(i);
        }
    }
    Err(UserError::BinaryNotFoundInArchive { binary_name: binary_name.to_owned() })
}

/// Plans a single-binary extraction: the first entry whose base name equals
/// the binary name lands directly in the target under that name, marked
/// executable.
pub fn plan_single_binary(entries: &Vec<ArchiveEntry>, binary_name: &str) -> (r: Result<
    PlannedEntry,
    UserError,
>)
    ensures
        match r {
            Ok(p) => exists|i: int|
                {
                    &&& 0 <= i < entries@.len()
                    &&& base_name(#[trigger] entries@[i]@.path) == binary_name@
                    &&& (forall|j: int| 0 <= j < i ==> base_name(#[trigger] entries@[j]@.path)
                        != binary_name@)
                    &&& p@.path == binary_name@
                    &&& p@.data == entries@[i]@.data
                    &&& !p@.is_dir
                    &&& p@.mode == Some(0o755u32)
                },
            Err(e) => (forall|j: int| 0 <= j < entries@.len() ==> base_name(
                #[trigger] entries@[j]@.path,
            ) != binary_name@) && (e matches UserError::BinaryNotFoundInArchive { binary_name: b }
                && b@ == binary_name@),
        },
{
    let i = find_single_file(entries, binary_name)?;
    Ok(
        PlannedEntry {
            path: binary_name.to_owned(),
            data: clone_bytes(&entries[i].data),
            is_dir: false,
            mode: Some(0o755),
        },
    )
}

/// Decodes an archive and plans its extraction under the given strategy:
/// a single binary, or the full tree with its wrapping directory stripped.
pub fn extract_plan(kind: ArchiveType, data: &Vec<u8>, strategy: &ExtractionStrategy) -> (r:
    Result<Vec<PlannedEntry>, UserError>)
    ensures
        match r {
            Ok(v) => decoded_entries(kind, data@) is Some && {
                let es = decoded_entries(kind, data@)->Some_0;
                match strategy {
                    ExtractionStrategy::SingleBinary { binary_name } => single_plan_ok(
                        es,
                        binary_name@,
                        planned_models(v@),
                    ),
                    ExtractionStrategy::FullArchive { .. } => is_full_plan(
                        es,
                        planned_models(v@),
                    ),
                }
            },
            Err(e) => match e {
                UserError::ArchiveExtractionFailed => decoded_entries(kind, data@) is None,
                UserError::BinaryNotFoundInArchive { binary_name: b } => {
                    &&& decoded_entries(kind, data@) is Some
                    &&& (strategy matches ExtractionStrategy::SingleBinary { binary_name } && b@
                        == binary_name@)
                    &&& forall|j: int|
                        0 <= j < decoded_entries(kind, data@)->Some_0.len() ==> base_name(
                            (#[trigger] decoded_entries(kind, data@)->Some_0[j]).path,
                        ) != b@
                },
                _ => false,
            },
        },
{
    let entries = decode_archive(kind, data)?;
    match strategy {
        ExtractionStrategy::SingleBinary { binary_name } => {
            match find_single_file(&entries, binary_name.as_str()) {
                Ok(i) => {
                    let planned = PlannedEntry {
                        path: clone_string(binary_name),
                        data: clone_bytes(&entries[i].data),
                        is_dir: false,
                        mode: Some(0o755),
                    };
                    let mut v: Vec<PlannedEntry> = Vec::new();
                    v.push(planned);
                    proof {
                        let es = decoded_entries(kind, data@)->Some_0;
                        assert(es == models(entries@));
                        assert(es[i as int] == entries@[i as int]@);
                        assert(base_name(es[i as int].path) == binary_name@);
                        assert forall|j: int| 0 <= j < i implies base_name(
                            (#[trigger] es[j]).path,
                        ) != binary_name@ by {
                            assert(es[j] == entries@[j]@);
                        }
                        assert(planned_models(v@) =~= seq![v@[0]@]);
                    }
                    Ok(v)
                },
                Err(e) => {
                    proof {
                        let es = decoded_entries(kind, data@)->Some_0;
                        assert(es == models(entries@));
                        assert forall|j: int| 0 <= j < es.len() implies base_name(
                            (#[trigger] es[j]).path,
                        ) != binary_name@ by {
                            assert(es[j] == entries@[j]@);
                        }
                    }
                    Err(e)
                },
            }
        },
        ExtractionStrategy::FullArchive { .. } => Ok(plan_full_tree(&entries)),
    }
}

/// Copies a string.
pub fn clone_string(s: &String) -> (r: String)
    ensures
        r@ == s@,
{
    s.clone()
}

/// Copies a byte vector.
pub fn clone_bytes(v: &Vec<u8>) -> (r: Vec<u8>)
    ensures
        r@ == v@,
{
    let mut r: Vec<u8> = Vec::new();
    let n = v.len();
    for i in 0..n
        invariant
            n == v@.len(),
            r@ == v@.subrange(0, i as int),
    {
        r.push(v[i]);
        proof {
            assert(r@ =~= v@.subrange(0, i + 1));
        }
    }
    proof {
        assert(r@ =~= v@);
    }
    r
}

/// Character-vector equality.
pub fn eq_chars(a: &Vec<char>, b: &Vec<char>) -> (r: bool)
    ensures
        r == (a@ == b@),
{
    if a.len() != b.len() {
        return false;
    }
    let n = a.len();
    for i in 0..n
        invariant
            n == a@.len() == b@.len(),
            forall|k: int| 0 <= k < i ==> a@[k] == b@[k],
    {
        if a[i] != b[i] {
            return false;
        }
    }
    proof {
        assert(a@ =~= b@);
    }
    true
}

/// Decodes an archive of the given format into its entry list.
pub fn decode_archive(kind: ArchiveType, data: &Vec<u8>) -> (r: Result<
    Vec<ArchiveEntry>,
    UserError,
>)
    ensures
        match r {
            Ok(v) => decoded_entries(kind, data@) == Some(models(v@)),
            Err(e) => decoded_entries(kind, data@) is None && e matches
                UserError::ArchiveExtractionFailed,
        },
{
    match kind {
        ArchiveType::TarGz => {
            let tar = gunzip(data)?;
            tar_entries(&tar)
        },
        ArchiveType::TarXz => {
            let tar = unxz(data)?;
            tar_entries(&tar)
        },
        ArchiveType::Zip => zip_entries(data),
    }
}

} // verus!
