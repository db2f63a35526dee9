//! The tree-serializer stage: turns a sequence of tree entries into one
//! linear archive byte stream and back.
//!
//! The concrete encoding is owned by the `tar` crate and stays opaque here:
//! what a byte stream holds is only given a name, [`tar_rows_of`], and every
//! trusted wrapper speaks in terms of that name. Interpreting the recorded
//! rows as tree entries ([`untar_of`]), the loop that feeds entries to the
//! serializer, and the loop that assembles the entries read back are all
//! verified.

use vstd::prelude::*;

use crate::errors::PipelineError;
use crate::tree::EntryModel;
use crate::tree::TreeEntry;
use crate::tree::clean_path;
use crate::tree::clean_target;
use crate::tree::entry_encodable;
use crate::tree::tree_model;

verus! {

/// The archive builder of the `tar` crate, writing into an in-memory buffer.
/// The field stays hidden because its type belongs to the outside crate.
#[verifier::external_body]
pub struct ArchiveBuilder {
    inner: tar::Builder<Vec<u8>>,
}

/// What a builder holds: the entries appended so far, in order.
pub uninterp spec fn tar_contents(b: ArchiveBuilder) -> Seq<EntryModel>;

/// One row of an archive as the serializer records it: the row's kind flags,
/// path, permission bits, link target and payload.
pub struct RawModel {
    pub is_dir: bool,
    pub is_symlink: bool,
    pub path: Seq<char>,
    pub mode: u32,
    pub target: Option<Seq<char>>,
    pub data: Seq<u8>,
}

/// The metadata half of one recorded row.
pub struct RowMetaModel {
    pub is_dir: bool,
    pub is_symlink: bool,
    pub path: Seq<char>,
    pub mode: u32,
    pub target: Option<Seq<char>>,
}

/// The metadata half of one row, as the archive reader hands it out.
pub struct RowMeta {
    pub is_dir: bool,
    pub is_symlink: bool,
    pub path: String,
    pub mode: u32,
    pub target: Option<String>,
}

impl View for RowMeta {
    type V = RowMetaModel;

    open spec fn view(&self) -> RowMetaModel {
        RowMetaModel {
            is_dir: self.is_dir,
            is_symlink: self.is_symlink,
            path: self.path@,
            mode: self.mode,
            target: match self.target {
                Some(t) => Some(t@),
                None => None,
            },
        }
    }
}

/// The metadata half of a recorded row.
pub open spec fn meta_of(m: RawModel) -> RowMetaModel {
    RowMetaModel {
        is_dir: m.is_dir,
        is_symlink: m.is_symlink,
        path: m.path,
        mode: m.mode,
        target: m.target,
    }
}

/// What the archive reader yields for a byte stream: the recorded rows, in
/// order, or nothing if the bytes are not a well-formed archive whose paths
/// and link targets are text and whose mode fields parse. A function of the
/// bytes alone.
pub uninterp spec fn tar_rows_of(bytes: Seq<u8>) -> Option<Seq<RawModel>>;

/// A row reads back as a tree entry unless it claims to be a symbolic link
/// and records no target.
pub open spec fn row_ok(m: RawModel) -> bool {
    !(m.is_symlink && !m.is_dir && m.target is None)
}

/// The tree entry one recorded row stands for. A directory row keeps its
/// path and permission bits, a symbolic-link row its path and target, and
/// any other row is a regular file with its payload. The arm for a link row
/// without a target is never reached under [`row_ok`].
pub open spec fn row_entry(m: RawModel) -> EntryModel {
    if m.is_dir {
        EntryModel::Dir { path: m.path, mode: m.mode }
    } else if m.is_symlink {
        match m.target {
            Some(t) => EntryModel::Symlink { path: m.path, target: t },
            None => EntryModel::Dir { path: m.path, mode: m.mode },
        }
    } else {
        EntryModel::File { path: m.path, mode: m.mode, data: m.data }
    }
}

/// What an archive byte stream unpacks to: its rows read as tree entries,
/// or nothing if the stream is malformed or some row is no tree entry.
pub open spec fn untar_of(bytes: Seq<u8>) -> Option<Seq<EntryModel>> {
    match tar_rows_of(bytes) {
        None => None,
        Some(rows) => if forall|j: int| 0 <= j < rows.len() ==> #[trigger] row_ok(rows[j]) {
            Some(rows.map_values(|m: RawModel| row_entry(m)))
        } else {
            None
        },
    }
}

/// Relies on `tar::Builder::new`: a fresh builder over an empty in-memory
/// buffer has no entries appended yet.
#[verifier::external_body]
fn tar_builder_new() -> (b: ArchiveBuilder)
    ensures
        tar_contents(b) == Seq::<EntryModel>::empty(),
{
    ArchiveBuilder { inner: tar::Builder::new(Vec::new()) }
}

/// Relies on `tar::Builder::append_data` with a GNU header: appends one
/// directory entry recording the given path and permission bits. The path
/// is recorded verbatim only when it is clean (the serializer drops `.`
/// components and doubled separators silently), and the mode field records
/// permission bits only; other inputs are left out.
#[verifier::external_body]
fn tar_append_dir(b: &mut ArchiveBuilder, path: &String, mode: u32) -> (r: Result<(), PipelineError>)
    requires
        clean_path(path@),
        mode <= 0o7777,
    ensures
        (match r {
            Ok(u) => tar_contents(*final(b)) == tar_contents(*old(b)).push(
                EntryModel::Dir { path: path@, mode },
            ),
            Err(e) => e == PipelineError::ArchiveError,
        }),
{
    let mut h = tar::Header::new_gnu();
    h.set_entry_type(tar::EntryType::dir());
    h.set_mode(mode);
    h.set_size(0);
    match b.inner.append_data(&mut h, path.as_str(), std::io::empty()) {
        Ok(()) => Ok(()),
        Err(_) => Err(PipelineError::ArchiveError),
    }
}

/// Relies on `tar::Builder::append_data` with a GNU header: appends one
/// regular-file entry recording the given path, permission bits and
/// contents. The path is recorded verbatim only when it is clean (the
/// serializer drops `.` components and doubled separators silently), and
/// the mode field records permission bits only; other inputs are left out.
#[verifier::external_body]
fn tar_append_file(b: &mut ArchiveBuilder, path: &String, mode: u32, data: &Vec<u8>) -> (r: Result<(), PipelineError>)
    requires
        clean_path(path@),
        mode <= 0o7777,
    ensures
        (match r {
            Ok(u) => tar_contents(*final(b)) == tar_contents(*old(b)).push(
                EntryModel::File { path: path@, mode, data: data@ },
            ),
            Err(e) => e == PipelineError::ArchiveError,
        }),
{
    let mut h = tar::Header::new_gnu();
    h.set_entry_type(tar::EntryType::file());
    h.set_mode(mode);
    h.set_size(data.len() as u64);
    match b.inner.append_data(&mut h, path.as_str(), data.as_slice()) {
        Ok(()) => Ok(()),
        Err(_) => Err(PipelineError::ArchiveError),
    }
}

/// Relies on `tar::Builder::append_link` with a GNU header: appends one
/// symbolic-link entry recording the given path and link target. Both are
/// recorded verbatim only when clean (the serializer drops `.` components
/// and doubled separators silently); other inputs are left out. A clean
/// target may still be absolute or climb with `..`.
#[verifier::external_body]
fn tar_append_symlink(b: &mut ArchiveBuilder, path: &String, target: &String) -> (r: Result<(), PipelineError>)
    requires
        clean_path(path@),
        clean_target(target@),
    ensures
        (match r {
            Ok(u) => tar_contents(*final(b)) == tar_contents(*old(b)).push(
                EntryModel::Symlink { path: path@, target: target@ },
            ),
            Err(e) => e == PipelineError::ArchiveError,
        }),
{
    let mut h = tar::Header::new_gnu();
    h.set_entry_type(tar::EntryType::symlink());
    h.set_mode(0o777);
    h.set_size(0);
    match b.inner.append_link(&mut h, path.as_str(), target.as_str()) {
        Ok(()) => Ok(()),
        Err(_) => Err(PipelineError::ArchiveError),
    }
}

/// Relies on `tar::Builder::into_inner`: finishing the archive writes the
/// end-of-archive marker, and reading the finished bytes back yields rows
/// that stand for exactly the entries that were appended, in order.
#[verifier::external_body]
fn tar_into_bytes(b: ArchiveBuilder) -> (r: Result<Vec<u8>, PipelineError>)
    ensures
        (match r {
            Ok(v) => untar_of(v@) == Some(tar_contents(b)),
            Err(e) => e == PipelineError::ArchiveError,
        }),
{
    match b.inner.into_inner() {
        Ok(v) => Ok(v),
        Err(_) => Err(PipelineError::ArchiveError),
    }
}

/// Relies on `tar::Archive::entries`: reads the metadata half of every
/// recorded row of an in-memory archive, in order.
#[verifier::external_body]
fn tar_read_meta(bytes: &Vec<u8>) -> (r: Option<Vec<RowMeta>>)
    ensures
        (match tar_rows_of(bytes@) {
            Some(rows) => r matches Some(v) && v@.map_values(|x: RowMeta| x@) == rows.map_values(
                |m: RawModel| meta_of(m),
            ),
            None => r is None,
        }),
{
    let mut ar = tar::Archive::new(bytes.as_slice());
    let mut out: Vec<RowMeta> = Vec::new();
    for ent in ar.entries().ok()? {
        let e = ent.ok()?;
        let path = e.path().ok()?.to_str()?.to_string();
        let target = e.link_name().ok()?.and_then(|p| p.to_str().map(str::to_string));
        let kind = e.header().entry_type();
        let mode = e.header().mode().ok()?;
        out.push(RowMeta { is_dir: kind.is_dir(), is_symlink: kind.is_symlink(), path, mode, target });
    }
    Some(out)
}

/// Relies on `tar::Archive::entries`: reads the payload of every recorded
/// row of an in-memory archive, in order (empty for rows without one). This
/// pass never looks at names or modes, so it can succeed on archives that
/// have no rows in the model; nothing is claimed of its payloads then.
#[verifier::external_body]
fn tar_read_data(bytes: &Vec<u8>) -> (r: Option<Vec<Vec<u8>>>)
    ensures
        (match r {
            Some(v) => tar_rows_of(bytes@) matches Some(rows) ==> v@.map_values(|d: Vec<u8>| d@)
                == rows.map_values(|m: RawModel| m.data),
            None => tar_rows_of(bytes@) is None,
        }),
{
    let mut ar = tar::Archive::new(bytes.as_slice());
    let mut out: Vec<Vec<u8>> = Vec::new();
    for ent in ar.entries().ok()? {
        let mut e = ent.ok()?;
        let mut data = Vec::new();
        std::io::Read::read_to_end(&mut e, &mut data).ok()?;
        out.push(data);
    }
    Some(out)
}

/// A verified byte-for-byte copy of a buffer.
fn clone_bytes(v: &Vec<u8>) -> (r: Vec<u8>)
    ensures
        r@ == v@,
{
    let mut out: Vec<u8> = Vec::new();
    let mut i: usize = 0;
    while i < v.len()
        invariant
            i <= v.len(),
            out@ == v@.subrange(0, i as int),
        decreases v.len() - i,
    {
        out.push(v[i]);
        proof {
            assert(v@.subrange(0, i as int + 1) =~= v@.subrange(0, i as int).push(v@[i as int]));
        }
        i = i + 1;
    }
    proof {
        assert(v@.subrange(0, v@.len() as int) =~= v@);
    }
    out
}

/// Serialize the entries of a tree, in order, into one archive byte stream.
///
/// On success the resulting bytes unpack to exactly the model of the given
/// entries.
pub(crate) fn pack_entries(entries: &Vec<TreeEntry>) -> (r: Result<Vec<u8>, PipelineError>)
    requires
        forall|j: int| 0 <= j < entries@.len() ==> entry_encodable(#[trigger] entries@[j]@),
    ensures
        r matches Ok(v) ==> untar_of(v@) == Some(tree_model(entries@)),
        r is Err ==> r == Err::<Vec<u8>, PipelineError>(PipelineError::ArchiveError),
{
    let mut b = tar_builder_new();
    let mut i: usize = 0;
    while i < entries.len()
        invariant
            i <= entries.len(),
            forall|j: int| 0 <= j < entries@.len() ==> entry_encodable(#[trigger] entries@[j]@),
            tar_contents(b) == tree_model(entries@.take(i as int)),
        decreases entries.len() - i,
    {
        proof {
            assert(entry_encodable(entries@[i as int]@));
        }
        let step = match &entries[i] {
            TreeEntry::Dir { path, mode } => tar_append_dir(&mut b, path, *mode),
            TreeEntry::File { path, mode, data } => tar_append_file(&mut b, path, *mode, data),
            TreeEntry::Symlink { path, target } => tar_append_symlink(&mut b, path, target),
        };
        match step {
            Ok(()) => (),
            Err(e) => {
                return Err(e);
            },
        }
        proof {
            assert(entries@.take(i as int + 1) =~= entries@.take(i as int).push(entries@[i as int]));
            assert(tree_model(entries@.take(i as int + 1)) =~= tree_model(
                entries@.take(i as int),
            ).push(entries@[i as int]@));
        }
        i = i + 1;
    }
    proof {
        assert(entries@.take(entries@.len() as int) =~= entries@);
    }
    tar_into_bytes(b)
}

/// Read the entries of an archive byte stream back, reporting a malformed
/// archive as the unpack failure.
pub(crate) fn tar_unpack(bytes: &Vec<u8>) -> (r: Result<Vec<TreeEntry>, PipelineError>)
    ensures
        (match untar_of(bytes@) {
            Some(s) => r matches Ok(v) && tree_model(v@) == s,
            None => r == Err::<Vec<TreeEntry>, PipelineError>(PipelineError::ArchiveError),
        }),
{
    let metas = match tar_read_meta(bytes) {
        Some(v) => v,
        None => {
            return Err(PipelineError::ArchiveError);
        },
    };
    let datas = match tar_read_data(bytes) {
        Some(v) => v,
        None => {
            return Err(PipelineError::ArchiveError);
        },
    };
    let ghost rows = match tar_rows_of(bytes@) {
        Some(rows) => rows,
        None => Seq::<RawModel>::empty(),
    };
    proof {
        assert(metas@.map_values(|x: RowMeta| x@).len() == metas@.len());
        assert(rows.map_values(|m: RawModel| meta_of(m)).len() == rows.len());
        assert(datas@.map_values(|d: Vec<u8>| d@).len() == datas@.len());
        assert(rows.map_values(|m: RawModel| m.data).len() == rows.len());
        assert(metas@.len() == rows.len());
        assert(datas@.len() == rows.len());
    }
    let mut out: Vec<TreeEntry> = Vec::new();
    let mut i: usize = 0;
    while i < metas.len()
        invariant
            i <= metas.len(),
            tar_rows_of(bytes@) == Some(rows),
            metas@.map_values(|x: RowMeta| x@) == rows.map_values(|m: RawModel| meta_of(m)),
            datas@.map_values(|d: Vec<u8>| d@) == rows.map_values(|m: RawModel| m.data),
            metas@.len() == rows.len(),
            datas@.len() == rows.len(),
            forall|j: int| 0 <= j < i ==> #[trigger] row_ok(rows[j]),
            tree_model(out@) == rows.subrange(0, i as int).map_values(|m: RawModel| row_entry(m)),
        decreases metas.len() - i,
    {
        proof {
            assert(metas@.map_values(|x: RowMeta| x@)[i as int] == metas@[i as int]@);
            assert(rows.map_values(|m: RawModel| meta_of(m))[i as int] == meta_of(rows[i as int]));
            assert(datas@.map_values(|d: Vec<u8>| d@)[i as int] == datas@[i as int]@);
            assert(rows.map_values(|m: RawModel| m.data)[i as int] == rows[i as int].data);
            assert(metas@[i as int]@ == meta_of(rows[i as int]));
            assert(datas@[i as int]@ == rows[i as int].data);
        }
        let meta = &metas[i];
        let entry = if meta.is_dir {
            TreeEntry::Dir { path: meta.path.clone(), mode: meta.mode }
        } else if meta.is_symlink {
            match &meta.target {
                Some(t) => TreeEntry::Symlink { path: meta.path.clone(), target: t.clone() },
                None => {
                    proof {
                        assert(!row_ok(rows[i as int]));
                    }
                    return Err(PipelineError::ArchiveError);
                },
            }
        } else {
            TreeEntry::File { path: meta.path.clone(), mode: meta.mode, data: clone_bytes(&datas[i]) }
        };
        proof {
            assert(row_ok(rows[i as int]));
            assert(entry@ == row_entry(rows[i as int]));
        }
        let ghost prev = out@;
        out.push(entry);
        proof {
            assert(tree_model(out@) =~= tree_model(prev).push(out@[prev.len() as int]@));
            assert(rows.subrange(0, i as int + 1) =~= rows.subrange(0, i as int).push(
                rows[i as int],
            ));
            assert(rows.subrange(0, i as int + 1).map_values(|m: RawModel| row_entry(m)) =~= rows
                .subrange(0, i as int).map_values(|m: RawModel| row_entry(m)).push(
                row_entry(rows[i as int]),
            ));
        }
        i = i + 1;
    }
    proof {
        assert(rows.subrange(0, rows.len() as int) =~= rows);
        assert(tree_model(out@) =~= rows.map_values(|m: RawModel| row_entry(m)));
    }
    Ok(out)
}

} // verus!
