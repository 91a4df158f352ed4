//! Reading a package archive and deciding, entry by entry, what to write.
//!
//! The archive is parsed by the zip crate; each entry is turned into an
//! [`EntryAction`] that names its destination inside the installation
//! directory, whether it is a file or a symbolic link, and the permission
//! bits to restore. A link whose target is absolute or climbs above the
//! installation directory is skipped, as is any entry whose own path would
//! leave it. Carrying the action out is left to the caller.

use vstd::prelude::*;
use std::io::Cursor;
use zip::ZipArchive;
use crate::error::{InstallError, ErrorView};
use crate::entry_path::{resolve_entry, entry_destination, components, path_components, is_safe, is_safe_component, is_separator};
use crate::packages::Os;
use crate::text::{decode_strict, trimmed, utf8_of, trim_of};

verus! {

/// The zip crate's archive reader, held opaque.
#[verifier::external_type_specification]
#[verifier::external_body]
#[verifier::reject_recursive_types(R)]
pub struct ExZipArchive<R>(ZipArchive<R>);

/// std's in-memory reader, which the archive reads package bytes through.
#[verifier::external_type_specification]
#[verifier::external_body]
#[verifier::reject_recursive_types(T)]
pub struct ExCursor<T>(Cursor<T>);

/// The names of the entries of an open archive, in the order of its central
/// directory.
pub uninterp spec fn entry_names(a: ZipArchive<Cursor<Vec<u8>>>) -> Seq<Seq<char>>;

/// What each entry of an open archive reads as: its unix mode and
/// decompressed contents, or `None` where the entry cannot be read. Reading
/// an archive held in memory depends on its bytes alone.
pub uninterp spec fn entry_contents(a: ZipArchive<Cursor<Vec<u8>>>) -> Seq<
    Option<(Option<u32>, Seq<u8>)>,
>;

/// The entry names that `ZipArchive::new` reads from the central directory
/// of `bytes`, or `None` where the bytes are no zip archive.
pub uninterp spec fn zip_names_of(bytes: Seq<u8>) -> Option<Seq<Seq<char>>>;

/// One entry as read from an archive.
pub struct RawEntry {
    pub name: String,
    pub unix_mode: Option<u32>,
    pub data: Vec<u8>,
}

/// Relies on `ZipArchive::new`: reads the central directory of the bytes.
#[verifier::external_body]
fn open_zip(bytes: Vec<u8>) -> (r: Option<ZipArchive<Cursor<Vec<u8>>>>)
    ensures
        r is Some <==> zip_names_of(bytes@) is Some,
        r matches Some(a) ==> zip_names_of(bytes@) == Some(entry_names(a)),
        r matches Some(a) ==> entry_contents(a).len() == entry_names(a).len(),
{
    ZipArchive::new(Cursor::new(bytes)).ok()
}

/// Relies on `ZipArchive::len`: the number of entries.
#[verifier::external_body]
fn zip_len(a: &ZipArchive<Cursor<Vec<u8>>>) -> (r: usize)
    ensures
        r == entry_names(*a).len(),
{
    a.len()
}

/// Relies on `ZipArchive::by_index`: the name, unix mode and decompressed
/// contents of entry `i`; `None` where the entry cannot be read. Reading moves
/// only the archive's cursor: the entries stay as they are.
#[verifier::external_body]
fn zip_entry(a: &mut ZipArchive<Cursor<Vec<u8>>>, i: usize) -> (r: Option<RawEntry>)
    ensures
        entry_names(*final(a)) == entry_names(*old(a)),
        entry_contents(*final(a)) == entry_contents(*old(a)),
        r is Some <==> (i < entry_contents(*old(a)).len() && entry_contents(*old(a))[i as int] is Some),
        r matches Some(e) ==> i < entry_names(*old(a)).len() && e.name@ == entry_names(
            *old(a),
        )[i as int] && entry_contents(*old(a))[i as int] == Some((e.unix_mode, e.data@)),
{
    let mut f = a.by_index(i).ok()?;
    let mut data: Vec<u8> = Vec::new();
    std::io::Read::read_to_end(&mut f, &mut data).ok()?;
    Some(RawEntry { name: f.name().to_string(), unix_mode: f.unix_mode(), data })
}

/// What to do with one archive entry.
pub enum EntryAction {
    /// The entry could not be read.
    Unreadable,
    /// Nothing is written: a directory entry, the target itself, an entry
    /// that would leave the installation directory, or a link whose target
    /// is not text.
    Skip,
    /// Write `data` to the file at `path`, then apply `mode` if given.
    WriteFile { path: Vec<String>, data: Vec<u8>, mode: Option<u32> },
    /// Replace whatever is at `path` by a link to `link_to`, then apply
    /// `mode` if given.
    Symlink { path: Vec<String>, link_to: String, mode: Option<u32> },
}

/// Whether the platform keeps unix permission bits and symbolic links.
pub open spec fn keeps_unix_modes(os: Os) -> bool {
    os != Os::Windows
}

/// Whether a unix mode marks a symbolic link: its file-type bits, above the
/// twelve permission bits, are exactly `0o12`.
pub open spec fn is_link_mode(mode: Option<u32>) -> bool {
    mode matches Some(m) && m / 4096 == 10
}

/// The action for an entry read as `name`, `mode` and `data`, of a package
/// whose target sub-path is `target`, on `os`.
pub open spec fn action_matches(
    r: EntryAction,
    name: Seq<char>,
    mode: Option<u32>,
    data: Seq<u8>,
    target: Seq<char>,
    os: Os,
) -> bool {
    let unix = keeps_unix_modes(os);
    let link = unix && is_link_mode(mode);
    let kept_mode = if unix {
        mode
    } else {
        None
    };
    match r {
        EntryAction::Unreadable => false,
        EntryAction::Skip => entry_destination(name, target) is None || (link && match utf8_of(
            data,
        ) {
            None => true,
            Some(t) => !link_stays_inside(entry_destination(name, target)->0, trim_of(t)),
        }),
        EntryAction::WriteFile { path, data: d, mode: m } => {
            &&& !link
            &&& entry_destination(name, target) == Some(path.deep_view())
            &&& d@ == data
            &&& m == kept_mode
        },
        EntryAction::Symlink { path, link_to, mode: m } => {
            &&& link
            &&& entry_destination(name, target) == Some(path.deep_view())
            &&& utf8_of(data) matches Some(t) && link_to@ == trim_of(t)
            &&& link_stays_inside(path.deep_view(), link_to@)
            &&& m == kept_mode
        },
    }
}

/// Whether the walk along the link target components `cs`, from index `k`
/// on, starting `depth` directories below the installation directory,
/// stays inside it: `..` climbs one level and may not leave it, any other
/// component descends and must be safe.
pub open spec fn link_walk_ok(cs: Seq<Seq<char>>, k: int, depth: int) -> bool
    decreases cs.len() - k,
{
    if k < 0 || k >= cs.len() {
        true
    } else if cs[k] == seq!['.', '.'] {
        depth > 0 && link_walk_ok(cs, k + 1, depth - 1)
    } else {
        is_safe_component(cs[k]) && link_walk_ok(cs, k + 1, depth + 1)
    }
}

/// Whether a link written at `dest` (components below the installation
/// directory) and pointing at `link_to` resolves inside the installation
/// directory: the target is relative and never climbs above it.
pub open spec fn link_stays_inside(dest: Seq<Seq<char>>, link_to: Seq<char>) -> bool {
    &&& !(link_to.len() > 0 && is_separator(link_to[0]))
    &&& link_walk_ok(components(link_to), 0, dest.len() - 1)
}

/// Whether a link at `dest_len` components below the installation
/// directory, pointing at `link_to`, stays inside it.
pub fn link_inside(dest_len: usize, link_to: &str) -> (r: bool)
    requires
        dest_len > 0,
    ensures
        r == (link_walk_ok(components(link_to@), 0, dest_len - 1) && !(link_to@.len() > 0
            && is_separator(link_to@[0]))),
{
    let chars = crate::text::chars_of(link_to);
    if chars.len() > 0 && (chars[0] == '/' || chars[0] == '\\') {
        return false;
    }
    let cs = path_components(link_to);
    let ghost cv = cs.deep_view();
    let ghost d0: int = dest_len - 1;
    let mut depth: u128 = (dest_len - 1) as u128;
    let mut k: usize = 0;
    while k < cs.len()
        invariant
            cv == cs.deep_view(),
            cv == components(link_to@),
            k <= cs.len(),
            depth <= d0 + k,
            d0 == dest_len - 1,
            link_walk_ok(cv, 0, d0) == link_walk_ok(cv, k as int, depth as int),
        decreases cs.len() - k,
    {
        let c = cs[k].as_str();
        assert(c@ == cv[k as int]);
        let chars_c = crate::text::chars_of(c);
        if chars_c.len() == 2 && chars_c[0] == '.' && chars_c[1] == '.' {
            assert(cv[k as int] =~= seq!['.', '.']);
            if depth == 0 {
                return false;
            }
            depth = depth - 1;
        } else {
            assert(cv[k as int] != seq!['.', '.']) by {
                if cv[k as int] == seq!['.', '.'] {
                    assert(c@.len() == 2 && c@[0] == '.' && c@[1] == '.');
                }
            }
            if !is_safe(c) {
                return false;
            }
            depth = depth + 1;
        }
        k += 1;
    }
    true
}

/// Decides what to do with one entry.
pub fn plan_entry(entry: RawEntry, target: &str, os: Os) -> (r: EntryAction)
    ensures
        action_matches(r, entry.name@, entry.unix_mode, entry.data@, target@, os),
{
    let unix = match os {
        Os::Windows => false,
        _ => true,
    };
    let link = unix && match entry.unix_mode {
        Some(m) => m / 4096 == 10,
        None => false,
    };
    let kept_mode = if unix {
        entry.unix_mode
    } else {
        None
    };
    let path = match resolve_entry(entry.name.as_str(), target) {
        Some(p) => p,
        None => {
            return EntryAction::Skip;
        },
    };
    if link {
        match decode_strict(entry.data.as_slice()) {
            Some(t) => {
                let link_to = trimmed(t.as_str());
                proof {
                    crate::entry_path::lemma_destination_stays_inside(entry.name@, target@);
                }
                if link_inside(path.len(), link_to.as_str()) {
                    EntryAction::Symlink { path, link_to, mode: kept_mode }
                } else {
                    EntryAction::Skip
                }
            },
            None => EntryAction::Skip,
        }
    } else {
        EntryAction::WriteFile { path, data: entry.data, mode: kept_mode }
    }
}

/// A package archive opened for extraction.
pub struct PackageArchive {
    archive: ZipArchive<Cursor<Vec<u8>>>,
}

impl PackageArchive {
    /// The names of the archive's entries.
    pub closed spec fn names(&self) -> Seq<Seq<char>> {
        entry_names(self.archive)
    }

    /// What each entry reads as (see [`entry_contents`]).
    pub closed spec fn contents(&self) -> Seq<Option<(Option<u32>, Seq<u8>)>> {
        entry_contents(self.archive)
    }

    /// Opens package bytes; `ArchiveCorrupt` exactly where they are no zip
    /// archive.
    pub fn open(bytes: Vec<u8>) -> (r: Result<PackageArchive, InstallError>)
        ensures
            r is Ok <==> zip_names_of(bytes@) is Some,
            r matches Ok(a) ==> zip_names_of(bytes@) == Some(a.names()) && a.contents().len()
                == a.names().len(),
            r matches Err(e) ==> e@ == ErrorView::ArchiveCorrupt,
    {
        match open_zip(bytes) {
            Some(archive) => Ok(PackageArchive { archive }),
            None => Err(InstallError::ArchiveCorrupt),
        }
    }

    /// The number of entries.
    pub fn len(&self) -> (r: usize)
        ensures
            r == self.names().len(),
    {
        zip_len(&self.archive)
    }

    /// Reads entry `i` and decides what to do with it for a package whose
    /// target sub-path is `target`.
    pub fn plan(&mut self, i: usize, target: &str, os: Os) -> (r: EntryAction)
        ensures
            final(self).names() == old(self).names(),
            final(self).contents() == old(self).contents(),
            r is Unreadable <==> !(i < old(self).contents().len() && old(self).contents()[i as int] is Some),
            (i < old(self).contents().len() && i < old(self).names().len()) ==> match old(self).contents()[i as int] {
                Some((mode, data)) => action_matches(r, old(self).names()[i as int], mode, data, target@, os),
                None => true,
            },
    {
        match zip_entry(&mut self.archive, i) {
            Some(entry) => {
                let r = plan_entry(entry, target, os);
                r
            },
            None => EntryAction::Unreadable,
        }
    }
}

/// The number of `true`s in `s`.
pub open spec fn count_true(s: Seq<bool>) -> nat
    decreases s.len(),
{
    if s.len() == 0 {
        0
    } else {
        count_true(s.drop_last()) + if s.last() {
            1nat
        } else {
            0nat
        }
    }
}

/// How many of the writes succeeded.
pub fn count_written(outcomes: &Vec<bool>) -> (r: usize)
    ensures
        r == count_true(outcomes@),
{
    let mut n: usize = 0;
    let mut i: usize = 0;
    while i < outcomes.len()
        invariant
            i <= outcomes.len(),
            n == count_true(outcomes@.take(i as int)),
            n <= i,
        decreases outcomes.len() - i,
    {
        assert(outcomes@.take(i + 1).drop_last() =~= outcomes@.take(i as int));
        if outcomes[i] {
            n += 1;
        }
        i += 1;
    }
    assert(outcomes@.take(i as int) =~= outcomes@);
    n
}

} // verus!
