//! Reading a ZIP archive that is held in memory.
//!
//! The archive format is left to the `zip` crate. What this module believes
//! of that crate is stated on the items below; everything else in the
//! library is proved from it.

use std::io::Cursor;
use std::io::Read;
use vstd::prelude::*;
use crate::text::texts;
use zip::ZipArchive;

verus! {

/// Declares `zip::ZipArchive`, so that an open archive can be held and
/// passed on. Nothing is known of what is inside one but what the items
/// below state.
#[verifier::external_type_specification]
#[verifier::external_body]
#[verifier::reject_recursive_types(R)]
pub struct ExZipArchive<R>(ZipArchive<R>);

/// Declares `std::io::Cursor`, the reader that an archive in memory is
/// opened on. Nothing is known of what is inside one.
#[verifier::external_type_specification]
#[verifier::external_body]
#[verifier::reject_recursive_types(T)]
pub struct ExCursor<T>(Cursor<T>);

/// One entry of an archive, as plain values.
#[derive(Clone, Debug, PartialEq, Eq)]
pub struct RawEntry {
    /// The entry's name after the archive reader has rewritten it into a
    /// relative path, one string per path component.
    pub components: Vec<String>,
    /// Whether the entry stands for a directory rather than a file.
    pub is_dir: bool,
    /// The entry's uncompressed bytes.
    pub content: Vec<u8>,
}

/// The mathematical value of a [`RawEntry`].
pub ghost struct RawEntryView {
    pub components: Seq<Seq<char>>,
    pub is_dir: bool,
    pub content: Seq<u8>,
}

impl View for RawEntry {
    type V = RawEntryView;

    open spec fn view(&self) -> RawEntryView {
        RawEntryView {
            components: texts(self.components@),
            is_dir: self.is_dir,
            content: self.content@,
        }
    }
}

/// The entries of an open archive in the order of its central directory.
/// An entry that cannot be opened without a password, or whose data cannot
/// be decoded, is `None`.
pub uninterp spec fn archive_entries(archive: ZipArchive<Cursor<Vec<u8>>>) -> Seq<Option<RawEntryView>>;

/// What `zip::ZipArchive::new` makes of a byte string: `None` where it
/// refuses the bytes, else the entries of the archive that it returns.
pub uninterp spec fn zip_directory(bytes: Seq<u8>) -> Option<Seq<Option<RawEntryView>>>;

/// Calls `zip::ZipArchive::new` on a cursor over `bytes`. The archive is
/// returned exactly when the crate accepts the bytes; its entries are the
/// ones that [`zip_directory`] names for these bytes.
#[verifier::external_body]
pub(crate) fn open_archive(bytes: Vec<u8>) -> (opened: Option<ZipArchive<Cursor<Vec<u8>>>>)
    ensures
        match opened {
            Some(archive) => zip_directory(bytes@) == Some(archive_entries(archive)),
            None => zip_directory(bytes@) is None,
        },
{
    ZipArchive::new(Cursor::new(bytes)).ok()
}

/// Calls `zip::ZipArchive::len`: the number of entries in the archive.
#[verifier::external_body]
pub(crate) fn entry_count(archive: &ZipArchive<Cursor<Vec<u8>>>) -> (count: usize)
    ensures
        count == archive_entries(*archive).len(),
{
    archive.len()
}

/// Calls `zip::ZipArchive::by_index` and reads the entry to its end, taking
/// its path from `ZipFile::mangled_name` and its kind from
/// `ZipFile::is_dir`. `by_index` unwraps the result of opening the entry
/// without a password, which is an error for an entry that carries
/// encryption data but is not flagged as encrypted. So the entry is first
/// opened with `ZipArchive::by_index_decrypt` and an empty password, and
/// given up where that does not succeed. The result is the element of
/// [`archive_entries`] at `index`, and the archive's entries are left as
/// they were.
#[verifier::external_body]
pub(crate) fn read_entry(archive: &mut ZipArchive<Cursor<Vec<u8>>>, index: usize) -> (entry: Option<RawEntry>)
    requires
        index < archive_entries(*old(archive)).len(),
    ensures
        archive_entries(*final(archive)) == archive_entries(*old(archive)),
        match entry {
            Some(e) => archive_entries(*old(archive))[index as int] == Some(e@),
            None => archive_entries(*old(archive))[index as int] is None,
        },
{
    if !matches!(archive.by_index_decrypt(index, &[]), Ok(Ok(_))) {
        return None;
    }
    let mut file = archive.by_index(index).ok()?;
    let components = file.mangled_name().components()
        .map(|c| c.as_os_str().to_string_lossy().into_owned()).collect();
    let is_dir = file.is_dir();
    let mut content = Vec::new();
    file.read_to_end(&mut content).ok()?;
    Some(RawEntry { components, is_dir, content })
}

} // verus!
