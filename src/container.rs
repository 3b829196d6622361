//! The compressed container, read through zip, and the selection of the
//! entries that hold a document's text.
use vstd::prelude::*;
use crate::document::{merges, selects, DocumentKind};
use crate::error::{outcome, ErrorView, ExtractError};

verus! {

#[verifier::external_type_specification]
#[verifier::external_body]
#[verifier::reject_recursive_types(R)]
pub struct ExZipArchive<R>(zip::ZipArchive<R>);

#[verifier::external_type_specification]
#[verifier::external_body]
#[verifier::reject_recursive_types(T)]
pub struct ExCursor<T>(std::io::Cursor<T>);

#[verifier::external_type_specification]
#[verifier::external_body]
pub struct ExZipError(zip::result::ZipError);

/// A container opened over bytes held in memory.
pub type Archive = zip::ZipArchive<std::io::Cursor<Vec<u8>>>;

/// One entry of a container: its name and its content as text, each absent
/// where it cannot be read.
pub struct EntryView {
    pub name: Option<Seq<char>>,
    pub text: Option<Seq<char>>,
}

/// The entries of the container held in `bytes`, in the container's order,
/// or nothing where the bytes are no container that zip can open.
pub uninterp spec fn container_listing(bytes: Seq<u8>) -> Option<Seq<EntryView>>;

/// The entries of an opened container.
pub uninterp spec fn archive_entries(a: zip::ZipArchive<std::io::Cursor<Vec<u8>>>) -> Seq<
    EntryView,
>;

/// The mathematical value of an optional string.
pub open spec fn optional_text(o: Option<String>) -> Option<Seq<char>> {
    match o {
        Some(s) => Some(s@),
        None => None,
    }
}

/// Relies on `zip::ZipArchive::new`: opens the container held in `bytes`,
/// or fails.
#[verifier::external_body]
fn open_archive(bytes: Vec<u8>) -> (r: Result<Archive, zip::result::ZipError>)
    ensures
        r is Ok <==> container_listing(bytes@) is Some,
        r matches Ok(a) ==> archive_entries(a) == container_listing(bytes@)->0,
{
    zip::ZipArchive::new(std::io::Cursor::new(bytes))
}

/// Relies on `zip::ZipArchive::len`: the number of entries.
#[verifier::external_body]
fn entry_count(a: &Archive) -> (r: usize)
    ensures
        r == archive_entries(*a).len(),
{
    a.len()
}

/// Relies on `zip::ZipArchive::by_index_raw` and `ZipFile::name`: the name of
/// entry `i`, where its header can be read. Reading seeks to the entry and
/// leaves the entries as they were.
#[verifier::external_body]
fn entry_name(a: &mut Archive, i: usize) -> (r: Option<String>)
    requires
        i < archive_entries(*old(a)).len(),
    ensures
        archive_entries(*final(a)) == archive_entries(*old(a)),
        optional_text(r) == archive_entries(*old(a))[i as int].name,
{
    a.by_index_raw(i).ok().map(|f| f.name().to_string())
}

/// Relies on `zip::ZipArchive::by_index_decrypt` and `Read::read_to_string`:
/// the decompressed content of entry `i` as UTF-8 text, where it can be read.
/// The empty password is offered, so an entry that needs another one, or an
/// AES one, is unreadable rather than a panic.
#[verifier::external_body]
fn entry_text(a: &mut Archive, i: usize) -> (r: Option<String>)
    requires
        i < archive_entries(*old(a)).len(),
    ensures
        archive_entries(*final(a)) == archive_entries(*old(a)),
        optional_text(r) == archive_entries(*old(a))[i as int].text,
{
    let mut s = String::new();
    match a.by_index_decrypt(i, &[]) {
        Ok(Ok(mut f)) => std::io::Read::read_to_string(&mut f, &mut s).ok().map(|_| s),
        Ok(Err(_)) => None,
        Err(_) => None,
    }
}

/// Puts `prefix` in front of a successful selection.
pub open spec fn prefixed(prefix: Seq<char>, r: Result<Seq<char>, ErrorView>) -> Result<
    Seq<char>,
    ErrorView,
> {
    match r {
        Ok(t) => Ok(prefix + t),
        Err(e) => Err(e),
    }
}

/// The text of the entries from index `i` on that `kind` selects: the first
/// one only, or all of them in order where `kind` merges. An entry whose
/// name cannot be read, or a selected entry whose content cannot, fails the
/// selection.
pub open spec fn selected_from(kind: DocumentKind, entries: Seq<EntryView>, i: nat) -> Result<
    Seq<char>,
    ErrorView,
>
    decreases entries.len() - i,
{
    if i >= entries.len() {
        Ok(Seq::empty())
    } else {
        match entries[i as int].name {
            None => Err(ErrorView::UnreadableEntry),
            Some(n) => if selects(kind, n) {
                match entries[i as int].text {
                    None => Err(ErrorView::UnreadableEntry),
                    Some(t) => if merges(kind) {
                        prefixed(t, selected_from(kind, entries, i + 1))
                    } else {
                        Ok(t)
                    },
                }
            } else {
                selected_from(kind, entries, i + 1)
            },
        }
    }
}

/// The text of the entries of `entries` that `kind` selects.
pub open spec fn selected(kind: DocumentKind, entries: Seq<EntryView>) -> Result<
    Seq<char>,
    ErrorView,
> {
    selected_from(kind, entries, 0)
}

/// Opens the container held in `bytes`.
pub fn open_container(bytes: Vec<u8>) -> (r: Result<Archive, ExtractError>)
    ensures
        r is Ok <==> container_listing(bytes@) is Some,
        r matches Err(e) ==> e@ == ErrorView::ContainerOpenFailure,
        r matches Ok(a) ==> archive_entries(a) == container_listing(bytes@)->0,
{
    match open_archive(bytes) {
        Ok(a) => Ok(a),
        Err(_) => Err(ExtractError::ContainerOpenFailure),
    }
}

/// Concatenates, in container order, the content of the entries that `kind`
/// selects.
pub fn select_entries(kind: DocumentKind, a: &mut Archive) -> (r: Result<String, ExtractError>)
    ensures
        archive_entries(*final(a)) == archive_entries(*old(a)),
        outcome(r) == selected(kind, archive_entries(*old(a))),
{
    let ghost entries = archive_entries(*a);
    let n = entry_count(a);
    let mut acc = String::new();
    let mut i: usize = 0;
    while i < n
        invariant
            n == entries.len(),
            entries == archive_entries(*old(a)),
            i <= n,
            archive_entries(*a) == entries,
            selected(kind, entries) == prefixed(acc@, selected_from(kind, entries, i as nat)),
        decreases n - i,
    {
        let name = entry_name(a, i);
        match name {
            None => {
                return Err(ExtractError::UnreadableEntry);
            },
            Some(name) => {
                if kind.selects(name.as_str()) {
                    match entry_text(a, i) {
                        None => {
                            return Err(ExtractError::UnreadableEntry);
                        },
                        Some(t) => {
                            let ghost before = acc@;
                            acc.append(t.as_str());
                            if !kind.merges() {
                                return Ok(acc);
                            }
                            proof {
                                let rest = selected_from(kind, entries, (i + 1) as nat);
                                match rest {
                                    Ok(x) => {
                                        assert(before + (t@ + x) =~= acc@ + x);
                                    },
                                    Err(_) => {},
                                }
                            }
                        },
                    }
                }
            },
        }
        i = i + 1;
    }
    proof {
        assert(acc@ + Seq::<char>::empty() =~= acc@);
    }
    Ok(acc)
}

} // verus!
