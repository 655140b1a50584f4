//! Picking one member out of a bzip2-compressed tar archive held in memory.
//!
//! Decompressing and parsing are the work of the `bzip2` and `tar` crates;
//! this module walks over what they come upon and decides which member is
//! taken. Only that member is read; the others are passed over.

use crate::download::{DownloadError, DownloadErrorView};
use std::io::Read;
use vstd::prelude::*;

verus! {

/// What a walk over an archive comes upon.
pub enum MemberView {
    /// A member: its path as its header spells it, and what reading its
    /// contents gives, the bytes or the reason why they cannot be read.
    File { path: Seq<u8>, contents: Result<Seq<u8>, Seq<char>> },
    /// The archive cannot be read at this point; the reason.
    Damaged(Seq<char>),
}

/// A tar archive behind a bzip2 decoder, reading from bytes held in memory.
///
/// Holds a `tar::Archive` over a `bzip2::read::BzDecoder`. Nothing is known
/// of it but what [`archived`] and [`untouched`] name.
#[verifier::external_body]
pub struct Archive<'a> {
    inner: tar::Archive<std::io::Take<bzip2::read::BzDecoder<&'a [u8]>>>,
}

/// A walk over the members of an [`Archive`].
///
/// Holds a `tar::Entries`. Nothing is known of it but what [`pending`]
/// and [`in_hand`] name.
#[verifier::external_body]
pub struct Members<'a, 'b> {
    inner: tar::Entries<'a, std::io::Take<bzip2::read::BzDecoder<&'b [u8]>>>,
}

/// A member that a walk has come upon, not yet read.
///
/// Holds a `tar::Entry`. Nothing is known of it but what [`path_of`],
/// [`contents_of`] and [`in_hand`] name.
#[verifier::external_body]
pub struct Entry<'a, 'b> {
    inner: tar::Entry<'a, std::io::Take<bzip2::read::BzDecoder<&'b [u8]>>>,
}

/// What a raw walk over the bzip2-compressed tar archive `data` comes
/// upon, in archive order: each member, and, where the data cannot be
/// decompressed or parsed any further, the reason.
///
/// A raw walk takes every header of the archive for a member of its own,
/// with the path that the header itself holds. Headers that carry a long
/// name or other attributes for the member after them are members like
/// any other, and are not applied to that member.
///
/// This is what the `bzip2` and `tar` crates make of `data`. It is not
/// defined here; it is only taken to depend on nothing but `data`.
pub uninterp spec fn packed_members(data: Seq<u8>) -> Seq<MemberView>;

/// What a walk over `archive` from its start comes upon.
pub uninterp spec fn archived(archive: Archive<'_>) -> Seq<MemberView>;

/// Whether nothing has been read from `archive` yet.
pub uninterp spec fn untouched(archive: Archive<'_>) -> bool;

/// What `walk` has yet to come upon.
pub uninterp spec fn pending(walk: Members<'_, '_>) -> Seq<MemberView>;

/// Whether `entry` is the member that `walk` came upon last.
pub uninterp spec fn in_hand(walk: Members<'_, '_>, entry: Entry<'_, '_>) -> bool;

/// The path of `entry`, as its header spells it.
pub uninterp spec fn path_of(entry: Entry<'_, '_>) -> Seq<u8>;

/// What reading the contents of `entry` gives while it is in hand.
pub uninterp spec fn contents_of(entry: Entry<'_, '_>) -> Result<Seq<u8>, Seq<char>>;

/// Calls `bzip2::read::BzDecoder::new`, `std::io::Read::take` and
/// `tar::Archive::new`.
///
/// Trusted: all three only wrap the reader they are given and read
/// nothing, whatever `data` holds. So the archive is untouched, and a
/// walk over it comes upon what the two crates make of `data`.
///
/// The decoded stream is cut off after `u64::MAX` bytes, so that the
/// count that `tar` keeps of the bytes it has read fits its type.
#[verifier::external_body]
fn open_archive<'a>(data: &'a [u8]) -> (archive: Archive<'a>)
    ensures
        archived(archive) == packed_members(data@),
        untouched(archive),
{
    Archive { inner: tar::Archive::new(bzip2::read::BzDecoder::new(data).take(u64::MAX)) }
}

/// Calls `tar::Archive::entries` and `tar::Entries::raw`.
///
/// Trusted: the first fails exactly where the archive has been read from
/// before, and otherwise starts a walk at the first member; the second
/// makes the walk a raw one and reads nothing.
#[verifier::external_body]
fn archive_members<'a, 'b>(archive: &'a mut Archive<'b>) -> (walk: Result<Members<'a, 'b>, String>)
    ensures
        match walk {
            Ok(members) => untouched(*old(archive)) && pending(members) == archived(*old(archive)),
            Err(_) => !untouched(*old(archive)),
        },
{
    match archive.inner.entries() {
        Ok(inner) => Ok(Members { inner: inner.raw(true) }),
        Err(e) => Err(e.to_string()),
    }
}

/// Calls `Iterator::next` of `tar::Entries`.
///
/// Trusted: the walk comes upon its pending members one by one, in order,
/// and ends when none is pending. It passes over the contents of the
/// member before, if they have not been read. Where the next header
/// cannot be reached or read, the step comes out as an error with the
/// crate's message. A raw walk fails on data that is no archive; it does
/// not panic.
#[verifier::external_body]
fn next_entry<'a, 'b>(walk: &mut Members<'a, 'b>) -> (entry: Option<Result<Entry<'a, 'b>, String>>)
    ensures
        match entry {
            Some(Ok(e)) => pending(*old(walk)).len() > 0 && pending(*old(walk))[0]
                == (MemberView::File { path: path_of(e), contents: contents_of(e) }) && in_hand(
                *final(walk),
                e,
            ) && pending(*final(walk)) == pending(*old(walk)).skip(1),
            Some(Err(reason)) => pending(*old(walk)).len() > 0 && pending(*old(walk))[0]
                == MemberView::Damaged(reason@) && pending(*final(walk)) == pending(
                *old(walk),
            ).skip(1),
            None => pending(*old(walk)).len() == 0 && pending(*final(walk)).len() == 0,
        },
{
    match walk.inner.next()? {
        Ok(inner) => Some(Ok(Entry { inner })),
        Err(e) => Some(Err(e.to_string())),
    }
}

/// Calls `tar::Entry::path_bytes`.
///
/// Trusted: it hands out the path that the entry's header holds, and
/// reads nothing.
#[verifier::external_body]
fn entry_path(entry: &Entry<'_, '_>) -> (path: Vec<u8>)
    ensures
        path@ == path_of(*entry),
{
    entry.inner.path_bytes().into_owned()
}

/// Calls `std::io::Read::read_to_end` on a `tar::Entry`.
///
/// Trusted: it reads the contents of the entry from the archive, which
/// is sound only while the entry is in hand: the archive stands at the
/// entry's contents then. Contents that were read leave the walk as it
/// was; after a failure nothing is known of the walk.
#[verifier::external_body]
fn entry_contents<'a, 'b>(walk: &mut Members<'a, 'b>, entry: Entry<'a, 'b>) -> (contents: Result<
    Vec<u8>,
    String,
>)
    requires
        in_hand(*old(walk), entry),
    ensures
        crate::download::body_view(contents) == contents_of(entry),
        contents is Ok ==> pending(*final(walk)) == pending(*old(walk)),
{
    let mut entry = entry;
    let mut contents = Vec::new();
    match entry.inner.read_to_end(&mut contents) {
        Ok(_) => Ok(contents),
        Err(e) => Err(e.to_string()),
    }
}

/// What a walk over `members` in search of the path `wanted` ends with: the
/// contents of the first member whose path is exactly `wanted`, unless
/// they cannot be read or the archive is damaged before that member; and
/// the report that there is no such member where the walk comes to the
/// end. The members before the wanted one are passed over unread.
pub open spec fn spec_find(members: Seq<MemberView>, wanted: Seq<u8>) -> Result<
    Seq<u8>,
    DownloadErrorView,
>
    decreases members.len(),
{
    if members.len() == 0 {
        Err(DownloadErrorView::BinNotInArchive)
    } else {
        match spec_judge(members[0], wanted) {
            Some(verdict) => verdict,
            None => spec_find(members.skip(1), wanted),
        }
    }
}

/// What one member means for the search: nothing where it is a file of
/// another path, else the end of the search.
pub open spec fn spec_judge(member: MemberView, wanted: Seq<u8>) -> Option<
    Result<Seq<u8>, DownloadErrorView>,
> {
    match member {
        MemberView::Damaged(reason) => Some(Err(DownloadErrorView::IO(reason))),
        MemberView::File { path, contents } => if path == wanted {
            Some(
                match contents {
                    Ok(bytes) => Ok(bytes),
                    Err(reason) => Err(DownloadErrorView::IO(reason)),
                },
            )
        } else {
            None
        },
    }
}

/// The bytes or the error of a search's result, as sequences.
pub open spec fn found_view(found: Result<Vec<u8>, DownloadError>) -> Result<
    Seq<u8>,
    DownloadErrorView,
> {
    match found {
        Ok(contents) => Ok(contents@),
        Err(e) => Err(e@),
    }
}

/// Whether two slices hold the same bytes.
pub fn same_bytes(a: &[u8], b: &[u8]) -> (same: bool)
    ensures
        same == (a@ == b@),
{
    if a.len() != b.len() {
        return false;
    }
    let mut i: usize = 0;
    while i < a.len()
        invariant
            i <= a.len(),
            a.len() == b.len(),
            forall|k: int| 0 <= k < i ==> a[k] == b[k],
        decreases a.len() - i,
    {
        if a[i] != b[i] {
            return false;
        }
        i = i + 1;
    }
    assert(a@ =~= b@);
    true
}

/// Decompresses and walks the archive `data` and takes out the member
/// whose path is `wanted`. Only that member's contents are read.
pub fn unpack(data: &[u8], wanted: &[u8]) -> (found: Result<Vec<u8>, DownloadError>)
    ensures
        found_view(found) == spec_find(packed_members(data@), wanted@),
{
    let mut archive = open_archive(data);
    match archive_members(&mut archive) {
        Err(reason) => Err(DownloadError::IO(reason)),
        Ok(mut walk) => {
            loop
                invariant
                    spec_find(pending(walk), wanted@) == spec_find(packed_members(data@), wanted@),
                decreases pending(walk).len(),
            {
                match next_entry(&mut walk) {
                    None => {
                        return Err(DownloadError::BinNotInArchive);
                    },
                    Some(Err(reason)) => {
                        return Err(DownloadError::IO(reason));
                    },
                    Some(Ok(entry)) => {
                        let path = entry_path(&entry);
                        if same_bytes(path.as_slice(), wanted) {
                            return match entry_contents(&mut walk, entry) {
                                Ok(contents) => Ok(contents),
                                Err(reason) => Err(DownloadError::IO(reason)),
                            };
                        }
                    },
                }
            }
        },
    }
}

/// The search ends at the first member that it does not pass over, with
/// what that member means: later members with the same path, and damage
/// further on, change nothing.
pub proof fn law_search_ends_at_first_verdict(members: Seq<MemberView>, wanted: Seq<u8>, i: int)
    requires
        0 <= i < members.len(),
        forall|j: int| 0 <= j < i ==> spec_judge(#[trigger] members[j], wanted) is None,
        spec_judge(members[i], wanted) is Some,
    ensures
        Some(spec_find(members, wanted)) == spec_judge(members[i], wanted),
    decreases i,
{
    if i > 0 {
        let rest = members.skip(1);
        assert forall|j: int| 0 <= j < i - 1 implies spec_judge(#[trigger] rest[j], wanted)
            is None by {
            assert(rest[j] == members[j + 1]);
        }
        assert(rest[i - 1] == members[i]);
        law_search_ends_at_first_verdict(rest, wanted, i - 1);
    }
}

/// A search that passes over every member reports that the archive does
/// not hold the binary.
pub proof fn law_search_without_verdict(members: Seq<MemberView>, wanted: Seq<u8>)
    requires
        forall|j: int| 0 <= j < members.len() ==> spec_judge(#[trigger] members[j], wanted) is None,
    ensures
        spec_find(members, wanted) == Err::<Seq<u8>, DownloadErrorView>(
            DownloadErrorView::BinNotInArchive,
        ),
    decreases members.len(),
{
    if members.len() > 0 {
        let rest = members.skip(1);
        assert forall|j: int| 0 <= j < rest.len() implies spec_judge(#[trigger] rest[j], wanted)
            is None by {
            assert(rest[j] == members[j + 1]);
        }
        law_search_without_verdict(rest, wanted);
    }
}

/// The search finds contents only in a file of the wanted path.
pub proof fn law_found_contents_are_a_member(members: Seq<MemberView>, wanted: Seq<u8>)
    ensures
        spec_find(members, wanted) matches Ok(contents) ==> members.contains(
            MemberView::File { path: wanted, contents: Ok(contents) },
        ),
    decreases members.len(),
{
    if members.len() > 0 {
        match spec_judge(members[0], wanted) {
            Some(_) => {
                assert(spec_find(members, wanted) is Ok ==> members[0] == (MemberView::File {
                    path: wanted,
                    contents: Ok(spec_find(members, wanted)->Ok_0),
                }));
            },
            None => {
                let rest = members.skip(1);
                law_found_contents_are_a_member(rest, wanted);
                if let Ok(contents) = spec_find(rest, wanted) {
                    let wanted_member = MemberView::File { path: wanted, contents: Ok(contents) };
                    let k = choose|k: int| 0 <= k < rest.len() && rest[k] == wanted_member;
                    assert(members[k + 1] == wanted_member);
                }
            },
        }
    }
}

} // verus!
