//! Building archive images in memory.
//!
//! Every entry is written with the stored (uncompressed) method and fixed
//! 0o755 permission metadata, and the encoder's clock feature is off, so the
//! bytes of an archive are a function of its (name, payload) entries alone.
//! The encoding itself is done by the `zip` crate behind the trusted items
//! below; the loops that feed it are verified.

use vstd::prelude::*;

use crate::models::DownloadedItem;

verus! {

/// The bytes the encoder produces for one stored-method archive over the
/// given (entry name, payload) pairs, in order, with fixed permission
/// metadata: a function of the entries alone.
pub uninterp spec fn archive_bytes(items: Seq<(Seq<char>, Seq<u8>)>) -> Seq<u8>;

/// The byte image of a single-entry archive: the fragment the remote mode
/// uploads as one part.
pub open spec fn fragment_bytes(name: Seq<char>, payload: Seq<u8>) -> Seq<u8> {
    archive_bytes(seq![(name, payload)])
}

/// The (name, payload) view of a list of downloaded items.
pub open spec fn item_views(items: Seq<DownloadedItem>) -> Seq<(Seq<char>, Seq<u8>)> {
    items.map(|i: int, it: DownloadedItem| (it.name@, it.payload@))
}

/// An entry the encoder is sure to accept: the name fits the format's
/// 16-bit name field (counted in characters, leaving room for up to four
/// encoded bytes each) and the payload stays below the plain 32-bit size
/// limit.
pub open spec fn encodable_entry(name: Seq<char>, payload: Seq<u8>) -> bool {
    &&& name.len() <= 0x3fff
    &&& payload.len() < 0xffff_ffff
}

/// Entries the encoder is sure to accept as one archive: each within
/// bounds, and entry names pairwise distinct.
pub open spec fn encodable_items(items: Seq<(Seq<char>, Seq<u8>)>) -> bool {
    &&& (forall|i: int|
        0 <= i < items.len() ==> encodable_entry((#[trigger] items[i]).0, items[i].1))
    &&& (forall|i: int, j: int|
        0 <= i < j < items.len() ==> (#[trigger] items[i]).0 != (#[trigger] items[j]).0)
}

/// An in-progress in-memory archive, written by zip's ZipWriter. Verus
/// refuses to declare that writer's type (its trait bounds are outside
/// vstd), so it is held opaquely in this struct; what it holds is named by
/// `writer_entries` below.
#[verifier::external_body]
pub struct ArchiveWriter {
    inner: zip::ZipWriter<std::io::Cursor<Vec<u8>>>,
}

/// What an in-progress archive writer holds: the entries fed to it so far,
/// in order.
pub uninterp spec fn writer_entries(w: ArchiveWriter) -> Seq<(Seq<char>, Seq<u8>)>;

/// Whether the writer is still healthy: fresh, or every feed so far
/// succeeded, so it accepts further entries and can be finished.
pub uninterp spec fn writer_ok(w: ArchiveWriter) -> bool;

/// Relies on zip's ZipWriter::new: a fresh writer over an empty in-memory
/// buffer holds no entries and is healthy.
#[verifier::external_body]
fn writer_new() -> (w: ArchiveWriter)
    ensures
        writer_entries(w) == Seq::<(Seq<char>, Seq<u8>)>::empty(),
        writer_ok(w),
{
    ArchiveWriter { inner: zip::ZipWriter::new(std::io::Cursor::new(Vec::new())) }
}

/// Relies on zip's ZipWriter::start_file and its Write::write_all: on
/// success one more stored entry with 0o755 permissions stands in the
/// archive, named `name` and holding `payload`. Over an in-memory buffer
/// the only failures are a name already taken (the writer checks the raw
/// name bytes), a name past the format's 16-bit length field, or a payload
/// past the plain 32-bit size limit without the large-file option; so a
/// healthy writer accepts every fresh, bounded entry.
#[verifier::external_body]
fn writer_add(w: &mut ArchiveWriter, name: &str, payload: &Vec<u8>) -> (ok: bool)
    ensures
        ok ==> writer_entries(*final(w)) == writer_entries(*old(w)).push((name@, payload@))
            && writer_ok(*final(w)),
        (writer_ok(*old(w)) && encodable_entry(name@, payload@) && (forall|i: int|
            0 <= i < writer_entries(*old(w)).len() ==> (#[trigger] writer_entries(*old(w))[i]).0
                != name@)) ==> ok,
{
    let options = zip::write::SimpleFileOptions::default()
        .compression_method(zip::CompressionMethod::Stored)
        .unix_permissions(0o755);
    if w.inner.start_file(name, options).is_err() {
        return false;
    }
    std::io::Write::write_all(&mut w.inner, payload.as_slice()).is_ok()
}

/// Relies on zip's ZipWriter::finish: on success the buffer holds the
/// finalized archive image of exactly the entries fed to the writer. On a
/// healthy writer over an in-memory buffer it only repeats conversions
/// that already succeeded when each entry was fed, so it cannot fail.
#[verifier::external_body]
fn writer_finish(w: ArchiveWriter) -> (r: Option<Vec<u8>>)
    ensures
        (r matches Some(v) ==> v@ == archive_bytes(writer_entries(w))),
        writer_ok(w) ==> r is Some,
{
    match w.inner.finish() {
        Ok(cursor) => Some(cursor.into_inner()),
        Err(_) => None,
    }
}

/// Builds the archive image holding one stored entry per item, in order.
/// `None` means the encoder refused an entry; nothing was produced. The
/// encoder accepts every list of bounded, distinctly named entries.
pub fn build_archive(items: &Vec<DownloadedItem>) -> (r: Option<Vec<u8>>)
    ensures
        (r matches Some(v) ==> v@ == archive_bytes(item_views(items@))),
        encodable_items(item_views(items@)) ==> r is Some,
{
    let mut w = writer_new();
    let mut i: usize = 0;
    while i < items.len()
        invariant
            i <= items@.len(),
            writer_entries(w) == item_views(items@.take(i as int)),
            writer_ok(w),
        decreases items@.len() - i,
    {
        let it = &items[i];
        if !writer_add(&mut w, it.name.as_str(), &it.payload) {
            proof {
                if encodable_items(item_views(items@)) {
                    assert(item_views(items@)[i as int] == (it.name@, it.payload@));
                    assert(encodable_entry(it.name@, it.payload@));
                    assert forall|j: int|
                        0 <= j < item_views(items@.take(i as int)).len() implies (
                    #[trigger] item_views(items@.take(i as int))[j]).0 != it.name@ by {
                        assert((items@.take(i as int))[j] == items@[j]);
                        assert(item_views(items@.take(i as int))[j] == item_views(items@)[j]);
                        assert(item_views(items@)[j].0 != item_views(items@)[i as int].0);
                    }
                    assert(false);
                }
            }
            return None;
        }
        proof {
            assert(items@.take(i + 1int).drop_last() =~= items@.take(i as int));
            assert(item_views(items@.take(i + 1int)) =~= item_views(items@.take(i as int)).push((it.name@, it.payload@)));
        }
        i = i + 1;
    }
    proof {
        assert(items@.take(items@.len() as int) =~= items@);
    }
    writer_finish(w)
}

/// Builds the single-entry archive fragment for one downloaded item. The
/// encoder accepts every bounded entry.
pub fn build_entry_fragment(item: &DownloadedItem) -> (r: Option<Vec<u8>>)
    ensures
        (r matches Some(v) ==> v@ == fragment_bytes(item.name@, item.payload@)),
        encodable_entry(item.name@, item.payload@) ==> r is Some,
{
    let mut w = writer_new();
    if !writer_add(&mut w, item.name.as_str(), &item.payload) {
        return None;
    }
    proof {
        assert(Seq::<(Seq<char>, Seq<u8>)>::empty().push((item.name@, item.payload@))
            =~= seq![(item.name@, item.payload@)]);
    }
    writer_finish(w)
}

} // verus!
