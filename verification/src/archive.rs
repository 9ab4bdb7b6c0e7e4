//! Deterministic archive assembly.
//!
//! The archive phase runs after all fetch workers have joined. Members are
//! ordered by `sequence_index` — the original task order — not by completion
//! order, so the archive is identical regardless of network timing. Entries
//! are stored uncompressed with fixed permission bits for reproducibility.
//! A member whose payload could not be re-opened is skipped and the archive
//! still produced; a failure of the archive stream itself is fatal.

use vstd::prelude::*;

use crate::task::{FetchResult, PipelineError};

verus! {

/// Completed entries stand in original task order.
pub open spec fn sorted_by_sequence(s: Seq<FetchResult>) -> bool {
    forall|i: int, j: int|
        0 <= i < j < s.len() ==> s[i].sequence_index <= s[j].sequence_index
}

/// Re-establishes the original task order over the completion-ordered
/// results: the same entries, sorted by `sequence_index`.
pub fn order_for_archive(results: &Vec<FetchResult>) -> (ordered: Vec<FetchResult>)
    ensures
        ordered@.len() == results@.len(),
        ordered@.to_multiset() == results@.to_multiset(),
        sorted_by_sequence(ordered@),
{
    broadcast use vstd::seq_lib::group_to_multiset_ensures;

    let mut ordered: Vec<FetchResult> = Vec::new();
    let mut k: usize = 0;
    while k < results.len()
        invariant
            0 <= k <= results@.len(),
            ordered@.len() == k,
            ordered@.to_multiset() == results@.take(k as int).to_multiset(),
            sorted_by_sequence(ordered@),
        decreases results@.len() - k,
    {
        let x = results[k].clone();
        let mut p: usize = ordered.len();
        while p > 0 && ordered[p - 1].sequence_index > x.sequence_index
            invariant
                0 <= p <= ordered@.len(),
                forall|q: int|
                    p <= q < ordered@.len() ==> ordered@[q].sequence_index > x.sequence_index,
            decreases p,
        {
            p = p - 1;
        }
        let ghost pre = ordered@;
        ordered.insert(p, x);
        proof {
            let a = results@[k as int];
            let tk = results@.take(k as int);
            vstd::seq_lib::to_multiset_insert(pre, p as int, x);
            assert(ordered@.to_multiset() =~= pre.to_multiset().insert(x));
            vstd::seq_lib::to_multiset_build(tk, a);
            assert(results@.take(k + 1) =~= tk.push(a));
            assert(ordered@.to_multiset() =~= results@.take(k + 1).to_multiset());
            assert forall|i: int, j: int|
                0 <= i < j < ordered@.len() implies ordered@[i].sequence_index
                <= ordered@[j].sequence_index by {
                if p > 0 {
                    assert(pre[p - 1].sequence_index <= x.sequence_index);
                }
                if i < p {
                    assert(ordered@[i] == pre[i]);
                }
                if j < p {
                    assert(ordered@[j] == pre[j]);
                }
                if i > p {
                    assert(ordered@[i] == pre[i - 1]);
                }
                if j > p {
                    assert(ordered@[j] == pre[j - 1]);
                }
            }
        }
        k = k + 1;
    }
    proof {
        assert(results@.take(results@.len() as int) =~= results@);
    }
    ordered
}

/// No two entries share a `sequence_index` — what the pool's accounting
/// guarantees of the completed list.
pub open spec fn distinct_sequences(s: Seq<FetchResult>) -> bool {
    forall|i: int, j: int|
        0 <= i < j < s.len() ==> s[i].sequence_index != s[j].sequence_index
}

/// Order independence of completion, determinism of archiving: whatever
/// order the same results were completed in, sorting them by
/// `sequence_index` yields one and the same member order — so the archive
/// does not depend on network timing.
pub proof fn lemma_archive_order_deterministic(a: Seq<FetchResult>, b: Seq<FetchResult>)
    requires
        a.to_multiset() == b.to_multiset(),
        sorted_by_sequence(a),
        sorted_by_sequence(b),
        distinct_sequences(a),
        distinct_sequences(b),
    ensures
        a == b,
    decreases a.len(),
{
    broadcast use vstd::seq_lib::group_to_multiset_ensures;

    assert(a.len() == a.to_multiset().len());
    assert(b.len() == b.to_multiset().len());
    if a.len() == 0 {
        assert(a =~= b);
    } else {
        let x = a.last();
        let y = b.last();
        assert(a.contains(x));
        assert(a.to_multiset().count(x) > 0);
        assert(b.contains(x));
        let k = choose|k: int| 0 <= k < b.len() && b[k] == x;
        assert(x.sequence_index <= y.sequence_index);
        assert(b.to_multiset().count(y) > 0);
        assert(a.contains(y));
        let k2 = choose|k2: int| 0 <= k2 < a.len() && a[k2] == y;
        assert(y.sequence_index <= x.sequence_index);
        assert(x.sequence_index == y.sequence_index);
        if k != b.len() - 1 {
            assert(b[k].sequence_index != b[b.len() - 1].sequence_index);
            assert(false);
        }
        assert(x == y);
        let a1 = a.drop_last();
        let b1 = b.drop_last();
        vstd::seq_lib::to_multiset_remove(a, a.len() - 1);
        vstd::seq_lib::to_multiset_remove(b, b.len() - 1);
        assert(a.remove(a.len() - 1) =~= a1);
        assert(b.remove(b.len() - 1) =~= b1);
        assert(a1.to_multiset() =~= b1.to_multiset());
        lemma_archive_order_deterministic(a1, b1);
        assert(a =~= a1.push(x));
        assert(b =~= b1.push(y));
        assert(a == b);
    }
}

/// The `zip` crate's error type, mapped to `PipelineError::ArchiveWrite` by
/// the verified code.
#[verifier::external_type_specification]
#[verifier::external_body]
pub struct ExZipError(zip::result::ZipError);

/// An archive writer over an in-memory buffer. It wraps the `zip` crate's
/// writer, whose generic bounds Verus cannot declare, so the whole struct is
/// opaque and everything known of it is said through `zip_entries`.
#[verifier::external_body]
pub struct ArchiveWriter {
    inner: zip::write::ZipWriter<std::io::Cursor<Vec<u8>>>,
}

/// The members written into an archive so far: name and payload, in the
/// order they were appended.
pub uninterp spec fn zip_entries(w: ArchiveWriter) -> Seq<(Seq<char>, Seq<u8>)>;

/// The serialized archive for a member list: the `zip` crate's output with
/// the stored (uncompressed) method, fixed permission bits and its fixed
/// default timestamp, a function of the members alone. (The central
/// directory's "made by" system byte is a compile-time constant of the
/// build target, so one binary always writes the same bytes; binaries
/// built for different targets may differ in that byte.)
pub uninterp spec fn zip_encoding(entries: Seq<(Seq<char>, Seq<u8>)>) -> Seq<u8>;

/// Whether a writer already holding `entries` accepts one more member
/// `(name, data)`. Over an in-memory buffer this is a function of the
/// arguments alone: `start_file` rejects a duplicate or unencodable name
/// and a writer in a failed state, the stored write rejects only oversized
/// payloads, and the buffer itself cannot fail.
pub uninterp spec fn zip_appendable(
    entries: Seq<(Seq<char>, Seq<u8>)>,
    name: Seq<char>,
    data: Seq<u8>,
) -> bool;

/// Whether a writer holding `entries` finalizes successfully. Over an
/// in-memory buffer the writer's whole state after appending `entries` is
/// determined by them, so this too is a function of the entries alone.
pub uninterp spec fn zip_finalizable(entries: Seq<(Seq<char>, Seq<u8>)>) -> bool;

/// Every member of the list is accepted in turn, starting from a fresh
/// writer.
pub open spec fn zip_all_appendable(entries: Seq<(Seq<char>, Seq<u8>)>) -> bool
    decreases entries.len(),
{
    entries.len() == 0 || (zip_all_appendable(entries.drop_last()) && zip_appendable(
        entries.drop_last(),
        entries.last().0,
        entries.last().1,
    ))
}

/// The `zip` crate accepts this member list outright: every append
/// succeeds and the archive finalizes.
pub open spec fn zip_accepts(entries: Seq<(Seq<char>, Seq<u8>)>) -> bool {
    zip_all_appendable(entries) && zip_finalizable(entries)
}

/// Relies on zip::ZipWriter::new over a fresh cursor: a newly created
/// archive holds no members.
#[verifier::external_body]
fn zip_writer_new() -> (w: ArchiveWriter)
    ensures
        zip_entries(w) == Seq::<(Seq<char>, Seq<u8>)>::empty(),
{
    ArchiveWriter { inner: zip::write::ZipWriter::new(std::io::Cursor::new(Vec::new())) }
}

/// Relies on zip::ZipWriter::start_file and std::io::Write::write_all: the
/// append succeeds exactly when the writer's contents accept the new
/// member, and on success the archive gains exactly that member, stored
/// uncompressed with permission bits 0o755.
#[verifier::external_body]
fn zip_append_entry(w: &mut ArchiveWriter, name: &str, data: &Vec<u8>) -> (r: Result<
    (),
    zip::result::ZipError,
>)
    ensures
        r is Ok <==> zip_appendable(zip_entries(*old(w)), name@, data@),
        r is Ok ==> zip_entries(*final(w)) == zip_entries(*old(w)).push((name@, data@)),
{
    let options = zip::write::SimpleFileOptions::default()
        .compression_method(zip::CompressionMethod::Stored)
        .unix_permissions(0o755);
    w.inner.start_file(name, options)?;
    std::io::Write::write_all(&mut w.inner, data.as_slice())?;
    Ok(())
}

/// Relies on zip::ZipWriter::finish and std::io::Cursor::into_inner: the
/// call succeeds exactly when the written members finalize, and then the
/// returned bytes are their serialized archive.
#[verifier::external_body]
fn zip_finish(w: ArchiveWriter) -> (r: Result<Vec<u8>, zip::result::ZipError>)
    ensures
        r is Ok <==> zip_finalizable(zip_entries(w)),
        r is Ok ==> r->Ok_0@ == zip_encoding(zip_entries(w)),
{
    match w.inner.finish() {
        Ok(cursor) => Ok(cursor.into_inner()),
        Err(e) => Err(e),
    }
}

/// One prospective archive member: its name, and its payload if the fetched
/// file could still be opened — `None` marks a member that is skipped.
pub struct ArchiveMember {
    pub name: String,
    pub data: Option<Vec<u8>>,
}

/// The members that actually enter the archive: name and payload of every
/// entry whose payload is present, in order.
pub open spec fn present_entries(members: Seq<ArchiveMember>) -> Seq<(Seq<char>, Seq<u8>)>
    decreases members.len(),
{
    if members.len() == 0 {
        Seq::empty()
    } else {
        let rest = present_entries(members.drop_last());
        match members.last().data {
            Some(d) => rest.push((members.last().name@, d@)),
            None => rest,
        }
    }
}

/// A list every member of which is accepted also has every shorter front
/// accepted.
proof fn lemma_all_appendable_prefix(entries: Seq<(Seq<char>, Seq<u8>)>, i: int)
    requires
        0 <= i <= entries.len(),
        zip_all_appendable(entries),
    ensures
        zip_all_appendable(entries.take(i)),
    decreases entries.len(),
{
    if i == entries.len() {
        assert(entries.take(i) =~= entries);
    } else {
        assert(entries.len() > 0);
        lemma_all_appendable_prefix(entries.drop_last(), i);
        assert(entries.drop_last().take(i) =~= entries.take(i));
    }
}

/// The present entries of a front of the member list are a front of the
/// present entries of the whole list.
proof fn lemma_present_prefix(members: Seq<ArchiveMember>, j: int)
    requires
        0 <= j <= members.len(),
    ensures
        present_entries(members.take(j)).len() <= present_entries(members).len(),
        present_entries(members).take(present_entries(members.take(j)).len() as int)
            == present_entries(members.take(j)),
    decreases members.len() - j,
{
    let full = present_entries(members);
    if j == members.len() {
        assert(members.take(j) =~= members);
        assert(full.take(full.len() as int) =~= full);
    } else {
        lemma_present_prefix(members, j + 1);
        let cur = present_entries(members.take(j));
        let next = present_entries(members.take(j + 1));
        assert(members.take(j + 1).drop_last() =~= members.take(j));
        assert(members.take(j + 1).last() == members[j]);
        match members[j].data {
            Some(d) => {
                assert(next == cur.push((members[j].name@, d@)));
                assert(full.take(cur.len() as int) =~= full.take(next.len() as int).take(
                    cur.len() as int,
                ));
                assert(full.take(next.len() as int).take(cur.len() as int) =~= cur);
            },
            None => {
                assert(next == cur);
            },
        }
    }
}

/// Assembles the archive bytes from the member list, in the given order.
/// A member without a payload is skipped — the archive is still produced
/// from the remaining members — and the build succeeds exactly when the
/// `zip` crate accepts the remaining member list: only a rejected member
/// (such as a duplicate name) or a failed finalization aborts the
/// archiving phase.
pub fn build_archive(members: &Vec<ArchiveMember>) -> (r: Result<Vec<u8>, PipelineError>)
    ensures
        r is Ok <==> zip_accepts(present_entries(members@)),
        r is Ok ==> r->Ok_0@ == zip_encoding(present_entries(members@)),
        r is Err ==> r->Err_0 == PipelineError::ArchiveWrite,
{
    let mut w = zip_writer_new();
    let mut i: usize = 0;
    proof {
        assert(members@.take(0) =~= Seq::<ArchiveMember>::empty());
    }
    while i < members.len()
        invariant
            0 <= i <= members@.len(),
            zip_entries(w) == present_entries(members@.take(i as int)),
            zip_all_appendable(zip_entries(w)),
        decreases members@.len() - i,
    {
        let m = &members[i];
        let ghost prefix = zip_entries(w);
        match &m.data {
            Some(d) => {
                match zip_append_entry(&mut w, m.name.as_str(), d) {
                    Ok(_) => {
                        proof {
                            let ext = prefix.push((m.name@, d@));
                            assert(ext.drop_last() =~= prefix);
                            assert(ext.last() == (m.name@, d@));
                            assert(zip_all_appendable(ext));
                        }
                    },
                    Err(_) => {
                        proof {
                            // The rejected member is the next present entry
                            // of the whole list, so the whole list is not
                            // accepted either.
                            let full = present_entries(members@);
                            let ext = prefix.push((m.name@, d@));
                            assert(members@.take(i + 1).drop_last() =~= members@.take(i as int));
                            assert(members@.take(i + 1).last() == members@[i as int]);
                            assert(present_entries(members@.take(i + 1)) == ext);
                            lemma_present_prefix(members@, i as int + 1);
                            assert(full.take(ext.len() as int) == ext);
                            if zip_all_appendable(full) {
                                lemma_all_appendable_prefix(full, ext.len() as int);
                                assert(zip_all_appendable(ext));
                                assert(ext.drop_last() =~= prefix);
                                assert(zip_appendable(prefix, m.name@, d@));
                                assert(false);
                            }
                        }
                        return Err(PipelineError::ArchiveWrite);
                    },
                }
            },
            None => {},
        }
        i = i + 1;
        proof {
            assert(members@.take(i as int).drop_last() =~= members@.take(i as int - 1));
            assert(members@.take(i as int).last() == members@[i as int - 1]);
        }
    }
    proof {
        assert(members@.take(members@.len() as int) =~= members@);
    }
    match zip_finish(w) {
        Ok(bytes) => Ok(bytes),
        Err(_) => Err(PipelineError::ArchiveWrite),
    }
}

} // verus!
