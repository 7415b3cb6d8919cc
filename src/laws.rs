use vstd::prelude::*;

use crate::reader::{evict, first_idle, index_of, CacheView, EntryView};
use crate::types::{byte_log2, log2_byte, FaceInfo, Res};
use crate::writer::WriterView;

verus! {

/// Packing a resolution gives a 16-bit value, and unpacking that value
/// gives the resolution back.
pub proof fn lemma_res_packed_round_trip(r: Res)
    ensures
        0 <= r.spec_value() < 0x10000,
        Res::spec_from_value(r.spec_value()) == r,
{
    let lo = log2_byte(r.ulog2);
    let hi = log2_byte(r.vlog2);
    assert((lo + 256 * hi) % 256 == lo && (lo + 256 * hi) / 256 == hi) by (nonlinear_arith)
        requires
            0 <= lo < 256,
            0 <= hi < 256,
    ;
}

/// Unpacking a 16-bit value and packing the resolution gives the value back.
pub proof fn lemma_res_unpacked_round_trip(value: u16)
    ensures
        Res::spec_from_value(value as int).spec_value() == value,
{
    let v = value as int;
    assert(v == v % 256 + 256 * (v / 256));
    assert(log2_byte(byte_log2(v % 256)) == v % 256);
    assert(log2_byte(byte_log2(v / 256)) == v / 256);
}

/// Exchanging u and v twice gives the resolution back.
pub proof fn lemma_res_swap_involution(r: Res)
    ensures
        r.spec_swapped().spec_swapped() == r,
{
}

/// In a new cache limited to one open file, a texture that was opened and
/// then released is closed as soon as a second texture is opened, and a
/// later lookup of it misses, so that it is opened again from the store.
pub proof fn lemma_single_file_cache_reopens(
    c: CacheView,
    a: Seq<char>,
    b: Seq<char>,
    ha: u64,
    hb: u64,
    ma: nat,
    mb: nat,
)
    requires
        c.wf(),
        c.max_files == 1,
        c.entries.len() == 0,
        a != b,
    ensures
        ({
            let c1 = c.spec_insert(a, ha, ma).0;
            let c2 = c1.spec_release(a).0;
            let c3 = c2.spec_insert(b, hb, mb);
            &&& c3.1 == seq![ha]
            &&& c3.0.entries.len() == 1
            &&& index_of(c3.0.entries, a) == -1
            &&& c3.0.spec_lookup(a) == (c3.0, None::<u64>)
        }),
{
    let ea = EntryView { path: a, handle: ha, borrows: 1, memory: ma };
    let s1 = c.entries.push(ea);
    assert(s1 =~= seq![ea]);
    assert(first_idle(s1) == 1) by {
        assert(s1.drop_first() =~= Seq::<EntryView>::empty());
        assert(first_idle(s1.drop_first()) == 0);
    }
    assert(evict(s1, 1, c.max_mem) == (s1, Seq::<u64>::empty()));
    assert(index_of(c.entries, a) == -1);
    let c1 = c.spec_insert(a, ha, ma).0;
    assert(c1.entries == s1);
    assert(index_of(s1, a) == 0) by {
        assert(s1[0].path == a);
    }
    let ea0 = EntryView { borrows: 0, ..ea };
    let c2 = c1.spec_release(a).0;
    assert(c2.entries =~= seq![ea0]);
    assert(index_of(c2.entries, b) == -1);
    let eb = EntryView { path: b, handle: hb, borrows: 1, memory: mb };
    let s3 = c2.entries.push(eb);
    assert(s3 =~= seq![ea0, eb]);
    assert(first_idle(s3) == 0);
    assert(s3.remove(0) =~= seq![eb]);
    let rest = seq![eb];
    assert(first_idle(rest) == 1) by {
        assert(rest.drop_first() =~= Seq::<EntryView>::empty());
        assert(first_idle(rest.drop_first()) == 0);
    }
    assert(evict(rest, 1, c.max_mem) == (rest, Seq::<u64>::empty()));
    assert(evict(s3, 1, c.max_mem) == (rest, seq![ha] + Seq::<u64>::empty()));
    assert(seq![ha] + Seq::<u64>::empty() =~= seq![ha]);
    let c3 = c2.spec_insert(b, hb, mb).0;
    assert(c3.entries == rest);
    assert(index_of(rest, a) == -1) by {
        assert(rest[0].path == b);
    }
}

/// Writes faces `0` to `infos.len() - 1` in order, face `i` from `infos[i]`,
/// each from a buffer of `nbytes` bytes with rows `stride` bytes apart:
/// the writer after the last write, and whether every write succeeded.
pub open spec fn write_in_order(
    w: WriterView,
    infos: Seq<FaceInfo>,
    elem_width: int,
    nbytes: int,
    stride: int,
) -> (WriterView, bool)
    decreases infos.len(),
{
    if infos.len() == 0 {
        (w, true)
    } else {
        let before = write_in_order(w, infos.drop_last(), elem_width, nbytes, stride);
        let after = before.0.spec_write_face(
            infos.len() - 1,
            infos.last(),
            elem_width,
            nbytes,
            stride,
        );
        (after.0, before.1 && after.1)
    }
}

proof fn lemma_write_prefix(
    w: WriterView,
    infos: Seq<FaceInfo>,
    elem_width: int,
    nbytes: int,
    stride: int,
)
    requires
        w.wf(),
        !w.closed,
        infos.len() <= w.faces.len(),
        forall|i: int|
            0 <= i < infos.len() ==> (#[trigger] w.face_fault(
                i,
                infos[i].res,
                elem_width,
                nbytes,
                stride,
            )) is None,
    ensures
        ({
            let r = write_in_order(w, infos, elem_width, nbytes, stride);
            &&& r.1
            &&& r.0.wf()
            &&& !r.0.closed
            &&& r.0.path == w.path
            &&& r.0.header == w.header
            &&& r.0.faces.len() == w.faces.len()
            &&& forall|i: int| 0 <= i < infos.len() ==> #[trigger] r.0.faces[i] == infos[i]
        }),
    decreases infos.len(),
{
    if infos.len() > 0 {
        let init = infos.drop_last();
        assert forall|i: int| 0 <= i < init.len() implies (#[trigger] w.face_fault(
            i,
            init[i].res,
            elem_width,
            nbytes,
            stride,
        )) is None by {
            assert(init[i] == infos[i]);
            assert(w.face_fault(i, infos[i].res, elem_width, nbytes, stride) is None);
        }
        lemma_write_prefix(w, init, elem_width, nbytes, stride);
        let n = infos.len() - 1;
        let w1 = write_in_order(w, init, elem_width, nbytes, stride).0;
        assert(w.face_fault(n, infos[n].res, elem_width, nbytes, stride) is None);
        assert(w1.face_fault(n, infos.last().res, elem_width, nbytes, stride) == w.face_fault(
            n,
            infos[n].res,
            elem_width,
            nbytes,
            stride,
        ));
    }
}

/// A writer declared with N faces, given faces `0` to `N - 1` in order, each
/// one well formed for the writer, accepts every write; the texture it then
/// describes has N faces, the declared data type, and for each face the
/// resolution that was written.
pub proof fn lemma_writer_round_trip(
    w: WriterView,
    infos: Seq<FaceInfo>,
    elem_width: int,
    nbytes: int,
    stride: int,
)
    requires
        w.wf(),
        !w.closed,
        infos.len() == w.faces.len(),
        forall|i: int|
            0 <= i < infos.len() ==> (#[trigger] w.face_fault(
                i,
                infos[i].res,
                elem_width,
                nbytes,
                stride,
            )) is None,
    ensures
        ({
            let r = write_in_order(w, infos, elem_width, nbytes, stride);
            let t = r.0.spec_texture();
            &&& r.1
            &&& t.faces.len() == infos.len()
            &&& t.header.data_type == w.header.data_type
            &&& forall|i: int| 0 <= i < infos.len() ==> #[trigger] t.faces[i].res == infos[i].res
        }),
{
    lemma_write_prefix(w, infos, elem_width, nbytes, stride);
}

} // verus!
