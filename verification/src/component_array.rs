//! A typed entity store with a byte-exact buffer mirror.
//!
//! `ComponentArray<T>` owns the authoritative CPU array of records and a
//! byte vector that is, at every step, exactly the encoding of that
//! array: the content destined for the GPU-resident storage buffer.
//! `buffer_size` is the byte size of the GPU-side allocation; it grows
//! when the mirror outgrows it and never shrinks. A caller that sees
//! `buffer_size` change after a `push` must recreate the device buffer
//! (and any bind groups over it) from the whole mirror; otherwise
//! re-uploading the freshly written byte range is enough.

use vstd::prelude::*;
use vstd::arithmetic::mul::lemma_mul_inequality;
use crate::components::component::{
    Component, ComponentData, component_bytes, component_byte_len, lemma_component_bytes_len,
    encode_component, FlagOp, apply_flag_spec,
};

verus! {

/// The bytes of record `i` inside a mirror: one record-sized slice.
pub open spec fn record_slice<T: ComponentData>(buffer: Seq<u8>, i: int) -> Seq<u8> {
    buffer.subrange(
        i * component_byte_len::<T>() as int,
        (i + 1) * component_byte_len::<T>() as int,
    )
}

/// The mirror is byte-for-byte the encoding of the record array: it has
/// exactly one record-sized slice per record, and each slice is that
/// record's encoding.
pub open spec fn mirror_ok<T: ComponentData>(array: Seq<Component<T>>, buffer: Seq<u8>) -> bool {
    &&& buffer.len() == array.len() * component_byte_len::<T>() as int
    &&& forall|i: int|
        0 <= i < array.len() ==> #[trigger] record_slice::<T>(buffer, i) == component_bytes(
            array[i],
        )
}

/// Two byte strings that agree on record `m`'s byte range have the same
/// record `m` slice.
pub proof fn lemma_record_slice_eq<T: ComponentData>(a: Seq<u8>, b: Seq<u8>, m: int)
    requires
        0 <= m,
        (m + 1) * component_byte_len::<T>() as int <= a.len(),
        (m + 1) * component_byte_len::<T>() as int <= b.len(),
        forall|k: int|
            m * component_byte_len::<T>() as int <= k < (m + 1) * component_byte_len::<T>() as int
                ==> a[k] == b[k],
    ensures
        record_slice::<T>(a, m) == record_slice::<T>(b, m),
{
    let r = component_byte_len::<T>() as int;
    assert(m * r >= 0 && m * r + r == (m + 1) * r) by (nonlinear_arith)
        requires m >= 0 && r >= 0;
    assert(record_slice::<T>(a, m) =~= record_slice::<T>(b, m));
}

/// The encoding of a whole record sequence, first record first.
pub open spec fn components_bytes<T: ComponentData>(s: Seq<Component<T>>) -> Seq<u8>
    decreases s.len(),
{
    if s.len() == 0 {
        Seq::empty()
    } else {
        components_bytes(s.drop_last()) + component_bytes(s.last())
    }
}

/// The encoding of `s` takes one record-sized block per record.
pub proof fn lemma_components_bytes_len<T: ComponentData>(s: Seq<Component<T>>)
    ensures
        components_bytes(s).len() == s.len() * component_byte_len::<T>() as int,
    decreases s.len(),
{
    if s.len() > 0 {
        lemma_components_bytes_len(s.drop_last());
        lemma_component_bytes_len(s.last());
        assert(s.len() * component_byte_len::<T>() as int == (s.len() - 1) * component_byte_len::<
            T,
        >() as int + component_byte_len::<T>() as int) by (nonlinear_arith);
    }
}

/// Appending one record appends exactly its encoding.
pub proof fn lemma_components_bytes_push<T: ComponentData>(s: Seq<Component<T>>, c: Component<T>)
    ensures
        components_bytes(s.push(c)) == components_bytes(s) + component_bytes(c),
{
    assert(s.push(c).drop_last() =~= s);
    assert(s.push(c).last() == c);
}

/// A mirror that is record-for-record correct is, as one byte string,
/// exactly the encoding of the array.
pub proof fn lemma_mirror_is_encoding<T: ComponentData>(array: Seq<Component<T>>, buffer: Seq<u8>)
    requires
        mirror_ok::<T>(array, buffer),
    ensures
        buffer == components_bytes(array),
    decreases array.len(),
{
    let r = component_byte_len::<T>() as int;
    lemma_components_bytes_len(array);
    if array.len() == 0 {
        assert(buffer =~= components_bytes(array));
    } else {
        let n = array.len() as int;
        assert((n - 1) * r >= 0) by (nonlinear_arith)
            requires n >= 1 && r >= 0;
        assert((n - 1) * r <= n * r) by (nonlinear_arith)
            requires n >= 1 && r >= 0;
        let prefix = buffer.subrange(0, (n - 1) * r);
        assert forall|i: int| 0 <= i < n - 1 implies #[trigger] record_slice::<T>(prefix, i)
            == component_bytes(array.drop_last()[i]) by {
            lemma_mul_inequality(i + 1, n - 1, r);
            lemma_mul_inequality(n - 1, n, r);
            lemma_record_slice_eq::<T>(prefix, buffer, i);
        }
        lemma_mirror_is_encoding(array.drop_last(), prefix);
        lemma_component_bytes_len(array.last());
        assert(record_slice::<T>(buffer, n - 1) == component_bytes(array.last()));
        assert(buffer =~= prefix + record_slice::<T>(buffer, n - 1));
        assert(components_bytes(array) == components_bytes(array.drop_last()) + component_bytes(
            array.last(),
        ));
    }
}

/// Pushing records never reassigns an index: every index handed out
/// before still names the same record afterwards.
pub proof fn lemma_index_stability<T>(prior: Seq<Component<T>>, c: Component<T>)
    ensures
        prior.push(c).len() == prior.len() + 1,
        forall|i: int| 0 <= i < prior.len() ==> prior.push(c)[i] == prior[i],
{
}

/// Building a draft record grows the store exactly once: the first call
/// appends one record, and every later in-place rewrite of the draft
/// keeps the length and leaves every other record exactly as it was.
pub proof fn lemma_draft_growth<T>(s: Seq<Component<T>>, c0: Component<T>, c1: Component<T>)
    ensures
        s.push(c0).len() == s.len() + 1,
        s.push(c0).update(s.len() as int, c1).len() == s.len() + 1,
        s.push(c0).update(s.len() as int, c1)[s.len() as int] == c1,
        forall|j: int| 0 <= j < s.len() ==> s.push(c0).update(s.len() as int, c1)[j] == s[j],
{
}

/// Growing the store preserves the encoding of everything already
/// stored: the new mirror starts with the old mirror, byte for byte.
pub proof fn lemma_growth_preserves_prefix<T: ComponentData>(s: Seq<Component<T>>, c: Component<T>)
    ensures
        components_bytes(s.push(c)) == components_bytes(s) + component_bytes(c),
        components_bytes(s.push(c)).subrange(0, components_bytes(s).len() as int)
            == components_bytes(s),
{
    lemma_components_bytes_push(s, c);
    assert(components_bytes(s.push(c)).subrange(0, components_bytes(s).len() as int)
        =~= components_bytes(s));
}

/// What a flag mutation does to a store: for a valid index the one
/// record's flag word is rewritten and nothing else moves; for a stale
/// index the store is exactly as it was.
pub open spec fn store_flag_updated<T: ComponentData>(
    pre: ComponentArray<T>,
    post: ComponentArray<T>,
    index: int,
    op: FlagOp,
) -> bool {
    &&& post.buffer_size == pre.buffer_size
    &&& if 0 <= index < pre.array@.len() {
        post.array@ == pre.array@.update(
            index,
            Component {
                data: pre.array@[index].data,
                flags: apply_flag_spec(pre.array@[index].flags, op),
            },
        )
    } else {
        post == pre
    }
}

/// A flag mutation seen through the store's views: payloads stay as they
/// were and the flag sequence changes in at most the one place.
pub proof fn lemma_store_flag_updated_views<T: ComponentData>(
    pre: ComponentArray<T>,
    post: ComponentArray<T>,
    index: int,
    op: FlagOp,
)
    requires
        store_flag_updated(pre, post, index, op),
    ensures
        post.data_view() == pre.data_view(),
        post.array@.len() == pre.array@.len(),
        post.flags_view() == if 0 <= index < pre.flags_view().len() {
            pre.flags_view().update(index, apply_flag_spec(pre.flags_view()[index], op))
        } else {
            pre.flags_view()
        },
{
    if 0 <= index < pre.array@.len() {
        assert(post.data_view() =~= pre.data_view());
        assert(post.flags_view() =~= pre.flags_view().update(
            index,
            apply_flag_spec(pre.flags_view()[index], op),
        ));
    }
}

/// A growable array of records of one entity type, with the byte mirror
/// of the GPU-resident storage buffer and that buffer's allocated size.
pub struct ComponentArray<T: ComponentData> {
    pub array: Vec<Component<T>>,
    pub buffer: Vec<u8>,
    pub buffer_size: usize,
}

impl<T: ComponentData> ComponentArray<T> {
    /// The store's invariant: the mirror encodes the array exactly and
    /// the GPU allocation is large enough to hold it.
    pub open spec fn wf(self) -> bool {
        &&& mirror_ok::<T>(self.array@, self.buffer@)
        &&& self.buffer@.len() <= self.buffer_size
    }

    /// A store over `array`, with a freshly encoded mirror and a
    /// GPU allocation of exactly the mirror's size.
    pub fn new(array: Vec<Component<T>>) -> (r: ComponentArray<T>)
        ensures
            r.wf(),
            r.array@ == array@,
            r.buffer_size == r.buffer@.len(),
    {
        let mut buffer: Vec<u8> = Vec::new();
        let n = array.len();
        let mut i: usize = 0;
        while i < n
            invariant
                i <= n,
                n == array@.len(),
                buffer@.len() == i * component_byte_len::<T>() as int,
                forall|m: int|
                    0 <= m < i ==> #[trigger] record_slice::<T>(buffer@, m) == component_bytes(
                        array@[m],
                    ),
            decreases n - i,
        {
            let ghost pre = buffer@;
            let ci = array[i];
            encode_component(&ci, &mut buffer);
            proof {
                let r = component_byte_len::<T>() as int;
                lemma_component_bytes_len(array@[i as int]);
                assert((i as int + 1) * r == i as int * r + r) by (nonlinear_arith);
                assert(record_slice::<T>(buffer@, i as int) =~= component_bytes(array@[i as int]));
                assert forall|m: int| 0 <= m < i implies #[trigger] record_slice::<T>(buffer@, m)
                    == component_bytes(array@[m]) by {
                    lemma_mul_inequality(m + 1, i as int, r);
                    lemma_record_slice_eq::<T>(buffer@, pre, m);
                }
            }
            i = i + 1;
        }
        let buffer_size = buffer.len();
        ComponentArray { array, buffer, buffer_size }
    }

    /// Overwrites the record-sized byte range of record `index` in the
    /// mirror with the encoding of `c`.
    fn patch_mirror(&mut self, index: usize, c: Component<T>)
        requires
            mirror_ok::<T>(old(self).array@, old(self).buffer@),
            index < old(self).array@.len(),
            old(self).buffer@.len() <= old(self).buffer_size,
        ensures
            final(self).array == old(self).array,
            final(self).buffer_size == old(self).buffer_size,
            mirror_ok::<T>(final(self).array@.update(index as int, c), final(self).buffer@),
            final(self).buffer@.len() == old(self).buffer@.len(),
    {
        let ghost r = component_byte_len::<T>() as int;
        let ghost pre = self.buffer@;
        let mut enc: Vec<u8> = Vec::new();
        encode_component(&c, &mut enc);
        proof {
            lemma_component_bytes_len(c);
            lemma_mul_inequality(index as int + 1, self.array@.len() as int, r);
            assert(index as int * r + r == (index as int + 1) * r) by (nonlinear_arith);
            assert(index as int * r >= 0) by (nonlinear_arith)
                requires index as int >= 0 && r >= 0;
        }
        let offset: usize = index * enc.len();
        let ghost off = offset as int;
        let buffer_len: usize = self.buffer.len();
        let mut j: usize = 0;
        while j < enc.len()
            invariant
                buffer_len == self.buffer@.len(),
                enc@ == component_bytes(c),
                enc@.len() == r,
                j <= enc@.len(),
                off == index as int * r,
                off + r <= self.buffer@.len(),
                self.buffer@.len() == pre.len(),
                self.array == old(self).array,
                self.buffer_size == old(self).buffer_size,
                offset == off,
                forall|k: int| 0 <= k < off ==> self.buffer@[k] == pre[k],
                forall|k: int| off <= k < off + j ==> self.buffer@[k] == enc@[k - off],
                forall|k: int| off + r <= k < pre.len() ==> self.buffer@[k] == pre[k],
            decreases enc@.len() - j,
        {
            self.buffer[offset + j] = enc[j];
            j = j + 1;
        }
        proof {
            let a2 = self.array@.update(index as int, c);
            assert(self.buffer@.len() == a2.len() * r);
            assert forall|m: int| 0 <= m < a2.len() implies #[trigger] record_slice::<T>(
                self.buffer@,
                m,
            ) == component_bytes(a2[m]) by {
                if m == index as int {
                    assert(m * r >= 0 && m * r + r == (m + 1) * r) by (nonlinear_arith)
                        requires m >= 0 && r >= 0;
                    assert(record_slice::<T>(self.buffer@, m) =~= enc@);
                } else {
                    lemma_mul_inequality(m + 1, a2.len() as int, r);
                    if m < index as int {
                        assert((m + 1) * r <= index as int * r) by (nonlinear_arith)
                            requires m + 1 <= index as int && r >= 0;
                    } else {
                        assert((index as int + 1) * r <= m * r) by (nonlinear_arith)
                            requires index as int + 1 <= m && r >= 0;
                        assert((index as int + 1) * r == off + r);
                    }
                    lemma_record_slice_eq::<T>(self.buffer@, pre, m);
                }
            }
        }
    }

    /// Appends `component`, growing the GPU allocation only when the
    /// mirror no longer fits, and returns the new record's index.
    /// Indices are stable: every earlier record keeps its index.
    pub fn push(&mut self, component: Component<T>) -> (index: usize)
        requires
            old(self).wf(),
        ensures
            final(self).wf(),
            index == old(self).array@.len(),
            final(self).array@ == old(self).array@.push(component),
            final(self).buffer@ == components_bytes(final(self).array@),
            final(self).buffer_size == if final(self).buffer@.len() > old(self).buffer_size {
                final(self).buffer@.len() as int
            } else {
                old(self).buffer_size as int
            },
    {
        let ghost r = component_byte_len::<T>() as int;
        let ghost pre = self.buffer@;
        let ghost n = self.array@.len() as int;
        let index = self.array.len();
        self.array.push(component);
        encode_component(&component, &mut self.buffer);
        proof {
            lemma_component_bytes_len(component);
            assert((n + 1) * r == n * r + r) by (nonlinear_arith);
            assert(record_slice::<T>(self.buffer@, n) =~= component_bytes(component));
            assert forall|m: int| 0 <= m < n implies #[trigger] record_slice::<T>(self.buffer@, m)
                == component_bytes(self.array@[m]) by {
                lemma_mul_inequality(m + 1, n, r);
                lemma_record_slice_eq::<T>(self.buffer@, pre, m);
            }
            lemma_mirror_is_encoding(self.array@, self.buffer@);
        }
        let needed = self.buffer.len();
        if needed > self.buffer_size {
            self.buffer_size = needed;
        }
        index
    }

    /// Applies `func` to the record at `index`, re-encoding exactly that
    /// record's bytes in the mirror; `None` (and no change at all) when
    /// `index` is out of bounds — a stale index is a valid no-op.
    pub fn update<Y: FnOnce(Component<T>) -> Component<T>>(&mut self, index: usize, func: Y) -> (r:
        Option<()>)
        requires
            old(self).wf(),
            index < old(self).array@.len() ==> call_requires(func, (old(self).array@[index as int],)),
        ensures
            final(self).wf(),
            match r {
                Some(_) => {
                    &&& index < old(self).array@.len()
                    &&& call_ensures(
                        func,
                        (old(self).array@[index as int],),
                        final(self).array@[index as int],
                    )
                    &&& final(self).array@ == old(self).array@.update(
                        index as int,
                        final(self).array@[index as int],
                    )
                    &&& final(self).buffer_size == old(self).buffer_size
                },
                None => {
                    &&& index >= old(self).array@.len()
                    &&& *final(self) == *old(self)
                },
            },
    {
        if index < self.array.len() {
            let c = self.array[index];
            let c2 = func(c);
            self.patch_mirror(index, c2);
            self.array[index] = c2;
            proof {
                assert(self.array@ =~= old(self).array@.update(index as int, c2));
            }
            Some(())
        } else {
            None
        }
    }

    /// If `index` holds a valid record index, mutates that record with
    /// `update` and returns the index; otherwise pushes `insert()`,
    /// stores the fresh index into `index`, and returns it. Repeated
    /// calls that keep handing back the stored index therefore build at
    /// most one new record.
    pub fn push_or_update<X: FnOnce() -> Component<T>, Y: FnOnce(Component<T>) -> Component<T>>(
        &mut self,
        index: &mut Option<usize>,
        insert: X,
        update: Y,
    ) -> (r: usize)
        requires
            old(self).wf(),
            match *old(index) {
                Some(i) => i < old(self).array@.len() ==> call_requires(
                    update,
                    (old(self).array@[i as int],),
                ),
                None => true,
            },
            match *old(index) {
                Some(i) => i >= old(self).array@.len() ==> call_requires(insert, ()),
                None => call_requires(insert, ()),
            },
        ensures
            final(self).wf(),
            r < final(self).array@.len(),
            *final(index) == Some(r),
            match *old(index) {
                Some(i) => if i < old(self).array@.len() {
                    &&& r == i
                    &&& final(self).array@ == old(self).array@.update(
                        i as int,
                        final(self).array@[i as int],
                    )
                    &&& call_ensures(
                        update,
                        (old(self).array@[i as int],),
                        final(self).array@[i as int],
                    )
                } else {
                    &&& r == old(self).array@.len()
                    &&& final(self).array@ == old(self).array@.push(final(self).array@[r as int])
                    &&& call_ensures(insert, (), final(self).array@[r as int])
                },
                None => {
                    &&& r == old(self).array@.len()
                    &&& final(self).array@ == old(self).array@.push(final(self).array@[r as int])
                    &&& call_ensures(insert, (), final(self).array@[r as int])
                },
            },
    {
        if let Some(i) = *index {
            if i < self.array.len() {
                let _updated = self.update(i, update);
                proof {
                    assert(_updated is Some);
                }
                return i;
            }
        }
        let c = insert();
        let i = self.push(c);
        *index = Some(i);
        i
    }

    /// The flag words of all records, in index order.
    pub open spec fn flags_view(self) -> Seq<u32> {
        self.array@.map_values(|c: Component<T>| c.flags)
    }

    /// The payloads of all records, in index order.
    pub open spec fn data_view(self) -> Seq<T> {
        self.array@.map_values(|c: Component<T>| c.data)
    }

    /// Applies a flag mutation to the record at `index` and re-encodes
    /// its bytes in the mirror; a stale index is a no-op returning `None`.
    pub fn update_flag(&mut self, index: usize, op: FlagOp) -> (r: Option<()>)
        requires
            old(self).wf(),
        ensures
            final(self).wf(),
            store_flag_updated(*old(self), *final(self), index as int, op),
            r is Some <==> index < old(self).array@.len(),
    {
        let f = |c: Component<T>| -> (r2: Component<T>)
            ensures
                r2.data == c.data && r2.flags == apply_flag_spec(c.flags, op),
            {
                let mut c2 = c;
                match op {
                    FlagOp::Hover => c2.hover(),
                    FlagOp::NotHover => c2.nothover(),
                    FlagOp::Visible => c2.visible(),
                    FlagOp::Invisible => c2.invisible(),
                    FlagOp::Selected => c2.selected(),
                    FlagOp::Deselected => c2.deselected(),
                }
                c2
            };
        let r = self.update(index, f);
        proof {
            if index < old(self).array@.len() {
                let c0 = old(self).array@[index as int];
                assert(self.array@[index as int] == Component {
                    data: c0.data,
                    flags: apply_flag_spec(c0.flags, op),
                });
            }
        }
        r
    }

    /// A copy of the record at `index`, or `None` for a stale index.
    pub fn get_c(&self, index: usize) -> (r: Option<Component<T>>)
        ensures
            r == if index < self.array@.len() {
                Some(self.array@[index as int])
            } else {
                None::<Component<T>>
            },
    {
        if index < self.array.len() {
            Some(self.array[index])
        } else {
            None
        }
    }
}

} // verus!
