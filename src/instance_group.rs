//! A mesh drawn many times, with per-instance records and a visible subset.
use vstd::prelude::*;

use crate::buffer::{
    align_up, fits_aligned, payload_bytes, Buffer, BufferError, MemoryLocation, USAGE_VERTEX_BUFFER,
};
use crate::mesh::Mesh;

verus! {

/// Holds of every index other than `index`.
pub open spec fn other_than(index: usize) -> spec_fn(usize) -> bool {
    |i: usize| i != index
}

/// Filtering out one value keeps the other values and their uniqueness.
proof fn lemma_filter_out(s: Seq<usize>, x: usize)
    ensures
        forall|y: usize| #[trigger] s.filter(other_than(x)).contains(y) <==> (s.contains(y) && y != x),
        s.no_duplicates() ==> s.filter(other_than(x)).no_duplicates(),
    decreases s.len(),
{
    reveal(Seq::filter);
    if s.len() > 0 {
        let init = s.drop_last();
        let last = s.last();
        lemma_filter_out(init, x);
        assert(s =~= init.push(last));
        assert forall|y: usize| s.contains(y) <==> (init.contains(y) || y == last) by {
            if s.contains(y) {
                let k = choose|k: int| 0 <= k < s.len() && s[k] == y;
                if k < s.len() - 1 {
                    assert(init[k] == y);
                }
            }
            if init.contains(y) {
                let k = choose|k: int| 0 <= k < init.len() && init[k] == y;
                assert(s[k] == y);
            }
            if y == last {
                assert(s[s.len() - 1] == y);
            }
        }
        let f = init.filter(other_than(x));
        if last != x {
            assert(s.filter(other_than(x)) == f.push(last));
            assert forall|y: usize| #[trigger] f.push(last).contains(y) <==> (f.contains(y) || y == last) by {
                if f.push(last).contains(y) {
                    let k = choose|k: int| 0 <= k < f.len() + 1 && f.push(last)[k] == y;
                    if k < f.len() {
                        assert(f[k] == y);
                    }
                }
                if f.contains(y) {
                    let k = choose|k: int| 0 <= k < f.len() && f[k] == y;
                    assert(f.push(last)[k] == y);
                }
                if y == last {
                    assert(f.push(last)[f.len() as int] == y);
                }
            }
            if s.no_duplicates() {
                assert(init.no_duplicates());
                assert(!init.contains(last)) by {
                    if init.contains(last) {
                        let k = choose|k: int| 0 <= k < init.len() && init[k] == last;
                        assert(s[k] == s[s.len() - 1]);
                    }
                }
                assert(!f.contains(last));
                assert forall|a: int, b: int|
                    0 <= a < f.len() + 1 && 0 <= b < f.len() + 1 && a != b implies f.push(last)[a]
                    != f.push(last)[b] by {
                    if a < f.len() && b < f.len() {
                    } else if a < f.len() {
                        assert(f.contains(f[a]));
                    } else {
                        assert(f.contains(f[b]));
                    }
                }
            }
        } else {
            assert(s.filter(other_than(x)) == f);
            if s.no_duplicates() {
                assert(init.no_duplicates());
            }
        }
    }
}

/// The visible-index list after `set_visible(index, visible)`: a visible index
/// is appended unless already present, a hidden one is removed wherever it is.
pub open spec fn visible_after(s: Seq<usize>, index: usize, visible: bool) -> Seq<usize> {
    if visible {
        if s.contains(index) {
            s
        } else {
            s.push(index)
        }
    } else {
        s.filter(other_than(index))
    }
}

/// Filtering out a value that does not occur changes nothing.
proof fn lemma_filter_absent(s: Seq<usize>, x: usize)
    requires
        !s.contains(x),
    ensures
        s.filter(other_than(x)) == s,
    decreases s.len(),
{
    reveal(Seq::filter);
    if s.len() > 0 {
        let init = s.drop_last();
        assert(!init.contains(x)) by {
            if init.contains(x) {
                let k = choose|k: int| 0 <= k < init.len() && init[k] == x;
                assert(s[k] == x);
            }
        }
        lemma_filter_absent(init, x);
        assert(s.last() != x) by {
            assert(s[s.len() - 1] == s.last());
        }
        assert(init.push(s.last()) =~= s);
    }
}

/// Marking an index visible twice in a row leaves the same visible list as
/// marking it once, and so does hiding it twice; hiding an index that is not
/// visible leaves the list as it was.
pub proof fn lemma_set_visible_idempotent(s: Seq<usize>, index: usize, visible: bool)
    ensures
        visible_after(visible_after(s, index, visible), index, visible) == visible_after(
            s,
            index,
            visible,
        ),
        !s.contains(index) ==> visible_after(s, index, false) == s,
{
    if visible {
        if !s.contains(index) {
            assert(s.push(index)[s.len() as int] == index);
        }
    } else {
        lemma_filter_out(s, index);
        lemma_filter_absent(s.filter(other_than(index)), index);
    }
    if !s.contains(index) {
        lemma_filter_absent(s, index);
    }
}

/// In every well-formed group, whatever calls made it, the visible list holds
/// each visible index once, so `visible_count` is the number of distinct
/// indices marked visible.
pub proof fn lemma_visible_count_is_distinct<V, I>(g: InstanceGroup<V, I>)
    requires
        g.wf(),
    ensures
        g.visible_count == g.visible_set().len(),
        g.visible_indices@.len() == g.visible_set().len(),
{
    g.visible_indices@.unique_seq_to_set();
}

/// The counts of one indexed, instanced draw call.
#[derive(Clone, Copy, Debug, PartialEq, Eq, Structural)]
pub struct DrawCall {
    pub index_count: u32,
    pub instance_count: u32,
}

/// One instanced draw: a mesh, every instance record of type `I` ever added,
/// the indices of the records that are visible, and the device buffer the
/// records are uploaded to.
///
/// The buffer is not kept in step with the records: `update_gpu_buffer`
/// uploads them, so that several changes cost one upload.
pub struct InstanceGroup<V, I> {
    pub mesh: Mesh<V>,
    pub all_instances: Vec<I>,
    pub visible_indices: Vec<usize>,
    pub instance_buffer: Option<Buffer>,
    pub visible_count: usize,
}

impl<V, I> InstanceGroup<V, I> {
    /// Visible indices name records, each at most once, and `visible_count`
    /// counts them; the buffer is aligned.
    pub open spec fn wf(&self) -> bool {
        &&& self.mesh.wf()
        &&& self.visible_indices@.no_duplicates()
        &&& self.visible_count == self.visible_indices@.len()
        &&& forall|k: int|
            0 <= k < self.visible_indices@.len() ==> #[trigger] self.visible_indices@[k]
                < self.all_instances@.len()
        &&& self.instance_buffer matches Some(b) ==> b.wf()
    }

    /// The set of indices currently marked visible.
    pub open spec fn visible_set(&self) -> Set<usize> {
        self.visible_indices@.to_set()
    }

    /// A group over `mesh` with no instances and no instance buffer yet.
    pub fn from_mesh(mesh: Mesh<V>) -> (r: Self)
        requires
            mesh.wf(),
        ensures
            r.wf(),
            r.mesh == mesh,
            r.all_instances@.len() == 0,
            r.visible_indices@.len() == 0,
            r.instance_buffer is None,
            r.visible_count == 0,
    {
        InstanceGroup {
            mesh,
            all_instances: Vec::new(),
            visible_indices: Vec::new(),
            instance_buffer: None,
            visible_count: 0,
        }
    }

    /// Appends a record; a visible one also has its index appended to the
    /// visible list.
    pub fn add_instance(&mut self, data: I, visible: bool)
        requires
            old(self).wf(),
            old(self).all_instances@.len() < usize::MAX,
        ensures
            final(self).wf(),
            final(self).all_instances@ == old(self).all_instances@.push(data),
            final(self).visible_indices@ == if visible {
                old(self).visible_indices@.push(old(self).all_instances@.len() as usize)
            } else {
                old(self).visible_indices@
            },
            final(self).visible_count == final(self).visible_indices@.len(),
            final(self).mesh == old(self).mesh,
            final(self).instance_buffer == old(self).instance_buffer,
    {
        let index = self.all_instances.len();
        self.all_instances.push(data);
        if visible {
            self.visible_indices.push(index);
        }
        self.visible_count = self.visible_indices.len();
    }

    /// Gives the group an instance buffer sized for one byte (one alignment unit).
    pub fn create_instance_buffer(&mut self) -> (r: Result<(), BufferError>)
        requires
            old(self).wf(),
        ensures
            final(self).wf(),
            r is Ok,
            final(self).instance_buffer matches Some(b) && b.size == align_up(1) && b.written == 0
                && b.usage == USAGE_VERTEX_BUFFER && b.location == MemoryLocation::CpuToGpu,
            final(self).mesh == old(self).mesh,
            final(self).all_instances == old(self).all_instances,
            final(self).visible_indices == old(self).visible_indices,
            final(self).visible_count == old(self).visible_count,
    {
        self.instance_buffer = Some(Buffer::create(1, USAGE_VERTEX_BUFFER, MemoryLocation::CpuToGpu)?);
        Ok(())
    }

    /// Writes every record (visible or not) to the instance buffer, growing it
    /// where needed, and refreshes `visible_count` from the visible list.
    pub fn update_gpu_buffer(&mut self) -> (r: Result<(), BufferError>)
        requires
            old(self).wf(),
        ensures
            final(self).wf(),
            r is Ok <==> (old(self).instance_buffer matches Some(b) ==> {
                let bytes = payload_bytes::<I>(old(self).all_instances@.len() as int);
                bytes <= u64::MAX && (bytes <= b.size || fits_aligned(bytes))
            }),
            r is Ok ==> {
                &&& final(self).visible_count == final(self).visible_indices@.len()
                &&& final(self).visible_count == final(self).visible_set().len()
                &&& (final(self).instance_buffer matches Some(b) ==> {
                    let bytes = payload_bytes::<I>(old(self).all_instances@.len() as int);
                    &&& b.written == bytes
                    &&& b.size >= bytes
                    &&& b.size >= old(self).instance_buffer->Some_0.size
                    &&& b.size == if bytes > old(self).instance_buffer->Some_0.size {
                        align_up(bytes)
                    } else {
                        old(self).instance_buffer->Some_0.size as int
                    }
                })
            },
            r is Err ==> final(self).visible_count == old(self).visible_count
                && final(self).instance_buffer == old(self).instance_buffer,
            final(self).instance_buffer is Some == old(self).instance_buffer is Some,
            final(self).mesh == old(self).mesh,
            final(self).all_instances == old(self).all_instances,
            final(self).visible_indices == old(self).visible_indices,
    {
        if let Some(instance_buffer) = &mut self.instance_buffer {
            instance_buffer.copy_memory(self.all_instances.as_slice())?;
        }
        proof {
            self.visible_indices@.unique_seq_to_set();
        }
        self.visible_count = self.visible_indices.len();
        Ok(())
    }

    /// The draw call for this group: every index of the mesh, once per visible
    /// instance. `None` where the group has no instance buffer to draw from,
    /// or a count does not fit the draw call.
    pub fn draw_call(&self) -> (r: Option<DrawCall>)
        ensures
            r is Some <==> self.instance_buffer is Some && self.mesh.indices@.len() <= u32::MAX
                && self.visible_count <= u32::MAX,
            r matches Some(d) ==> d.index_count == self.mesh.indices@.len() && d.instance_count
                == self.visible_count,
    {
        if self.instance_buffer.is_none() || self.mesh.indices.len() > u32::MAX as usize
            || self.visible_count > u32::MAX as usize {
            return None;
        }
        Some(
            DrawCall {
                index_count: self.mesh.indices.len() as u32,
                instance_count: self.visible_count as u32,
            },
        )
    }

    /// Marks `instance_index` visible or hidden. Marking a visible index
    /// visible, or a hidden one hidden, changes nothing.
    pub fn set_visible(&mut self, instance_index: usize, visible: bool)
        requires
            old(self).wf(),
            visible ==> instance_index < old(self).all_instances@.len(),
        ensures
            final(self).wf(),
            final(self).visible_indices@ == visible_after(
                old(self).visible_indices@,
                instance_index,
                visible,
            ),
            final(self).visible_set() == if visible {
                old(self).visible_set().insert(instance_index)
            } else {
                old(self).visible_set().remove(instance_index)
            },
            final(self).visible_count == final(self).visible_indices@.len(),
            final(self).mesh == old(self).mesh,
            final(self).all_instances == old(self).all_instances,
            final(self).instance_buffer == old(self).instance_buffer,
    {
        if visible {
            if !vec_contains(&self.visible_indices, instance_index) {
                self.visible_indices.push(instance_index);
            }
        } else {
            remove_all(&mut self.visible_indices, instance_index);
        }
        self.visible_count = self.visible_indices.len();
        proof {
            let old_s = old(self).visible_indices@;
            let new_s = self.visible_indices@;
            if visible {
                if !old_s.contains(instance_index) {
                    old_s.lemma_push_to_set_commute(instance_index);
                    assert forall|a: int, b: int|
                        0 <= a < new_s.len() && 0 <= b < new_s.len() && a != b implies new_s[a]
                        != new_s[b] by {
                        if a < old_s.len() && b < old_s.len() {
                            assert(new_s[a] == old_s[a] && new_s[b] == old_s[b]);
                        } else if a < old_s.len() {
                            assert(old_s.contains(old_s[a]));
                        } else {
                            assert(old_s.contains(old_s[b]));
                        }
                    }
                    assert forall|k: int|
                        0 <= k < new_s.len() implies #[trigger] new_s[k]
                        < self.all_instances@.len() by {
                        if k < old_s.len() {
                            assert(new_s[k] == old_s[k]);
                        }
                    }
                } else {
                    assert(self.visible_set() =~= old(self).visible_set().insert(instance_index));
                }
            } else {
                lemma_filter_out(old_s, instance_index);
                assert(self.visible_set() =~= old(self).visible_set().remove(instance_index));
                assert forall|k: int|
                    0 <= k < new_s.len() implies #[trigger] new_s[k] < self.all_instances@.len() by {
                    assert(new_s.contains(new_s[k]));
                    let j = choose|j: int| 0 <= j < old_s.len() && old_s[j] == new_s[k];
                }
            }
        }
    }
}

/// Whether `v` holds `x`.
fn vec_contains(v: &Vec<usize>, x: usize) -> (r: bool)
    ensures
        r == v@.contains(x),
{
    let mut i: usize = 0;
    while i < v.len()
        invariant
            i <= v@.len(),
            forall|k: int| 0 <= k < i ==> v@[k] != x,
        decreases v@.len() - i,
    {
        if v[i] == x {
            return true;
        }
        i += 1;
    }
    false
}

/// Removes every occurrence of `x` from `v`, keeping the order of the rest.
fn remove_all(v: &mut Vec<usize>, x: usize)
    ensures
        final(v)@ == old(v)@.filter(other_than(x)),
{
    let mut kept: Vec<usize> = Vec::new();
    let mut i: usize = 0;
    while i < v.len()
        invariant
            i <= v@.len(),
            v@ == old(v)@,
            kept@ == v@.subrange(0, i as int).filter(other_than(x)),
        decreases v@.len() - i,
    {
        let e = v[i];
        proof {
            assert(v@.subrange(0, i as int + 1) =~= v@.subrange(0, i as int).push(e));
            v@.subrange(0, i as int).lemma_filter_push(e, other_than(x));
            assert(other_than(x)(e) == (e != x));
        }
        if e != x {
            kept.push(e);
        }
        i += 1;
    }
    proof {
        assert(v@.subrange(0, v@.len() as int) == v@);
    }
    *v = kept;
}

} // verus!
