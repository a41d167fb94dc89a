use vstd::prelude::*;

verus! {

/// The outcome of reprojecting one position. A failed projection does not
/// fail the transform: the position passes through unchanged, and the variant
/// says so.
#[derive(Debug, Clone, Copy, PartialEq)]
pub enum Reprojected<V> {
    /// The projection pipeline's result.
    Transformed(V),
    /// The untransformed position, returned because the projection failed.
    Passthrough(V),
}

impl<V> Reprojected<V> {
    pub open spec fn spec_value(self) -> V {
        match self {
            Reprojected::Transformed(v) => v,
            Reprojected::Passthrough(v) => v,
        }
    }

    /// The position, whichever way it was obtained.
    pub fn value(self) -> (r: V)
        ensures
            r == self.spec_value(),
    {
        match self {
            Reprojected::Transformed(v) => v,
            Reprojected::Passthrough(v) => v,
        }
    }

    pub fn is_transformed(&self) -> (r: bool)
        ensures
            r == (self is Transformed),
    {
        match self {
            Reprojected::Transformed(_) => true,
            Reprojected::Passthrough(_) => false,
        }
    }
}

/// `r` is what the fail-soft transform makes of `v` given that `project`
/// answered `out`.
pub open spec fn reprojection_of<V>(v: V, out: Option<V>) -> Reprojected<V> {
    match out {
        Some(w) => Reprojected::Transformed(w),
        None => Reprojected::Passthrough(v),
    }
}

/// Fail-soft transform of one position: `project` is the projection
/// pipeline, which answers `None` where it fails.
pub fn transform_point<V, F: Fn(V) -> Option<V>>(point: V, project: F) -> (r: Reprojected<V>)
    where
        V: Copy,
    requires
        project.requires((point,)),
    ensures
        exists|out: Option<V>|
            project.ensures((point,), out) && r == reprojection_of(point, out),
{
    let out = project(point);
    let r = match out {
        Some(w) => Reprojected::Transformed(w),
        None => Reprojected::Passthrough(point),
    };
    assert(project.ensures((point,), out) && r == reprojection_of(point, out));
    r
}

/// Vertex `i` of `r` is the fail-soft transform of vertex `i` of `ring`.
pub open spec fn vertex_transformed<V, F: Fn(V) -> Option<V>>(
    ring: Seq<V>,
    r: Seq<Reprojected<V>>,
    project: F,
    i: int,
) -> bool {
    exists|out: Option<V>| project.ensures((ring[i],), out) && r[i] == reprojection_of(ring[i], out)
}

/// Transforms every vertex of a ring, keeping the order and the count. In a
/// closed ring (`closed`: the last vertex repeats the first) the first vertex
/// is projected once and its result closes the output ring too.
pub fn transform_ring<V, F: Fn(V) -> Option<V>>(ring: &Vec<V>, closed: bool, project: F) -> (r: Vec<
    Reprojected<V>,
>)
    where
        V: Copy,
    requires
        closed ==> ring@.len() >= 2 && ring@[0] == ring@[ring@.len() - 1],
        forall|i: int| 0 <= i < ring@.len() ==> project.requires((ring@[i],)),
    ensures
        r@.len() == ring@.len(),
        forall|i: int| 0 <= i < ring@.len() ==> #[trigger] vertex_transformed(ring@, r@, project, i),
        closed ==> r@[0] == r@[r@.len() - 1],
{
    let n = ring.len();
    let open_len = if closed {
        n - 1
    } else {
        n
    };
    let mut r: Vec<Reprojected<V>> = Vec::new();
    let mut i: usize = 0;
    while i < open_len
        invariant
            i <= open_len,
            n == ring@.len(),
            open_len == if closed {
                n - 1
            } else {
                n as int
            },
            closed ==> n >= 2,
            forall|j: int| 0 <= j < ring@.len() ==> project.requires((ring@[j],)),
            r@.len() == i,
            forall|j: int| 0 <= j < i ==> #[trigger] vertex_transformed(ring@, r@, project, j),
        decreases open_len - i,
    {
        let v = ring[i];
        let t = transform_point(v, &project);
        let ghost prev = r@;
        r.push(t);
        assert forall|j: int| 0 <= j < i + 1 implies #[trigger] vertex_transformed(
            ring@,
            r@,
            project,
            j,
        ) by {
            if j < i {
                assert(vertex_transformed(ring@, prev, project, j));
                assert(r@[j] == prev[j]);
            }
        }
        i = i + 1;
    }
    if closed {
        let first = r[0];
        assert(vertex_transformed(ring@, r@, project, 0));
        let ghost prev = r@;
        r.push(first);
        assert(r@[0] == prev[0]);
        assert(vertex_transformed(ring@, r@, project, 0));
        assert(ring@[n - 1] == ring@[0]);
        assert(r@[n - 1] == r@[0]);
        assert forall|j: int| 0 <= j < ring@.len() implies #[trigger] vertex_transformed(
            ring@,
            r@,
            project,
            j,
        ) by {
            if j < n - 1 {
                assert(vertex_transformed(ring@, prev, project, j));
                assert(r@[j] == prev[j]);
            }
        }
    }
    r
}

} // verus!
