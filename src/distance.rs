use vstd::prelude::*;

verus! {

/// Which great-circle formula a point-to-point distance uses.
#[derive(Debug, Clone, Copy, PartialEq, Eq, Structural)]
pub enum DistanceMethod {
    /// Spherical earth model.
    Haversine,
    /// Ellipsoidal earth model.
    Geodesic,
}

/// Failure of a distance operation.
#[derive(Debug, Clone, Copy, PartialEq, Eq, Structural)]
pub enum DistanceError {
    /// The geometry that the operation scans has no exterior vertex.
    EmptyGeometry,
    /// The closest-point search found no single answer (a degenerate
    /// polygon).
    Indeterminate,
}

/// What a closest-point search on a polygon's boundary found.
#[derive(Debug, Clone, Copy, PartialEq)]
pub enum Closest<P> {
    /// The boundary meets the query point there.
    Intersection(P),
    /// The nearest boundary point: a vertex or a point inside an edge.
    SinglePoint(P),
    /// No single nearest point could be determined.
    Indeterminate,
}

/// The closest boundary point of a polygon with `exterior_len` exterior
/// vertices, given what the search found. A polygon without vertices is an
/// error rather than an empty scan, and an indeterminate search is an error
/// rather than a made-up point.
pub fn closest_boundary_point<P>(exterior_len: usize, found: Closest<P>) -> (r: Result<P, DistanceError>)
    ensures
        exterior_len == 0 ==> r == Err::<P, DistanceError>(DistanceError::EmptyGeometry),
        exterior_len > 0 ==> match found {
            Closest::Intersection(p) => r == Ok::<P, DistanceError>(p),
            Closest::SinglePoint(p) => r == Ok::<P, DistanceError>(p),
            Closest::Indeterminate => r == Err::<P, DistanceError>(DistanceError::Indeterminate),
        },
{
    if exterior_len == 0 {
        return Err(DistanceError::EmptyGeometry);
    }
    match found {
        Closest::Intersection(p) => Ok(p),
        Closest::SinglePoint(p) => Ok(p),
        Closest::Indeterminate => Err(DistanceError::Indeterminate),
    }
}

/// `i` is the first position of a largest key of `keys`.
pub open spec fn is_first_max(keys: Seq<u64>, i: int) -> bool {
    &&& 0 <= i < keys.len()
    &&& forall|j: int| 0 <= j < keys.len() ==> keys[j] <= keys[i]
    &&& forall|j: int| 0 <= j < i ==> keys[j] < keys[i]
}

/// Position of the first largest key, scanning from the front and moving on
/// only to a strictly greater key, so that the earliest of equal keys wins.
///
/// Keys are any order-preserving encoding of the distances compared (for
/// non-negative IEEE-754 values, their bit patterns).
pub fn first_max_index(keys: &Vec<u64>) -> (r: Result<usize, DistanceError>)
    ensures
        keys@.len() == 0 ==> r == Err::<usize, DistanceError>(DistanceError::EmptyGeometry),
        keys@.len() > 0 ==> (r matches Ok(i) && is_first_max(keys@, i as int)),
{
    if keys.len() == 0 {
        return Err(DistanceError::EmptyGeometry);
    }
    let mut best: usize = 0;
    let mut k: usize = 1;
    while k < keys.len()
        invariant
            1 <= k <= keys@.len(),
            is_first_max(keys@.subrange(0, k as int), best as int),
        decreases keys@.len() - k,
    {
        if keys[k] > keys[best] {
            best = k;
        }
        k = k + 1;
    }
    assert(keys@.subrange(0, k as int) =~= keys@);
    Ok(best)
}

/// One entry of a distance matrix: the labels of the two features and the
/// distance between them.
#[derive(Debug, Clone)]
pub struct DistanceTuple<D> {
    pub source: String,
    pub target: String,
    pub distance: D,
}

/// Entry `(a, b)` of a row-major matrix over `sources` by `targets` pairs
/// source `a` with target `b`, and its distance is an outcome of `dist(a, b)`.
pub open spec fn matrix_entry<D, F: Fn(usize, usize) -> D>(
    r: Seq<DistanceTuple<D>>,
    sources: Seq<String>,
    targets: Seq<String>,
    dist: F,
    a: int,
    b: int,
) -> bool {
    let t = r[a * targets.len() + b];
    &&& t.source == sources[a]
    &&& t.target == targets[b]
    &&& dist.ensures((a as usize, b as usize), t.distance)
}

/// Every (source, target) pair with its distance, source-major: the entry for
/// source `a` and target `b` stands at `a * targets.len() + b`. The result is
/// in pairing order; ranking it by distance is left to the caller.
pub fn pairwise_distance_matrix<D, F: Fn(usize, usize) -> D>(
    sources: &Vec<String>,
    targets: &Vec<String>,
    dist: F,
) -> (r: Vec<DistanceTuple<D>>)
    requires
        sources@.len() * targets@.len() <= usize::MAX,
        forall|a: usize, b: usize|
            a < sources@.len() && b < targets@.len() ==> dist.requires((a, b)),
    ensures
        r@.len() == sources@.len() * targets@.len(),
        forall|a: int, b: int|
            0 <= a < sources@.len() && 0 <= b < targets@.len() ==> #[trigger] matrix_entry(
                r@,
                sources@,
                targets@,
                dist,
                a,
                b,
            ),
{
    let n = sources.len();
    let m = targets.len();
    let mut r: Vec<DistanceTuple<D>> = Vec::new();
    let mut i: usize = 0;
    while i < n
        invariant
            i <= n,
            n == sources@.len(),
            m == targets@.len(),
            n * m <= usize::MAX,
            forall|a: usize, b: usize| a < n && b < m ==> dist.requires((a, b)),
            r@.len() == i * m,
            forall|a: int, b: int|
                0 <= a < i && 0 <= b < m ==> #[trigger] matrix_entry(
                    r@,
                    sources@,
                    targets@,
                    dist,
                    a,
                    b,
                ),
        decreases n - i,
    {
        assert((i + 1) * m <= n * m) by (nonlinear_arith)
            requires
                i < n,
        ;
        assert((i + 1) * m == i * m + m) by (nonlinear_arith);
        let mut j: usize = 0;
        while j < m
            invariant
                i < n,
                j <= m,
                n == sources@.len(),
                m == targets@.len(),
                (i + 1) * m <= usize::MAX,
                (i + 1) * m == i * m + m,
                forall|a: usize, b: usize| a < n && b < m ==> dist.requires((a, b)),
                r@.len() == i * m + j,
                forall|a: int, b: int|
                    0 <= a < i && 0 <= b < m ==> #[trigger] matrix_entry(
                        r@,
                        sources@,
                        targets@,
                        dist,
                        a,
                        b,
                    ),
                forall|b: int|
                    0 <= b < j ==> #[trigger] matrix_entry(
                        r@,
                        sources@,
                        targets@,
                        dist,
                        i as int,
                        b,
                    ),
            decreases m - j,
        {
            let d = dist(i, j);
            let ghost prev = r@;
            r.push(DistanceTuple { source: sources[i].clone(), target: targets[j].clone(), distance: d });
            assert forall|a: int, b: int| 0 <= a < i && 0 <= b < m implies #[trigger] matrix_entry(
                r@,
                sources@,
                targets@,
                dist,
                a,
                b,
            ) by {
                assert(a * m + b < i * m) by (nonlinear_arith)
                    requires
                        0 <= a < i,
                        0 <= b < m,
                ;
                assert(matrix_entry(prev, sources@, targets@, dist, a, b));
                assert(r@[a * m + b] == prev[a * m + b]);
            }
            assert forall|b: int| 0 <= b < j + 1 implies #[trigger] matrix_entry(
                r@,
                sources@,
                targets@,
                dist,
                i as int,
                b,
            ) by {
                if b < j {
                    assert(matrix_entry(prev, sources@, targets@, dist, i as int, b));
                    assert(r@[i * m + b] == prev[i * m + b]);
                }
            }
            j = j + 1;
        }
        i = i + 1;
    }
    r
}

/// Index `i` ranks before index `j`: a smaller key, or an equal key and an
/// earlier position.
pub open spec fn ranks_before(keys: Seq<u64>, i: int, j: int) -> bool {
    keys[i] < keys[j] || (keys[i] == keys[j] && i < j)
}

/// `r` lists positions of `keys` in strictly increasing rank.
pub open spec fn is_ranked(keys: Seq<u64>, r: Seq<usize>) -> bool {
    &&& forall|a: int| 0 <= a < r.len() ==> #[trigger] r[a] < keys.len()
    &&& forall|a: int, b: int|
        0 <= a < b < r.len() ==> ranks_before(keys, #[trigger] r[a] as int, #[trigger] r[b] as int)
}

/// The positions of `keys` from the smallest key to the largest, equal keys
/// keeping their order: the ranking of a distance matrix by ascending
/// distance, given order-preserving keys of its distances. Every position
/// appears once.
pub fn rank_by_key(keys: &Vec<u64>) -> (r: Vec<usize>)
    ensures
        r@.len() == keys@.len(),
        is_ranked(keys@, r@),
{
    let n = keys.len();
    let mut r: Vec<usize> = Vec::new();
    let mut i: usize = 0;
    while i < n
        invariant
            i <= n,
            n == keys@.len(),
            r@.len() == i,
            forall|a: int| 0 <= a < r@.len() ==> #[trigger] r@[a] < i,
            is_ranked(keys@, r@),
        decreases n - i,
    {
        let key = keys[i];
        let mut p: usize = r.len();
        while p > 0 && keys[r[p - 1]] > key
            invariant
                p <= r@.len(),
                r@.len() == i,
                i < n,
                n == keys@.len(),
                forall|a: int| 0 <= a < r@.len() ==> #[trigger] r@[a] < i,
                forall|a: int| p <= a < r@.len() ==> keys@[#[trigger] r@[a] as int] > key,
            decreases p,
        {
            p = p - 1;
        }
        let ghost prev = r@;
        proof {
            assert forall|a: int| 0 <= a < p implies keys@[#[trigger] prev[a] as int] <= key by {
                if a < p - 1 {
                    assert(ranks_before(keys@, prev[a] as int, prev[p - 1] as int));
                }
            }
        }
        r.insert(p, i);
        assert(r@ == prev.insert(p as int, i));
        assert forall|a: int| 0 <= a < r@.len() implies #[trigger] r@[a] < i + 1 by {
            if a < p {
                assert(r@[a] == prev[a]);
            } else if a > p {
                assert(r@[a] == prev[a - 1]);
            }
        }
        assert forall|a: int, b: int| 0 <= a < b < r@.len() implies ranks_before(
            keys@,
            #[trigger] r@[a] as int,
            #[trigger] r@[b] as int,
        ) by {
            if b < p {
                assert(r@[a] == prev[a] && r@[b] == prev[b]);
            } else if b == p {
                assert(r@[a] == prev[a]);
                assert(keys@[prev[a] as int] <= key);
            } else if a < p {
                assert(r@[a] == prev[a] && r@[b] == prev[b - 1]);
                assert(ranks_before(keys@, prev[a] as int, prev[b - 1] as int));
            } else if a == p {
                assert(r@[b] == prev[b - 1]);
                assert(keys@[prev[b - 1] as int] > key);
            } else {
                assert(r@[a] == prev[a - 1] && r@[b] == prev[b - 1]);
                assert(ranks_before(keys@, prev[a - 1] as int, prev[b - 1] as int));
            }
        }
        i = i + 1;
    }
    r
}

} // verus!
