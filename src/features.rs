use vstd::prelude::*;
use vstd::string::StringExecFns;

verus! {

/// The geometry of a feature: exactly one kind, carrying that kind's
/// coordinates (`P` for a point, `A` for a polygon, `M` for a multipolygon).
#[derive(Debug, Clone, PartialEq)]
pub enum Shape<P, A, M> {
    Point(P),
    Polygon(A),
    MultiPolygon(M),
}

/// Why the geometry value of one row gave no shape.
#[derive(Debug, Clone, Copy, PartialEq, Eq, Structural)]
pub enum DecodeError {
    /// The bytes are not a valid geometry encoding.
    Malformed,
    /// A valid geometry of a kind that features do not hold.
    Unsupported,
}

/// One row of a spatial table after its geometry value went through the
/// decoder.
#[derive(Debug)]
pub struct DecodedRow<P, A, M> {
    pub uuid: String,
    pub geometry: Result<Shape<P, A, M>, DecodeError>,
}

/// A bathing-water area record, whose shape is a multipolygon (`M`).
#[derive(Debug, Clone)]
pub struct Polygons<M> {
    pub object_id: i64,
    pub shape: M,
    pub bw_id: String,
    pub description: String,
    pub year: i64,
    pub current: String,
    pub class_id: String,
    pub class_description: String,
    pub bw_url: String,
}

impl<M> Polygons<M> {
    /// The record of one table row, or `None` where the row's geometry did
    /// not decode to a multipolygon: such a row is skipped. The
    /// classification identifier is always `null`.
    pub fn from_row<P, A>(
        object_id: i64,
        geometry: Result<Shape<P, A, M>, DecodeError>,
        bw_id: String,
        description: String,
        year: i64,
        current: String,
        class_description: String,
        bw_url: String,
    ) -> (r: Option<Polygons<M>>)
        ensures
            match geometry {
                Ok(Shape::MultiPolygon(m)) => r matches Some(p) && p.shape == m && p.object_id
                    == object_id && p.bw_id == bw_id && p.description == description && p.year
                    == year && p.current == current && p.class_id@ == "null"@
                    && p.class_description == class_description && p.bw_url == bw_url,
                _ => r is None,
            },
    {
        match geometry {
            Ok(Shape::MultiPolygon(shape)) => Some(
                Polygons {
                    object_id,
                    shape,
                    bw_id,
                    description,
                    year,
                    current,
                    class_id: String::from_str("null"),
                    class_description,
                    bw_url,
                },
            ),
            _ => None,
        }
    }
}

/// A feature record: the row's identifier and its geometry.
#[derive(Debug, Clone, PartialEq)]
pub struct GeoData<P, A, M> {
    pub uuid: String,
    pub shape: Shape<P, A, M>,
}

/// The features of `rows`, in row order: one per row whose geometry decoded,
/// none for a row whose decoding failed.
pub open spec fn decoded_features<P, A, M>(rows: Seq<DecodedRow<P, A, M>>) -> Seq<GeoData<P, A, M>>
    decreases rows.len(),
{
    if rows.len() == 0 {
        Seq::empty()
    } else {
        let earlier = decoded_features(rows.drop_last());
        match rows.last().geometry {
            Ok(shape) => earlier.push(GeoData { uuid: rows.last().uuid, shape }),
            Err(_) => earlier,
        }
    }
}

/// Turns decoded rows into feature records. A row whose geometry failed to
/// decode is skipped and the batch goes on.
pub fn collect_features<P, A, M>(rows: Vec<DecodedRow<P, A, M>>) -> (r: Vec<GeoData<P, A, M>>)
    ensures
        r@ == decoded_features(rows@),
{
    let ghost all = rows@;
    let mut r: Vec<GeoData<P, A, M>> = Vec::new();
    for row in it: rows.into_iter()
        invariant
            it.seq() == all,
            r@ == decoded_features(all.take(it.index() as int)),
    {
        let ghost k = it.index() as int;
        assert(all.take(k + 1).drop_last() =~= all.take(k));
        match row.geometry {
            Ok(shape) => {
                r.push(GeoData { uuid: row.uuid, shape });
            },
            Err(_) => {},
        }
    }
    assert(all.take(all.len() as int) =~= all);
    r
}

/// A batch whose geometries all decode gives one feature per row.
pub proof fn lemma_all_rows_decoded<P, A, M>(rows: Seq<DecodedRow<P, A, M>>)
    requires
        forall|i: int| 0 <= i < rows.len() ==> rows[i].geometry is Ok,
    ensures
        decoded_features(rows).len() == rows.len(),
    decreases rows.len(),
{
    if rows.len() > 0 {
        lemma_all_rows_decoded(rows.drop_last());
    }
}

/// One malformed geometry among well-formed ones costs exactly its own row:
/// a batch of `n` rows of which only row `k` fails to decode gives `n - 1`
/// features.
pub proof fn lemma_one_malformed_row_skipped<P, A, M>(rows: Seq<DecodedRow<P, A, M>>, k: int)
    requires
        0 <= k < rows.len(),
        rows[k].geometry == Err::<Shape<P, A, M>, DecodeError>(DecodeError::Malformed),
        forall|i: int| 0 <= i < rows.len() && i != k ==> rows[i].geometry is Ok,
    ensures
        decoded_features(rows).len() == rows.len() - 1,
    decreases rows.len(),
{
    if k == rows.len() - 1 {
        lemma_all_rows_decoded(rows.drop_last());
    } else {
        lemma_one_malformed_row_skipped(rows.drop_last(), k);
    }
}

} // verus!
