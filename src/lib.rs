//! Proximity analytics between point and polygon features of spatial
//! datasets: planning of archive extraction, collection of decoded features,
//! coordinate reference system lookup and the bookkeeping of the distance
//! engine (pairing, ranking, reductions).
pub mod archive;
pub mod crs;
pub mod distance;
pub mod features;
pub mod paths;
pub mod records;
pub mod transform;
