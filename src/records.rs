use vstd::prelude::*;
use vstd::string::StringExecFns;
use crate::archive::join_path;
use crate::archive::joined;

verus! {

/// `SELECT * FROM <table>`.
pub fn select_all_query(table: &str) -> (r: String)
    ensures
        r@ == "SELECT * FROM "@ + table@,
{
    let mut r = String::from_str("SELECT * FROM ");
    r.append(table);
    r
}

/// The query that reads the schema row of the table `table`.
pub fn schema_query(table: &str) -> (r: String)
    ensures
        r@ == "SELECT * FROM sqlite_master WHERE type='table' AND name='"@ + table@
            + "' ORDER BY name;"@,
{
    let mut r = String::from_str("SELECT * FROM sqlite_master WHERE type='table' AND name='");
    r.append(table);
    r.append("' ORDER BY name;");
    r
}

/// What stops the dataset pipeline. Row-level decoding failures are not
/// among them: such a row is skipped.
#[derive(Debug, Clone, PartialEq, Eq)]
pub enum PipelineError {
    /// The remote archive could not be fetched.
    Transfer(String),
    /// The archive could not be opened, read or unpacked.
    Archive(String),
    /// The staging directory or the database could not be used.
    Storage(String),
}

/// One row of a database's schema table.
#[derive(Debug, Clone)]
pub struct SqliteMaster {
    db_type: String,
    db_name: String,
    tbl_name: String,
    root_page: i64,
    sql: String,
}

impl SqliteMaster {
    pub fn new(db_type: String, db_name: String, tbl_name: String, root_page: i64, sql: String) -> (r:
        SqliteMaster)
        ensures
            r.db_type() == db_type,
            r.db_name() == db_name,
            r.tbl_name() == tbl_name,
            r.root_page() == root_page,
            r.sql() == sql,
    {
        SqliteMaster { db_type, db_name, tbl_name, root_page, sql }
    }

    pub closed spec fn db_type(&self) -> String {
        self.db_type
    }

    pub closed spec fn db_name(&self) -> String {
        self.db_name
    }

    pub closed spec fn tbl_name(&self) -> String {
        self.tbl_name
    }

    pub closed spec fn root_page(&self) -> i64 {
        self.root_page
    }

    pub closed spec fn sql(&self) -> String {
        self.sql
    }

    /// The kind of schema object (`table`, `index`, ...).
    pub fn object_type(&self) -> (r: &str)
        ensures
            r@ == self.db_type()@,
    {
        self.db_type.as_str()
    }

    pub fn name(&self) -> (r: &str)
        ensures
            r@ == self.db_name()@,
    {
        self.db_name.as_str()
    }

    pub fn table_name(&self) -> (r: &str)
        ensures
            r@ == self.tbl_name()@,
    {
        self.tbl_name.as_str()
    }

    pub fn page(&self) -> (r: i64)
        ensures
            r == self.root_page(),
    {
        self.root_page
    }

    pub fn definition(&self) -> (r: &str)
        ensures
            r@ == self.sql()@,
    {
        self.sql.as_str()
    }
}

/// A bathing-water record as stored, with its geometry still encoded.
#[derive(Debug, Clone)]
pub struct BathingWaters {
    pub object_id: i64,
    pub shape: Vec<u8>,
    pub bw_id: String,
    pub description: String,
    pub year: i64,
    pub current: String,
    pub class_id: String,
    pub class_description: String,
    pub bw_url: String,
}

impl BathingWaters {
    /// The record of one table row. The classification identifier is not
    /// read from the row: it is always `null`.
    pub fn new(
        object_id: i64,
        shape: Vec<u8>,
        bw_id: String,
        description: String,
        year: i64,
        current: String,
        class_description: String,
        bw_url: String,
    ) -> (r: BathingWaters)
        ensures
            r.object_id == object_id,
            r.shape == shape,
            r.bw_id == bw_id,
            r.description == description,
            r.year == year,
            r.current == current,
            r.class_id@ == "null"@,
            r.class_description == class_description,
            r.bw_url == bw_url,
    {
        BathingWaters {
            object_id,
            shape,
            bw_id,
            description,
            year,
            current,
            class_id: String::from_str("null"),
            class_description,
            bw_url,
        }
    }
}

/// A remote spatial dataset: where the archive is published, what it unpacks
/// to, which table and columns hold the features, and the EPSG code of the
/// coordinates.
#[derive(Debug, Clone, PartialEq)]
pub struct GeoDB {
    pub url: String,
    pub zipfile: Option<String>,
    pub db: String,
    pub table: String,
    pub crs: u16,
    pub uuid_col_idx: i32,
    pub geometry_col_idx: i32,
}

impl GeoDB {
    /// The bathing-water points dataset, in British National Grid.
    pub fn example_points_db() -> (r: GeoDB)
        ensures
            r.url@ == "https://map.sepa.org.uk/atom/Data/SEPA_BATHING_WATER_POINTS_BNG_gpkg.zip"@,
            r.zipfile matches Some(z) && z@ == "SEPA_BATHING_WATER_POINTS_BNG_gpkg.zip"@,
            r.db@ == "SEPA_BATHING_WATER_POINTS_BNG.gpkg"@,
            r.table@ == "SEPA_BATHING_WATER_POINTS_BNG"@,
            r.crs == 27700,
            r.geometry_col_idx == 1,
            r.uuid_col_idx == 8,
    {
        GeoDB {
            url: String::from_str(
                "https://map.sepa.org.uk/atom/Data/SEPA_BATHING_WATER_POINTS_BNG_gpkg.zip",
            ),
            zipfile: Some(String::from_str("SEPA_BATHING_WATER_POINTS_BNG_gpkg.zip")),
            db: String::from_str("SEPA_BATHING_WATER_POINTS_BNG.gpkg"),
            table: String::from_str("SEPA_BATHING_WATER_POINTS_BNG"),
            crs: 27700,
            geometry_col_idx: 1,
            uuid_col_idx: 8,
        }
    }

    /// The bathing-water areas dataset, in British National Grid.
    pub fn example_polygons_db() -> (r: GeoDB)
        ensures
            r.url@ == "https://map.sepa.org.uk/atom/Data/SEPA_BATHING_WATER_POLYGONS_BNG_gpkg.zip"@,
            r.zipfile matches Some(z) && z@ == "SEPA_BATHING_WATER_POLYGONS_BNG_gpkg.zip"@,
            r.db@ == "SEPA_BATHING_WATER_POLYGONS_BNG.gpkg"@,
            r.table@ == "SEPA_BATHING_WATER_POLYGONS_BNG"@,
            r.crs == 27700,
            r.geometry_col_idx == 1,
            r.uuid_col_idx == 8,
    {
        GeoDB {
            url: String::from_str(
                "https://map.sepa.org.uk/atom/Data/SEPA_BATHING_WATER_POLYGONS_BNG_gpkg.zip",
            ),
            zipfile: Some(String::from_str("SEPA_BATHING_WATER_POLYGONS_BNG_gpkg.zip")),
            db: String::from_str("SEPA_BATHING_WATER_POLYGONS_BNG.gpkg"),
            table: String::from_str("SEPA_BATHING_WATER_POLYGONS_BNG"),
            crs: 27700,
            geometry_col_idx: 1,
            uuid_col_idx: 8,
        }
    }

    /// Where the downloaded archive is staged, if the dataset comes as one.
    pub fn archive_path(&self, staging: &str) -> (r: Option<String>)
        ensures
            match self.zipfile {
                Some(z) => r matches Some(p) && p@ == joined(staging@, z@),
                None => r is None,
            },
    {
        match &self.zipfile {
            Some(z) => Some(join_path(staging, z.as_str())),
            None => None,
        }
    }

    /// Where the database file lies once unpacked.
    pub fn database_path(&self, staging: &str) -> (r: String)
        ensures
            r@ == joined(staging@, self.db@),
    {
        join_path(staging, self.db.as_str())
    }

    /// The staged files to delete once the database connection is closed:
    /// the database first, then the archive it came in, if any.
    pub fn cleanup_paths(&self, staging: &str) -> (r: Vec<String>)
        ensures
            match self.zipfile {
                Some(z) => r@.len() == 2 && r@[0]@ == joined(staging@, self.db@) && r@[1]@
                    == joined(staging@, z@),
                None => r@.len() == 1 && r@[0]@ == joined(staging@, self.db@),
            },
    {
        let mut r: Vec<String> = Vec::new();
        r.push(self.database_path(staging));
        match self.archive_path(staging) {
            Some(p) => r.push(p),
            None => {},
        }
        r
    }

    /// The query that reads every row of the dataset's table.
    pub fn rows_query(&self) -> (r: String)
        ensures
            r@ == "SELECT * FROM "@ + self.table@,
    {
        select_all_query(self.table.as_str())
    }

    /// The geometry and identifier column positions, or `None` where either
    /// is negative.
    pub fn column_indices(&self) -> (r: Option<(usize, usize)>)
        ensures
            self.geometry_col_idx >= 0 && self.uuid_col_idx >= 0 ==> r == Some(
                (self.geometry_col_idx as usize, self.uuid_col_idx as usize),
            ),
            !(self.geometry_col_idx >= 0 && self.uuid_col_idx >= 0) ==> r is None,
    {
        if self.geometry_col_idx >= 0 && self.uuid_col_idx >= 0 {
            Some((self.geometry_col_idx as usize, self.uuid_col_idx as usize))
        } else {
            None
        }
    }
}

} // verus!
