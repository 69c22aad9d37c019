use crate::level::Level;
use vstd::prelude::*;

verus! {

/// What the grid algorithm answers when a root code is expanded to a
/// level: the child cell codes, or nothing where it rejects the pair. The
/// expansion is pure grid arithmetic, so both the answer and whether there
/// is one are functions of the two arguments alone.
pub uninterp spec fn expansion_of(root: u64, level_tag: u64) -> Option<Seq<u64>>;

/// The Japanese name of each grid tier, exactly as the grid crate lists
/// them.
pub open spec fn jp_name_spec(level: Level) -> Seq<char> {
    match level {
        Level::Lv1 => "1次"@,
        Level::X40 => "40倍"@,
        Level::X20 => "20倍"@,
        Level::X16 => "16倍"@,
        Level::Lv2 => "2次"@,
        Level::X8 => "8倍"@,
        Level::X5 => "5倍"@,
        Level::X4 => "4倍"@,
        Level::X2_5 => "2.5倍"@,
        Level::X2 => "2倍"@,
        Level::Lv3 => "3次"@,
        Level::Lv4 => "4次"@,
        Level::Lv5 => "5次"@,
        Level::Lv6 => "6次"@,
    }
}

/// The Japanese description of each grid tier's approximate cell size,
/// exactly as the grid crate lists them.
pub open spec fn jp_size_spec(level: Level) -> Seq<char> {
    match level {
        Level::Lv1 => "80km四方"@,
        Level::X40 => "40km四方"@,
        Level::X20 => "20km四方"@,
        Level::X16 => "16km四方"@,
        Level::Lv2 => "10km四方"@,
        Level::X8 => "8km四方"@,
        Level::X5 => "5km四方"@,
        Level::X4 => "4km四方"@,
        Level::X2_5 => "2.5km四方"@,
        Level::X2 => "2km四方"@,
        Level::Lv3 => "1km四方"@,
        Level::Lv4 => "500m四方"@,
        Level::Lv5 => "250m四方"@,
        Level::Lv6 => "125m四方"@,
    }
}

/// Relies on jismesh::to_intersects: the cells of `level` that intersect
/// the cell of `root`. Whether the pair is accepted and what comes back
/// depend on the code and the level alone. The arguments go in through
/// jismesh::MeshCode::try_from and jismesh::MeshLevel::try_from, the codes
/// come back out through u64::from.
#[verifier::external_body]
pub(crate) fn expand_codes(root: u64, level: &Level) -> (r: Result<Vec<u64>, String>)
    ensures
        r is Ok <==> expansion_of(root, level.tag_spec()) is Some,
        r matches Ok(codes) ==> Some(codes@) == expansion_of(root, level.tag_spec()),
{
    let ml = match jismesh::MeshLevel::try_from(level.tag() as usize) {
        Ok(l) => l,
        Err(e) => return Err(e.to_string()),
    };
    let mc = match jismesh::MeshCode::try_from(root) {
        Ok(m) => m,
        Err(e) => return Err(e.to_string()),
    };
    match jismesh::to_intersects(&mc, ml) {
        Ok(v) => Ok(v.into_iter().map(u64::from).collect()),
        Err(e) => Err(e.to_string()),
    }
}

/// Relies on jismesh::MeshLevel::to_string_jp: a fixed match returning
/// exactly the names `jp_name_spec` lists.
#[verifier::external_body]
pub fn level_jp_name(level: &Level) -> (r: String)
    ensures
        r@ == jp_name_spec(*level),
{
    let ml = jismesh::MeshLevel::try_from(level.tag() as usize).unwrap();
    ml.to_string_jp().to_string()
}

/// Relies on jismesh::MeshLevel::to_size_jp: a fixed match returning
/// exactly the sizes `jp_size_spec` lists.
#[verifier::external_body]
pub fn level_jp_size(level: &Level) -> (r: String)
    ensures
        r@ == jp_size_spec(*level),
{
    let ml = jismesh::MeshLevel::try_from(level.tag() as usize).unwrap();
    ml.to_size_jp().to_string()
}

/// Relies on jismesh::codes::JAPAN_LV1: the built-in list of the 176
/// first-tier codes covering the target territory, the default root set.
#[verifier::external_body]
pub fn default_root_meshes() -> (r: Vec<u64>)
    ensures
        r@.len() == 176,
{
    jismesh::codes::JAPAN_LV1.to_vec()
}

} // verus!
