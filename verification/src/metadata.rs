use crate::grid::{jp_name_spec, jp_size_spec, level_jp_name, level_jp_size};
use crate::level::Level;
use vstd::prelude::*;

verus! {

/// The character of one decimal digit.
pub open spec fn digit_char(d: int) -> char {
    if d == 0 {
        '0'
    } else if d == 1 {
        '1'
    } else if d == 2 {
        '2'
    } else if d == 3 {
        '3'
    } else if d == 4 {
        '4'
    } else if d == 5 {
        '5'
    } else if d == 6 {
        '6'
    } else if d == 7 {
        '7'
    } else if d == 8 {
        '8'
    } else {
        '9'
    }
}

/// The decimal writing of a number, most significant digit first, no
/// leading zeros (a lone zero for zero).
pub open spec fn dec_chars(n: int) -> Seq<char>
    decreases n,
{
    if n < 10 {
        seq![digit_char(n)]
    } else {
        dec_chars(n / 10).push(digit_char(n % 10))
    }
}

fn digit_str(d: u64) -> (s: &'static str)
    requires
        d < 10,
    ensures
        s@ == seq![digit_char(d as int)],
{
    proof {
        reveal_strlit("0");
        reveal_strlit("1");
        reveal_strlit("2");
        reveal_strlit("3");
        reveal_strlit("4");
        reveal_strlit("5");
        reveal_strlit("6");
        reveal_strlit("7");
        reveal_strlit("8");
        reveal_strlit("9");
    }
    match d {
        0 => "0",
        1 => "1",
        2 => "2",
        3 => "3",
        4 => "4",
        5 => "5",
        6 => "6",
        7 => "7",
        8 => "8",
        _ => "9",
    }
}

/// Write a number in decimal: the enumerated value labels of the metadata
/// document carry level tags this way.
pub fn u64_to_decimal(n: u64) -> (s: String)
    ensures
        s@ == dec_chars(n as int),
    decreases n,
{
    if n < 10 {
        let s = String::from_str(digit_str(n));
        proof {
            assert(s@ =~= dec_chars(n as int));
        }
        s
    } else {
        let mut s = u64_to_decimal(n / 10);
        s.append(digit_str(n % 10));
        proof {
            assert(s@ =~= dec_chars(n as int));
        }
        s
    }
}

/// One enumerated value of the level column: the tag in decimal, and the
/// tier's Japanese name with its cell size in parentheses.
pub struct EnumLabel {
    pub value: String,
    pub desc: String,
}

impl EnumLabel {
    /// The label that documents one tier.
    pub open spec fn describes(self, level: Level) -> bool {
        &&& self.value@ == dec_chars(level.tag_spec() as int)
        &&& self.desc@ == jp_name_spec(level) + " ("@ + jp_size_spec(level) + ")"@
    }
}

/// Build the label of one tier.
pub fn level_label(level: &Level) -> (r: EnumLabel)
    ensures
        r.describes(*level),
{
    let value = u64_to_decimal(level.tag());
    let mut desc = level_jp_name(level);
    desc.append(" (");
    let size = level_jp_size(level);
    desc.append(size.as_str());
    desc.append(")");
    EnumLabel { value, desc }
}

/// Build one label per level found in the table, in the order given.
///
/// The metadata document's level column enumerates exactly the distinct
/// levels actually present; querying them and keeping them distinct is the
/// caller's side of the contract.
pub fn level_labels(levels: &Vec<Level>) -> (r: Vec<EnumLabel>)
    ensures
        r@.len() == levels@.len(),
        forall|i: int| 0 <= i < levels@.len() ==> (#[trigger] r@[i]).describes(levels@[i]),
{
    let mut out: Vec<EnumLabel> = Vec::new();
    let n = levels.len();
    for k in 0..n
        invariant
            n == levels@.len(),
            out@.len() == k,
            forall|i: int| 0 <= i < k ==> (#[trigger] out@[i]).describes(levels@[i]),
    {
        out.push(level_label(&levels[k]));
    }
    out
}

/// One documented column of the table.
pub struct ColumnDoc {
    pub name: String,
    pub desc: String,
    pub data_type: String,
    pub enum_labels: Option<Vec<EnumLabel>>,
}

/// The document the metadata registry receives: the table, its source, its
/// primary key, and its three columns.
pub struct TableDoc {
    pub name: String,
    pub desc: String,
    pub source_url: String,
    pub primary_key: String,
    pub columns: Vec<ColumnDoc>,
}

/// Build the registry document. The table has exactly three columns —
/// identifier, level and geometry — keyed by the identifier alone, and the
/// level column enumerates one label per level handed in.
pub fn build_table_doc(levels: &Vec<Level>) -> (d: TableDoc)
    ensures
        d.name@ == "メッシュコード位置参照"@,
        d.desc@ == "JIS X 0410 地域メッシュコードとgeometryを双方にマッピングするためのテーブル"@,
        d.source_url@ == "https://www.stat.go.jp/data/mesh/pdf/gaiyo1.pdf"@,
        d.primary_key@ == "code"@,
        d.columns@.len() == 3,
        d.columns@[0].name@ == "code"@,
        d.columns@[0].desc@ == "地域メッシュコード"@,
        d.columns@[0].data_type@ == "bigint"@,
        d.columns@[0].enum_labels is None,
        d.columns@[1].name@ == "level"@,
        d.columns@[1].desc@ == "メッシュ区画 (1次、2次など)"@,
        d.columns@[1].data_type@ == "integer"@,
        d.columns@[1].enum_labels matches Some(ls) && ls@.len() == levels@.len() && forall|i: int|
            0 <= i < levels@.len() ==> (#[trigger] ls@[i]).describes(levels@[i]),
        d.columns@[2].name@ == "geom"@,
        d.columns@[2].desc@ == "地域メッシュを表すポリゴン"@,
        d.columns@[2].data_type@ == "geometry(polygon, 4326)"@,
        d.columns@[2].enum_labels is None,
{
    let labels = level_labels(levels);
    let mut columns: Vec<ColumnDoc> = Vec::new();
    columns.push(
        ColumnDoc {
            name: String::from_str("code"),
            desc: String::from_str("地域メッシュコード"),
            data_type: String::from_str("bigint"),
            enum_labels: None,
        },
    );
    columns.push(
        ColumnDoc {
            name: String::from_str("level"),
            desc: String::from_str("メッシュ区画 (1次、2次など)"),
            data_type: String::from_str("integer"),
            enum_labels: Some(labels),
        },
    );
    columns.push(
        ColumnDoc {
            name: String::from_str("geom"),
            desc: String::from_str("地域メッシュを表すポリゴン"),
            data_type: String::from_str("geometry(polygon, 4326)"),
            enum_labels: None,
        },
    );
    TableDoc {
        name: String::from_str("メッシュコード位置参照"),
        desc: String::from_str(
            "JIS X 0410 地域メッシュコードとgeometryを双方にマッピングするためのテーブル",
        ),
        source_url: String::from_str("https://www.stat.go.jp/data/mesh/pdf/gaiyo1.pdf"),
        primary_key: String::from_str("code"),
        columns,
    }
}

} // verus!
