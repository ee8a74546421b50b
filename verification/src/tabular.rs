use vstd::prelude::*;

use crate::jsonio::json_of_value;
use crate::value::{
    entries_of, find_field, get_field, lemma_entries_of, models_of, strs_model, Val, ValModel,
};

verus! {

/// What the JSON crate's compact serializer renders a value as: a function
/// of the value alone.
pub uninterp spec fn json_text(v: ValModel) -> Seq<char>;

/// Renders one value as compact JSON text. Relies on serde_json::to_string,
/// whose output depends on the value alone; serializing a tree of plain
/// values reports no error.
#[verifier::external_body]
fn to_json_text(v: &Val) -> (r: String)
    ensures
        r@ == json_text(v@),
{
    serde_json::to_string(&json_of_value(v)).unwrap_or_else(|_| String::new())
}

/// One value rendered for a tabular cell: the `NULL` sentinel for null, the
/// two boolean words, a number's canonical decimal text, a string verbatim,
/// and compact JSON text for a list or a mapping.
pub open spec fn render_cell(v: ValModel) -> Seq<char> {
    match v {
        ValModel::Null => "NULL"@,
        ValModel::Bool(b) => if b {
            "true"@
        } else {
            "false"@
        },
        ValModel::Num(t) => t,
        ValModel::Str(s) => s,
        ValModel::Arr(_) => json_text(v),
        ValModel::Obj(_) => json_text(v),
    }
}

/// Renders one value for a tabular cell, as `render_cell` says.
pub fn value_to_string(v: &Val) -> (r: String)
    ensures
        r@ == render_cell(v@),
{
    match v {
        Val::Null => "NULL".to_owned(),
        Val::Bool(b) => if *b {
            "true".to_owned()
        } else {
            "false".to_owned()
        },
        Val::Num(t) => t.clone(),
        Val::Str(s) => s.clone(),
        Val::Arr(_) => to_json_text(v),
        Val::Obj(_) => to_json_text(v),
    }
}

/// One record's cell under one column: the rendered field value, or the
/// `NULL` sentinel where the record has no such field.
pub open spec fn project_cell(rec: ValModel, field: Seq<char>) -> Seq<char> {
    match get_field(rec, field) {
        Some(v) => render_cell(v),
        None => "NULL"@,
    }
}

/// Projects records onto a fixed column list: one row per record in window
/// order, one cell per column in column order; a field absent from a
/// record, or a record that is no mapping, yields the sentinel, never an
/// error — also when the column list is empty.
pub fn records_to_csv(fields: &Vec<String>, records: &Vec<Val>) -> (r: Vec<Vec<String>>)
    ensures
        r@.len() == records@.len(),
        forall|i: int| 0 <= i < r@.len() ==> #[trigger] r@[i]@.len() == fields@.len(),
        forall|i: int, j: int|
            0 <= i < r@.len() && 0 <= j < fields@.len() ==> #[trigger] r@[i]@[j]@ == project_cell(
                records@[i].model(),
                fields@[j]@,
            ),
{
    let n = records.len();
    let m = fields.len();
    let mut out: Vec<Vec<String>> = Vec::new();
    let mut i: usize = 0;
    while i < n
        invariant
            0 <= i <= n,
            n == records@.len(),
            m == fields@.len(),
            out@.len() == i,
            forall|k: int| 0 <= k < i ==> #[trigger] out@[k]@.len() == fields@.len(),
            forall|k: int, j: int|
                0 <= k < i && 0 <= j < fields@.len() ==> #[trigger] out@[k]@[j]@ == project_cell(
                    records@[k].model(),
                    fields@[j]@,
                ),
        decreases n - i,
    {
        let mut row: Vec<String> = Vec::new();
        let mut j: usize = 0;
        while j < m
            invariant
                0 <= j <= m,
                n == records@.len(),
                m == fields@.len(),
                0 <= i < n,
                row@.len() == j,
                forall|l: int|
                    0 <= l < j ==> #[trigger] row@[l]@ == project_cell(
                        records@[i as int].model(),
                        fields@[l]@,
                    ),
            decreases m - j,
        {
            let cell = match &records[i] {
                Val::Obj(fs) => {
                    proof {
                        lemma_entries_of(fs@);
                    }
                    match find_field(fs, &fields[j]) {
                        Some(v) => value_to_string(v),
                        None => "NULL".to_owned(),
                    }
                },
                _ => "NULL".to_owned(),
            };
            row.push(cell);
            j += 1;
        }
        out.push(row);
        i += 1;
    }
    out
}

/// What the tabular crate's writer encodes a row set as: a function of the
/// rows alone.
pub uninterp spec fn csv_text(rows: Seq<Seq<Seq<char>>>) -> Seq<char>;

pub open spec fn rows_model(rows: Seq<Vec<String>>) -> Seq<Seq<Seq<char>>> {
    rows.map_values(|r: Vec<String>| strs_model(r@))
}

/// Encodes rows as comma-delimited lines with standard quoting. Relies on
/// csv::Writer over an in-memory buffer: the encoding is a function of the
/// rows, and on rows of one shared length the default writer reports no
/// error.
#[verifier::external_body]
fn encode_csv(rows: &Vec<Vec<String>>) -> (r: Option<String>)
    ensures
        match r {
            Some(t) => t@ == csv_text(rows_model(rows@)),
            None => true,
        },
        (forall|i: int| 0 <= i < rows@.len() ==> #[trigger] rows@[i]@.len() == rows@[0]@.len())
            ==> r is Some,
{
    let mut w = csv::Writer::from_writer(Vec::new());
    for row in rows {
        if w.write_record(row).is_err() {
            return None;
        }
    }
    match w.into_inner() {
        Ok(buf) => String::from_utf8(buf).ok(),
        Err(_) => None,
    }
}

/// The rows of one table's tabular export: the header of column names,
/// then one projected row per record, in window order.
pub open spec fn csv_rows(fields: Seq<Seq<char>>, records: Seq<ValModel>) -> Seq<Seq<Seq<char>>> {
    seq![fields] + records.map_values(
        |m: ValModel| fields.map_values(|f: Seq<char>| project_cell(m, f)),
    )
}

/// One table's tabular export content: the header row of field names, then
/// one row per record, encoded as comma-delimited text.
pub fn export_table_as_csv(fields: &Vec<String>, records: &Vec<Val>) -> (r: String)
    ensures
        r@ == csv_text(csv_rows(strs_model(fields@), models_of(records@))),
{
    let body = records_to_csv(fields, records);
    let mut rows: Vec<Vec<String>> = Vec::new();
    let mut header: Vec<String> = Vec::new();
    let m = fields.len();
    let mut j: usize = 0;
    while j < m
        invariant
            0 <= j <= m,
            m == fields@.len(),
            header@.len() == j,
            forall|l: int| 0 <= l < j ==> #[trigger] header@[l]@ == fields@[l]@,
        decreases m - j,
    {
        header.push(fields[j].clone());
        j += 1;
    }
    rows.push(header);
    let ghost body_model = body@;
    let mut body = body;
    while body.len() > 0
        invariant
            rows@.len() >= 1,
            rows@.len() - 1 + body@.len() == body_model.len(),
            body@ =~= body_model.subrange(rows@.len() - 1, body_model.len() as int),
            forall|k: int| 1 <= k < rows@.len() ==> rows@[k] == body_model[k - 1],
            forall|l: int| 0 <= l < fields@.len() ==> #[trigger] rows@[0]@[l]@ == fields@[l]@,
            rows@[0]@.len() == fields@.len(),
        decreases body@.len(),
    {
        let row = body.remove(0);
        rows.push(row);
    }
    proof {
        crate::value::lemma_models_of(records@);
        assert(rows_model(rows@) =~~= csv_rows(strs_model(fields@), models_of(records@)));
        assert forall|i: int| 0 <= i < rows@.len() implies #[trigger] rows@[i]@.len()
            == rows@[0]@.len() by {}
    }
    match encode_csv(&rows) {
        Some(t) => t,
        None => vstd::pervasive::unreached(),
    }
}

} // verus!
