use vstd::prelude::*;

use crate::format::FileFormat;
use crate::ident::{normalize_ids, normalized};
use crate::jsonio::{json_model, json_of_value, value_of_json};
use crate::tabular::{csv_rows, csv_text, export_table_as_csv};
use crate::value::{
    find_field, get_field, lemma_entries_of, models_of, strs_model, Val, ValModel,
};

verus! {

/// What the JSON crate's pretty-printing serializer renders a record window
/// as: a function of the records alone.
pub uninterp spec fn json_text_pretty(records: Seq<ValModel>) -> Seq<char>;

/// Renders a record window as pretty-printed JSON text. Relies on
/// serde_json::to_string_pretty, whose output depends on the records alone;
/// serializing a tree of plain values reports no error.
#[verifier::external_body]
fn to_json_pretty(records: &Vec<Val>) -> (r: String)
    ensures
        r@ == json_text_pretty(models_of(records@)),
{
    let vals: Vec<serde_json::Value> = records.iter().map(json_of_value).collect();
    serde_json::to_string_pretty(&vals).unwrap_or_else(|_| String::new())
}

/// One table's JSON export content: the fetched window with identifiers
/// normalized, pretty-printed.
pub fn export_table_as_json(records: Vec<Val>) -> (r: String)
    ensures
        r@ == json_text_pretty(models_of(records@).map_values(|m: ValModel| normalized(m))),
{
    let rows = normalize_ids(records);
    to_json_pretty(&rows)
}

/// The declared field names of a table, in the order the database service
/// reported them under the `fields` member; no such member, or one of
/// another shape, yields the empty set rather than a failure.
pub open spec fn schema_fields(info: ValModel) -> Seq<Seq<char>> {
    match get_field(info, "fields"@) {
        Some(ValModel::Obj(fs)) => fs.map_values(|e: (Seq<char>, ValModel)| e.0),
        _ => Seq::empty(),
    }
}

/// Reads a table's declared field names out of its metadata record, as
/// `schema_fields` says.
pub fn fields_of_info(info: &Val) -> (r: Vec<String>)
    ensures
        strs_model(r@) == schema_fields(info@),
{
    let empty: Vec<String> = Vec::new();
    proof {
        assert(strs_model(empty@) =~= Seq::<Seq<char>>::empty());
    }
    match info {
        Val::Obj(fs) => {
            let name = "fields".to_owned();
            match find_field(fs, &name) {
                Some(v) => match v {
                    Val::Obj(inner) => {
                        proof {
                            lemma_entries_of(inner@);
                        }
                        let k = inner.len();
                        let mut out: Vec<String> = Vec::new();
                        let mut j: usize = 0;
                        while j < k
                            invariant
                                0 <= j <= k,
                                k == inner@.len(),
                                out@.len() == j,
                                forall|l: int|
                                    0 <= l < j ==> #[trigger] out@[l]@ == inner@[l].0@,
                            decreases k - j,
                        {
                            out.push(inner[j].0.clone());
                            j += 1;
                        }
                        proof {
                            lemma_entries_of(inner@);
                            assert(strs_model(out@) =~= schema_fields(info@));
                        }
                        out
                    },
                    _ => empty,
                },
                None => empty,
            }
        },
        _ => empty,
    }
}

/// Extracts a table's declared field names from the raw metadata value the
/// database service returned; a service that reported no metadata row at
/// all yields the empty set, as an unknown or schema-less table must.
pub fn extract_fields(info: Option<serde_json::Value>) -> (r: Vec<String>)
    ensures
        match info {
            Some(v) => strs_model(r@) == schema_fields(json_model(v)),
            None => strs_model(r@) == Seq::<Seq<char>>::empty(),
        },
{
    match info {
        Some(raw) => {
            let v = value_of_json(raw);
            fields_of_info(&v)
        },
        None => {
            let empty: Vec<String> = Vec::new();
            proof {
                assert(strs_model(empty@) =~= Seq::<Seq<char>>::empty());
            }
            empty
        },
    }
}

/// The outcome of one table's export task: the file to write, or the
/// failure reported against that table alone.
#[derive(Debug, PartialEq, Eq)]
pub enum ExportOutcome {
    Written { file_name: String, content: String },
    Failed { table: String, message: String },
}

/// The name of one table's export file.
pub open spec fn export_file_name(table: Seq<char>, format: FileFormat) -> Seq<char> {
    match format {
        FileFormat::Json => table + ".json"@,
        FileFormat::Csv => table + ".csv"@,
    }
}

/// Decides one table's JSON export from its fetched window: a fetched
/// window becomes the content of `<table>.json`, identifiers normalized
/// and pretty-printed; a fetch failure is reported against the table, and
/// nothing is written for it. One table's outcome depends on its own fetch
/// alone, so a sibling's failure cannot touch it.
pub fn export_json_step(table: &String, fetch: Result<Vec<Val>, String>) -> (r: ExportOutcome)
    ensures
        r is Written <==> fetch is Ok,
        match r {
            ExportOutcome::Written { file_name, content } => {
                &&& file_name@ == export_file_name(table@, FileFormat::Json)
                &&& match fetch {
                    Ok(rows) => content@ == json_text_pretty(
                        models_of(rows@).map_values(|m: ValModel| normalized(m)),
                    ),
                    Err(_) => false,
                }
            },
            ExportOutcome::Failed { table: t, message } => {
                &&& t@ == table@
                &&& match fetch {
                    Err(m) => message@ == m@,
                    Ok(_) => false,
                }
            },
        },
{
    match fetch {
        Ok(rows) => {
            let content = export_table_as_json(rows);
            let mut file_name = table.clone();
            file_name.append(".json");
            ExportOutcome::Written { file_name, content }
        },
        Err(message) => ExportOutcome::Failed { table: table.clone(), message },
    }
}

/// Decides one table's tabular export from its fetched window and declared
/// fields: a fetched window becomes the content of `<table>.csv`,
/// identifiers normalized and projected onto the declared columns; a fetch
/// or schema failure is reported against the table, and nothing is written
/// for it.
pub fn export_csv_step(table: &String, fetch: Result<(Vec<Val>, Vec<String>), String>) -> (r:
    ExportOutcome)
    ensures
        r is Written <==> fetch is Ok,
        match r {
            ExportOutcome::Written { file_name, content } => {
                &&& file_name@ == export_file_name(table@, FileFormat::Csv)
                &&& match fetch {
                    Ok((rows, fields)) => content@ == csv_text(
                        csv_rows(
                            strs_model(fields@),
                            models_of(rows@).map_values(|m: ValModel| normalized(m)),
                        ),
                    ),
                    Err(_) => false,
                }
            },
            ExportOutcome::Failed { table: t, message } => {
                &&& t@ == table@
                &&& match fetch {
                    Err(m) => message@ == m@,
                    Ok(_) => false,
                }
            },
        },
{
    match fetch {
        Ok((rows, fields)) => {
            let rows = normalize_ids(rows);
            let content = export_table_as_csv(&fields, &rows);
            let mut file_name = table.clone();
            file_name.append(".csv");
            ExportOutcome::Written { file_name, content }
        },
        Err(message) => ExportOutcome::Failed { table: table.clone(), message },
    }
}

} // verus!
