use dbtransfer::errors::{ImportError, ValidationError};
use dbtransfer::export::{
    export_csv_step, export_json_step, extract_fields, fields_of_info, ExportOutcome,
};
use dbtransfer::format::{file_format, FileFormat, InputFile};
use dbtransfer::ident::{convert_id, denormalize};
use dbtransfer::jsonio::convert_rows;
use dbtransfer::loader::{
    check_import_response, generate_insert, load_records, plan_imports, ImportAction, ImportFile,
};
use dbtransfer::numtext::{i64_to_decimal, u64_to_decimal};
use dbtransfer::tabular::{export_table_as_csv, records_to_csv, value_to_string};
use dbtransfer::value::Val;

fn input(path: &str, is_file: bool, ext: Option<&str>) -> InputFile {
    InputFile {
        path: path.to_string(),
        is_file,
        extension: ext.map(|e| e.to_string()),
        stem: None,
    }
}

fn obj(fields: Vec<(&str, Val)>) -> Val {
    Val::Obj(fields.into_iter().map(|(k, v)| (k.to_string(), v)).collect())
}

fn num(t: &str) -> Val {
    Val::Num(t.to_string())
}

fn st(t: &str) -> Val {
    Val::Str(t.to_string())
}

#[test]
fn format_shared_json_resolves() {
    let files = vec![input("a.json", true, Some("json")), input("b.json", true, Some("json"))];
    assert_eq!(file_format(&files).unwrap(), FileFormat::Json);
    let files = vec![input("a.csv", true, Some("csv"))];
    assert_eq!(file_format(&files).unwrap(), FileFormat::Csv);
}

#[test]
fn format_mixed_extensions_rejected() {
    let files = vec![input("a.json", true, Some("json")), input("b.csv", true, Some("csv"))];
    match file_format(&files) {
        Err(ValidationError::MixedExtensions { expected, found }) => {
            assert_eq!(expected, "json");
            assert_eq!(found, "csv");
        }
        other => panic!("expected mixed extensions, got {:?}", other),
    }
}

#[test]
fn format_non_file_rejected() {
    let files = vec![input("a.json", true, Some("json")), input("sub", false, None)];
    match file_format(&files) {
        Err(ValidationError::NotAFile { path }) => assert_eq!(path, "sub"),
        other => panic!("expected a non-file rejection, got {:?}", other),
    }
}

#[test]
fn format_unknown_extension_rejected() {
    let files = vec![input("a.yaml", true, Some("yaml"))];
    match file_format(&files) {
        Err(ValidationError::UnknownFormat { extension }) => assert_eq!(extension, "yaml"),
        other => panic!("expected an unknown format, got {:?}", other),
    }
}

#[test]
fn format_missing_extension_rejected() {
    let files = vec![input("noext", true, None)];
    match file_format(&files) {
        Err(ValidationError::MissingExtension { path }) => assert_eq!(path, "noext"),
        other => panic!("expected a missing extension, got {:?}", other),
    }
}

#[test]
fn format_tag_from_str() {
    assert_eq!(FileFormat::from_str("json").unwrap(), FileFormat::Json);
    assert_eq!(FileFormat::from_str("csv").unwrap(), FileFormat::Csv);
    match FileFormat::from_str("xml") {
        Err(ValidationError::UnknownFormat { extension }) => assert_eq!(extension, "xml"),
        other => panic!("expected an unknown format, got {:?}", other),
    }
}

#[test]
fn loader_single_object_yields_one() {
    let records = load_records("{\"a\": 1}").unwrap();
    assert_eq!(records, vec![obj(vec![("a", num("1"))])]);
}

#[test]
fn loader_array_yields_in_order() {
    let records = load_records("[{\"a\": 1}, {\"b\": 2}, {\"a\": 3}]").unwrap();
    assert_eq!(
        records,
        vec![
            obj(vec![("a", num("1"))]),
            obj(vec![("b", num("2"))]),
            obj(vec![("a", num("3"))]),
        ]
    );
}

#[test]
fn loader_bad_bodies_rejected() {
    assert_eq!(load_records("5").unwrap_err(), ImportError::Parse);
    assert_eq!(load_records("\"text\"").unwrap_err(), ImportError::Parse);
    assert_eq!(load_records("{\"a\": ").unwrap_err(), ImportError::Parse);
}

#[test]
fn identifier_round_trip_integer() {
    let rec = obj(vec![("id", denormalize("person", 1)), ("name", st("Al"))]);
    let rec = convert_id(rec);
    assert_eq!(rec, obj(vec![("id", st("1")), ("name", st("Al"))]));
}

#[test]
fn identifier_round_trip_negative_key() {
    let rec = convert_id(obj(vec![("id", denormalize("t", -42))]));
    assert_eq!(rec, obj(vec![("id", st("-42"))]));
}

#[test]
fn identifier_string_key() {
    let thing = obj(vec![("tb", st("person")), ("id", obj(vec![("String", st("abc"))]))]);
    let rec = convert_id(obj(vec![("id", thing)]));
    assert_eq!(rec, obj(vec![("id", st("abc"))]));
}

#[test]
fn identifier_unrecognized_left_unmodified() {
    let plain = obj(vec![("id", num("7")), ("name", st("x"))]);
    let expected = obj(vec![("id", num("7")), ("name", st("x"))]);
    assert_eq!(convert_id(plain), expected);
    let without = obj(vec![("name", st("x"))]);
    let expected = obj(vec![("name", st("x"))]);
    assert_eq!(convert_id(without), expected);
}

#[test]
fn decimal_text_of_keys() {
    assert_eq!(u64_to_decimal(0), "0");
    assert_eq!(u64_to_decimal(1234567890123456789), "1234567890123456789");
    assert_eq!(i64_to_decimal(-5), "-5");
    assert_eq!(i64_to_decimal(i64::MIN), "-9223372036854775808");
    assert_eq!(i64_to_decimal(i64::MAX), "9223372036854775807");
}

#[test]
fn serializer_projects_missing_as_null() {
    let fields = vec!["a".to_string(), "b".to_string()];
    let records = vec![obj(vec![("a", num("1"))])];
    let rows = records_to_csv(&fields, &records);
    assert_eq!(rows, vec![vec!["1".to_string(), "NULL".to_string()]]);
}

#[test]
fn serializer_empty_field_list() {
    let fields: Vec<String> = vec![];
    let records = vec![obj(vec![("a", num("1"))]), obj(vec![])];
    let rows = records_to_csv(&fields, &records);
    assert_eq!(rows, vec![Vec::<String>::new(), Vec::<String>::new()]);
}

#[test]
fn cell_rendering_by_kind() {
    assert_eq!(value_to_string(&Val::Null), "NULL");
    assert_eq!(value_to_string(&Val::Bool(true)), "true");
    assert_eq!(value_to_string(&Val::Bool(false)), "false");
    assert_eq!(value_to_string(&num("2.5")), "2.5");
    assert_eq!(value_to_string(&st("plain")), "plain");
    assert_eq!(value_to_string(&Val::Arr(vec![num("1"), st("x")])), "[1,\"x\"]");
    assert_eq!(value_to_string(&obj(vec![("a", Val::Null)])), "{\"a\":null}");
}

#[test]
fn csv_content_with_header() {
    let fields = vec!["a".to_string(), "b".to_string()];
    let records = vec![obj(vec![("a", num("1"))]), obj(vec![("b", Val::Bool(true))])];
    let text = export_table_as_csv(&fields, &records);
    assert_eq!(text, "a,b\n1,NULL\nNULL,true\n");
}

#[test]
fn csv_quotes_embedded_delimiters() {
    let fields = vec!["a".to_string()];
    let records = vec![obj(vec![("a", st("x,y"))])];
    let text = export_table_as_csv(&fields, &records);
    assert_eq!(text, "a\n\"x,y\"\n");
}

#[test]
fn csv_empty_schema_degenerate() {
    let fields: Vec<String> = vec![];
    let records = vec![obj(vec![("a", num("1"))])];
    let text = export_table_as_csv(&fields, &records);
    assert_eq!(text, "\"\"\n\"\"\n");
}

#[test]
fn schema_fields_extracted_in_order() {
    let info = obj(vec![(
        "fields",
        obj(vec![("name", st("def")), ("hp", st("def"))]),
    )]);
    assert_eq!(fields_of_info(&info), vec!["name".to_string(), "hp".to_string()]);
    assert_eq!(fields_of_info(&obj(vec![])), Vec::<String>::new());
    assert_eq!(fields_of_info(&Val::Null), Vec::<String>::new());
    assert_eq!(fields_of_info(&obj(vec![("fields", num("3"))])), Vec::<String>::new());
}

#[test]
fn schema_fields_from_raw_value() {
    let info: serde_json::Value =
        serde_json::from_str("{\"fields\": {\"name\": \"\", \"hp\": \"\"}}").unwrap();
    assert_eq!(extract_fields(Some(info)), vec!["hp".to_string(), "name".to_string()]);
}

#[test]
fn schema_fields_absent_info_falls_back() {
    assert_eq!(extract_fields(None), Vec::<String>::new());
    let scalar: serde_json::Value = serde_json::from_str("7").unwrap();
    assert_eq!(extract_fields(Some(scalar)), Vec::<String>::new());
}

#[test]
fn raw_rows_converted_one_for_one() {
    let rows = vec![
        serde_json::from_str::<serde_json::Value>("{\"a\": 1}").unwrap(),
        serde_json::from_str::<serde_json::Value>("null").unwrap(),
    ];
    let vals = convert_rows(rows);
    assert_eq!(vals, vec![obj(vec![("a", num("1"))]), Val::Null]);
}

#[test]
fn import_plan_isolates_files() {
    let files = vec![
        ImportFile { stem: Some("a".to_string()), text: "[{\"x\": 1}]".to_string() },
        ImportFile { stem: Some("b".to_string()), text: "{bad".to_string() },
    ];
    let plan = plan_imports(&files);
    assert_eq!(plan.len(), 2);
    match &plan[0] {
        ImportAction::Insert { table, query, records } => {
            assert_eq!(table, "a");
            assert_eq!(query, "INSERT INTO a $records");
            assert_eq!(records, &vec![obj(vec![("x", num("1"))])]);
        }
        other => panic!("expected an insert for the valid file, got {:?}", other),
    }
    assert_eq!(plan[1], ImportAction::Reject { error: ImportError::Parse });
}

#[test]
fn import_naming_rejected() {
    let no_stem = ImportFile { stem: None, text: "[]".to_string() };
    assert_eq!(
        generate_insert(&no_stem),
        ImportAction::Reject { error: ImportError::Naming }
    );
    let empty_stem = ImportFile { stem: Some(String::new()), text: "[]".to_string() };
    assert_eq!(
        generate_insert(&empty_stem),
        ImportAction::Reject { error: ImportError::Naming }
    );
}

#[test]
fn import_response_decides_success() {
    assert_eq!(check_import_response(&vec![]), Ok(()));
    match check_import_response(&vec!["boom".to_string(), "later".to_string()]) {
        Err(ImportError::Statement { message }) => assert_eq!(message, "boom"),
        other => panic!("expected a statement error, got {:?}", other),
    }
}

#[test]
fn export_isolates_failures() {
    let t1 = "t1".to_string();
    let t2 = "t2".to_string();
    let o1 = export_json_step(&t1, Err("query failed".to_string()));
    let o2 = export_json_step(&t2, Ok(vec![obj(vec![("a", num("1"))])]));
    match &o1 {
        ExportOutcome::Failed { table, message } => {
            assert_eq!(table, "t1");
            assert_eq!(message, "query failed");
        }
        other => panic!("expected a failure for t1, got {:?}", other),
    }
    match &o2 {
        ExportOutcome::Written { file_name, content } => {
            assert_eq!(file_name, "t2.json");
            let expected: serde_json::Value = serde_json::from_str("[{\"a\": 1}]").unwrap();
            assert_eq!(content, &serde_json::to_string_pretty(&expected).unwrap());
        }
        other => panic!("expected t2 to be written, got {:?}", other),
    }
    let failures = [&o1, &o2]
        .iter()
        .filter(|o| matches!(o, ExportOutcome::Failed { .. }))
        .count();
    assert_eq!(failures, 1);
}

#[test]
fn export_csv_step_writes_table_file() {
    let t = "t".to_string();
    let rows = vec![obj(vec![("a", num("1"))])];
    let fields = vec!["a".to_string()];
    match export_csv_step(&t, Ok((rows, fields))) {
        ExportOutcome::Written { file_name, content } => {
            assert_eq!(file_name, "t.csv");
            assert_eq!(content, "a\n1\n");
        }
        other => panic!("expected a written file, got {:?}", other),
    }
    match export_csv_step(&t, Err("no schema".to_string())) {
        ExportOutcome::Failed { table, message } => {
            assert_eq!(table, "t");
            assert_eq!(message, "no schema");
        }
        other => panic!("expected a failure, got {:?}", other),
    }
}

#[test]
fn round_trip_person_table() {
    let text = "[{\"id\": 1, \"name\": \"Al\"}]";
    let records = load_records(text).unwrap();
    assert_eq!(records.len(), 1);
    let action = generate_insert(&ImportFile {
        stem: Some("person".to_string()),
        text: text.to_string(),
    });
    match &action {
        ImportAction::Insert { table, .. } => assert_eq!(table, "person"),
        other => panic!("expected an insert, got {:?}", other),
    }
    let stored = obj(vec![("id", denormalize("person", 1)), ("name", st("Al"))]);
    match export_json_step(&"person".to_string(), Ok(vec![stored])) {
        ExportOutcome::Written { file_name, content } => {
            assert_eq!(file_name, "person.json");
            let expected: serde_json::Value =
                serde_json::from_str("[{\"id\": \"1\", \"name\": \"Al\"}]").unwrap();
            assert_eq!(content, serde_json::to_string_pretty(&expected).unwrap());
        }
        other => panic!("expected the table to be written, got {:?}", other),
    }
}
