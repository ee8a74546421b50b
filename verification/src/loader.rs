use vstd::prelude::*;

use crate::errors::ImportError;
use crate::jsonio::{parse_json, parsed_json};
use crate::value::{lemma_models_of, models_of, Val, ValModel};

verus! {

/// The records one JSON body yields: the elements of a root array in file
/// order, a root mapping as a single record, and nothing for any other
/// root.
pub open spec fn loaded_records(text: Seq<char>) -> Option<Seq<ValModel>> {
    match parsed_json(text) {
        Some(ValModel::Arr(items)) => Some(items),
        Some(ValModel::Obj(fs)) => Some(seq![ValModel::Obj(fs)]),
        _ => None,
    }
}

/// Loads the records of one file body: a JSON array yields exactly its
/// elements, in file order; a single JSON mapping yields exactly that one
/// record; a malformed body or a scalar root is rejected.
pub fn load_records(text: &str) -> (r: Result<Vec<Val>, ImportError>)
    ensures
        match r {
            Ok(recs) => loaded_records(text@) == Some(models_of(recs@)),
            Err(e) => loaded_records(text@) is None && e matches ImportError::Parse,
        },
{
    match parse_json(text) {
        Some(v) => match v {
            Val::Arr(items) => Ok(items),
            Val::Obj(fields) => {
                let mut one: Vec<Val> = Vec::new();
                one.push(Val::Obj(fields));
                proof {
                    lemma_models_of(one@);
                    assert(models_of(one@) =~= seq![one@[0].model()]);
                }
                Ok(one)
            },
            _ => Err(ImportError::Parse),
        },
        None => Err(ImportError::Parse),
    }
}

/// One input file as the import engine sees it: the stem of its path and
/// the text of its body.
#[derive(Debug, Clone)]
pub struct ImportFile {
    pub stem: Option<String>,
    pub text: String,
}

/// What the import of one file does: one bulk insert against the table
/// derived from the file, or one rejection of that file alone.
#[derive(Debug, PartialEq, Eq)]
pub enum ImportAction {
    Insert { table: String, query: String, records: Vec<Val> },
    Reject { error: ImportError },
}

/// The bulk-insert statement for one table; the records travel beside it,
/// bound as the named parameter.
pub open spec fn insert_query(table: Seq<char>) -> Seq<char> {
    "INSERT INTO "@ + table + " $records"@
}

pub open spec fn stem_view(stem: Option<String>) -> Option<Seq<char>> {
    match stem {
        Some(s) => Some(s@),
        None => None,
    }
}

/// The action planned for one file: an insert of the file's records into
/// the table named by its non-empty stem, a naming rejection where the
/// stem is missing or empty, and a parse rejection where the body yields
/// no records.
pub open spec fn planned_action(stem: Option<Seq<char>>, text: Seq<char>, r: ImportAction) -> bool {
    match r {
        ImportAction::Insert { table, query, records } => {
            &&& stem == Some(table@)
            &&& table@.len() > 0
            &&& loaded_records(text) == Some(models_of(records@))
            &&& query@ == insert_query(table@)
        },
        ImportAction::Reject { error } => match error {
            ImportError::Naming => stem is None || stem == Some(Seq::<char>::empty()),
            ImportError::Parse => (match stem {
                Some(s) => s.len() > 0,
                None => false,
            }) && loaded_records(text) is None,
            ImportError::Statement { .. } => false,
        },
    }
}

/// Derives the one insert for a file: the table is the file's stem, which
/// must be non-empty, and the records are the file body's.
pub fn generate_insert(file: &ImportFile) -> (r: ImportAction)
    ensures
        planned_action(stem_view(file.stem), file.text@, r),
{
    let table = match &file.stem {
        Some(s) => {
            if s.as_str().is_empty() {
                proof {
                    assert(s@ =~= Seq::<char>::empty());
                }
                return ImportAction::Reject { error: ImportError::Naming };
            }
            s.clone()
        },
        None => {
            return ImportAction::Reject { error: ImportError::Naming };
        },
    };
    match load_records(file.text.as_str()) {
        Ok(records) => {
            let mut query = "INSERT INTO ".to_owned();
            query.append(table.as_str());
            query.append(" $records");
            proof {
                assert(query@ =~= insert_query(table@));
            }
            ImportAction::Insert { table, query, records }
        },
        Err(_) => ImportAction::Reject { error: ImportError::Parse },
    }
}

/// Plans the import of a whole file set: one action per file, each derived
/// from that file alone, in input order; one file's rejection leaves every
/// other file's action as it is.
pub fn plan_imports(files: &Vec<ImportFile>) -> (r: Vec<ImportAction>)
    ensures
        r@.len() == files@.len(),
        forall|i: int|
            0 <= i < files@.len() ==> planned_action(
                stem_view(files@[i].stem),
                files@[i].text@,
                #[trigger] r@[i],
            ),
{
    let n = files.len();
    let mut out: Vec<ImportAction> = Vec::new();
    let mut i: usize = 0;
    while i < n
        invariant
            0 <= i <= n,
            n == files@.len(),
            out@.len() == i,
            forall|j: int|
                0 <= j < i ==> planned_action(
                    stem_view(files@[j].stem),
                    files@[j].text@,
                    #[trigger] out@[j],
                ),
        decreases n - i,
    {
        out.push(generate_insert(&files[i]));
        i += 1;
    }
    out
}

/// Decides the success of one insert from the statement errors the
/// database service reported: success is exactly the absence of errors;
/// otherwise the first message is kept against the file.
pub fn check_import_response(errors: &Vec<String>) -> (r: Result<(), ImportError>)
    ensures
        match r {
            Ok(()) => errors@.len() == 0,
            Err(e) => errors@.len() > 0 && (e matches ImportError::Statement { message }
                && message@ == errors@[0]@),
        },
{
    if errors.len() == 0 {
        Ok(())
    } else {
        Err(ImportError::Statement { message: errors[0].clone() })
    }
}

} // verus!
