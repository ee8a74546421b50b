use vstd::prelude::*;

use crate::numtext::{decimal_int, i64_to_decimal};
use crate::value::{entries_of, lemma_entries_of, lemma_models_of, models_of, Val, ValModel};

verus! {

/// The display text of the key component of an identifier-shaped value.
///
/// The database addresses a record by a composite identifier `(table, key)`.
/// As a record value it appears as a mapping with exactly the members `tb`
/// (the table, a string) and `id` (the key, tagged by kind: an integer
/// number or a string). This function reads the tagged key alone.
pub open spec fn key_display(id: ValModel) -> Option<Seq<char>> {
    match id {
        ValModel::Obj(fs) => {
            if fs.len() != 1 {
                None
            } else if fs[0].0 == "Number"@ {
                match fs[0].1 {
                    ValModel::Num(t) => Some(t),
                    _ => None,
                }
            } else if fs[0].0 == "String"@ {
                match fs[0].1 {
                    ValModel::Str(s) => Some(s),
                    _ => None,
                }
            } else {
                None
            }
        },
        _ => None,
    }
}

/// The key text of a value in the composite identifier shape, if it has
/// that shape; the two members may come in either order.
pub open spec fn ident_key(v: ValModel) -> Option<Seq<char>> {
    match v {
        ValModel::Obj(fs) => {
            if fs.len() == 2 && fs[0].0 == "tb"@ && fs[0].1 is Str && fs[1].0 == "id"@ {
                key_display(fs[1].1)
            } else if fs.len() == 2 && fs[0].0 == "id"@ && fs[1].0 == "tb"@ && fs[1].1 is Str {
                key_display(fs[0].1)
            } else {
                None
            }
        },
        _ => None,
    }
}

/// The composite identifier for table `table` and integer key `k`.
pub open spec fn ident_of_int(table: Seq<char>, k: int) -> ValModel {
    ValModel::Obj(
        seq![
            ("tb"@, ValModel::Str(table)),
            ("id"@, ValModel::Obj(seq![("Number"@, ValModel::Num(decimal_int(k)))])),
        ],
    )
}

/// One record field after identifier normalization: an `id` field in the
/// composite shape collapses to its key text; any other field is unchanged.
pub open spec fn normalized_entry(e: (Seq<char>, ValModel)) -> (Seq<char>, ValModel) {
    if e.0 == "id"@ && ident_key(e.1) is Some {
        (
            e.0,
            ValModel::Str(
                match ident_key(e.1) {
                    Some(t) => t,
                    None => Seq::empty(),
                },
            ),
        )
    } else {
        e
    }
}

/// A record after identifier normalization; a record that is not a mapping
/// is left as it is.
pub open spec fn normalized(rec: ValModel) -> ValModel {
    match rec {
        ValModel::Obj(fs) => ValModel::Obj(
            fs.map_values(|e: (Seq<char>, ValModel)| normalized_entry(e)),
        ),
        _ => rec,
    }
}

/// Normalizing the identifier built for table `table` and integer key `k`
/// yields exactly the decimal text of `k`: the rewriting is lossless for
/// integer keys.
pub proof fn lemma_identifier_round_trip(table: Seq<char>, k: int)
    ensures
        ident_key(ident_of_int(table, k)) == Some(decimal_int(k)),
{
}

/// Normalizing a record whose `id` field holds the identifier built for
/// table `t` and integer key `k` rewrites exactly that field to the decimal
/// text of `k`, and leaves every other field as it is.
pub proof fn lemma_normalized_record_key(
    fs: Seq<(Seq<char>, ValModel)>,
    i: int,
    t: Seq<char>,
    k: int,
)
    requires
        0 <= i < fs.len(),
        fs[i].0 == "id"@,
        fs[i].1 == ident_of_int(t, k),
    ensures
        normalized(ValModel::Obj(fs)) matches ValModel::Obj(gs) && {
            &&& gs.len() == fs.len()
            &&& gs[i] == ("id"@, ValModel::Str(decimal_int(k)))
            &&& forall|j: int|
                0 <= j < fs.len() && fs[j].0 != "id"@ ==> gs[j] == fs[j]
        },
{
    lemma_identifier_round_trip(t, k);
}

/// Builds the composite identifier for table `table` and integer key `key`,
/// in the shape the database service uses.
pub fn denormalize(table: &str, key: i64) -> (r: Val)
    ensures
        r@ == ident_of_int(table@, key as int),
{
    let mut inner: Vec<(String, Val)> = Vec::new();
    inner.push(("Number".to_owned(), Val::Num(i64_to_decimal(key))));
    let mut fields: Vec<(String, Val)> = Vec::new();
    fields.push(("tb".to_owned(), Val::Str(table.to_owned())));
    fields.push(("id".to_owned(), Val::Obj(inner)));
    let r = Val::Obj(fields);
    proof {
        lemma_entries_of(inner@);
        lemma_entries_of(fields@);
        assert(entries_of(inner@) =~= seq![("Number"@, ValModel::Num(decimal_int(key as int)))]);
        assert(entries_of(fields@) =~= seq![
            ("tb"@, ValModel::Str(table@)),
            ("id"@, ValModel::Obj(entries_of(inner@))),
        ]);
    }
    r
}

/// Reads the key text of a tagged key value, as `key_display` does.
fn key_display_exec(id: &Val) -> (r: Option<String>)
    ensures
        match r {
            Some(t) => key_display(id@) == Some(t@),
            None => key_display(id@) is None,
        },
{
    match id {
        Val::Obj(fs) => {
            proof {
                lemma_entries_of(fs@);
            }
            if fs.len() != 1 {
                return None;
            }
            let name = &fs[0].0;
            if *name == "Number".to_owned() {
                match &fs[0].1 {
                    Val::Num(t) => Some(t.clone()),
                    _ => None,
                }
            } else if *name == "String".to_owned() {
                match &fs[0].1 {
                    Val::Str(s) => Some(s.clone()),
                    _ => None,
                }
            } else {
                None
            }
        },
        _ => None,
    }
}

/// Reads the key text of a composite identifier, as `ident_key` does.
fn ident_key_exec(v: &Val) -> (r: Option<String>)
    ensures
        match r {
            Some(t) => ident_key(v@) == Some(t@),
            None => ident_key(v@) is None,
        },
{
    match v {
        Val::Obj(fs) => {
            proof {
                lemma_entries_of(fs@);
                reveal_strlit("tb");
                reveal_strlit("id");
                assert("tb"@.index(0) == 't' && "id"@.index(0) == 'i');
                assert("tb"@ != "id"@);
            }
            if fs.len() != 2 {
                return None;
            }
            let tb = "tb".to_owned();
            let id = "id".to_owned();
            if fs[0].0 == tb && fs[1].0 == id {
                let is_str = match &fs[0].1 {
                    Val::Str(_) => true,
                    _ => false,
                };
                if is_str {
                    key_display_exec(&fs[1].1)
                } else {
                    None
                }
            } else if fs[0].0 == id && fs[1].0 == tb {
                let is_str = match &fs[1].1 {
                    Val::Str(_) => true,
                    _ => false,
                };
                if is_str {
                    key_display_exec(&fs[0].1)
                } else {
                    None
                }
            } else {
                None
            }
        },
        _ => None,
    }
}

/// Rewrites a record's `id` field from the composite identifier to its key
/// text; a record whose `id` is absent or has another shape is unchanged.
pub fn convert_id(rec: Val) -> (r: Val)
    ensures
        r@ == normalized(rec@),
{
    match rec {
        Val::Obj(fields) => {
            let ghost orig = fields@;
            let mut fields = fields;
            let mut out: Vec<(String, Val)> = Vec::new();
            let id = "id".to_owned();
            while fields.len() > 0
                invariant
                    out@.len() + fields@.len() == orig.len(),
                    fields@ =~= orig.subrange(out@.len() as int, orig.len() as int),
                    id@ == "id"@,
                    forall|j: int|
                        0 <= j < out@.len() ==> (out@[j].0@, out@[j].1.model())
                            == normalized_entry((orig[j].0@, orig[j].1.model())),
                decreases fields@.len(),
            {
                let (name, v) = fields.remove(0);
                if name == id {
                    match ident_key_exec(&v) {
                        Some(t) => {
                            out.push((name, Val::Str(t)));
                        },
                        None => {
                            out.push((name, v));
                        },
                    }
                } else {
                    out.push((name, v));
                }
            }
            proof {
                lemma_entries_of(out@);
                lemma_entries_of(orig);
                assert(entries_of(out@) =~= entries_of(orig).map_values(
                    |e: (Seq<char>, ValModel)| normalized_entry(e),
                ));
            }
            Val::Obj(out)
        },
        other => other,
    }
}

/// Rewrites the `id` field of every record in a window, in order.
pub fn normalize_ids(rows: Vec<Val>) -> (r: Vec<Val>)
    ensures
        models_of(r@) == models_of(rows@).map_values(|m: ValModel| normalized(m)),
{
    let ghost orig = rows@;
    let mut rows = rows;
    let mut out: Vec<Val> = Vec::new();
    while rows.len() > 0
        invariant
            out@.len() + rows@.len() == orig.len(),
            rows@ =~= orig.subrange(out@.len() as int, orig.len() as int),
            forall|j: int| 0 <= j < out@.len() ==> out@[j].model() == normalized(orig[j].model()),
        decreases rows@.len(),
    {
        let v = rows.remove(0);
        out.push(convert_id(v));
    }
    proof {
        lemma_models_of(out@);
        lemma_models_of(orig);
        assert(models_of(out@) =~= models_of(orig).map_values(|m: ValModel| normalized(m)));
    }
    out
}

} // verus!

