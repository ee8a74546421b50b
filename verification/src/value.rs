use vstd::prelude::*;

verus! {

/// A semi-structured record value: the shape in which records cross the
/// pipeline, mirroring the JSON data model. Numbers are carried as their
/// canonical decimal text, so that serialization is deterministic.
#[derive(Debug, PartialEq, Eq)]
pub enum Val {
    Null,
    Bool(bool),
    Num(String),
    Str(String),
    Arr(Vec<Val>),
    Obj(Vec<(String, Val)>),
}

/// The mathematical model of a `Val`: the same tree over `Seq<char>`
/// instead of `String`.
pub enum ValModel {
    Null,
    Bool(bool),
    Num(Seq<char>),
    Str(Seq<char>),
    Arr(Seq<ValModel>),
    Obj(Seq<(Seq<char>, ValModel)>),
}

impl Val {
    pub open spec fn model(self) -> ValModel
        decreases self, 1int,
        via Self::model_decreases
    {
        match self {
            Val::Null => ValModel::Null,
            Val::Bool(b) => ValModel::Bool(b),
            Val::Num(t) => ValModel::Num(t@),
            Val::Str(s) => ValModel::Str(s@),
            Val::Arr(items) => ValModel::Arr(models_of(items@)),
            Val::Obj(fields) => ValModel::Obj(entries_of(fields@)),
        }
    }

    #[via_fn]
    proof fn model_decreases(self) {
        match self {
            Val::Arr(items) => {
                vstd::std_specs::vec::axiom_vec_decreases_to_view(items);
            },
            Val::Obj(fields) => {
                vstd::std_specs::vec::axiom_vec_decreases_to_view(fields);
            },
            _ => {},
        }
    }
}

impl View for Val {
    type V = ValModel;

    open spec fn view(&self) -> ValModel {
        self.model()
    }
}

/// The views of a sequence of strings, element by element.
pub open spec fn strs_model(s: Seq<String>) -> Seq<Seq<char>> {
    s.map_values(|x: String| x@)
}

/// The models of a sequence of values, element by element.
pub open spec fn models_of(s: Seq<Val>) -> Seq<ValModel>
    decreases s, 0int,
    via models_of_decreases
{
    if s.len() == 0 {
        Seq::empty()
    } else {
        seq![s[0].model()] + models_of(s.drop_first())
    }
}

#[via_fn]
proof fn models_of_decreases(s: Seq<Val>) {
    if s.len() != 0 {
        vstd::seq::axiom_seq_index_decreases(s, 0);
        vstd::seq::axiom_seq_subrange_decreases(s, 1, s.len() as int);
    }
}

/// The models of a sequence of named fields, element by element.
pub open spec fn entries_of(s: Seq<(String, Val)>) -> Seq<(Seq<char>, ValModel)>
    decreases s, 0int,
    via entries_of_decreases
{
    if s.len() == 0 {
        Seq::empty()
    } else {
        seq![(s[0].0@, s[0].1.model())] + entries_of(s.drop_first())
    }
}

#[via_fn]
proof fn entries_of_decreases(s: Seq<(String, Val)>) {
    if s.len() != 0 {
        vstd::seq::axiom_seq_index_decreases(s, 0);
        vstd::seq::axiom_seq_subrange_decreases(s, 1, s.len() as int);
        assert(decreases_to!(s[0] => s[0].1));
    }
}

/// `models_of` maps the sequence pointwise.
pub broadcast proof fn lemma_models_of(s: Seq<Val>)
    ensures
        #[trigger] models_of(s).len() == s.len(),
        forall|i: int| 0 <= i < s.len() ==> models_of(s)[i] == s[i].model(),
    decreases s.len(),
{
    if s.len() != 0 {
        lemma_models_of(s.drop_first());
    }
}

/// The value of the first field named `name`, if any.
pub open spec fn lookup_field(fs: Seq<(Seq<char>, ValModel)>, name: Seq<char>) -> Option<
    ValModel,
>
    decreases fs.len(),
{
    if fs.len() == 0 {
        None
    } else if fs[0].0 == name {
        Some(fs[0].1)
    } else {
        lookup_field(fs.drop_first(), name)
    }
}

/// The value of the first field named `name` of a record; a record that is
/// not a mapping has no fields.
pub open spec fn get_field(v: ValModel, name: Seq<char>) -> Option<ValModel> {
    match v {
        ValModel::Obj(fs) => lookup_field(fs, name),
        _ => None,
    }
}

/// A scan that passes no field named `name` finds nothing.
pub proof fn lemma_lookup_none(s: Seq<(String, Val)>, name: Seq<char>)
    requires
        forall|j: int| 0 <= j < s.len() ==> s[j].0@ != name,
    ensures
        lookup_field(entries_of(s), name) is None,
    decreases s.len(),
{
    lemma_entries_of(s);
    if s.len() != 0 {
        assert(entries_of(s).drop_first() =~= entries_of(s.drop_first()));
        lemma_lookup_none(s.drop_first(), name);
    }
}

/// A scan finds the first field named `name`.
pub proof fn lemma_lookup_at(s: Seq<(String, Val)>, name: Seq<char>, i: int)
    requires
        0 <= i < s.len(),
        s[i].0@ == name,
        forall|j: int| 0 <= j < i ==> s[j].0@ != name,
    ensures
        lookup_field(entries_of(s), name) == Some(s[i].1.model()),
    decreases s.len(),
{
    lemma_entries_of(s);
    if i == 0 {
    } else {
        assert(entries_of(s).drop_first() =~= entries_of(s.drop_first()));
        lemma_lookup_at(s.drop_first(), name, i - 1);
    }
}

/// Finds the first field named `name` in a field list.
pub fn find_field<'a>(fields: &'a Vec<(String, Val)>, name: &String) -> (r: Option<&'a Val>)
    ensures
        match r {
            Some(v) => lookup_field(entries_of(fields@), name@) == Some(v.model()),
            None => lookup_field(entries_of(fields@), name@) is None,
        },
{
    let n = fields.len();
    let mut i: usize = 0;
    while i < n
        invariant
            0 <= i <= n,
            n == fields@.len(),
            forall|j: int| 0 <= j < i ==> fields@[j].0@ != name@,
        decreases n - i,
    {
        if fields[i].0 == *name {
            proof {
                lemma_lookup_at(fields@, name@, i as int);
            }
            return Some(&fields[i].1);
        }
        i += 1;
    }
    proof {
        lemma_lookup_none(fields@, name@);
    }
    None
}

/// `entries_of` maps the sequence pointwise.
pub broadcast proof fn lemma_entries_of(s: Seq<(String, Val)>)
    ensures
        #[trigger] entries_of(s).len() == s.len(),
        forall|i: int|
            0 <= i < s.len() ==> entries_of(s)[i] == (s[i].0@, s[i].1.model()),
    decreases s.len(),
{
    if s.len() != 0 {
        lemma_entries_of(s.drop_first());
    }
}

} // verus!
