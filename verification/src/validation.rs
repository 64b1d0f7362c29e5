//! Intent validation results: the nested field errors of a request
//! flattened into dotted field paths, and the validation answer built from
//! them.

use vstd::prelude::*;
use crate::text::push_char;

verus! {

/// One failed validation rule on a field.
#[derive(Debug)]
pub struct FieldError {
    /// The rule that failed
    pub code: String,
    /// A human-readable message, when the rule has one
    pub message: Option<String>,
}

impl Clone for FieldError {
    fn clone(&self) -> (r: Self)
        ensures
            r == *self,
    {
        FieldError {
            code: self.code.clone(),
            message: match &self.message {
                Some(m) => Some(m.clone()),
                None => None,
            },
        }
    }
}

/// The errors recorded under one field.
#[derive(Debug)]
pub enum ErrorsKind {
    /// The field is a nested structure with errors of its own.
    Struct(Box<ErrorTree>),
    /// The field is a collection; its errors are not reported.
    List,
    /// The field itself failed these rules.
    Field(Vec<FieldError>),
}

/// The errors of one field.
#[derive(Debug)]
pub struct ErrorEntry {
    pub field: String,
    pub kind: ErrorsKind,
}

/// The validation errors of a structure, field by field.
#[derive(Debug)]
pub struct ErrorTree {
    pub entries: Vec<ErrorEntry>,
}

/// The path of `field` under `prefix`: the field alone at the top, else
/// joined to the prefix by a dot.
pub open spec fn joined_path(prefix: Seq<char>, field: Seq<char>) -> Seq<char> {
    if prefix.len() == 0 {
        field
    } else {
        prefix + seq!['.'] + field
    }
}

/// The field errors of a tree under `prefix`, each with its path, in the
/// order of the entries and, within a field, of its errors.
pub open spec fn flat_tree(t: ErrorTree, prefix: Seq<char>) -> Seq<(Seq<char>, FieldError)>
    decreases t,
{
    flat_entries(t.entries@, prefix)
}

/// The field errors of a sequence of entries under `prefix`.
pub open spec fn flat_entries(s: Seq<ErrorEntry>, prefix: Seq<char>) -> Seq<(Seq<char>, FieldError)>
    decreases s,
{
    if s.len() == 0 {
        Seq::empty()
    } else {
        flat_entries(s.drop_last(), prefix) + flat_entry(s.last(), prefix)
    }
}

/// The field errors of one entry under `prefix`.
pub open spec fn flat_entry(e: ErrorEntry, prefix: Seq<char>) -> Seq<(Seq<char>, FieldError)>
    decreases e,
{
    match e.kind {
        ErrorsKind::Field(v) => v@.map_values(|fe: FieldError| (joined_path(prefix, e.field@), fe)),
        ErrorsKind::Struct(b) => flat_tree(*b, joined_path(prefix, e.field@)),
        ErrorsKind::List => Seq::empty(),
    }
}

/// The collected errors seen as paths and errors.
pub open spec fn collected_view(v: Seq<(String, FieldError)>) -> Seq<(Seq<char>, FieldError)> {
    v.map_values(|p: (String, FieldError)| (p.0@, p.1))
}

fn joined_string(prefix: &str, field: &str) -> (s: String)
    ensures
        s@ == joined_path(prefix@, field@),
{
    if prefix.unicode_len() == 0 {
        String::from_str(field)
    } else {
        let mut s = String::from_str(prefix);
        push_char(&mut s, '.');
        s.append(field);
        s
    }
}

/// Appends to `out` every field error of `errors`, with its dotted path
/// under `prefix`; errors under collections are skipped.
pub fn collect_nested_errors(errors: &ErrorTree, prefix: &str, out: &mut Vec<(String, FieldError)>)
    ensures
        collected_view(final(out)@) == collected_view(old(out)@) + flat_tree(*errors, prefix@),
    decreases errors,
{
    let ghost start = collected_view(out@);
    let mut i: usize = 0;
    assert(errors.entries@.take(0) =~= Seq::<ErrorEntry>::empty());
    while i < errors.entries.len()
        invariant
            i <= errors.entries@.len(),
            collected_view(out@) == start + flat_entries(errors.entries@.take(i as int), prefix@),
        decreases errors.entries@.len() - i,
    {
        let e = &errors.entries[i];
        let ghost before = collected_view(out@);
        match &e.kind {
            ErrorsKind::Field(v) => {
                let path = joined_string(prefix, e.field.as_str());
                let mut j: usize = 0;
                while j < v.len()
                    invariant
                        j <= v@.len(),
                        path@ == joined_path(prefix@, e.field@),
                        collected_view(out@) == before + v@.take(j as int).map_values(
                            |fe: FieldError| (joined_path(prefix@, e.field@), fe),
                        ),
                    decreases v@.len() - j,
                {
                    let ghost mid = out@;
                    out.push((path.clone(), v[j].clone()));
                    proof {
                        assert(collected_view(out@) =~= collected_view(mid).push((path@, v@[j as int])));
                        assert(v@.take(j + 1).map_values(|fe: FieldError| (joined_path(prefix@, e.field@), fe))
                            =~= v@.take(j as int).map_values(|fe: FieldError| (joined_path(prefix@, e.field@), fe)).push(
                            (joined_path(prefix@, e.field@), v@[j as int]),
                        ));
                    }
                    j = j + 1;
                }
                assert(v@.take(v@.len() as int) =~= v@);
            },
            ErrorsKind::Struct(nested) => {
                let path = joined_string(prefix, e.field.as_str());
                proof {
                    assert(decreases_to!(errors => errors.entries));
                    assert(decreases_to!(errors.entries => errors.entries@));
                    assert(decreases_to!(errors.entries@ => errors.entries@[i as int]));
                    assert(decreases_to!(errors.entries@[i as int] => errors.entries@[i as int].kind));
                }
                collect_nested_errors(nested, path.as_str(), out);
            },
            ErrorsKind::List => {},
        }
        proof {
            let s = errors.entries@.take(i + 1);
            assert(s.drop_last() =~= errors.entries@.take(i as int));
            assert(s.last() == errors.entries@[i as int]);
            assert(collected_view(out@) == before + flat_entry(errors.entries@[i as int], prefix@));
            assert(flat_entries(s, prefix@) == flat_entries(errors.entries@.take(i as int), prefix@) + flat_entry(
                errors.entries@[i as int],
                prefix@,
            ));
            assert(collected_view(out@) =~= start + flat_entries(s, prefix@));
        }
        i = i + 1;
    }
    assert(errors.entries@.take(errors.entries@.len() as int) =~= errors.entries@);
}

/// One reported validation error.
#[derive(Debug)]
pub struct IntentValidationError {
    pub field: String,
    pub message: String,
}

/// The answer of intent validation.
#[derive(Debug)]
pub struct ValidateIntentResponse {
    pub valid: bool,
    pub errors: Vec<IntentValidationError>,
}

/// The reported message of a field error: its message, else its code.
pub open spec fn reported_message(e: FieldError) -> Seq<char> {
    match e.message {
        Some(m) => m@,
        None => e.code@,
    }
}

/// `r` reports exactly the field errors `flat`, in order.
pub open spec fn reports(r: Seq<IntentValidationError>, flat: Seq<(Seq<char>, FieldError)>) -> bool {
    &&& r.len() == flat.len()
    &&& forall|k: int| 0 <= k < r.len() ==> #[trigger] r[k].field@ == flat[k].0 && r[k].message@ == reported_message(flat[k].1)
}

/// The validation answer: valid without errors; otherwise every field
/// error with its path and message, valid only when there is none.
pub fn validate_intent(validated: Result<(), &ErrorTree>) -> (r: ValidateIntentResponse)
    ensures
        match validated {
            Ok(()) => r.valid && r.errors@.len() == 0,
            Err(t) => reports(r.errors@, flat_tree(*t, Seq::empty())) && r.valid == (r.errors@.len() == 0),
        },
{
    match validated {
        Ok(()) => ValidateIntentResponse { valid: true, errors: Vec::new() },
        Err(t) => {
            let mut raw: Vec<(String, FieldError)> = Vec::new();
            proof {
                reveal_strlit("");
            }
            assert(collected_view(raw@) =~= Seq::<(Seq<char>, FieldError)>::empty());
            collect_nested_errors(t, "", &mut raw);
            assert(""@ =~= Seq::<char>::empty());
            assert(collected_view(raw@) =~= flat_tree(*t, Seq::empty()));
            let mut errors: Vec<IntentValidationError> = Vec::new();
            let mut k: usize = 0;
            while k < raw.len()
                invariant
                    k <= raw@.len(),
                    collected_view(raw@) == flat_tree(*t, Seq::empty()),
                    errors@.len() == k,
                    forall|q: int|
                        #![trigger errors@[q]]
                        0 <= q < k ==> errors@[q].field@ == raw@[q].0@ && errors@[q].message@ == reported_message(
                            raw@[q].1,
                        ),
                decreases raw@.len() - k,
            {
                let message = match &raw[k].1.message {
                    Some(m) => m.clone(),
                    None => raw[k].1.code.clone(),
                };
                let ghost prev = errors@;
                errors.push(IntentValidationError { field: raw[k].0.clone(), message });
                proof {
                    assert(errors@[k as int].field@ == raw@[k as int].0@);
                    assert(errors@[k as int].message@ == reported_message(raw@[k as int].1));
                    assert forall|q: int| 0 <= q < k + 1 implies errors@[q].field@ == raw@[q].0@
                        && errors@[q].message@ == reported_message(raw@[q].1) by {
                        if q < k {
                            assert(errors@[q] == prev[q]);
                            assert(prev[q].field@ == raw@[q].0@);
                        }
                    }
                }
                k = k + 1;
            }
            proof {
                assert forall|q: int| 0 <= q < errors@.len() implies #[trigger] errors@[q].field@ == flat_tree(
                    *t,
                    Seq::empty(),
                )[q].0 && errors@[q].message@ == reported_message(flat_tree(*t, Seq::empty())[q].1) by {
                    assert(collected_view(raw@)[q] == (raw@[q].0@, raw@[q].1));
                }
            }
            let valid = errors.len() == 0;
            ValidateIntentResponse { valid, errors }
        },
    }
}

} // verus!
