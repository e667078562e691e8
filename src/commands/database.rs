use crate::aggregate::{Aggregate, activity_views, aggregate, aggregation, device_views, record_views};
use crate::db::DbState;
use crate::models::LocalTime;
use crate::record::{DecodeError, Record};
use vstd::prelude::*;
use vstd::string::StrSliceExecFns;

verus! {

/// Arguments of the command that fills the store.
#[derive(Clone, Copy, Debug, PartialEq, Eq, Structural)]
pub struct DatabaseArgs {
    pub actions: Actions,
}

#[derive(Clone, Copy, Debug, PartialEq, Eq, Structural)]
pub enum Actions {
    /// Import the activity files not yet in the store.
    Import,
    /// Rebuild the store from every activity file.
    Recreate,
}

/// Why an import stopped.
#[derive(Clone, Debug, PartialEq)]
pub enum ImportError {
    /// The store was written by another version and must be recreated first.
    InvalidDatabase,
    /// A path that ends in no usable file name.
    NoFileName { path: String },
    /// A file whose bytes could not be decoded.
    Decode { file: String, message: String },
    /// A file with a field that had to be numeric and was not.
    Field { file: String, field: String },
}

/// The extension of a path as std::path::Path reads it.
pub uninterp spec fn extension_of(path: Seq<char>) -> Option<Seq<char>>;

/// The last component of a path as std::path::Path reads it.
pub uninterp spec fn file_name_of(path: Seq<char>) -> Option<Seq<char>>;

/// Relies on std::path::Path::extension: the part of the file name after
/// its last dot, if it has one that does not begin the name.
#[verifier::external_body]
fn path_extension(path: &str) -> (r: Option<String>)
    ensures
        match r {
            Some(e) => extension_of(path@) == Some(e@),
            None => extension_of(path@) is None,
        },
{
    std::path::Path::new(path).extension().and_then(|e| e.to_str()).map(|e| e.to_owned())
}

/// Relies on std::path::Path::file_name: the last component of a path,
/// unless that is `..` or there is none.
#[verifier::external_body]
fn path_file_name(path: &str) -> (r: Option<String>)
    ensures
        match r {
            Some(n) => file_name_of(path@) == Some(n@),
            None => file_name_of(path@) is None,
        },
{
    std::path::Path::new(path).file_name().and_then(|n| n.to_str()).map(|n| n.to_owned())
}

/// The activity-file extension, in any case.
pub open spec fn is_fit_extension(e: Seq<char>) -> bool {
    &&& e.len() == 3
    &&& (e[0] == 'f' || e[0] == 'F')
    &&& (e[1] == 'i' || e[1] == 'I')
    &&& (e[2] == 't' || e[2] == 'T')
}

/// Whether an extension is that of an activity file, in any case.
pub fn matches_fit_extension(e: &str) -> (r: bool)
    ensures
        r == is_fit_extension(e@),
{
    if e.unicode_len() != 3 {
        false
    } else {
        let a = e.get_char(0);
        let b = e.get_char(1);
        let c = e.get_char(2);
        (a == 'f' || a == 'F') && (b == 'i' || b == 'I') && (c == 't' || c == 'T')
    }
}

pub open spec fn is_activity_path(path: Seq<char>) -> bool {
    match extension_of(path) {
        Some(e) => is_fit_extension(e),
        None => false,
    }
}

/// Whether a path names an activity file: its extension is `fit`, compared
/// without regard to case.
pub fn is_activity_file(path: &str) -> (r: bool)
    ensures
        r == is_activity_path(path@),
{
    match path_extension(path) {
        None => false,
        Some(e) => matches_fit_extension(e.as_str()),
    }
}

/// A file name already in the ledger, or chosen earlier in the same run, is
/// passed over; any other is read, and joins the ledger. Returns the indices
/// of the names read, and the ledger afterwards.
pub open spec fn plan(ledger: Seq<Seq<char>>, names: Seq<Seq<char>>) -> (Seq<int>, Seq<Seq<char>>)
    decreases names.len(),
{
    if names.len() == 0 {
        (Seq::empty(), ledger)
    } else {
        let (chosen, known) = plan(ledger, names.drop_last());
        if known.contains(names.last()) {
            (chosen, known)
        } else {
            (chosen.push(names.len() - 1), known.push(names.last()))
        }
    }
}

pub open spec fn string_views(v: Seq<String>) -> Seq<Seq<char>> {
    v.map_values(|s: String| s@)
}

fn contains_name(known: &Vec<String>, name: &String) -> (r: bool)
    ensures
        r == string_views(known@).contains(name@),
{
    let ghost ks = string_views(known@);
    let mut i: usize = 0;
    while i < known.len()
        invariant
            i <= known@.len(),
            ks == string_views(known@),
            forall|j: int| 0 <= j < i ==> ks[j] != name@,
        decreases known@.len() - i,
    {
        if known[i] == *name {
            assert(ks[i as int] == name@);
            return true;
        }
        i = i + 1;
    }
    false
}

/// Decides which files an import run reads, given the file names in the
/// ledger and the names of the candidate files in the order they were found:
/// those neither in the ledger nor read earlier in the run.
pub fn import_plan(ledger: &Vec<String>, names: &Vec<String>) -> (r: Vec<usize>)
    ensures
        r@.map_values(|i: usize| i as int) == plan(string_views(ledger@), string_views(names@)).0,
{
    let ghost ls = string_views(ledger@);
    let ghost ns = string_views(names@);
    let mut known: Vec<String> = Vec::new();
    let mut k: usize = 0;
    while k < ledger.len()
        invariant
            k <= ledger@.len(),
            ls == string_views(ledger@),
            string_views(known@) == ls.take(k as int),
        decreases ledger@.len() - k,
    {
        let ghost before = known@;
        known.push(ledger[k].clone());
        assert(ls[k as int] == ledger@[k as int]@);
        assert(string_views(known@) =~= string_views(before).push(ls[k as int]));
        assert(ls.take(k + 1) =~= ls.take(k as int).push(ls[k as int]));
        k = k + 1;
    }
    assert(ls.take(k as int) =~= ls);
    let mut chosen: Vec<usize> = Vec::new();
    let mut i: usize = 0;
    assert(chosen@.map_values(|i: usize| i as int) =~= Seq::<int>::empty());
    while i < names.len()
        invariant
            i <= names@.len(),
            ls == string_views(ledger@),
            ns == string_views(names@),
            plan(ls, ns.take(i as int)) == (chosen@.map_values(|i: usize| i as int), string_views(known@)),
        decreases names@.len() - i,
    {
        assert(ns.take(i + 1).drop_last() =~= ns.take(i as int));
        assert(ns.take(i + 1).last() == names@[i as int]@);
        if !contains_name(&known, &names[i]) {
            chosen.push(i);
            known.push(names[i].clone());
            assert(chosen@.map_values(|i: usize| i as int) =~= chosen@.drop_last().map_values(
                |i: usize| i as int,
            ).push(i as int));
            assert(string_views(known@) =~= string_views(known@.drop_last()).push(names@[i as int]@));
        }
        i = i + 1;
    }
    assert(ns.take(i as int) =~= ns);
    chosen
}

/// The name under which a file enters the ledger: the last component of its
/// path.
pub fn get_filename(path: &String) -> (r: Result<String, ImportError>)
    ensures
        match file_name_of(path@) {
            Some(n) => r is Ok && r->Ok_0@ == n,
            None => r is Err && r->Err_0 is NoFileName && r->Err_0->NoFileName_path@ == path@,
        },
{
    match path_file_name(path.as_str()) {
        Some(n) => Ok(n),
        None => Err(ImportError::NoFileName { path: path.clone() }),
    }
}

/// Import runs only on a valid store.
pub fn check_import_allowed(state: DbState) -> (r: Result<(), ImportError>)
    ensures
        state == DbState::Valid ==> r is Ok,
        state != DbState::Valid ==> r == Err::<(), ImportError>(ImportError::InvalidDatabase),
{
    match state {
        DbState::Valid => Ok(()),
        _ => Err(ImportError::InvalidDatabase),
    }
}

/// Folds the decoded records of one activity file into the activities and
/// devices to store. A decoder failure and a field that had to be numeric
/// and was not both become errors that name the file; otherwise the result
/// is exactly what the records fold into.
pub fn add_activity(file: &String, decoded: Result<Vec<Record>, DecodeError>, now: LocalTime) -> (r: Result<Aggregate, ImportError>)
    ensures
        match decoded {
            Err(e) => r is Err && r->Err_0 is Decode && r->Err_0->Decode_file@ == file@
                && r->Err_0->Decode_message == e.message,
            Ok(records) => match aggregation(record_views(records@), now) {
                Ok((acts, devs)) => r is Ok && activity_views(r->Ok_0.activities@) == acts
                    && device_views(r->Ok_0.devices@) == devs,
                Err(field) => r is Err && r->Err_0 is Field && r->Err_0->Field_file@ == file@
                    && r->Err_0->Field_field@ == field,
            },
        },
{
    match decoded {
        Err(e) => Err(ImportError::Decode { file: file.clone(), message: e.message }),
        Ok(records) => match aggregate(&records, now) {
            Ok(a) => Ok(a),
            Err(fe) => Err(ImportError::Field { file: file.clone(), field: fe.field }),
        },
    }
}

/// Row counts of the store: files in the ledger, activities and devices.
pub struct Counts {
    pub files: nat,
    pub activities: nat,
    pub devices: nat,
}

/// The counts after reading the chosen files, where the file at index `i`
/// holds `rows[i]` activities and devices.
pub open spec fn counts_after(c: Counts, chosen: Seq<int>, rows: Seq<(nat, nat)>) -> Counts
    decreases chosen.len(),
{
    if chosen.len() == 0 {
        c
    } else {
        let d = counts_after(c, chosen.drop_last(), rows);
        Counts {
            files: d.files + 1,
            activities: d.activities + rows[chosen.last()].0,
            devices: d.devices + rows[chosen.last()].1,
        }
    }
}

proof fn lemma_plan_learns_names(ledger: Seq<Seq<char>>, names: Seq<Seq<char>>)
    ensures
        forall|x: Seq<char>| ledger.contains(x) ==> #[trigger] plan(ledger, names).1.contains(x),
        forall|i: int| 0 <= i < names.len() ==> plan(ledger, names).1.contains(#[trigger] names[i]),
    decreases names.len(),
{
    if names.len() > 0 {
        let prev = plan(ledger, names.drop_last()).1;
        lemma_plan_learns_names(ledger, names.drop_last());
        assert forall|x: Seq<char>| prev.contains(x) implies plan(ledger, names).1.contains(x) by {
            if !prev.contains(names.last()) {
                let j = choose|j: int| 0 <= j < prev.len() && prev[j] == x;
                assert(prev.push(names.last())[j] == x);
            }
        }
        assert forall|x: Seq<char>| ledger.contains(x) implies plan(ledger, names).1.contains(x) by {
            assert(prev.contains(x));
        }
        assert forall|i: int| 0 <= i < names.len() implies plan(ledger, names).1.contains(
            #[trigger] names[i],
        ) by {
            if i < names.len() - 1 {
                assert(names.drop_last()[i] == names[i]);
            } else if !prev.contains(names.last()) {
                assert(prev.push(names.last())[prev.len() as int] == names[i]);
            }
        }
    }
}

proof fn lemma_plan_of_known_names(known: Seq<Seq<char>>, names: Seq<Seq<char>>)
    requires
        forall|i: int| 0 <= i < names.len() ==> known.contains(#[trigger] names[i]),
    ensures
        plan(known, names) == (Seq::<int>::empty(), known),
    decreases names.len(),
{
    if names.len() > 0 {
        assert forall|i: int| 0 <= i < names.drop_last().len() implies known.contains(
            #[trigger] names.drop_last()[i],
        ) by {
            assert(names.drop_last()[i] == names[i]);
        }
        lemma_plan_of_known_names(known, names.drop_last());
        assert(known.contains(names[names.len() - 1]));
    }
}

/// Importing is idempotent: a second run over the same file names, on the
/// ledger that the first run left, reads no file, leaves the ledger as it
/// was, and so leaves the counts of files, activities and devices as the
/// first run left them.
pub proof fn import_is_idempotent(
    ledger: Seq<Seq<char>>,
    names: Seq<Seq<char>>,
    c: Counts,
    rows: Seq<(nat, nat)>,
)
    ensures
        plan(plan(ledger, names).1, names).0.len() == 0,
        plan(plan(ledger, names).1, names).1 == plan(ledger, names).1,
        counts_after(counts_after(c, plan(ledger, names).0, rows), plan(plan(ledger, names).1, names).0, rows)
            == counts_after(c, plan(ledger, names).0, rows),
{
    lemma_plan_learns_names(ledger, names);
    lemma_plan_of_known_names(plan(ledger, names).1, names);
}

proof fn lemma_plan_of_distinct_names(names: Seq<Seq<char>>)
    requires
        names.no_duplicates(),
    ensures
        plan(Seq::empty(), names).0 == Seq::new(names.len(), |i: int| i),
        plan(Seq::empty(), names).1 == names,
    decreases names.len(),
{
    if names.len() > 0 {
        let rest = names.drop_last();
        assert(rest.no_duplicates());
        lemma_plan_of_distinct_names(rest);
        assert(!rest.contains(names.last())) by {
            if rest.contains(names.last()) {
                let j = choose|j: int| 0 <= j < rest.len() && rest[j] == names.last();
                assert(names[j] == names[names.len() - 1]);
            }
        }
        assert(Seq::new(rest.len(), |i: int| i).push(rest.len() as int) =~= Seq::new(
            names.len(),
            |i: int| i,
        ));
        assert(rest.push(names.last()) =~= names);
    }
}

/// Recreating the store empties the ledger and imports every activity file:
/// with distinct file names, a run on the empty ledger reads each file once,
/// in the order found, leaves exactly those names in the ledger, and a
/// following import reads nothing.
pub proof fn recreate_imports_every_file(names: Seq<Seq<char>>)
    requires
        names.no_duplicates(),
    ensures
        plan(Seq::empty(), names).0 == Seq::new(names.len(), |i: int| i),
        plan(Seq::empty(), names).1 == names,
        plan(plan(Seq::empty(), names).1, names).0.len() == 0,
{
    lemma_plan_of_distinct_names(names);
    lemma_plan_learns_names(Seq::empty(), names);
    lemma_plan_of_known_names(plan(Seq::empty(), names).1, names);
}

} // verus!
