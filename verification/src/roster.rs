//! Roster ingestion: parses a comma-separated roster text into a
//! deduplicated student list.
//!
//! The delimited format itself is decoded by the `csv` crate behind trusted
//! wrappers; choosing the columns, extracting each student and collapsing
//! duplicates is verified here.

use vstd::prelude::*;
use crate::student::{Student, StudentView};

verus! {

/// Why a roster failed to load.
#[derive(Debug, PartialEq, Eq, Structural)]
pub enum RosterError {
    /// The roster resource was missing or unreadable.
    NotFound,
    /// The header lacks a required column, or the rows do not parse.
    Malformed,
}

/// The header row the `csv` crate reads from `s`.
pub uninterp spec fn csv_header_of(s: Seq<char>) -> Seq<Seq<char>>;

/// The data rows the `csv` crate reads from `s`, header excluded.
pub uninterp spec fn csv_rows_of(s: Seq<char>) -> Seq<Seq<Seq<char>>>;

/// Whether the whole of `s` parses without error; in particular every data
/// row then has as many fields as the header row.
pub uninterp spec fn csv_ok(s: Seq<char>) -> bool;

#[verifier::external_type_specification]
#[verifier::external_body]
#[verifier::reject_recursive_types(R)]
pub struct ExCsvReader<R>(csv::Reader<R>);

/// The text a reader was created over.
pub uninterp spec fn reader_src(r: csv::Reader<&[u8]>) -> Seq<char>;

/// How many data rows a reader has already yielded.
pub uninterp spec fn reader_pos(r: csv::Reader<&[u8]>) -> int;

/// Whether a reader has yielded no parse error so far.
pub uninterp spec fn reader_clean(r: csv::Reader<&[u8]>) -> bool;

/// Relies on `csv::Reader::from_reader`: a reader over `text` with the
/// default configuration (first row is the header), no data row yielded yet.
#[verifier::external_body]
fn csv_reader_over<'a>(text: &'a str) -> (r: csv::Reader<&'a [u8]>)
    ensures
        reader_src(r) == text@,
        reader_pos(r) == 0,
        reader_clean(r),
{
    csv::Reader::from_reader(text.as_bytes())
}

/// Relies on `csv::Reader::headers`: the first row of the input, which does
/// not count as a data row and is not consumed by `read_record`. On text
/// held in memory the only possible read error is a row of unequal length,
/// which cannot strike the first row, so a failure means the text as a whole
/// does not parse.
#[verifier::external_body]
fn csv_read_header(r: &mut csv::Reader<&[u8]>) -> (res: Result<Vec<String>, ()>)
    ensures
        reader_src(*final(r)) == reader_src(*old(r)),
        reader_pos(*final(r)) == reader_pos(*old(r)),
        reader_clean(*old(r)) ==> reader_clean(*final(r)),
        res matches Ok(h) ==> h@.map_values(|f: String| f@) == csv_header_of(
            reader_src(*old(r)),
        ),
        res matches Err(e) ==> !csv_ok(reader_src(*old(r))),
{
    match r.headers() {
        Ok(h) => Ok(h.iter().map(|f| f.to_string()).collect()),
        Err(_) => Err(()),
    }
}

/// Relies on `csv::Reader::read_record`: yields the data rows of the input
/// in order, then `Ok(None)` at the end of well-formed input. The reader
/// refuses a row whose field count differs from the header row's, so a
/// yielded row always has exactly as many fields as the header; an error
/// arises only from text that does not parse as a whole.
#[verifier::external_body]
fn csv_read_row(r: &mut csv::Reader<&[u8]>) -> (res: Result<Option<Vec<String>>, ()>)
    requires
        reader_clean(*old(r)),
    ensures
        reader_src(*final(r)) == reader_src(*old(r)),
        ({
            let src = reader_src(*old(r));
            let p = reader_pos(*old(r));
            match res {
                Ok(Some(row)) => {
                    &&& 0 <= p < csv_rows_of(src).len()
                    &&& row@.map_values(|f: String| f@) == csv_rows_of(src)[p]
                    &&& row@.len() == csv_header_of(src).len()
                    &&& reader_pos(*final(r)) == p + 1
                    &&& reader_clean(*final(r))
                },
                Ok(None) => {
                    &&& csv_ok(src)
                    &&& p == csv_rows_of(src).len()
                    &&& reader_pos(*final(r)) == p
                    &&& reader_clean(*final(r))
                },
                Err(e) => !csv_ok(src),
            }
        }),
{
    let mut rec = csv::StringRecord::new();
    match r.read_record(&mut rec) {
        Ok(true) => Ok(Some(rec.iter().map(|f| f.to_string()).collect())),
        Ok(false) => Ok(None),
        Err(_) => Err(()),
    }
}

/// The column the roster's student names are read from.
pub open spec fn name_col(h: Seq<Seq<char>>) -> Option<int> {
    h.index_of_first("name"@)
}

/// The column the roster's usernames are read from.
pub open spec fn user_col(h: Seq<Seq<char>>) -> Option<int> {
    h.index_of_first("github_username"@)
}

/// The header names both required columns, in any order.
pub open spec fn header_ok(h: Seq<Seq<char>>) -> bool {
    name_col(h) is Some && user_col(h) is Some
}

/// The student a data row denotes, fields taken at the header's columns.
pub open spec fn row_student(h: Seq<Seq<char>>, row: Seq<Seq<char>>) -> StudentView {
    StudentView { name: row[name_col(h).unwrap()], github_username: row[user_col(h).unwrap()] }
}

/// The students the rows denote, one per row, in row order.
pub open spec fn students_of(h: Seq<Seq<char>>, rows: Seq<Seq<Seq<char>>>) -> Seq<StudentView> {
    rows.map_values(|row: Seq<Seq<char>>| row_student(h, row))
}

/// Structural deduplication: the first occurrence of each student is kept,
/// in order; later exact duplicates collapse into it.
pub open spec fn dedup_students(s: Seq<StudentView>) -> Seq<StudentView>
    decreases s.len(),
{
    if s.len() == 0 {
        Seq::empty()
    } else {
        let d = dedup_students(s.drop_last());
        if d.contains(s.last()) {
            d
        } else {
            d.push(s.last())
        }
    }
}

/// The roster a text denotes: its rows' students, duplicates collapsed.
pub open spec fn roster_of(s: Seq<char>) -> Seq<StudentView> {
    dedup_students(students_of(csv_header_of(s), csv_rows_of(s)))
}

/// First index of `want` among the header's fields, if any.
fn find_column(header: &Vec<String>, want: &str) -> (res: Option<usize>)
    ensures
        match res {
            Some(i) => header@.map_values(|f: String| f@).index_of_first(want@) == Some(i as int),
            None => header@.map_values(|f: String| f@).index_of_first(want@) is None,
        },
{
    let ghost h = header@.map_values(|f: String| f@);
    let w: String = want.to_owned();
    let mut i: usize = 0;
    while i < header.len()
        invariant
            w@ == want@,
            h == header@.map_values(|f: String| f@),
            i <= header@.len(),
            forall|j: int| 0 <= j < i ==> h[j] != want@,
        decreases header@.len() - i,
    {
        if header[i] == w {
            proof {
                assert(h[i as int] == header@[i as int]@);
                h.index_of_first_ensures(want@);
                match h.index_of_first(want@) {
                    Some(k) => {
                        assert(!(k < i)) by {
                            if k < i {
                                assert(h[k] != want@);
                            }
                        }
                        assert(!(i < k)) by {
                            if i < k {
                                assert(h[i as int] != want@);
                            }
                        }
                    },
                    None => {
                        assert(!h.contains(want@));
                        assert(0 <= i < h.len() && h[i as int] == want@);
                        assert(false);
                    },
                }
            }
            return Some(i);
        }
        i = i + 1;
    }
    proof {
        h.index_of_first_ensures(want@);
    }
    None
}

/// True exactly when some entry of `students` equals `s` structurally.
fn contains_student(students: &Vec<Student>, s: &Student) -> (r: bool)
    ensures
        r == students@.map_values(|st: Student| st@).contains(s@),
{
    let ghost vs = students@.map_values(|st: Student| st@);
    let mut i: usize = 0;
    while i < students.len()
        invariant
            vs == students@.map_values(|st: Student| st@),
            i <= students@.len(),
            forall|j: int| 0 <= j < i ==> vs[j] != s@,
        decreases students@.len() - i,
    {
        if students[i] == *s {
            assert(vs[i as int] == s@);
            return true;
        }
        i = i + 1;
    }
    false
}

/// Parses a delimited roster into a deduplicated student list.
pub struct RosterStore {

}

impl RosterStore {
    /// Loads a roster. `source` is the roster resource's text, or `None`
    /// where the resource was missing or unreadable.
    ///
    /// Returns the students of the text's rows with exact duplicates
    /// collapsed, first occurrence first; `NotFound` exactly when the
    /// resource was absent; `Malformed` exactly when the text does not parse
    /// or the header lacks a required column. A malformed row is fatal to
    /// the whole load: no partial roster is ever returned.
    pub fn load(source: Option<&str>) -> (res: Result<Vec<Student>, RosterError>)
        ensures
            match source {
                None => res == Err::<Vec<Student>, RosterError>(RosterError::NotFound),
                Some(text) => match res {
                    Ok(students) => {
                        &&& csv_ok(text@)
                        &&& header_ok(csv_header_of(text@))
                        &&& students@.map_values(|st: Student| st@) == roster_of(text@)
                    },
                    Err(e) => {
                        &&& e == RosterError::Malformed
                        &&& !(csv_ok(text@) && header_ok(csv_header_of(text@)))
                    },
                },
            },
    {
        let text = match source {
            Some(t) => t,
            None => {
                return Err(RosterError::NotFound);
            },
        };
        let mut rdr = csv_reader_over(text);
        let header = match csv_read_header(&mut rdr) {
            Ok(h) => h,
            Err(_) => {
                return Err(RosterError::Malformed);
            },
        };
        let ghost h = csv_header_of(text@);
        let ghost rows = csv_rows_of(text@);
        assert(header@.map_values(|f: String| f@) == h);
        let (ni, ui) = match (find_column(&header, "name"), find_column(&header, "github_username")) {
            (Some(ni), Some(ui)) => (ni, ui),
            _ => {
                return Err(RosterError::Malformed);
            },
        };
        proof {
            h.index_of_first_ensures("name"@);
            h.index_of_first_ensures("github_username"@);
        }
        let mut students: Vec<Student> = Vec::new();
        loop
            invariant
                source == Some(text),
                reader_src(rdr) == text@,
                reader_clean(rdr),
                0 <= reader_pos(rdr) <= rows.len(),
                rows == csv_rows_of(text@),
                h == csv_header_of(text@),
                name_col(h) == Some(ni as int),
                user_col(h) == Some(ui as int),
                0 <= ni < h.len(),
                0 <= ui < h.len(),
                students@.map_values(|st: Student| st@) == dedup_students(
                    students_of(h, rows.take(reader_pos(rdr))),
                ),
            decreases rows.len() - reader_pos(rdr),
        {
            let ghost p = reader_pos(rdr);
            match csv_read_row(&mut rdr) {
                Ok(Some(row)) => {
                    assert(row@.map_values(|f: String| f@) == rows[p]);
                    let s = Student {
                        name: row[ni].clone(),
                        github_username: row[ui].clone(),
                    };
                    assert(s@ == row_student(h, rows[p]));
                    let dup = contains_student(&students, &s);
                    if !dup {
                        students.push(s);
                    }
                    proof {
                        let taken = rows.take(p + 1);
                        assert(taken.drop_last() =~= rows.take(p));
                        assert(taken.last() == rows[p]);
                        assert(students_of(h, taken).drop_last() =~= students_of(h, rows.take(p)));
                        assert(students_of(h, taken).last() == row_student(h, rows[p]));
                    }
                },
                Ok(None) => {
                    proof {
                        assert(rows.take(reader_pos(rdr)) =~= rows);
                    }
                    return Ok(students);
                },
                Err(_) => {
                    return Err(RosterError::Malformed);
                },
            }
        }
    }
}

/// Law: deduplication keeps exactly one entry per distinct student: the
/// result has no duplicates, denotes the same set, and its length is the
/// number of distinct entries of the input.
pub proof fn lemma_dedup_counts_distinct(s: Seq<StudentView>)
    ensures
        dedup_students(s).no_duplicates(),
        dedup_students(s).to_set() == s.to_set(),
        dedup_students(s).len() == s.to_set().len(),
    decreases s.len(),
{
    broadcast use vstd::seq_lib::group_seq_properties;
    broadcast use vstd::seq_lib::seq_to_set_is_finite;

    if s.len() == 0 {
        assert(s.to_set() =~= Set::<StudentView>::empty());
        assert(dedup_students(s).to_set() =~= Set::<StudentView>::empty());
    } else {
        let rest = s.drop_last();
        lemma_dedup_counts_distinct(rest);
        let d = dedup_students(rest);
        assert(s.to_set() =~= rest.to_set().insert(s.last()));
        assert(rest.to_set().finite());
        if d.contains(s.last()) {
            assert(rest.to_set().contains(s.last()));
            assert(rest.to_set().insert(s.last()) =~= rest.to_set());
        } else {
            assert(!rest.to_set().contains(s.last()));
            assert(dedup_students(s) == d.push(s.last()));
            assert(dedup_students(s).to_set() =~= d.to_set().insert(s.last()));
            assert(d.push(s.last()).no_duplicates());
        }
    }
}

/// Law: the roster a text denotes has no duplicate entries, and its size is
/// the number of structurally distinct students among the text's rows.
pub proof fn lemma_roster_distinct(s: Seq<char>)
    ensures
        roster_of(s).no_duplicates(),
        roster_of(s).to_set() == students_of(csv_header_of(s), csv_rows_of(s)).to_set(),
        roster_of(s).len() == students_of(csv_header_of(s), csv_rows_of(s)).to_set().len(),
{
    lemma_dedup_counts_distinct(students_of(csv_header_of(s), csv_rows_of(s)));
}

} // verus!
