use vstd::prelude::*;

use vstd::string::StringExecFns;

use rand::seq::SliceRandom;

use crate::text::str_eq;

verus! {

pub type OriginalSentence = String;

pub type Translation = String;

/// One drill question: the sentence shown and the translation expected.
pub type Phrase = (OriginalSentence, Translation);

pub type Phrases = Vec<Phrase>;

/// Why the phrase store could not be opened or read.
#[derive(Debug, Clone, Copy, PartialEq, Eq, Structural)]
pub enum DatabaseError {
    /// The connection string does not name a file.
    BadConnString,
    /// The records could not be parsed out of the file contents.
    Csv,
}

impl DatabaseError {
    /// A human-readable account of the failure.
    pub fn message(&self) -> (r: String)
        ensures
            *self == DatabaseError::BadConnString ==> r@
                == "Failed to parse database connection string"@,
            *self == DatabaseError::Csv ==> r@ == "Failed to read records from the database"@,
    {
        match self {
            DatabaseError::BadConnString => String::from_str(
                "Failed to parse database connection string",
            ),
            DatabaseError::Csv => String::from_str("Failed to read records from the database"),
        }
    }
}

/// The file path a connection string names: everything after the
/// `file://` scheme prefix.
pub fn parse_conn_string(conn: &str) -> (r: Result<&str, DatabaseError>)
    ensures
        r is Ok <==> conn@.len() >= 7 && conn@.take(7) == "file://"@,
        r matches Ok(p) ==> p@ == conn@.skip(7),
        r matches Err(e) ==> e == DatabaseError::BadConnString,
{
    let len = conn.unicode_len();
    if len < 7 {
        proof {
            reveal_strlit("file://");
        }
        return Err(DatabaseError::BadConnString);
    }
    let prefix = conn.substring_char(0, 7);
    if str_eq(prefix, "file://") {
        proof {
            assert(conn@.take(7) =~= conn@.subrange(0, 7));
        }
        Ok(conn.substring_char(7, len))
    } else {
        proof {
            assert(conn@.take(7) =~= conn@.subrange(0, 7));
        }
        Err(DatabaseError::BadConnString)
    }
}

// ----------------------------------------------------------------------
// Trusted boundary: parsing raw bytes into rows of fields is the csv
// crate's work; the rows depend on the bytes alone.
// ----------------------------------------------------------------------

/// The rows of fields that the bytes parse into, or None when they do not
/// parse (a record that is not valid text, for instance).
pub uninterp spec fn csv_rows_of(data: Seq<u8>) -> Option<Seq<Seq<Seq<char>>>>;

/// Relies on the csv crate: ReaderBuilder::flexible(true) + from_reader
/// parse the bytes, and each StringRecord hands its fields out in order.
/// Flexible mode accepts rows of any width, so parsing fails only on
/// malformed records, which depends on the bytes alone.
#[verifier::external_body]
fn read_csv_rows(data: &[u8]) -> (r: Result<Vec<Vec<String>>, DatabaseError>)
    ensures
        r is Ok <==> csv_rows_of(data@) is Some,
        r matches Ok(rows) ==> rows.deep_view() == csv_rows_of(data@)->Some_0,
        r matches Err(e) ==> e == DatabaseError::Csv,
{
    let mut reader = csv::ReaderBuilder::new().flexible(true).from_reader(data);
    let mut rows: Vec<Vec<String>> = Vec::new();
    for result in reader.records() {
        let record = match result {
            Ok(record) => record,
            Err(_) => return Err(DatabaseError::Csv),
        };
        rows.push(record.iter().map(|field| field.to_string()).collect());
    }
    Ok(rows)
}

/// The phrases among a parsed row set: each row of exactly two fields, as
/// an (original, translation) pair, in order; other rows are skipped.
pub open spec fn phrases_of_rows(rows: Seq<Seq<Seq<char>>>) -> Seq<(Seq<char>, Seq<char>)>
    decreases rows.len(),
{
    if rows.len() == 0 {
        Seq::empty()
    } else {
        let rest = phrases_of_rows(rows.drop_last());
        if rows.last().len() == 2 {
            rest.push((rows.last()[0], rows.last()[1]))
        } else {
            rest
        }
    }
}

/// The phrase store: the full record set, loaded once, sampled per round.
pub struct Database {
    pub records: Phrases,
}

impl Clone for Database {
    fn clone(&self) -> (r: Self)
        ensures
            r.records@ == self.records@,
    {
        Database { records: clone_phrases(&self.records) }
    }
}

impl Database {
    /// Builds the store from the raw contents of a record file: every row
    /// with exactly two fields becomes a phrase, other rows are skipped.
    pub fn new(data: &[u8]) -> (r: Result<Database, DatabaseError>)
        ensures
            r is Ok <==> csv_rows_of(data@) is Some,
            r matches Ok(db) ==> db.records.deep_view() == phrases_of_rows(
                csv_rows_of(data@)->Some_0,
            ),
            r matches Err(e) ==> e == DatabaseError::Csv,
    {
        let records = Database::from_csv(data)?;
        Ok(Database { records })
    }

    /// Parses record bytes into phrases; rows that do not have exactly two
    /// fields are skipped.
    pub fn from_csv(data: &[u8]) -> (r: Result<Phrases, DatabaseError>)
        ensures
            r is Ok <==> csv_rows_of(data@) is Some,
            r matches Ok(ph) ==> ph.deep_view() == phrases_of_rows(csv_rows_of(data@)->Some_0),
            r matches Err(e) ==> e == DatabaseError::Csv,
    {
        let rows = read_csv_rows(data)?;
        let ghost all_rows = rows.deep_view();
        let mut records: Phrases = Vec::new();
        let mut i: usize = 0;
        while i < rows.len()
            invariant
                i <= rows.len(),
                all_rows == rows.deep_view(),
                all_rows.len() == rows@.len(),
                forall|k: int| 0 <= k < rows@.len() ==> all_rows[k] == #[trigger] rows@[k].deep_view(),
                records.deep_view() == phrases_of_rows(all_rows.take(i as int)),
            decreases rows.len() - i,
        {
            let row = &rows[i];
            proof {
                assert(all_rows.take(i + 1).drop_last() =~= all_rows.take(i as int));
                assert(all_rows.take(i + 1).last() == all_rows[i as int]);
                assert(all_rows[i as int].len() == row@.len());
            }
            if row.len() == 2 {
                let pair = (row[0].clone(), row[1].clone());
                records.push(pair);
                proof {
                    assert(all_rows[i as int][0] == row@[0]@);
                    assert(all_rows[i as int][1] == row@[1]@);
                    assert(records.deep_view() =~= phrases_of_rows(all_rows.take(i + 1)));
                }
            } else {
                proof {
                    assert(records.deep_view() =~= phrases_of_rows(all_rows.take(i + 1)));
                }
            }
            i = i + 1;
        }
        proof {
            assert(all_rows.take(rows@.len() as int) =~= all_rows);
        }
        Ok(records)
    }

    /// A round's worth of phrases: up to `limit` of the stored records, in
    /// an order that is up to the shuffle. Never more than the store holds,
    /// never a record the store does not hold, and no record more often
    /// than the store holds it.
    pub fn get_phrases(&self, limit: usize) -> (r: Phrases)
        ensures
            r@.len() == if limit <= self.records@.len() {
                limit as int
            } else {
                self.records@.len() as int
            },
            r@.to_multiset().subset_of(self.records@.to_multiset()),
    {
        let mut all = clone_phrases(&self.records);
        shuffle_phrases(&mut all);
        let n: usize = if limit <= all.len() {
            limit
        } else {
            all.len()
        };
        let ghost shuffled = all@;
        all.truncate(n);
        proof {
            assert(all@ =~= shuffled.take(n as int));
            lemma_take_to_multiset_subset(shuffled, n as int);
        }
        all
    }
}

/// A copy of a phrase list whose view is the same sequence.
fn clone_phrases(v: &Phrases) -> (r: Phrases)
    ensures
        r@ == v@,
{
    let mut r: Phrases = Vec::new();
    let mut i: usize = 0;
    while i < v.len()
        invariant
            i <= v.len(),
            r@ == v@.take(i as int),
        decreases v.len() - i,
    {
        let pair = (v[i].0.clone(), v[i].1.clone());
        r.push(pair);
        proof {
            assert((v@[i as int].0, v@[i as int].1) == v@[i as int]);
            assert(r@ =~= v@.take(i + 1));
        }
        i = i + 1;
    }
    proof {
        assert(v@.take(v@.len() as int) =~= v@);
    }
    r
}

/// Relies on rand: SliceRandom::shuffle with the generator from rand::rng
/// permutes the vector in place. Which order comes out is up to the
/// generator, so only what holds of every permutation is stated.
#[verifier::external_body]
fn shuffle_phrases(v: &mut Vec<(String, String)>)
    ensures
        final(v)@.len() == old(v)@.len(),
        final(v)@.to_multiset() == old(v)@.to_multiset(),
{
    let mut generator = rand::rng();
    v.as_mut_slice().shuffle(&mut generator);
}

/// A prefix of a sequence never holds an element more often than the whole
/// sequence does.
proof fn lemma_take_to_multiset_subset<A>(s: Seq<A>, k: int)
    requires
        0 <= k <= s.len(),
    ensures
        s.take(k).to_multiset().subset_of(s.to_multiset()),
    decreases s.len() - k,
{
    broadcast use vstd::seq_lib::group_to_multiset_ensures;

    if k == s.len() {
        assert(s.take(k) =~= s);
    } else {
        lemma_take_to_multiset_subset(s, k + 1);
        assert(s.take(k + 1) =~= s.take(k).push(s[k]));
        assert(s.take(k + 1).to_multiset() =~= s.take(k).to_multiset().insert(s[k]));
        assert forall|a: A|
            s.take(k).to_multiset().count(a) <= s.to_multiset().count(a) by {
            assert(s.take(k).to_multiset().insert(s[k]).count(a) >= s.take(k).to_multiset().count(
                a,
            ));
            assert(s.take(k + 1).to_multiset().count(a) <= s.to_multiset().count(a));
        }
    }
}

} // verus!
