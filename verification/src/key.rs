//! Object keys: where the chunks of a run are stored.
//!
//! A key reads `prefix/year/month/day/suffix/collection/chunk.json.gz`, the
//! year four wide, month and day two digits, the chunk number at least three.

use vstd::prelude::*;
use vstd::string::StringExecFns;
use crate::numeral::append_numeral;
use crate::numeral::lemma_digits_len;
use crate::numeral::lemma_numeral_chars;
use crate::numeral::lemma_numeral_injective;
use crate::numeral::numeral;

verus! {

/// The latest year that a key can hold in its four places.
pub const MAX_YEAR: u32 = 9999;

/// The UTC calendar date on which a run started.
#[derive(Clone, Copy, Debug, PartialEq, Eq)]
pub struct RunDate {
    year: u32,
    month: u32,
    day: u32,
}

/// A date as three numbers.
pub struct DateView {
    pub year: nat,
    pub month: nat,
    pub day: nat,
}

/// Whether three numbers name a date that a key can hold.
pub open spec fn is_date(year: nat, month: nat, day: nat) -> bool {
    year <= MAX_YEAR && 1 <= month <= 12 && 1 <= day <= 31
}

impl DateView {
    /// Whether the numbers name a date that a key can hold.
    pub open spec fn valid(self) -> bool {
        is_date(self.year, self.month, self.day)
    }
}

impl View for RunDate {
    type V = DateView;

    closed spec fn view(&self) -> DateView {
        DateView { year: self.year as nat, month: self.month as nat, day: self.day as nat }
    }
}

impl RunDate {
    #[verifier::type_invariant]
    spec fn in_range(self) -> bool {
        is_date(self.year as nat, self.month as nat, self.day as nat)
    }

    /// The date of the given year, month and day, where they name one.
    pub fn new(year: u32, month: u32, day: u32) -> (r: Option<RunDate>)
        ensures
            r is Some <==> is_date(year as nat, month as nat, day as nat),
            r matches Some(date) ==> date@ == (DateView {
                year: year as nat,
                month: month as nat,
                day: day as nat,
            }),
    {
        if year <= MAX_YEAR && 1 <= month && month <= 12 && 1 <= day && day <= 31 {
            Some(RunDate { year, month, day })
        } else {
            None
        }
    }

    /// The year.
    pub fn year(&self) -> (y: u32)
        ensures
            y == self@.year,
            self@.valid(),
    {
        proof {
            use_type_invariant(self);
        }
        self.year
    }

    /// The month, from 1.
    pub fn month(&self) -> (m: u32)
        ensures
            m == self@.month,
            self@.valid(),
    {
        proof {
            use_type_invariant(self);
        }
        self.month
    }

    /// The day of the month, from 1.
    pub fn day(&self) -> (d: u32)
        ensures
            d == self@.day,
            self@.valid(),
    {
        proof {
            use_type_invariant(self);
        }
        self.day
    }
}

/// The separator between the parts of a key.
pub open spec fn slash() -> Seq<char> {
    seq!['/']
}

/// The ending of every key.
pub open spec fn ending() -> Seq<char> {
    seq!['.', 'j', 's', 'o', 'n', '.', 'g', 'z']
}

/// The date as a key holds it: `year/month/day`, ten characters.
pub open spec fn date_text(date: DateView) -> Seq<char> {
    numeral(date.year, 4, ' ') + slash() + numeral(date.month, 2, '0') + slash() + numeral(
        date.day,
        2,
        '0',
    )
}

/// The chunk number as a key holds it.
pub open spec fn chunk_text(chunk: nat) -> Seq<char> {
    numeral(chunk, 3, '0')
}

/// The key of chunk `chunk` of `collection` in the run of `date`.
pub open spec fn key_text(
    prefix: Seq<char>,
    date: DateView,
    suffix: Seq<char>,
    collection: Seq<char>,
    chunk: nat,
) -> Seq<char> {
    prefix + slash() + date_text(date) + slash() + suffix + slash() + collection + slash()
        + chunk_text(chunk) + ending()
}

/// Builds the key of chunk `chunk` of `collection` in the run of `date`.
pub fn object_key(prefix: &str, date: &RunDate, suffix: &str, collection: &str, chunk: u64) -> (key:
    String)
    ensures
        key@ == key_text(prefix@, date@, suffix@, collection@, chunk as nat),
{
    proof {
        reveal_strlit("/");
        reveal_strlit(".json.gz");
        reveal_strlit(" ");
        reveal_strlit("0");
    }
    let mut key = String::new();
    key.append(prefix);
    key.append("/");
    append_numeral(&mut key, date.year() as u64, 4, " ");
    key.append("/");
    append_numeral(&mut key, date.month() as u64, 2, "0");
    key.append("/");
    append_numeral(&mut key, date.day() as u64, 2, "0");
    key.append("/");
    key.append(suffix);
    key.append("/");
    key.append(collection);
    key.append("/");
    append_numeral(&mut key, chunk, 3, "0");
    key.append(".json.gz");
    proof {
        assert("/"@ =~= slash());
        assert(".json.gz"@ =~= ending());
        assert(key@ =~= key_text(prefix@, date@, suffix@, collection@, chunk as nat));
    }
    key
}

/// What stands between the same beginning and the same end is the same.
pub proof fn lemma_middle_determined(
    front: Seq<char>,
    a: Seq<char>,
    b: Seq<char>,
    back: Seq<char>,
)
    requires
        front + a + back == front + b + back,
    ensures
        a == b,
{
    let left = front + a + back;
    let right = front + b + back;
    assert(left.len() == front.len() + a.len() + back.len());
    assert(right.len() == front.len() + b.len() + back.len());
    assert(a.len() == b.len());
    assert forall|i: int| 0 <= i < a.len() implies a[i] == b[i] by {
        assert(left[front.len() + i] == a[i]);
        assert(right[front.len() + i] == b[i]);
    }
    assert(a =~= b);
}

/// A date in a key takes ten places: four for the year, two each for month
/// and day.
pub proof fn lemma_date_text_len(date: DateView)
    requires
        date.valid(),
    ensures
        numeral(date.year, 4, ' ').len() == 4,
        numeral(date.month, 2, '0').len() == 2,
        numeral(date.day, 2, '0').len() == 2,
        date_text(date).len() == 10,
{
    lemma_digits_len(date.year);
    lemma_digits_len(date.month);
    lemma_digits_len(date.day);
}

/// Different dates read differently in a key.
pub proof fn lemma_date_text_injective(a: DateView, b: DateView)
    requires
        a.valid(),
        b.valid(),
        date_text(a) == date_text(b),
    ensures
        a == b,
{
    lemma_date_text_len(a);
    lemma_date_text_len(b);
    let ta = date_text(a);
    let tb = date_text(b);
    assert(ta.subrange(0, 4) =~= numeral(a.year, 4, ' '));
    assert(tb.subrange(0, 4) =~= numeral(b.year, 4, ' '));
    assert(ta.subrange(5, 7) =~= numeral(a.month, 2, '0'));
    assert(tb.subrange(5, 7) =~= numeral(b.month, 2, '0'));
    assert(ta.subrange(8, 10) =~= numeral(a.day, 2, '0'));
    assert(tb.subrange(8, 10) =~= numeral(b.day, 2, '0'));
    lemma_numeral_injective(a.year, b.year, 4, ' ');
    lemma_numeral_injective(a.month, b.month, 2, '0');
    lemma_numeral_injective(a.day, b.day, 2, '0');
}

/// Whether two sets of key parts agree in all parts but at most one.
pub open spec fn differ_in_one_part_at_most(
    prefix1: Seq<char>,
    date1: DateView,
    suffix1: Seq<char>,
    collection1: Seq<char>,
    chunk1: nat,
    prefix2: Seq<char>,
    date2: DateView,
    suffix2: Seq<char>,
    collection2: Seq<char>,
    chunk2: nat,
) -> bool {
    ||| date1 == date2 && suffix1 == suffix2 && collection1 == collection2 && chunk1 == chunk2
    ||| prefix1 == prefix2 && suffix1 == suffix2 && collection1 == collection2 && chunk1
        == chunk2
    ||| prefix1 == prefix2 && date1 == date2 && collection1 == collection2 && chunk1 == chunk2
    ||| prefix1 == prefix2 && date1 == date2 && suffix1 == suffix2 && chunk1 == chunk2
    ||| prefix1 == prefix2 && date1 == date2 && suffix1 == suffix2 && collection1
        == collection2
}

/// To change one part of a key, whichever it is, changes the key: two keys
/// whose parts differ in one place at most are equal only where all parts
/// are.
pub proof fn lemma_key_changes_with_each_part(
    prefix1: Seq<char>,
    date1: DateView,
    suffix1: Seq<char>,
    collection1: Seq<char>,
    chunk1: nat,
    prefix2: Seq<char>,
    date2: DateView,
    suffix2: Seq<char>,
    collection2: Seq<char>,
    chunk2: nat,
)
    requires
        date1.valid(),
        date2.valid(),
        differ_in_one_part_at_most(
            prefix1,
            date1,
            suffix1,
            collection1,
            chunk1,
            prefix2,
            date2,
            suffix2,
            collection2,
            chunk2,
        ),
        key_text(prefix1, date1, suffix1, collection1, chunk1) == key_text(
            prefix2,
            date2,
            suffix2,
            collection2,
            chunk2,
        ),
    ensures
        prefix1 == prefix2,
        date1 == date2,
        suffix1 == suffix2,
        collection1 == collection2,
        chunk1 == chunk2,
{
    let k1 = key_text(prefix1, date1, suffix1, collection1, chunk1);
    let k2 = key_text(prefix2, date2, suffix2, collection2, chunk2);
    let empty = Seq::<char>::empty();
    if date1 == date2 && suffix1 == suffix2 && collection1 == collection2 && chunk1 == chunk2 {
        let back = slash() + date_text(date1) + slash() + suffix1 + slash() + collection1
            + slash() + chunk_text(chunk1) + ending();
        assert(k1 =~= empty + prefix1 + back);
        assert(k2 =~= empty + prefix2 + back);
        lemma_middle_determined(empty, prefix1, prefix2, back);
    } else if prefix1 == prefix2 && suffix1 == suffix2 && collection1 == collection2 && chunk1
        == chunk2 {
        let front = prefix1 + slash();
        let back = slash() + suffix1 + slash() + collection1 + slash() + chunk_text(chunk1)
            + ending();
        assert(k1 =~= front + date_text(date1) + back);
        assert(k2 =~= front + date_text(date2) + back);
        lemma_middle_determined(front, date_text(date1), date_text(date2), back);
        lemma_date_text_injective(date1, date2);
    } else if prefix1 == prefix2 && date1 == date2 && collection1 == collection2 && chunk1
        == chunk2 {
        let front = prefix1 + slash() + date_text(date1) + slash();
        let back = slash() + collection1 + slash() + chunk_text(chunk1) + ending();
        assert(k1 =~= front + suffix1 + back);
        assert(k2 =~= front + suffix2 + back);
        lemma_middle_determined(front, suffix1, suffix2, back);
    } else if prefix1 == prefix2 && date1 == date2 && suffix1 == suffix2 && chunk1 == chunk2 {
        let front = prefix1 + slash() + date_text(date1) + slash() + suffix1 + slash();
        let back = slash() + chunk_text(chunk1) + ending();
        assert(k1 =~= front + collection1 + back);
        assert(k2 =~= front + collection2 + back);
        lemma_middle_determined(front, collection1, collection2, back);
    } else {
        let front = prefix1 + slash() + date_text(date1) + slash() + suffix1 + slash()
            + collection1 + slash();
        assert(k1 =~= front + chunk_text(chunk1) + ending());
        assert(k2 =~= front + chunk_text(chunk2) + ending());
        lemma_middle_determined(front, chunk_text(chunk1), chunk_text(chunk2), ending());
        lemma_numeral_injective(chunk1, chunk2, 3, '0');
    }
}

/// Within one run no two chunks share a key: under the same prefix, date and
/// suffix, equal keys belong to the same chunk of the same collection.
pub proof fn lemma_keys_unique_in_run(
    prefix: Seq<char>,
    date: DateView,
    suffix: Seq<char>,
    collection1: Seq<char>,
    chunk1: nat,
    collection2: Seq<char>,
    chunk2: nat,
)
    requires
        key_text(prefix, date, suffix, collection1, chunk1) == key_text(
            prefix,
            date,
            suffix,
            collection2,
            chunk2,
        ),
    ensures
        collection1 == collection2,
        chunk1 == chunk2,
{
    let k1 = key_text(prefix, date, suffix, collection1, chunk1);
    let k2 = key_text(prefix, date, suffix, collection2, chunk2);
    let front = prefix + slash() + date_text(date) + slash() + suffix + slash();
    let n1 = chunk_text(chunk1);
    let n2 = chunk_text(chunk2);
    let t1 = collection1 + slash() + n1;
    let t2 = collection2 + slash() + n2;
    assert(k1 =~= front + t1 + ending());
    assert(k2 =~= front + t2 + ending());
    lemma_middle_determined(front, t1, t2, ending());
    lemma_numeral_chars(chunk1, 3, '0', '/');
    lemma_numeral_chars(chunk2, 3, '0', '/');
    // The separator before the chunk number is the last one of the tail, so
    // both numbers have the same length.
    if n1.len() < n2.len() {
        let at = collection1.len() as int;
        assert(t1[at] == '/');
        assert(t2[at] == n2[at - collection2.len() - 1]);
        assert(n2.contains('/'));
    }
    if n2.len() < n1.len() {
        let at = collection2.len() as int;
        assert(t2[at] == '/');
        assert(t1[at] == n1[at - collection1.len() - 1]);
        assert(n1.contains('/'));
    }
    assert(collection1.len() == collection2.len());
    assert(collection1 =~= t1.subrange(0, collection1.len() as int));
    assert(collection2 =~= t2.subrange(0, collection2.len() as int));
    assert(n1 =~= t1.subrange(collection1.len() as int + 1, t1.len() as int));
    assert(n2 =~= t2.subrange(collection2.len() as int + 1, t2.len() as int));
    lemma_numeral_injective(chunk1, chunk2, 3, '0');
}

} // verus!
