//! The row transformer: a grid of cells, whose first row holds the labels,
//! becomes one label-keyed record per further row.

use vstd::prelude::*;
use crate::assoc::{
    find_label, labels_distinct, lemma_pairs_map_domain, lemma_pairs_map_update, lemma_value_at,
    pairs_map,
};

verus! {

/// One output record: a map from header label to cell value.
pub struct Record {
    fields: Vec<(String, String)>,
}

/// The pairs of a record as character sequences.
pub open spec fn field_views(s: Seq<(String, String)>) -> Seq<(Seq<char>, Seq<char>)> {
    s.map_values(|p: (String, String)| (p.0@, p.1@))
}

impl View for Record {
    type V = Map<Seq<char>, Seq<char>>;

    closed spec fn view(&self) -> Map<Seq<char>, Seq<char>> {
        pairs_map(field_views(self.fields@))
    }
}

impl Record {
    /// Labels are distinct among the stored pairs.
    pub closed spec fn wf(&self) -> bool {
        labels_distinct(self.fields@)
    }

    /// A record with no field.
    pub fn new() -> (r: Record)
        ensures
            r.wf(),
            r@ == Map::<Seq<char>, Seq<char>>::empty(),
    {
        Record { fields: Vec::new() }
    }

    /// Sets `label` to `value`, replacing an earlier value of that label.
    pub fn insert(&mut self, label: String, value: String)
        requires
            old(self).wf(),
        ensures
            final(self).wf(),
            final(self)@ == old(self)@.insert(label@, value@),
    {
        let ghost before = self.fields@;
        match find_label(&self.fields, &label) {
            Some(i) => {
                let ghost v = field_views(before);
                proof {
                    assert forall|a: int, b: int|
                        0 <= a < v.len() && 0 <= b < v.len() && a != b implies #[trigger] v[a].0
                        != #[trigger] v[b].0 by {
                        assert(before[a].0@ != before[b].0@);
                    }
                    lemma_pairs_map_update(v, i as int, value@);
                }
                self.fields.set(i, (label, value));
                proof {
                    assert(field_views(self.fields@) =~= v.update(i as int, (v[i as int].0, value@)));
                    assert forall|a: int, b: int|
                        0 <= a < self.fields@.len() && 0 <= b < self.fields@.len() && a != b implies
                        #[trigger] self.fields@[a].0@ != #[trigger] self.fields@[b].0@ by {
                        assert(before[a].0@ != before[b].0@);
                    }
                }
            },
            None => {
                let ghost lv = label@;
                let ghost vv = value@;
                self.fields.push((label, value));
                proof {
                    let v = field_views(self.fields@);
                    assert(v.drop_last() =~= field_views(before));
                    assert(v.last() == (lv, vv));
                }
            },
        }
    }

    /// The value stored under `label`, if any.
    pub fn get(&self, label: &String) -> (r: Option<String>)
        requires
            self.wf(),
        ensures
            match r {
                Some(v) => self@.contains_key(label@) && self@[label@] == v@,
                None => !self@.contains_key(label@),
            },
    {
        let ghost v = field_views(self.fields@);
        proof {
            lemma_pairs_map_domain(v, label@);
        }
        match find_label(&self.fields, label) {
            Some(i) => {
                proof {
                    lemma_value_at(v, i as int);
                }
                Some(self.fields[i].1.clone())
            },
            None => {
                assert forall|i: int| 0 <= i < v.len() implies #[trigger] v[i].0 != label@ by {
                    assert(self.fields@[i].0@ != label@);
                }
                None
            },
        }
    }

    /// The fields as pairs with distinct labels.
    pub fn into_pairs(self) -> (r: Vec<(String, String)>)
        requires
            self.wf(),
        ensures
            labels_distinct(r@),
            pairs_map(field_views(r@)) == self@,
    {
        self.fields
    }

    /// How many fields the record has.
    pub fn len(&self) -> (r: usize)
        requires
            self.wf(),
        ensures
            r == self@.len(),
    {
        proof {
            let v = field_views(self.fields@);
            lemma_distinct_size(v);
        }
        self.fields.len()
    }
}

/// With distinct labels, the map has one key per pair.
proof fn lemma_distinct_size(s: Seq<(Seq<char>, Seq<char>)>)
    requires
        forall|a: int, b: int|
            0 <= a < s.len() && 0 <= b < s.len() && a != b ==> #[trigger] s[a].0 != #[trigger] s[b].0,
    ensures
        pairs_map(s).dom().finite(),
        pairs_map(s).len() == s.len(),
    decreases s.len(),
{
    if s.len() > 0 {
        let d = s.drop_last();
        assert forall|a: int, b: int|
            0 <= a < d.len() && 0 <= b < d.len() && a != b implies #[trigger] d[a].0 != #[trigger] d[b].0 by {
            assert(s[a].0 != s[b].0);
        }
        lemma_distinct_size(d);
        lemma_pairs_map_domain(d, s.last().0);
        if pairs_map(d).contains_key(s.last().0) {
            let i = choose|i: int| 0 <= i < d.len() && #[trigger] d[i].0 == s.last().0;
            assert(s[i].0 == s[s.len() - 1].0);
        }
    }
}

/// The record for one data row: the first `n` cells paired with their labels,
/// a later label overwriting an earlier equal one.
pub open spec fn record_prefix(headers: Seq<Seq<char>>, row: Seq<Seq<char>>, n: nat) -> Map<Seq<char>, Seq<char>>
    decreases n,
{
    if n == 0 {
        Map::empty()
    } else {
        record_prefix(headers, row, (n - 1) as nat).insert(headers[n - 1], row[n - 1])
    }
}

/// The record for one data row: each cell that has a label at its column.
pub open spec fn record_of(headers: Seq<Seq<char>>, row: Seq<Seq<char>>) -> Map<Seq<char>, Seq<char>> {
    record_prefix(headers, row, if row.len() < headers.len() { row.len() } else { headers.len() })
}

/// The records of a grid: none for an empty grid, else one per row after
/// the header row.
pub open spec fn transform(grid: Seq<Seq<Seq<char>>>) -> Seq<Map<Seq<char>, Seq<char>>> {
    if grid.len() == 0 {
        Seq::empty()
    } else {
        Seq::new((grid.len() - 1) as nat, |i: int| record_of(grid[0], grid[i + 1]))
    }
}

/// The record for one row under the given header row.
pub fn build_record(headers: &Vec<String>, row: &Vec<String>) -> (r: Record)
    ensures
        r.wf(),
        r@ == record_of(headers.deep_view(), row.deep_view()),
{
    let n: usize = if row.len() < headers.len() { row.len() } else { headers.len() };
    let mut rec = Record::new();
    let mut i: usize = 0;
    while i < n
        invariant
            i <= n,
            n <= row@.len(),
            n <= headers@.len(),
            rec.wf(),
            rec@ == record_prefix(headers.deep_view(), row.deep_view(), i as nat),
        decreases n - i,
    {
        rec.insert(headers[i].clone(), row[i].clone());
        i = i + 1;
    }
    rec
}

/// Turns a value grid into header-keyed records.
pub fn process_sheet_data(values: &[Vec<String>]) -> (r: Vec<Record>)
    ensures
        forall|i: int| 0 <= i < r@.len() ==> #[trigger] r@[i].wf(),
        r@.map_values(|x: Record| x@) == transform(values.deep_view()),
{
    let mut rows: Vec<Record> = Vec::new();
    if values.len() == 0 {
        assert(rows@.map_values(|x: Record| x@) =~= transform(values.deep_view()));
        return rows;
    }
    let headers = &values[0];
    let mut k: usize = 1;
    while k < values.len()
        invariant
            1 <= k <= values@.len(),
            headers == values@[0],
            rows@.len() == k - 1,
            forall|i: int| 0 <= i < rows@.len() ==> #[trigger] rows@[i].wf(),
            forall|i: int|
                0 <= i < rows@.len() ==> #[trigger] rows@[i]@ == record_of(
                    values.deep_view()[0],
                    values.deep_view()[i + 1],
                ),
        decreases values@.len() - k,
    {
        let rec = build_record(headers, &values[k]);
        rows.push(rec);
        k = k + 1;
    }
    assert(rows@.map_values(|x: Record| x@) =~= transform(values.deep_view()));
    rows
}

} // verus!
