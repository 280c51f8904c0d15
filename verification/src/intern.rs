//! Value interning: append-only, order-preserving, deduplicated
//! value-to-index tables, plus the unmapped-name occurrence counter.
//!
//! `spec_intern` is the mathematical interning step shared by the asset-name
//! table and the color table: look the value up; when present, return its
//! first index and leave the table alone; when absent, append it and return
//! the fresh index. Indices are therefore dense, stable, and assigned in
//! first-seen order.

use vstd::prelude::*;
use crate::types::Color;
use crate::parse::{bytes_eq, clone_bytes};

verus! {

/// The first index at or after `i` holding `k`, if any.
pub open spec fn spec_find_from<T>(tbl: Seq<T>, k: T, i: int) -> Option<int>
    decreases tbl.len() - i,
{
    if i < 0 || i >= tbl.len() {
        None
    } else if tbl[i] == k {
        Some(i)
    } else {
        spec_find_from(tbl, k, i + 1)
    }
}

/// The first index holding `k`, if any.
pub open spec fn spec_find<T>(tbl: Seq<T>, k: T) -> Option<int> {
    spec_find_from(tbl, k, 0)
}

/// One interning step: the table after interning `k`, and the index `k` got.
pub open spec fn spec_intern<T>(tbl: Seq<T>, k: T) -> (Seq<T>, int) {
    match spec_find(tbl, k) {
        Some(i) => (tbl, i),
        None => (tbl.push(k), tbl.len() as int),
    }
}

pub proof fn lemma_find_from_props<T>(tbl: Seq<T>, k: T, i: int)
    requires
        0 <= i <= tbl.len(),
    ensures
        match spec_find_from(tbl, k, i) {
            Some(j) => i <= j < tbl.len() && tbl[j] == k && (forall|m: int|
                i <= m < j ==> tbl[m] != k),
            None => forall|m: int| i <= m < tbl.len() ==> tbl[m] != k,
        },
    decreases tbl.len() - i,
{
    if i < tbl.len() && tbl[i] != k {
        lemma_find_from_props(tbl, k, i + 1);
    }
}

proof fn lemma_find_from_push<T>(tbl: Seq<T>, k: T, i: int)
    requires
        0 <= i <= tbl.len(),
    ensures
        spec_find_from(tbl.push(k), k, i) == match spec_find_from(tbl, k, i) {
            Some(j) => Some(j),
            None => Some(tbl.len() as int),
        },
    decreases tbl.len() - i,
{
    if i < tbl.len() && tbl[i] != k {
        lemma_find_from_push(tbl, k, i + 1);
    }
}

/// Law: interning is idempotent. Interning a value a second time returns the
/// same index and leaves the table exactly as it was.
pub proof fn lemma_intern_idempotent<T>(tbl: Seq<T>, k: T)
    ensures
        spec_intern(spec_intern(tbl, k).0, k) == spec_intern(tbl, k),
{
    match spec_find(tbl, k) {
        Some(j) => {},
        None => {
            lemma_find_from_push(tbl, k, 0);
        },
    }
}

/// Law: interning a value absent from the table appends it and hands out the
/// next dense index; so N distinct values interned into an empty table get
/// indices 0 through N-1 in first-seen order.
pub proof fn lemma_intern_fresh<T>(tbl: Seq<T>, k: T)
    requires
        forall|m: int| 0 <= m < tbl.len() ==> tbl[m] != k,
    ensures
        spec_intern(tbl, k) == (tbl.push(k), tbl.len() as int),
{
    lemma_find_from_props(tbl, k, 0);
    if spec_find(tbl, k) is Some {
        let j = spec_find(tbl, k)->Some_0;
        assert(tbl[j] == k);
    }
}

/// Law: interning only ever appends; the old table is a prefix of the new
/// one, so every index already handed out is stable.
pub proof fn lemma_intern_stable<T>(tbl: Seq<T>, k: T)
    ensures
        spec_intern(tbl, k).0.take(tbl.len() as int) == tbl,
        0 <= spec_intern(tbl, k).1 < spec_intern(tbl, k).0.len(),
        spec_intern(tbl, k).0[spec_intern(tbl, k).1] == k,
{
    lemma_find_from_props(tbl, k, 0);
    match spec_find(tbl, k) {
        Some(j) => {
            assert(spec_intern(tbl, k).0.take(tbl.len() as int) =~= tbl);
        },
        None => {
            assert(spec_intern(tbl, k).0.take(tbl.len() as int) =~= tbl);
        },
    }
}

/// The append-only, deduplicated table of target asset names.
pub struct AssetTable {
    pub names: Vec<Vec<u8>>,
}

impl AssetTable {
    /// The interned byte strings, in index order.
    pub open spec fn contents(self) -> Seq<Seq<u8>> {
        self.names@.map_values(|v: Vec<u8>| v@)
    }

    /// An empty table.
    pub fn new() -> (t: AssetTable)
        ensures
            t.contents() == Seq::<Seq<u8>>::empty(),
    {
        let t = AssetTable { names: Vec::new() };
        proof {
            assert(t.contents() =~= Seq::<Seq<u8>>::empty());
        }
        t
    }

    /// Intern `name`: the index of its first occurrence, the value appended
    /// first when it is new.
    pub fn get_or_insert(&mut self, name: &Vec<u8>) -> (i: usize)
        ensures
            final(self).contents() == spec_intern(old(self).contents(), name@).0,
            i as int == spec_intern(old(self).contents(), name@).1,
    {
        let ghost c = self.contents();
        let mut j: usize = 0;
        while j < self.names.len()
            invariant
                0 <= j <= self.names@.len(),
                c == self.contents(),
                self.contents() == old(self).contents(),
                spec_find_from(c, name@, 0) == spec_find_from(c, name@, j as int),
                self.names == old(self).names,
            decreases self.names@.len() - j,
        {
            if bytes_eq(&self.names[j], name) {
                proof {
                    assert(c[j as int] == name@);
                }
                return j;
            }
            j = j + 1;
        }
        let i = self.names.len();
        self.names.push(clone_bytes(name));
        proof {
            assert(final(self).contents() =~= spec_intern(old(self).contents(), name@).0);
        }
        i
    }
}

/// The append-only, deduplicated color table, seeded with the converted
/// source palette.
pub struct ColorTable {
    pub colors: Vec<Color>,
}

impl ColorTable {
    /// The table's colors, in index order.
    pub open spec fn contents(self) -> Seq<Color> {
        self.colors@
    }

    /// A table holding exactly the given seed palette.
    pub fn new(seed: Vec<Color>) -> (t: ColorTable)
        ensures
            t.contents() == seed@,
    {
        ColorTable { colors: seed }
    }

    /// Intern `color`: the index of its first occurrence, the value appended
    /// first when it is new.
    pub fn get_or_insert(&mut self, color: Color) -> (i: usize)
        ensures
            final(self).contents() == spec_intern(old(self).contents(), color).0,
            i as int == spec_intern(old(self).contents(), color).1,
    {
        let ghost c = self.contents();
        let mut j: usize = 0;
        while j < self.colors.len()
            invariant
                0 <= j <= self.colors@.len(),
                c == self.contents(),
                self.contents() == old(self).contents(),
                spec_find_from(c, color, 0) == spec_find_from(c, color, j as int),
                self.colors == old(self).colors,
            decreases self.colors@.len() - j,
        {
            let e = self.colors[j];
            if e.r == color.r && e.g == color.g && e.b == color.b && e.a == color.a {
                return j;
            }
            j = j + 1;
        }
        let i = self.colors.len();
        self.colors.push(color);
        i
    }
}

} // verus!
