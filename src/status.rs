//! HTTP methods, status codes and the mapping from outcome variants to codes.
use vstd::prelude::*;

verus! {

/// The HTTP method of a route; it also fixes how request arguments travel.
#[derive(Clone, Copy, Debug, PartialEq, Eq, Structural)]
pub enum HttpMethod {
    Post,
    Get,
}

/// Status code of a success that carries no mapping of its own.
pub const OK: u16 = 200;

/// Status code of a failure that carries no mapping of its own.
pub const INTERNAL_SERVER_ERROR: u16 = 500;

/// A code that HTTP accepts as a status: three decimal digits.
pub open spec fn valid_status(code: u16) -> bool {
    100 <= code <= 999
}

/// The names of a sequence of strings, as character sequences.
pub open spec fn names_of(v: Seq<String>) -> Seq<Seq<char>> {
    v.map_values(|s: String| s@)
}

/// The variant names that the entries of a mapping declaration refer to.
pub open spec fn entry_names(e: Seq<(String, u16)>) -> Seq<Seq<char>> {
    e.map_values(|p: (String, u16)| p.0@)
}

/// No name occurs twice.
pub open spec fn distinct(s: Seq<Seq<char>>) -> bool {
    forall|i: int, j: int| 0 <= i < j < s.len() ==> s[i] != s[j]
}

/// Every variant is named by some entry.
pub open spec fn covers(tags: Seq<Seq<char>>, e: Seq<(String, u16)>) -> bool {
    forall|i: int| 0 <= i < tags.len() ==> entry_names(e).contains(#[trigger] tags[i])
}

/// Every entry names some variant.
pub open spec fn all_known(tags: Seq<Seq<char>>, e: Seq<(String, u16)>) -> bool {
    forall|j: int| 0 <= j < e.len() ==> tags.contains(#[trigger] e[j].0@)
}

/// Every entry carries a valid status code.
pub open spec fn all_valid(e: Seq<(String, u16)>) -> bool {
    forall|j: int| 0 <= j < e.len() ==> valid_status(#[trigger] e[j].1)
}

/// Some entry of `e` names `tag` and carries `code`.
pub open spec fn entry_gives(e: Seq<(String, u16)>, tag: Seq<char>, code: u16) -> bool {
    exists|j: int| 0 <= j < e.len() && #[trigger] e[j].0@ == tag && e[j].1 == code
}

/// Why a status mapping could not be built.
#[derive(Clone, Copy, Debug, PartialEq, Eq, Structural)]
pub enum MappingError {
    /// Two variants of the outcome type share a name.
    DuplicateVariant,
    /// Two entries name the same variant.
    DuplicateEntry,
    /// An entry's code is not a valid HTTP status.
    InvalidStatus,
    /// A variant has no entry.
    UnmappedVariant,
    /// An entry names no variant of the outcome type.
    UnknownVariant,
}

/// The error that `StatusMapping::build` reports for the given declaration,
/// checks taken in the order of the variants of `MappingError`.
pub open spec fn mapping_error(tags: Seq<Seq<char>>, e: Seq<(String, u16)>) -> Option<MappingError> {
    if !distinct(tags) {
        Some(MappingError::DuplicateVariant)
    } else if !distinct(entry_names(e)) {
        Some(MappingError::DuplicateEntry)
    } else if !all_valid(e) {
        Some(MappingError::InvalidStatus)
    } else if !covers(tags, e) {
        Some(MappingError::UnmappedVariant)
    } else if !all_known(tags, e) {
        Some(MappingError::UnknownVariant)
    } else {
        None
    }
}

/// When a declaration passes every check, each variant is named by exactly one entry.
pub proof fn lemma_exactly_one_entry(tags: Seq<Seq<char>>, e: Seq<(String, u16)>, i: int)
    requires
        mapping_error(tags, e) is None,
        0 <= i < tags.len(),
    ensures
        exists|j: int| #![trigger e[j]]
            0 <= j < e.len() && e[j].0@ == tags[i] && forall|k: int| #![trigger e[k]]
                0 <= k < e.len() && e[k].0@ == tags[i] ==> k == j,
{
    let en = entry_names(e);
    assert(en.contains(tags[i]));
    let j = choose|j: int| 0 <= j < en.len() && en[j] == tags[i];
    assert(e[j].0@ == en[j]);
    assert forall|k: int| 0 <= k < e.len() && e[k].0@ == tags[i] implies k == j by {
        assert(en[k] == e[k].0@);
    }
}

/// A total map from the variants of an outcome type to status codes:
/// `codes[i]` is the code of the variant named `tags[i]`.
pub struct StatusMapping {
    tags: Vec<String>,
    codes: Vec<u16>,
}

impl StatusMapping {
    /// The variant names, in declaration order.
    pub closed spec fn tag_seq(&self) -> Seq<Seq<char>> {
        names_of(self.tags@)
    }

    /// The status code of each variant, in declaration order.
    pub closed spec fn code_seq(&self) -> Seq<u16> {
        self.codes@
    }

    /// One code per variant, names unique, codes valid.
    pub open spec fn wf(&self) -> bool {
        &&& self.code_seq().len() == self.tag_seq().len()
        &&& distinct(self.tag_seq())
        &&& forall|i: int| 0 <= i < self.code_seq().len() ==> valid_status(#[trigger] self.code_seq()[i])
    }

    /// Builds the mapping of the variants `tags` from the declared `(name, code)` entries.
    /// It succeeds exactly when every variant has exactly one entry, every entry names a
    /// variant and every code is valid; each variant then has the code of its entry.
    pub fn build(tags: Vec<String>, entries: &Vec<(String, u16)>) -> (r: Result<StatusMapping, MappingError>)
        ensures
            match r {
                Ok(m) => {
                    &&& mapping_error(names_of(tags@), entries@) is None
                    &&& m.wf()
                    &&& m.tag_seq() == names_of(tags@)
                    &&& forall|i: int| 0 <= i < tags@.len() ==>
                        entry_gives(entries@, tags@[i]@, #[trigger] m.code_seq()[i])
                },
                Err(err) => mapping_error(names_of(tags@), entries@) == Some(err),
            },
    {
        let ghost t = names_of(tags@);
        let ghost en = entry_names(entries@);
        if !all_distinct(&tags) {
            return Err(MappingError::DuplicateVariant);
        }
        let mut entry_tags: Vec<String> = Vec::new();
        let mut k: usize = 0;
        while k < entries.len()
            invariant
                k <= entries@.len(),
                en == entry_names(entries@),
                en.len() == entries@.len(),
                names_of(entry_tags@) == en.subrange(0, k as int),
                entry_tags@.len() == k,
            decreases entries@.len() - k,
        {
            entry_tags.push(entries[k].0.clone());
            k = k + 1;
            proof {
                assert(names_of(entry_tags@) =~= en.subrange(0, k as int));
            }
        }
        assert(names_of(entry_tags@) =~= en);
        if !all_distinct(&entry_tags) {
            return Err(MappingError::DuplicateEntry);
        }
        let mut k: usize = 0;
        while k < entries.len()
            invariant
                k <= entries@.len(),
                t == names_of(tags@),
                en == entry_names(entries@),
                distinct(t),
                distinct(en),
                forall|j: int| 0 <= j < k ==> valid_status(#[trigger] entries@[j].1),
            decreases entries@.len() - k,
        {
            if !(100 <= entries[k].1 && entries[k].1 <= 999) {
                return Err(MappingError::InvalidStatus);
            }
            k = k + 1;
        }
        let mut codes: Vec<u16> = Vec::new();
        let mut i: usize = 0;
        while i < tags.len()
            invariant
                i <= tags@.len(),
                t == names_of(tags@),
                t.len() == tags@.len(),
                en == entry_names(entries@),
                en.len() == entries@.len(),
                entry_tags@.len() == entries@.len(),
                distinct(t),
                distinct(en),
                names_of(entry_tags@) == en,
                all_valid(entries@),
                codes@.len() == i,
                forall|p: int| 0 <= p < i ==> en.contains(#[trigger] t[p]),
                forall|p: int| 0 <= p < i ==> entry_gives(entries@, tags@[p]@, #[trigger] codes@[p]),
            decreases tags@.len() - i,
        {
            match find_name(&entry_tags, &tags[i]) {
                Some(j) => {
                    assert(entry_tags@[j as int]@ == en[j as int]);
                    assert(entries@[j as int].0@ == en[j as int]);
                    codes.push(entries[j].1);
                    assert(en.contains(t[i as int]));
                },
                None => {
                    assert(!en.contains(t[i as int]));
                    return Err(MappingError::UnmappedVariant);
                },
            }
            i = i + 1;
        }
        assert(covers(t, entries@));
        let mut k: usize = 0;
        while k < entry_tags.len()
            invariant
                k <= entry_tags@.len(),
                t == names_of(tags@),
                t.len() == tags@.len(),
                en == entry_names(entries@),
                en.len() == entries@.len(),
                entry_tags@.len() == entries@.len(),
                distinct(t),
                distinct(en),
                all_valid(entries@),
                covers(t, entries@),
                names_of(entry_tags@) == en,
                forall|j: int| 0 <= j < k ==> t.contains(#[trigger] entries@[j].0@),
            decreases entry_tags@.len() - k,
        {
            match find_name(&tags, &entry_tags[k]) {
                Some(q) => {
                    assert(entry_tags@[k as int]@ == en[k as int]);
                    assert(t[q as int] == entries@[k as int].0@);
                },
                None => {
                    assert(entry_tags@[k as int]@ == en[k as int]);
                    assert(!t.contains(entries@[k as int].0@));
                    return Err(MappingError::UnknownVariant);
                },
            }
            k = k + 1;
        }
        let m = StatusMapping { tags, codes };
        assert forall|p: int| 0 <= p < m.code_seq().len() implies valid_status(#[trigger] m.code_seq()[p]) by {
            assert(entry_gives(entries@, tags@[p]@, codes@[p]));
            let j = choose|j: int| 0 <= j < entries@.len()
                && #[trigger] entries@[j].0@ == tags@[p]@ && entries@[j].1 == codes@[p];
        }
        Ok(m)
    }

    /// How many variants the mapping covers.
    pub fn len(&self) -> (r: usize)
        ensures
            r == self.tag_seq().len(),
    {
        self.tags.len()
    }

    /// The position of the variant named `tag`, if the outcome type has one.
    pub fn index_of(&self, tag: &String) -> (r: Option<usize>)
        ensures
            match r {
                Some(i) => i < self.tag_seq().len() && self.tag_seq()[i as int] == tag@,
                None => !self.tag_seq().contains(tag@),
            },
    {
        find_name(&self.tags, tag)
    }

    /// The name of the variant at position `i`.
    pub fn tag(&self, i: usize) -> (r: &String)
        requires
            i < self.tag_seq().len(),
        ensures
            r@ == self.tag_seq()[i as int],
    {
        &self.tags[i]
    }

    /// The status code of the variant at position `i`.
    pub fn code_for(&self, i: usize) -> (r: u16)
        requires
            self.wf(),
            i < self.tag_seq().len(),
        ensures
            r == self.code_seq()[i as int],
            valid_status(r),
    {
        self.codes[i]
    }
}

/// The first position in `v` that holds `name`.
pub fn find_name(v: &Vec<String>, name: &String) -> (r: Option<usize>)
    ensures
        match r {
            Some(i) => {
                &&& i < v@.len()
                &&& v@[i as int]@ == name@
                &&& forall|j: int| 0 <= j < i ==> v@[j]@ != name@
            },
            None => !names_of(v@).contains(name@),
        },
{
    let mut i: usize = 0;
    while i < v.len()
        invariant
            i <= v@.len(),
            forall|j: int| 0 <= j < i ==> v@[j]@ != name@,
        decreases v@.len() - i,
    {
        if v[i] == *name {
            return Some(i);
        }
        i = i + 1;
    }
    assert forall|j: int| 0 <= j < names_of(v@).len() implies names_of(v@)[j] != name@ by {}
    None
}

/// Whether no name occurs twice in `v`.
pub fn all_distinct(v: &Vec<String>) -> (r: bool)
    ensures
        r == distinct(names_of(v@)),
{
    let ghost s = names_of(v@);
    let mut i: usize = 0;
    while i < v.len()
        invariant
            i <= v@.len(),
            s == names_of(v@),
            s.len() == v@.len(),
            forall|a: int, b: int| 0 <= a < b < s.len() && b < i ==> s[a] != s[b],
        decreases v@.len() - i,
    {
        match find_name(v, &v[i]) {
            Some(j) => {
                if j != i {
                    assert(s[j as int] == s[i as int]);
                    return false;
                }
            },
            None => {},
        }
        i = i + 1;
    }
    true
}

} // verus!
