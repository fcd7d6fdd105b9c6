//! Outcome types of a route: their variants, the fields of each variant, and the
//! status mapping that gives every variant its code.
use vstd::prelude::*;
use crate::status::{
    MappingError, StatusMapping, distinct, entry_gives, mapping_error, names_of, valid_status,
};

verus! {

/// Which half of a success/error outcome pair a value belongs to.
#[derive(Clone, Copy, Debug, PartialEq, Eq, Structural)]
pub enum Branch {
    Success,
    Failure,
}

/// One declared variant of an outcome type: its tag and the names of its fields.
pub struct VariantDecl {
    pub name: String,
    pub fields: Vec<String>,
}

/// The tags of a sequence of variant declarations.
pub open spec fn variant_names(v: Seq<VariantDecl>) -> Seq<Seq<char>> {
    v.map_values(|d: VariantDecl| d.name@)
}

/// An outcome type with its status mapping: every variant has exactly one code.
pub struct OutcomeDecl {
    variants: Vec<VariantDecl>,
    mapping: StatusMapping,
}

impl OutcomeDecl {
    /// The variant tags, in declaration order.
    pub closed spec fn names(&self) -> Seq<Seq<char>> {
        variant_names(self.variants@)
    }

    /// The field names of the variant at position `i`.
    pub closed spec fn field_names(&self, i: int) -> Seq<Seq<char>> {
        names_of(self.variants@[i].fields@)
    }

    /// The status code of each variant, in declaration order.
    pub closed spec fn codes(&self) -> Seq<u16> {
        self.mapping.code_seq()
    }

    /// The mapping speaks of exactly the declared variants.
    pub closed spec fn wf(&self) -> bool {
        &&& self.mapping.wf()
        &&& self.mapping.tag_seq() == self.names()
    }

    /// Every declaration is well formed: `declare` is the only way to make one.
    #[verifier::type_invariant]
    spec fn decl_inv(&self) -> bool {
        self.wf()
    }

    /// A declaration that exists is well formed.
    pub fn check_wf(&self)
        ensures
            self.wf(),
    {
        proof {
            use_type_invariant(self);
        }
    }

    /// What a well-formed declaration guarantees: unique tags, one valid code each.
    pub proof fn lemma_wf(&self)
        requires
            self.wf(),
        ensures
            distinct(self.names()),
            self.codes().len() == self.names().len(),
            forall|i: int| 0 <= i < self.codes().len() ==> valid_status(#[trigger] self.codes()[i]),
    {
    }

    /// The position of the variant tagged `tag` (tags are unique in a well-formed declaration).
    pub open spec fn index_of(&self, tag: Seq<char>) -> int {
        choose|i: int| 0 <= i < self.names().len() && self.names()[i] == tag
    }

    /// Declares an outcome type with variants `variants` and `(tag, code)` entries.
    /// It fails, with the error that `mapping_error` names, unless every variant has
    /// exactly one entry with a valid code and every entry names a variant.
    pub fn declare(variants: Vec<VariantDecl>, entries: &Vec<(String, u16)>) -> (r: Result<OutcomeDecl, MappingError>)
        ensures
            match r {
                Ok(d) => {
                    &&& mapping_error(variant_names(variants@), entries@) is None
                    &&& d.wf()
                    &&& d.names() == variant_names(variants@)
                    &&& forall|i: int| 0 <= i < variants@.len() ==> d.field_names(i) == names_of(#[trigger] variants@[i].fields@)
                    &&& forall|i: int| 0 <= i < variants@.len() ==>
                        entry_gives(entries@, variants@[i].name@, #[trigger] d.codes()[i])
                },
                Err(err) => mapping_error(variant_names(variants@), entries@) == Some(err),
            },
    {
        let ghost vn = variant_names(variants@);
        let mut tags: Vec<String> = Vec::new();
        let mut i: usize = 0;
        while i < variants.len()
            invariant
                i <= variants@.len(),
                vn == variant_names(variants@),
                vn.len() == variants@.len(),
                tags@.len() == i,
                names_of(tags@) == vn.subrange(0, i as int),
            decreases variants@.len() - i,
        {
            tags.push(variants[i].name.clone());
            i = i + 1;
            assert(names_of(tags@) =~= vn.subrange(0, i as int));
        }
        assert(names_of(tags@) =~= vn);
        let ghost tv = tags@;
        match StatusMapping::build(tags, entries) {
            Ok(mapping) => {
                assert forall|i: int| 0 <= i < variants@.len() implies
                    entry_gives(entries@, variants@[i].name@, #[trigger] mapping.code_seq()[i]) by {
                    assert(tv[i]@ == names_of(tv)[i]);
                }
                Ok(OutcomeDecl { variants, mapping })
            },
            Err(e) => Err(e),
        }
    }

    /// The position of the variant tagged `tag`, if there is one.
    pub fn find(&self, tag: &String) -> (r: Option<usize>)
        ensures
            match r {
                Some(i) => i < self.names().len() && i == self.index_of(tag@) && self.names()[i as int] == tag@,
                None => !self.names().contains(tag@),
            },
    {
        proof {
            use_type_invariant(self);
        }
        let r = self.mapping.index_of(tag);
        match r {
            Some(i) => {
                let ghost j = self.index_of(tag@);
                assert(self.names()[i as int] == tag@);
                assert(self.names()[j] == tag@);
                Some(i)
            },
            None => None,
        }
    }

    /// The status code of the variant at position `i`.
    pub fn code_at(&self, i: usize) -> (r: u16)
        requires
            i < self.names().len(),
        ensures
            r == self.codes()[i as int],
            valid_status(r),
    {
        proof {
            use_type_invariant(self);
        }
        self.mapping.code_for(i)
    }

    /// The field names of the variant at position `i`.
    pub fn fields_at(&self, i: usize) -> (r: &Vec<String>)
        requires
            i < self.names().len(),
        ensures
            names_of(r@) == self.field_names(i as int),
    {
        proof {
            use_type_invariant(self);
        }
        assert(self.variants@.len() == self.names().len());
        &self.variants[i].fields
    }
}

} // verus!
