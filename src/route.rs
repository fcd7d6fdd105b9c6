//! The route contract itself, the typed outcome values of a route, their tagged
//! wire shape and the conversion of an outcome into a status code and payload.
use vstd::prelude::*;
use crate::contract::{Branch, OutcomeDecl};
use crate::status::{HttpMethod, INTERNAL_SERVER_ERROR, OK, names_of, valid_status};

verus! {

/// A value of a route's outcome type: the branch, the variant's tag and the
/// values of its fields, in declaration order.
pub struct Outcome {
    pub branch: Branch,
    pub tag: String,
    pub values: Vec<String>,
}

/// The mathematical value of an `Outcome`.
pub struct OutcomeView {
    pub branch: Branch,
    pub tag: Seq<char>,
    pub values: Seq<Seq<char>>,
}

impl View for Outcome {
    type V = OutcomeView;

    open spec fn view(&self) -> OutcomeView {
        OutcomeView { branch: self.branch, tag: self.tag@, values: names_of(self.values@) }
    }
}

/// The tagged structure carried in a response body: the branch, the
/// discriminant, and each field as a `(name, value)` pair.
pub struct WireOutcome {
    pub branch: Branch,
    pub tag: String,
    pub fields: Vec<(String, String)>,
}

/// The mathematical value of a `WireOutcome`.
pub struct WireView {
    pub branch: Branch,
    pub tag: Seq<char>,
    pub fields: Seq<(Seq<char>, Seq<char>)>,
}

/// The `(name, value)` pairs of a wire field list, as character sequences.
pub open spec fn pairs_of(f: Seq<(String, String)>) -> Seq<(Seq<char>, Seq<char>)> {
    f.map_values(|p: (String, String)| (p.0@, p.1@))
}

/// The field names of a wire field list.
pub open spec fn field_keys(f: Seq<(Seq<char>, Seq<char>)>) -> Seq<Seq<char>> {
    f.map_values(|p: (Seq<char>, Seq<char>)| p.0)
}

/// The field values of a wire field list.
pub open spec fn field_values(f: Seq<(Seq<char>, Seq<char>)>) -> Seq<Seq<char>> {
    f.map_values(|p: (Seq<char>, Seq<char>)| p.1)
}

impl View for WireOutcome {
    type V = WireView;

    open spec fn view(&self) -> WireView {
        WireView { branch: self.branch, tag: self.tag@, fields: pairs_of(self.fields@) }
    }
}

/// A status code together with the payload to be serialised as the response body.
pub struct TypedResponse<P> {
    pub status_code: u16,
    pub payload: P,
}

/// Why an outcome value cannot be converted for a route.
#[derive(Clone, Copy, Debug, PartialEq, Eq, Structural)]
pub enum ContractError {
    /// The branch declares no variant with the value's tag.
    UnknownVariant,
    /// The value does not hold one value per declared field.
    FieldCount,
}

/// Why a wire payload does not decode into a route's outcome type.
#[derive(Clone, Copy, Debug, PartialEq, Eq, Structural)]
pub enum DecodeError {
    /// The branch declares no variant with the payload's tag.
    UnknownVariant,
    /// The payload's field names differ from the declared ones.
    FieldMismatch,
}

/// The single declaration of one endpoint: method, path, and the success and
/// error outcome types with their status mappings. Client and server both read
/// it, so they cannot disagree on the wire contract.
pub struct Route {
    method: HttpMethod,
    path: String,
    success: OutcomeDecl,
    error: OutcomeDecl,
}

impl Route {
    /// The declared method.
    pub closed spec fn method_spec(&self) -> HttpMethod {
        self.method
    }

    /// The declared path.
    pub closed spec fn path_spec(&self) -> Seq<char> {
        self.path@
    }

    /// The outcome declaration of a branch.
    pub closed spec fn decl(&self, b: Branch) -> OutcomeDecl {
        match b {
            Branch::Success => self.success,
            Branch::Failure => self.error,
        }
    }

    /// Both outcome declarations are well formed.
    pub open spec fn wf(&self) -> bool {
        &&& self.decl(Branch::Success).wf()
        &&& self.decl(Branch::Failure).wf()
    }

    #[verifier::type_invariant]
    spec fn route_inv(&self) -> bool {
        self.wf()
    }

    /// The route declares the outcome `o`: its branch has a variant with that tag,
    /// and `o` holds one value per field of that variant.
    pub open spec fn declares(&self, o: OutcomeView) -> bool {
        let d = self.decl(o.branch);
        &&& d.names().contains(o.tag)
        &&& o.values.len() == d.field_names(d.index_of(o.tag)).len()
    }

    /// The status code that the route assigns to the declared outcome `o`.
    pub open spec fn status_of(&self, o: OutcomeView) -> u16 {
        let d = self.decl(o.branch);
        d.codes()[d.index_of(o.tag)]
    }

    /// The wire shape of `o`: its tag, and each declared field name paired with its value.
    pub open spec fn encode_spec(&self, o: OutcomeView) -> WireView {
        let d = self.decl(o.branch);
        let names = d.field_names(d.index_of(o.tag));
        WireView {
            branch: o.branch,
            tag: o.tag,
            fields: Seq::new(o.values.len(), |k: int| (names[k], o.values[k])),
        }
    }

    /// The outcome that a wire payload stands for, if its tag is declared in its
    /// branch and its field names are exactly the declared ones, in order.
    pub open spec fn decode_spec(&self, w: WireView) -> Result<OutcomeView, DecodeError> {
        let d = self.decl(w.branch);
        if !d.names().contains(w.tag) {
            Err(DecodeError::UnknownVariant)
        } else if field_keys(w.fields) != d.field_names(d.index_of(w.tag)) {
            Err(DecodeError::FieldMismatch)
        } else {
            Ok(OutcomeView {
                branch: w.branch,
                tag: w.tag,
                values: field_values(w.fields),
            })
        }
    }

    /// Declares a route from its method, its path and its two outcome types.
    pub fn new(method: HttpMethod, path: String, success: OutcomeDecl, error: OutcomeDecl) -> (r: Route)
        ensures
            r.wf(),
            r.method_spec() == method,
            r.path_spec() == path@,
            r.decl(Branch::Success) == success,
            r.decl(Branch::Failure) == error,
    {
        success.check_wf();
        error.check_wf();
        Route { method, path, success, error }
    }

    /// A route that exists is well formed.
    pub fn check_wf(&self)
        ensures
            self.wf(),
    {
        proof {
            use_type_invariant(self);
        }
    }

    /// The declared method.
    pub fn method(&self) -> (r: HttpMethod)
        ensures
            r == self.method_spec(),
    {
        self.method
    }

    /// The declared path.
    pub fn route(&self) -> (r: &String)
        ensures
            r@ == self.path_spec(),
    {
        &self.path
    }

    fn decl_of(&self, b: Branch) -> (r: &OutcomeDecl)
        ensures
            *r == self.decl(b),
    {
        match b {
            Branch::Success => &self.success,
            Branch::Failure => &self.error,
        }
    }

    /// Encodes `o` into its tagged wire shape; fails when the route does not declare it.
    pub fn encode(&self, o: &Outcome) -> (r: Result<WireOutcome, ContractError>)
        ensures
            match r {
                Ok(w) => self.declares(o@) && w@ == self.encode_spec(o@),
                Err(ContractError::UnknownVariant) => !self.decl(o.branch).names().contains(o.tag@),
                Err(ContractError::FieldCount) => self.decl(o.branch).names().contains(o.tag@) && !self.declares(o@),
            },
    {
        proof {
            use_type_invariant(self);
        }
        let d = self.decl_of(o.branch);
        let i = match d.find(&o.tag) {
            Some(i) => i,
            None => return Err(ContractError::UnknownVariant),
        };
        let names = d.fields_at(i);
        if names.len() != o.values.len() {
            return Err(ContractError::FieldCount);
        }
        let ghost e = self.encode_spec(o@);
        let mut fields: Vec<(String, String)> = Vec::new();
        let mut k: usize = 0;
        while k < names.len()
            invariant
                k <= names@.len(),
                names@.len() == o.values@.len(),
                names_of(names@) == d.field_names(i as int),
                i == d.index_of(o.tag@),
                e == self.encode_spec(o@),
                *d == self.decl(o.branch),
                pairs_of(fields@) == e.fields.subrange(0, k as int),
                fields@.len() == k,
                e.fields.len() == names@.len(),
            decreases names@.len() - k,
        {
            assert(e.fields[k as int] == (names@[k as int]@, o.values@[k as int]@));
            fields.push((names[k].clone(), o.values[k].clone()));
            k = k + 1;
            assert(pairs_of(fields@) =~= e.fields.subrange(0, k as int));
        }
        assert(pairs_of(fields@) =~= e.fields);
        Ok(WireOutcome { branch: o.branch, tag: o.tag.clone(), fields })
    }

    /// Converts an outcome into the status code of its variant and its wire payload.
    pub fn typed(&self, o: &Outcome) -> (r: Result<TypedResponse<WireOutcome>, ContractError>)
        ensures
            match r {
                Ok(t) => {
                    &&& self.declares(o@)
                    &&& t.status_code == self.status_of(o@)
                    &&& valid_status(t.status_code)
                    &&& t.payload@ == self.encode_spec(o@)
                },
                Err(ContractError::UnknownVariant) => !self.decl(o.branch).names().contains(o.tag@),
                Err(ContractError::FieldCount) => self.decl(o.branch).names().contains(o.tag@) && !self.declares(o@),
            },
    {
        proof {
            use_type_invariant(self);
        }
        let payload = self.encode(o)?;
        let d = self.decl_of(o.branch);
        let i = match d.find(&o.tag) {
            Some(i) => i,
            None => return Err(ContractError::UnknownVariant),
        };
        let status_code = d.code_at(i);
        Ok(TypedResponse { status_code, payload })
    }

    /// Decodes a wire payload into an outcome of this route, or says why it cannot.
    pub fn decode(&self, w: &WireOutcome) -> (r: Result<Outcome, DecodeError>)
        ensures
            match r {
                Ok(o) => self.decode_spec(w@) == Ok::<OutcomeView, DecodeError>(o@),
                Err(e) => self.decode_spec(w@) == Err::<OutcomeView, DecodeError>(e),
            },
    {
        proof {
            use_type_invariant(self);
        }
        let d = self.decl_of(w.branch);
        let i = match d.find(&w.tag) {
            Some(i) => i,
            None => return Err(DecodeError::UnknownVariant),
        };
        let names = d.fields_at(i);
        let ghost wn = field_keys(w@.fields);
        let ghost wv = field_values(w@.fields);
        if names.len() != w.fields.len() {
            assert(wn.len() != names_of(names@).len());
            return Err(DecodeError::FieldMismatch);
        }
        let mut values: Vec<String> = Vec::new();
        let mut k: usize = 0;
        while k < names.len()
            invariant
                k <= names@.len(),
                names@.len() == w.fields@.len(),
                wn == field_keys(w@.fields),
                wv == field_values(w@.fields),
                wn.len() == names@.len(),
                wv.len() == names@.len(),
                values@.len() == k,
                *d == self.decl(w.branch),
                i == d.index_of(w.tag@),
                i < d.names().len(),
                d.names()[i as int] == w.tag@,
                names_of(names@) == d.field_names(i as int),
                forall|q: int| 0 <= q < k ==> wn[q] == #[trigger] names_of(names@)[q],
                names_of(values@) == wv.subrange(0, k as int),
            decreases names@.len() - k,
        {
            if w.fields[k].0 != names[k] {
                assert(wn[k as int] == w.fields@[k as int].0@);
                assert(wn[k as int] != names_of(names@)[k as int]);
                assert(wn != d.field_names(i as int));
                assert(d.names().contains(w@.tag)) by {
                    assert(d.names()[i as int] == w@.tag);
                }
                return Err(DecodeError::FieldMismatch);
            }
            assert(wn[k as int] == w.fields@[k as int].0@);
            assert(wv[k as int] == w.fields@[k as int].1@);
            values.push(w.fields[k].1.clone());
            k = k + 1;
            assert(names_of(values@) =~= wv.subrange(0, k as int));
        }
        assert(wn =~= names_of(names@));
        assert(names_of(values@) =~= wv);
        Ok(Outcome { branch: w.branch, tag: w.tag.clone(), values })
    }
}

/// Encoding a declared outcome and decoding the payload gives back the same
/// branch, tag and field values.
pub proof fn lemma_round_trip(route: &Route, o: OutcomeView)
    requires
        route.wf(),
        route.declares(o),
    ensures
        route.decode_spec(route.encode_spec(o)) == Ok::<OutcomeView, DecodeError>(o),
{
    let w = route.encode_spec(o);
    let d = route.decl(o.branch);
    let names = d.field_names(d.index_of(o.tag));
    assert(field_keys(w.fields) =~= names);
    assert(field_values(w.fields) =~= o.values);
}

/// A payload that decodes is exactly the encoding of the outcome it decodes to.
pub proof fn lemma_decode_encode(route: &Route, w: WireView)
    requires
        route.wf(),
        route.decode_spec(w) is Ok,
    ensures
        route.declares(route.decode_spec(w)->Ok_0),
        route.encode_spec(route.decode_spec(w)->Ok_0) == w,
{
    let o = route.decode_spec(w)->Ok_0;
    let e = route.encode_spec(o);
    assert(e.fields =~= w.fields) by {
        assert forall|k: int| 0 <= k < w.fields.len() implies e.fields[k] == w.fields[k] by {
            assert(field_keys(w.fields)[k] == w.fields[k].0);
            assert(field_values(w.fields)[k] == w.fields[k].1);
        }
    }
}

/// The coarse conversion for a plain `Result` that no route declares: a success
/// is `OK` and a failure is `INTERNAL_SERVER_ERROR`, the value carried unchanged.
pub fn typed_result<T, E>(r: Result<T, E>) -> (t: TypedResponse<Result<T, E>>)
    ensures
        t.payload == r,
        t.status_code == (if r is Ok { OK } else { INTERNAL_SERVER_ERROR }),
{
    let status_code = match &r {
        Ok(_) => OK,
        Err(_) => INTERNAL_SERVER_ERROR,
    };
    TypedResponse { status_code, payload: r }
}

} // verus!
