use crate::error::{DecodeError, Entity, Field};
use vstd::prelude::*;

verus! {

/// An opaque, non-empty identifier naming an entity or referring to one.
#[derive(Debug, PartialEq, Eq)]
pub struct Subject {
    id: String,
}

impl View for Subject {
    type V = Seq<char>;

    closed spec fn view(&self) -> Seq<char> {
        self.id@
    }
}

/// What decoding the identifier field `f` of `at` yields: the text itself, unless it is empty.
pub open spec fn subject_of(s: Seq<char>, at: Entity, f: Field) -> Result<Seq<char>, DecodeError> {
    if s.len() == 0 {
        Err(DecodeError::EmptyIdentifier(at, f))
    } else {
        Ok(s)
    }
}

impl Subject {
    /// A subject is never empty.
    pub open spec fn wf(&self) -> bool {
        self@.len() > 0
    }

    /// The subject holding `s`, for the identifier field `f` of `at`.
    pub fn from_string(s: String, at: Entity, f: Field) -> (r: Result<Subject, DecodeError>)
        ensures
            r is Ok ==> r->Ok_0.wf(),
            match subject_of(s@, at, f) {
                Ok(v) => r is Ok && r->Ok_0@ == v,
                Err(e) => r == Err::<Subject, DecodeError>(e),
            },
    {
        if s.as_str().is_empty() {
            Err(DecodeError::EmptyIdentifier(at, f))
        } else {
            Ok(Subject { id: s })
        }
    }

    /// The subject holding `s`; the empty string is refused.
    pub fn new(s: &str) -> (r: Result<Subject, DecodeError>)
        ensures
            r is Ok ==> r->Ok_0.wf(),
            match subject_of(s@, Entity::Document, Field::Id) {
                Ok(v) => r is Ok && r->Ok_0@ == v,
                Err(e) => r == Err::<Subject, DecodeError>(e),
            },
    {
        Subject::from_string(s.to_owned(), Entity::Document, Field::Id)
    }

    /// The identifier text.
    pub fn as_str(&self) -> (r: &str)
        ensures
            r@ == self@,
    {
        self.id.as_str()
    }

    /// A copy of this subject.
    pub fn duplicate(&self) -> (r: Subject)
        ensures
            r@ == self@,
    {
        Subject { id: self.id.clone() }
    }
}

} // verus!
