use crate::error::{DecodeError, Entity, Field};
use crate::json::{Json, JsonValue};
use crate::subject::{subject_of, Subject};
use crate::verification_method::{
    decode_method, method_members, method_type_of, method_wf, MethodView, PublicKeyEncoding,
    VerificationMethod, VerificationMethodType,
};
use vstd::prelude::*;

verus! {

/// An element of a role list: an embedded verification method, or a
/// reference to one by identifier.
#[derive(Debug, PartialEq)]
pub enum KeySetEntry {
    Method(VerificationMethod),
    Reference(Subject),
}

/// The mathematical form of a role-list element.
pub enum EntryView {
    Method(MethodView),
    Reference(Seq<char>),
}

impl View for KeySetEntry {
    type V = EntryView;

    open spec fn view(&self) -> EntryView {
        match self {
            KeySetEntry::Method(vm) => EntryView::Method(vm@),
            KeySetEntry::Reference(s) => EntryView::Reference(s@),
        }
    }
}

/// A method element is a well-formed method; a reference is non-empty.
pub open spec fn entry_wf(e: EntryView) -> bool {
    match e {
        EntryView::Method(v) => method_wf(v),
        EntryView::Reference(s) => s.len() > 0,
    }
}

/// The subject an entry resolves to: the method's id, or the reference itself.
pub open spec fn entry_subject(e: EntryView) -> Seq<char> {
    match e {
        EntryView::Method(v) => v.id,
        EntryView::Reference(s) => s,
    }
}

/// Decoding of the element at position `i` of the role list `f`, by its
/// shape: an object is an embedded method, a string a reference; any other
/// shape is refused. Failures name that element.
pub open spec fn decode_entry(v: Json, f: Field, i: usize) -> Result<EntryView, DecodeError> {
    match v {
        Json::Obj(m) => match decode_method(m, Entity::RoleEntry(f, i)) {
            Ok(x) => Ok(EntryView::Method(x)),
            Err(e) => Err(e),
        },
        Json::Str(s) => match subject_of(s, Entity::RoleEntry(f, i), Field::Id) {
            Ok(x) => Ok(EntryView::Reference(x)),
            Err(e) => Err(e),
        },
        _ => Err(DecodeError::WrongFieldType(Entity::RoleEntry(f, i), f)),
    }
}

/// Encoding of a role-list element in the shape it was read in.
pub open spec fn encode_entry(e: EntryView) -> Json {
    match e {
        EntryView::Method(v) => Json::Obj(method_members(v)),
        EntryView::Reference(s) => Json::Str(s),
    }
}

impl KeySetEntry {
    /// The element is well formed.
    pub open spec fn wf(&self) -> bool {
        entry_wf(self@)
    }

    /// Reads the element at position `i` of the role list `f`.
    pub fn decode(v: &JsonValue, f: Field, i: usize) -> (r: Result<KeySetEntry, DecodeError>)
        ensures
            r is Ok ==> r->Ok_0.wf(),
            match decode_entry(v@, f, i) {
                Ok(x) => r is Ok && r->Ok_0@ == x,
                Err(e) => r == Err::<KeySetEntry, DecodeError>(e),
            },
    {
        match v {
            JsonValue::Object(m) => {
                proof {
                    crate::json::lemma_object_view(*m);
                }
                match VerificationMethod::decode(m, Entity::RoleEntry(f, i)) {
                    Ok(x) => Ok(KeySetEntry::Method(x)),
                    Err(e) => Err(e),
                }
            },
            JsonValue::Str(s) => match Subject::from_string(s.clone(), Entity::RoleEntry(f, i), Field::Id) {
                Ok(x) => Ok(KeySetEntry::Reference(x)),
                Err(e) => Err(e),
            },
            _ => Err(DecodeError::WrongFieldType(Entity::RoleEntry(f, i), f)),
        }
    }

    /// Writes the element in its own shape.
    pub fn encode(&self) -> (r: JsonValue)
        ensures
            r@ == encode_entry(self@),
    {
        match self {
            KeySetEntry::Method(vm) => vm.encode(),
            KeySetEntry::Reference(s) => JsonValue::Str(s.as_str().to_owned()),
        }
    }

    /// The subject this element resolves to.
    pub fn subject(&self) -> (r: &Subject)
        ensures
            r@ == entry_subject(self@),
    {
        match self {
            KeySetEntry::Method(vm) => vm.subject(),
            KeySetEntry::Reference(subject) => subject,
        }
    }

    /// The method's kind; a bare reference has the unknown kind.
    pub fn kind(&self) -> (r: VerificationMethodType)
        ensures
            r == match self@ {
                EntryView::Method(v) => method_type_of(v.tag),
                EntryView::Reference(_) => VerificationMethodType::UnknownKey,
            },
    {
        match self {
            KeySetEntry::Method(vm) => vm.kind(),
            KeySetEntry::Reference(_) => VerificationMethodType::UnknownKey,
        }
    }

    /// The method's key material; a bare reference carries none.
    pub fn encoding(&self) -> (r: PublicKeyEncoding)
        ensures
            r@ == match self@ {
                EntryView::Method(v) => v.key,
                EntryView::Reference(_) => None,
            },
    {
        match self {
            KeySetEntry::Method(vm) => vm.encoding(),
            KeySetEntry::Reference(_) => PublicKeyEncoding::Unknown,
        }
    }

}

} // verus!
