use crate::error::DecodeError;
use crate::json::{Json, JsonValue};
use vstd::prelude::*;

verus! {

/// The namespace declarations of a document: a non-empty ordered list.
#[derive(Debug, PartialEq, Eq)]
pub struct Context {
    items: Vec<String>,
}

/// The texts of a list of strings.
pub open spec fn texts(v: Seq<String>) -> Seq<Seq<char>> {
    Seq::new(v.len(), |i: int| v[i]@)
}

impl View for Context {
    type V = Seq<Seq<char>>;

    closed spec fn view(&self) -> Seq<Seq<char>> {
        texts(self.items@)
    }
}

/// Decoding of `@context`: a single string stands for a list of one; a list
/// must be non-empty and hold strings only.
pub open spec fn decode_context(v: Json) -> Result<Seq<Seq<char>>, DecodeError> {
    match v {
        Json::Str(s) => Ok(seq![s]),
        Json::Arr(a) => {
            if a.len() > 0 && forall|i: int| 0 <= i < a.len() ==> (#[trigger] a[i]) is Str {
                Ok(Seq::new(a.len(), |i: int| a[i]->Str_0))
            } else {
                Err(DecodeError::MalformedContext)
            }
        },
        _ => Err(DecodeError::MalformedContext),
    }
}

/// Encoding of a context: one entry is written as a plain string, more as a list.
pub open spec fn encode_context(c: Seq<Seq<char>>) -> Json {
    if c.len() == 1 {
        Json::Str(c[0])
    } else {
        Json::Arr(Seq::new(c.len(), |i: int| Json::Str(c[i])))
    }
}

impl Context {
    /// A context is never empty.
    pub open spec fn wf(&self) -> bool {
        self@.len() > 0
    }

    /// The context made of the one declaration `s`.
    pub fn new(s: &str) -> (r: Context)
        ensures
            r.wf(),
            r@ == seq![s@],
    {
        let mut items: Vec<String> = Vec::new();
        items.push(s.to_owned());
        let r = Context { items };
        assert(r@ =~= seq![s@]);
        r
    }

    /// The declarations, in order.
    pub fn as_vec(&self) -> (r: &Vec<String>)
        ensures
            texts(r@) == self@,
    {
        &self.items
    }

    /// Reads `@context` from a JSON value.
    pub fn decode(v: &JsonValue) -> (r: Result<Context, DecodeError>)
        ensures
            r is Ok ==> r->Ok_0.wf(),
            match decode_context(v@) {
                Ok(c) => r is Ok && r->Ok_0@ == c,
                Err(e) => r == Err::<Context, DecodeError>(e),
            },
    {
        match v {
            JsonValue::Str(s) => {
                let mut items: Vec<String> = Vec::new();
                items.push(s.clone());
                let r = Context { items };
                assert(r@ =~= seq![s@]);
                Ok(r)
            },
            JsonValue::Array(a) => {
                if a.len() == 0 {
                    return Err(DecodeError::MalformedContext);
                }
                let ghost va = v@->Arr_0;
                let mut items: Vec<String> = Vec::new();
                let mut i: usize = 0;
                while i < a.len()
                    invariant
                        *v == JsonValue::Array(*a),
                        va == v@->Arr_0,
                        va.len() == a@.len(),
                        forall|j: int| 0 <= j < a@.len() ==> va[j] == (#[trigger] a@[j])@,
                        i <= a@.len(),
                        items@.len() == i,
                        forall|j: int| 0 <= j < i ==> va[j] is Str && items@[j]@ == va[j]->Str_0,
                    decreases a@.len() - i,
                {
                    match &a[i] {
                        JsonValue::Str(s) => {
                            items.push(s.clone());
                        },
                        _ => {
                            assert(!(va[i as int] is Str));
                            return Err(DecodeError::MalformedContext);
                        },
                    }
                    i = i + 1;
                }
                let r = Context { items };
                assert(r@ =~= Seq::new(va.len(), |j: int| va[j]->Str_0));
                Ok(r)
            },
            _ => Err(DecodeError::MalformedContext),
        }
    }

    /// Writes the context as JSON.
    pub fn encode(&self) -> (r: JsonValue)
        ensures
            r@ == encode_context(self@),
    {
        if self.items.len() == 1 {
            JsonValue::Str(self.items[0].clone())
        } else {
            let mut out: Vec<JsonValue> = Vec::new();
            let mut i: usize = 0;
            while i < self.items.len()
                invariant
                    i <= self.items@.len(),
                    out@.len() == i,
                    forall|j: int| 0 <= j < i ==> out@[j]@ == Json::Str(self.items@[j]@),
                decreases self.items@.len() - i,
            {
                out.push(JsonValue::Str(self.items[i].clone()));
                i = i + 1;
            }
            let r = JsonValue::Array(out);
            assert(r@->Arr_0 =~= encode_context(self@)->Arr_0);
            r
        }
    }
}

} // verus!
