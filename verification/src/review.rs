use vstd::prelude::*;

use crate::shape::{TargetShape, TargetValue};

verus! {

/// A worked example of a target shape: a language review with an
/// explanation and two optional lists of flagged words and grammar points.
#[derive(Debug, PartialEq, Eq)]
pub struct Review {
    pub explanation: String,
    pub incorrect_words: Option<Vec<String>>,
    pub incorrect_grammars: Option<Vec<String>>,
}

/// The declarative shape of a review: a required explanation string and
/// two optional arrays of strings.
pub open spec fn review_shape_rep(s: TargetShape) -> bool {
    &&& s matches TargetShape::ObjectOf(fields)
    &&& fields@.len() == 3
    &&& fields@[0].0@ == "explanation"@ && fields@[0].1 == TargetShape::Text
    &&& fields@[1].0@ == "incorrect_words"@ && (fields@[1].1 matches TargetShape::OptionalOf(a)
        && *a matches TargetShape::ArrayOf(b) && *b == TargetShape::Text)
    &&& fields@[2].0@ == "incorrect_grammars"@ && (fields@[2].1 matches TargetShape::OptionalOf(a)
        && *a matches TargetShape::ArrayOf(b) && *b == TargetShape::Text)
}

/// A decoded value that carries a review: the three declared slots, the
/// optional ones either missing or an array of strings.
pub open spec fn review_value_ok(v: TargetValue) -> bool {
    &&& v matches TargetValue::ObjectOf(slots)
    &&& slots@.len() == 3
    &&& slots@[0].0@ == "explanation"@ && slots@[0].1 is Text
    &&& slots@[1].0@ == "incorrect_words"@ && words_ok(slots@[1].1)
    &&& slots@[2].0@ == "incorrect_grammars"@ && words_ok(slots@[2].1)
}

/// An optional word-list slot: missing, or an array of strings.
pub open spec fn words_ok(v: TargetValue) -> bool {
    match v {
        TargetValue::Missing => true,
        TargetValue::ArrayOf(vals) => forall|i: int|
            0 <= i < vals@.len() ==> (#[trigger] vals@[i]) is Text,
        _ => false,
    }
}

/// How an optional word-list slot reads back as plain strings.
pub open spec fn words_rep(v: TargetValue, o: Option<Vec<String>>) -> bool {
    match v {
        TargetValue::Missing => o is None,
        TargetValue::ArrayOf(vals) => o matches Some(ws) && ws@.len() == vals@.len() && forall|
            i: int,
        |
            0 <= i < vals@.len() ==> ((#[trigger] vals@[i]) matches TargetValue::Text(t) && ws@[i]
                == t),
        _ => false,
    }
}

#[verifier::loop_isolation(false)]
fn words_from_value(v: &TargetValue) -> (r: Option<Option<Vec<String>>>)
    ensures
        r is Some <==> words_ok(*v),
        r matches Some(o) ==> words_rep(*v, o),
{
    match v {
        TargetValue::Missing => Some(None),
        TargetValue::ArrayOf(vals) => {
            let mut ws: Vec<String> = Vec::new();
            let mut i: usize = 0;
            while i < vals.len()
                invariant
                    0 <= i <= vals@.len(),
                    ws@.len() == i,
                    forall|k: int|
                        0 <= k < i ==> ((#[trigger] vals@[k]) matches TargetValue::Text(t)
                            && ws@[k] == t),
                decreases vals@.len() - i,
            {
                match &vals[i] {
                    TargetValue::Text(t) => {
                        ws.push(t.clone());
                    },
                    _ => {
                        return None;
                    },
                }
                i += 1;
            }
            Some(Some(ws))
        },
        _ => None,
    }
}

impl Review {
    /// The declarative shape a review is decoded against.
    pub fn shape() -> (r: TargetShape)
        ensures
            review_shape_rep(r),
    {
        let mut fields: Vec<(String, TargetShape)> = Vec::new();
        fields.push(("explanation".to_owned(), TargetShape::Text));
        fields.push(
            (
                "incorrect_words".to_owned(),
                TargetShape::OptionalOf(Box::new(TargetShape::ArrayOf(Box::new(TargetShape::Text)))),
            ),
        );
        fields.push(
            (
                "incorrect_grammars".to_owned(),
                TargetShape::OptionalOf(Box::new(TargetShape::ArrayOf(Box::new(TargetShape::Text)))),
            ),
        );
        TargetShape::ObjectOf(fields)
    }

    /// Reads a review out of a decoded value of its shape; gives nothing
    /// back on a value of any other form.
    pub fn from_value(v: &TargetValue) -> (r: Option<Review>)
        ensures
            r is Some <==> review_value_ok(*v),
            r matches Some(rev) ==> {
                let slots = v->ObjectOf_0@;
                &&& slots[0].1 matches TargetValue::Text(t) && rev.explanation == t
                &&& words_rep(slots[1].1, rev.incorrect_words)
                &&& words_rep(slots[2].1, rev.incorrect_grammars)
            },
    {
        match v {
            TargetValue::ObjectOf(slots) => {
                if slots.len() != 3 {
                    return None;
                }
                if !crate::text::str_eq(slots[0].0.as_str(), "explanation") {
                    return None;
                }
                if !crate::text::str_eq(slots[1].0.as_str(), "incorrect_words") {
                    return None;
                }
                if !crate::text::str_eq(slots[2].0.as_str(), "incorrect_grammars") {
                    return None;
                }
                let explanation = match &slots[0].1 {
                    TargetValue::Text(t) => t.clone(),
                    _ => {
                        return None;
                    },
                };
                let incorrect_words = match words_from_value(&slots[1].1) {
                    Some(o) => o,
                    None => {
                        return None;
                    },
                };
                let incorrect_grammars = match words_from_value(&slots[2].1) {
                    Some(o) => o,
                    None => {
                        return None;
                    },
                };
                Some(Review { explanation, incorrect_words, incorrect_grammars })
            },
            _ => None,
        }
    }
}

} // verus!
