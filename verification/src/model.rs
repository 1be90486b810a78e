//! Attribute values and attribute mappings.
//!
//! The wire format wraps every bare value in exactly one type tag. Decoding
//! is structural and recursive: a value must be a single-member object whose
//! member name is a recognized tag and whose payload has the shape the tag
//! demands; a malformed child fails the whole value. The accessors project a
//! decoded value by exact tag and never coerce across tags.

use vstd::prelude::*;

use crate::error::Error;
use crate::error::StructuralIssue;
use crate::json::JsonValue;
use crate::json::assoc_find;
use crate::json::assoc_get;
use crate::json::str_eq;
use crate::numeral::check_number_string;
use crate::numeral::is_number_string;

verus! {

/// One decoded attribute: a closed tagged union. A number keeps its decimal
/// string so that no precision is lost before a boundary parses it.
#[derive(Debug, PartialEq, Eq)]
pub enum AttributeValue {
    Bool(bool),
    L(Vec<AttributeValue>),
    M(AttrMap),
    N(String),
    Ns(Vec<String>),
    Null(bool),
    S(String),
    Ss(Vec<String>),
}

/// A flat mapping from field name to attribute value, in insertion order.
/// Lookup returns the first binding of a key.
#[derive(Debug, PartialEq, Eq)]
pub struct AttrMap {
    pub entries: Vec<(String, AttributeValue)>,
}

impl View for AttrMap {
    type V = Seq<(String, AttributeValue)>;

    open spec fn view(&self) -> Seq<(String, AttributeValue)> {
        self.entries@
    }
}

impl AttrMap {
    /// An empty mapping.
    pub fn new() -> (r: AttrMap)
        ensures
            r@ == Seq::<(String, AttributeValue)>::empty(),
    {
        AttrMap { entries: Vec::new() }
    }

    /// Bind `key` to `value`. An earlier binding of the same key keeps
    /// precedence, since lookup returns the first binding.
    pub fn insert(&mut self, key: String, value: AttributeValue)
        ensures
            final(self)@ == old(self)@.push((key, value)),
    {
        self.entries.push((key, value));
    }

    /// The value bound to `key`, if any.
    pub fn get(&self, key: &str) -> (r: Option<&AttributeValue>)
        ensures
            match r {
                Some(a) => assoc_find(self@, key@) == Some(*a),
                None => assoc_find(self@, key@) is None,
            },
    {
        assoc_get(&self.entries, key)
    }

    /// How many bindings the mapping holds.
    pub fn len(&self) -> (r: usize)
        ensures
            r == self@.len(),
    {
        self.entries.len()
    }
}

/// The views of a sequence of strings.
pub open spec fn string_views(ss: Seq<String>) -> Seq<Seq<char>> {
    ss.map_values(|s: String| s@)
}

impl AttributeValue {
    /// The contained boolean, if this is the boolean kind.
    pub fn as_bool(&self) -> (r: Option<bool>)
        ensures
            match *self {
                AttributeValue::Bool(b) => r == Some(b),
                _ => r is None,
            },
    {
        match self {
            AttributeValue::Bool(b) => Some(*b),
            _ => None,
        }
    }

    /// The contained list, if this is the list kind.
    pub fn as_l(&self) -> (r: Option<&Vec<AttributeValue>>)
        ensures
            match *self {
                AttributeValue::L(l) => r matches Some(v) && *v == l,
                _ => r is None,
            },
    {
        match self {
            AttributeValue::L(l) => Some(l),
            _ => None,
        }
    }

    /// The contained mapping, if this is the map kind.
    pub fn as_m(&self) -> (r: Option<&AttrMap>)
        ensures
            match *self {
                AttributeValue::M(m) => r matches Some(v) && *v == m,
                _ => r is None,
            },
    {
        match self {
            AttributeValue::M(m) => Some(m),
            _ => None,
        }
    }

    /// The contained numeric string, if this is the number kind and the
    /// string is a valid decimal of the library's grammar.
    pub fn as_n(&self) -> (r: Option<String>)
        ensures
            match *self {
                AttributeValue::N(n) => {
                    &&& is_number_string(n@) ==> (r matches Some(s) && s@ == n@)
                    &&& !is_number_string(n@) ==> r is None
                },
                _ => r is None,
            },
    {
        match self {
            AttributeValue::N(n) => {
                if check_number_string(n.as_str()) {
                    Some(n.clone())
                } else {
                    None
                }
            },
            _ => None,
        }
    }

    /// The contained numeric strings, in order, if this is the number-set
    /// kind and every entry is a valid decimal of the library's grammar. A
    /// wrong tag or an entry outside the grammar signals a mismatch; no
    /// entry is silently dropped and no other kind defaults to an empty
    /// set.
    #[verifier::loop_isolation(false)]
    pub fn as_ns(&self) -> (r: Option<Vec<String>>)
        ensures
            match *self {
                AttributeValue::Ns(ns) => {
                    &&& (forall|i: int| 0 <= i < ns@.len() ==> is_number_string(
                        #[trigger] ns@[i]@,
                    )) ==> (r matches Some(out) && string_views(out@) == string_views(ns@))
                    &&& !(forall|i: int| 0 <= i < ns@.len() ==> is_number_string(
                        #[trigger] ns@[i]@,
                    )) ==> r is None
                },
                _ => r is None,
            },
    {
        match self {
            AttributeValue::Ns(ns) => {
                let mut out: Vec<String> = Vec::new();
                let mut i: usize = 0;
                while i < ns.len()
                    invariant
                        0 <= i <= ns@.len(),
                        out@.len() == i,
                        forall|k: int| 0 <= k < i ==> is_number_string(#[trigger] ns@[k]@),
                        forall|k: int| 0 <= k < i ==> (#[trigger] out@[k])@ == ns@[k]@,
                    decreases ns@.len() - i,
                {
                    if check_number_string(ns[i].as_str()) {
                        out.push(ns[i].clone());
                    } else {
                        return None;
                    }
                    i += 1;
                }
                proof {
                    assert(string_views(out@) =~= string_views(ns@));
                }
                Some(out)
            },
            _ => None,
        }
    }

    /// The contained null flag, if this is the null kind.
    pub fn as_null(&self) -> (r: Option<bool>)
        ensures
            match *self {
                AttributeValue::Null(b) => r == Some(b),
                _ => r is None,
            },
    {
        match self {
            AttributeValue::Null(b) => Some(*b),
            _ => None,
        }
    }

    /// The contained text, if this is the string kind.
    pub fn as_s(&self) -> (r: Option<&str>)
        ensures
            match *self {
                AttributeValue::S(s) => r matches Some(x) && x@ == s@,
                _ => r is None,
            },
    {
        match self {
            AttributeValue::S(s) => Some(s.as_str()),
            _ => None,
        }
    }

    /// A copy of the contained strings, in order, if this is the string-set
    /// kind. A wrong tag signals a mismatch instead of defaulting to an
    /// empty set.
    pub fn as_ss(&self) -> (r: Option<Vec<String>>)
        ensures
            match *self {
                AttributeValue::Ss(ss) => (r matches Some(out) && string_views(out@)
                    == string_views(ss@)),
                _ => r is None,
            },
    {
        match self {
            AttributeValue::Ss(ss) => {
                let mut out: Vec<String> = Vec::new();
                let mut i: usize = 0;
                while i < ss.len()
                    invariant
                        0 <= i <= ss@.len(),
                        out@.len() == i,
                        forall|k: int| 0 <= k < i ==> (#[trigger] out@[k])@ == ss@[k]@,
                    decreases ss@.len() - i,
                {
                    out.push(ss[i].clone());
                    i += 1;
                }
                proof {
                    assert(string_views(out@) =~= string_views(ss@));
                }
                Some(out)
            },
            _ => None,
        }
    }
}

/// `j` is a well-formed tagged attribute value.
pub open spec fn attr_json_wf(j: JsonValue) -> bool
    decreases j,
{
    match j {
        JsonValue::Obj(pairs) => pairs@.len() == 1 && {
            let key = pairs@[0].0@;
            let payload = pairs@[0].1;
            if key == "S"@ || key == "N"@ {
                payload is Str
            } else if key == "BOOL"@ || key == "NULL"@ {
                payload is Bool
            } else if key == "SS"@ || key == "NS"@ {
                payload matches JsonValue::Arr(items) && forall|i: int|
                    0 <= i < items@.len() ==> (#[trigger] items@[i]) is Str
            } else if key == "L"@ {
                payload matches JsonValue::Arr(items) && forall|i: int|
                    0 <= i < items@.len() ==> attr_json_wf(#[trigger] items@[i])
            } else if key == "M"@ {
                attr_map_json_wf(payload)
            } else {
                false
            }
        },
        _ => false,
    }
}

/// `j` is a well-formed attribute mapping: an object whose every member
/// value is a well-formed tagged attribute value.
pub open spec fn attr_map_json_wf(j: JsonValue) -> bool
    decreases j,
{
    match j {
        JsonValue::Obj(members) => forall|i: int|
            0 <= i < members@.len() ==> attr_json_wf((#[trigger] members@[i]).1),
        _ => false,
    }
}

/// `a` is the decoding of the tagged attribute value `j`.
pub open spec fn attr_decodes_to(j: JsonValue, a: AttributeValue) -> bool
    decreases j,
{
    match j {
        JsonValue::Obj(pairs) => pairs@.len() == 1 && {
            let key = pairs@[0].0@;
            let payload = pairs@[0].1;
            if key == "S"@ {
                payload matches JsonValue::Str(s) && a matches AttributeValue::S(x) && x@ == s@
            } else if key == "N"@ {
                payload matches JsonValue::Str(s) && a matches AttributeValue::N(x) && x@ == s@
            } else if key == "BOOL"@ {
                payload matches JsonValue::Bool(b) && a matches AttributeValue::Bool(x) && x == b
            } else if key == "NULL"@ {
                payload matches JsonValue::Bool(b) && a matches AttributeValue::Null(x) && x == b
            } else if key == "SS"@ {
                payload matches JsonValue::Arr(items) && a matches AttributeValue::Ss(xs) && {
                    &&& xs@.len() == items@.len()
                    &&& forall|i: int|
                        0 <= i < items@.len() ==> ((#[trigger] items@[i]) matches JsonValue::Str(s)
                            && xs@[i]@ == s@)
                }
            } else if key == "NS"@ {
                payload matches JsonValue::Arr(items) && a matches AttributeValue::Ns(xs) && {
                    &&& xs@.len() == items@.len()
                    &&& forall|i: int|
                        0 <= i < items@.len() ==> ((#[trigger] items@[i]) matches JsonValue::Str(s)
                            && xs@[i]@ == s@)
                }
            } else if key == "L"@ {
                payload matches JsonValue::Arr(items) && a matches AttributeValue::L(xs) && {
                    &&& xs@.len() == items@.len()
                    &&& forall|i: int|
                        0 <= i < items@.len() ==> attr_decodes_to(#[trigger] items@[i], xs@[i])
                }
            } else if key == "M"@ {
                a matches AttributeValue::M(m) && attr_map_decodes_to(payload, m@)
            } else {
                false
            }
        },
        _ => false,
    }
}

/// `m` is the decoding of the attribute mapping `j`, member for member, in
/// document order. Members are kept as they stand, so a repeated member
/// name — outside the wire format's domain, whose keys are unique —
/// resolves to its first occurrence, as every lookup of the library does.
pub open spec fn attr_map_decodes_to(j: JsonValue, m: Seq<(String, AttributeValue)>) -> bool
    decreases j,
{
    match j {
        JsonValue::Obj(members) => {
            &&& m.len() == members@.len()
            &&& forall|i: int|
                0 <= i < members@.len() ==> (#[trigger] m[i]).0@ == members@[i].0@
                    && attr_decodes_to(members@[i].1, m[i].1)
        },
        _ => false,
    }
}

/// Decode the payloads of a string-set or number-set: every element must be
/// a JSON string.
fn decode_string_items(items: &Vec<JsonValue>) -> (r: Option<Vec<String>>)
    ensures
        r is Some <==> forall|i: int| 0 <= i < items@.len() ==> (#[trigger] items@[i]) is Str,
        r matches Some(xs) ==> {
            &&& xs@.len() == items@.len()
            &&& forall|i: int|
                0 <= i < items@.len() ==> ((#[trigger] items@[i]) matches JsonValue::Str(s)
                    && xs@[i]@ == s@)
        },
{
    let mut out: Vec<String> = Vec::new();
    let mut i: usize = 0;
    while i < items.len()
        invariant
            0 <= i <= items@.len(),
            out@.len() == i,
            forall|k: int|
                0 <= k < i ==> ((#[trigger] items@[k]) matches JsonValue::Str(s)
                    && out@[k]@ == s@),
        decreases items@.len() - i,
    {
        match &items[i] {
            JsonValue::Str(s) => out.push(s.clone()),
            _ => {
                return None;
            },
        }
        i += 1;
    }
    Some(out)
}

/// Decode one tagged attribute value. Fails when the value is not a
/// single-member object with a recognized tag, or when the payload's shape
/// does not match the tag; a malformed child fails the whole value.
#[verifier::loop_isolation(false)]
pub fn decode_attr(j: &JsonValue) -> (r: Result<AttributeValue, Error>)
    ensures
        r is Ok <==> attr_json_wf(*j),
        r matches Ok(a) ==> attr_decodes_to(*j, a),
        r matches Err(e) ==> (e matches Error::StructuralDecode(_)),
    decreases *j,
{
    match j {
        JsonValue::Obj(pairs) => {
            if pairs.len() != 1 {
                return Err(Error::StructuralDecode(StructuralIssue::Attribute));
            }
            let key = pairs[0].0.as_str();
            let payload = &pairs[0].1;
            if str_eq(key, "S") {
                match payload {
                    JsonValue::Str(s) => Ok(AttributeValue::S(s.clone())),
                    _ => Err(Error::StructuralDecode(StructuralIssue::Attribute)),
                }
            } else if str_eq(key, "N") {
                match payload {
                    JsonValue::Str(s) => Ok(AttributeValue::N(s.clone())),
                    _ => Err(Error::StructuralDecode(StructuralIssue::Attribute)),
                }
            } else if str_eq(key, "BOOL") {
                match payload {
                    JsonValue::Bool(b) => Ok(AttributeValue::Bool(*b)),
                    _ => Err(Error::StructuralDecode(StructuralIssue::Attribute)),
                }
            } else if str_eq(key, "NULL") {
                match payload {
                    JsonValue::Bool(b) => Ok(AttributeValue::Null(*b)),
                    _ => Err(Error::StructuralDecode(StructuralIssue::Attribute)),
                }
            } else if str_eq(key, "SS") {
                match payload {
                    JsonValue::Arr(items) => match decode_string_items(items) {
                        Some(xs) => Ok(AttributeValue::Ss(xs)),
                        None => Err(Error::StructuralDecode(StructuralIssue::Attribute)),
                    },
                    _ => Err(Error::StructuralDecode(StructuralIssue::Attribute)),
                }
            } else if str_eq(key, "NS") {
                match payload {
                    JsonValue::Arr(items) => match decode_string_items(items) {
                        Some(xs) => Ok(AttributeValue::Ns(xs)),
                        None => Err(Error::StructuralDecode(StructuralIssue::Attribute)),
                    },
                    _ => Err(Error::StructuralDecode(StructuralIssue::Attribute)),
                }
            } else if str_eq(key, "L") {
                match payload {
                    JsonValue::Arr(items) => {
                        let mut xs: Vec<AttributeValue> = Vec::new();
                        let mut i: usize = 0;
                        while i < items.len()
                            invariant
                                0 <= i <= items@.len(),
                                xs@.len() == i,
                                forall|k: int| 0 <= k < i ==> attr_json_wf(#[trigger] items@[k]),
                                forall|k: int|
                                    0 <= k < i ==> attr_decodes_to(#[trigger] items@[k], xs@[k]),
                        decreases items@.len() - i,
                        {
                            proof {
                                assert(decreases_to!(*pairs => pairs@[0]));
                                assert(decreases_to!(*items => items@[i as int]));
                            }
                            match decode_attr(&items[i]) {
                                Ok(a) => xs.push(a),
                                Err(e) => {
                                    return Err(e);
                                },
                            }
                            i += 1;
                        }
                        Ok(AttributeValue::L(xs))
                    },
                    _ => Err(Error::StructuralDecode(StructuralIssue::Attribute)),
                }
            } else if str_eq(key, "M") {
                match decode_attr_map(payload) {
                    Ok(m) => Ok(AttributeValue::M(m)),
                    Err(e) => Err(e),
                }
            } else {
                Err(Error::StructuralDecode(StructuralIssue::Attribute))
            }
        },
        _ => Err(Error::StructuralDecode(StructuralIssue::Attribute)),
    }
}

/// Decode one attribute mapping: an object whose every member value is a
/// tagged attribute value.
#[verifier::loop_isolation(false)]
pub fn decode_attr_map(j: &JsonValue) -> (r: Result<AttrMap, Error>)
    ensures
        r is Ok <==> attr_map_json_wf(*j),
        r matches Ok(m) ==> attr_map_decodes_to(*j, m@),
        r matches Err(e) ==> (e matches Error::StructuralDecode(_)),
    decreases *j,
{
    match j {
        JsonValue::Obj(members) => {
            let mut out: Vec<(String, AttributeValue)> = Vec::new();
            let mut i: usize = 0;
            while i < members.len()
                invariant
                    0 <= i <= members@.len(),
                    out@.len() == i,
                    forall|k: int| 0 <= k < i ==> attr_json_wf((#[trigger] members@[k]).1),
                    forall|k: int|
                        0 <= k < i ==> (#[trigger] out@[k]).0@ == members@[k].0@
                            && attr_decodes_to(members@[k].1, out@[k].1),
                decreases members@.len() - i,
            {
                proof {
                    assert(decreases_to!(*members => members@[i as int]));
                }
                match decode_attr(&members[i].1) {
                    Ok(a) => out.push((members[i].0.clone(), a)),
                    Err(e) => {
                        return Err(e);
                    },
                }
                i += 1;
            }
            Ok(AttrMap { entries: out })
        },
        _ => Err(Error::StructuralDecode(StructuralIssue::AttributeMap)),
    }
}

} // verus!
