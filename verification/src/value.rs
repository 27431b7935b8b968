//! The value model: a JSON-like tagged tree that serves as the rendering
//! context, with member lookup, truthiness, and display conversion.
//!
//! A number is carried as its decimal text, which is also its display
//! form; a mapping is a list of name/value pairs looked up by name.

use vstd::prelude::*;
use vstd::string::StrSliceExecFns;
use crate::text::str_eq;

verus! {

pub enum Value {
    Null,
    Bool(bool),
    Num(String),
    Text(String),
    Arr(Vec<Value>),
    Obj(Vec<(String, Value)>),
}

/// First pair whose name matches `key`, scanning front to back.
pub open spec fn pairs_get(pairs: Seq<(String, Value)>, key: Seq<char>) -> Option<Value>
    decreases pairs.len(),
{
    if pairs.len() == 0 {
        None
    } else if pairs[0].0@ == key {
        Some(pairs[0].1)
    } else {
        pairs_get(pairs.subrange(1, pairs.len() as int), key)
    }
}

/// Member lookup: meaningful only on `Obj`, nothing on every other variant.
pub open spec fn spec_get(v: Value, key: Seq<char>) -> Option<Value> {
    match v {
        Value::Obj(pairs) => pairs_get(pairs@, key),
        _ => None,
    }
}

pub open spec fn opt_val(v: Option<&Value>) -> Option<Value> {
    match v {
        Some(p) => Some(*p),
        None => None,
    }
}

/// Truthiness as the conditional directive reads it: absent and null are
/// false, an empty string is false, everything else (a number, `false`
/// itself, an empty sequence or mapping) is true.
pub open spec fn spec_truthy(v: Option<Value>) -> bool {
    match v {
        None => false,
        Some(Value::Null) => false,
        Some(Value::Text(s)) => s@.len() > 0,
        Some(_) => true,
    }
}

pub open spec fn lit_true() -> Seq<char> {
    seq!['t', 'r', 'u', 'e']
}

pub open spec fn lit_false() -> Seq<char> {
    seq!['f', 'a', 'l', 's', 'e']
}

pub open spec fn lit_null() -> Seq<char> {
    seq!['n', 'u', 'l', 'l']
}

/// Compact JSON-like text of a value, the fallback display form of
/// sequences and mappings. Strings are quoted verbatim, numbers keep
/// their stored text.
pub open spec fn spec_json(v: Value) -> Seq<char>
    decreases v,
{
    match v {
        Value::Null => lit_null(),
        Value::Bool(b) => if b {
            lit_true()
        } else {
            lit_false()
        },
        Value::Num(s) => s@,
        Value::Text(s) => seq!['"'] + s@ + seq!['"'],
        Value::Arr(items) => seq!['['] + json_items(items@) + seq![']'],
        Value::Obj(pairs) => seq!['{'] + json_pairs(pairs@) + seq!['}'],
    }
}

pub open spec fn json_items(items: Seq<Value>) -> Seq<char>
    decreases items,
{
    if items.len() == 0 {
        Seq::empty()
    } else if items.len() == 1 {
        spec_json(items[0])
    } else {
        json_items(items.drop_last()) + seq![','] + spec_json(items.last())
    }
}

pub open spec fn json_pair(p: (String, Value)) -> Seq<char>
    decreases p,
{
    seq!['"'] + p.0@ + seq!['"', ':'] + spec_json(p.1)
}

pub open spec fn json_pairs(pairs: Seq<(String, Value)>) -> Seq<char>
    decreases pairs,
{
    if pairs.len() == 0 {
        Seq::empty()
    } else if pairs.len() == 1 {
        json_pair(pairs[0])
    } else {
        json_pairs(pairs.drop_last()) + seq![','] + json_pair(pairs.last())
    }
}

/// Display conversion: nothing for null, the canonical text for
/// booleans and numbers, the string itself for strings, and the
/// JSON-like fallback for sequences and mappings.
pub open spec fn spec_display(v: Value) -> Option<Seq<char>> {
    match v {
        Value::Null => None,
        Value::Bool(b) => Some(
            if b {
                lit_true()
            } else {
                lit_false()
            },
        ),
        Value::Num(s) => Some(s@),
        Value::Text(s) => Some(s@),
        Value::Arr(_) => Some(spec_json(v)),
        Value::Obj(_) => Some(spec_json(v)),
    }
}

impl Value {
    /// Looks `key` up among a mapping's pairs; nothing on other variants.
    pub fn get_member<'a>(&'a self, key: &str) -> (r: Option<&'a Value>)
        ensures
            match r {
                Some(v) => spec_get(*self, key@) == Some(*v),
                None => spec_get(*self, key@) is None,
            },
    {
        match self {
            Value::Obj(pairs) => {
                proof {
                    assert(pairs@.subrange(0, pairs@.len() as int) =~= pairs@);
                }
                let mut i: usize = 0;
                while i < pairs.len()
                    invariant
                        0 <= i <= pairs@.len(),
                        *self == Value::Obj(*pairs),
                        pairs_get(pairs@, key@) == pairs_get(
                            pairs@.subrange(i as int, pairs@.len() as int),
                            key@,
                        ),
                    decreases pairs@.len() - i,
                {
                    let p = &pairs[i];
                    if str_eq(p.0.as_str(), key) {
                        proof {
                            let sub = pairs@.subrange(i as int, pairs@.len() as int);
                            assert(sub[0] == pairs@[i as int]);
                            assert(sub[0].0@ == key@);
                            assert(pairs_get(sub, key@) == Some(sub[0].1));
                            assert(spec_get(*self, key@) == Some(pairs@[i as int].1));
                        }
                        return Some(&p.1);
                    }
                    proof {
                        assert(pairs@.subrange(i as int, pairs@.len() as int).subrange(
                            1,
                            (pairs@.len() - i) as int,
                        ) =~= pairs@.subrange((i + 1) as int, pairs@.len() as int));
                    }
                    i = i + 1;
                }
                None
            },
            _ => None,
        }
    }

    /// Truthiness of a resolved lookup result.
    pub fn is_truthy(&self) -> (r: bool)
        ensures
            r == spec_truthy(Some(*self)),
    {
        match self {
            Value::Null => false,
            Value::Text(s) => !s.as_str().is_empty(),
            _ => true,
        }
    }

    /// The display text of this value, when it has one.
    pub fn as_display(&self) -> (r: Option<String>)
        ensures
            match r {
                Some(s) => spec_display(*self) == Some(s@),
                None => spec_display(*self) is None,
            },
    {
        match self {
            Value::Null => None,
            Value::Bool(b) => {
                if *b {
                    let s = String::new();
                    let mut v: Vec<char> = Vec::new();
                    v.push('t');
                    v.push('r');
                    v.push('u');
                    v.push('e');
                    proof {
                        assert(v@ =~= lit_true());
                    }
                    Some(crate::text::chars_to_string(&v))
                } else {
                    let mut v: Vec<char> = Vec::new();
                    v.push('f');
                    v.push('a');
                    v.push('l');
                    v.push('s');
                    v.push('e');
                    proof {
                        assert(v@ =~= lit_false());
                    }
                    Some(crate::text::chars_to_string(&v))
                }
            },
            Value::Num(s) => Some(s.clone()),
            Value::Text(s) => Some(s.clone()),
            Value::Arr(_) => {
                let cs = json_chars(self);
                Some(crate::text::chars_to_string(&cs))
            },
            Value::Obj(_) => {
                let cs = json_chars(self);
                Some(crate::text::chars_to_string(&cs))
            },
        }
    }
}

/// Truthiness of a lookup result that may be absent.
pub fn truthy(v: Option<&Value>) -> (r: bool)
    ensures
        r == spec_truthy(opt_val(v)),
{
    match v {
        Some(x) => x.is_truthy(),
        None => false,
    }
}

proof fn lemma_json_items_step(items: Seq<Value>, k: int)
    requires
        0 <= k < items.len(),
    ensures
        json_items(items.take(k + 1)) == if k == 0 {
            spec_json(items[0])
        } else {
            json_items(items.take(k)) + seq![','] + spec_json(items[k])
        },
{
    let t = items.take(k + 1);
    if k == 0 {
        assert(t.len() == 1);
        assert(t[0] == items[0]);
    } else {
        assert(t.drop_last() =~= items.take(k));
        assert(t.last() == items[k]);
    }
}

proof fn lemma_json_pairs_step(pairs: Seq<(String, Value)>, k: int)
    requires
        0 <= k < pairs.len(),
    ensures
        json_pairs(pairs.take(k + 1)) == if k == 0 {
            json_pair(pairs[0])
        } else {
            json_pairs(pairs.take(k)) + seq![','] + json_pair(pairs[k])
        },
{
    let t = pairs.take(k + 1);
    if k == 0 {
        assert(t.len() == 1);
        assert(t[0] == pairs[0]);
    } else {
        assert(t.drop_last() =~= pairs.take(k));
        assert(t.last() == pairs[k]);
    }
}

/// The JSON-like fallback text of a value, as characters.
fn json_chars(v: &Value) -> (r: Vec<char>)
    ensures
        r@ == spec_json(*v),
    decreases v,
{
    match v {
        Value::Null => {
            let mut r: Vec<char> = Vec::new();
            r.push('n');
            r.push('u');
            r.push('l');
            r.push('l');
            proof {
                assert(r@ =~= lit_null());
            }
            r
        },
        Value::Bool(b) => {
            let mut r: Vec<char> = Vec::new();
            if *b {
                r.push('t');
                r.push('r');
                r.push('u');
                r.push('e');
                proof {
                    assert(r@ =~= lit_true());
                }
            } else {
                r.push('f');
                r.push('a');
                r.push('l');
                r.push('s');
                r.push('e');
                proof {
                    assert(r@ =~= lit_false());
                }
            }
            r
        },
        Value::Num(s) => crate::text::to_chars(s.as_str()),
        Value::Text(s) => {
            let mut r: Vec<char> = Vec::new();
            r.push('"');
            let mut body = crate::text::to_chars(s.as_str());
            r.append(&mut body);
            r.push('"');
            proof {
                assert(r@ =~= seq!['"'] + s@ + seq!['"']);
            }
            r
        },
        Value::Arr(items) => {
            let mut r: Vec<char> = Vec::new();
            r.push('[');
            let mut k: usize = 0;
            while k < items.len()
                invariant
                    0 <= k <= items@.len(),
                    *v == Value::Arr(*items),
                    r@ == seq!['['] + json_items(items@.take(k as int)),
                decreases items@.len() - k,
            {
                if k > 0 {
                    r.push(',');
                }
                proof {
                    assert(decreases_to!(*v => v->Arr_0@[k as int]));
                    assert(v->Arr_0 == *items);
                }
                let mut sub = json_chars(&items[k]);
                r.append(&mut sub);
                proof {
                    lemma_json_items_step(items@, k as int);
                    if k == 0 {
                        assert(r@ =~= seq!['['] + json_items(items@.take(k + 1)));
                    } else {
                        assert(r@ =~= seq!['['] + json_items(items@.take(k + 1)));
                    }
                }
                k = k + 1;
            }
            r.push(']');
            proof {
                assert(items@.take(items@.len() as int) =~= items@);
                assert(r@ =~= seq!['['] + json_items(items@) + seq![']']);
            }
            r
        },
        Value::Obj(pairs) => {
            let mut r: Vec<char> = Vec::new();
            r.push('{');
            let mut k: usize = 0;
            while k < pairs.len()
                invariant
                    0 <= k <= pairs@.len(),
                    *v == Value::Obj(*pairs),
                    r@ == seq!['{'] + json_pairs(pairs@.take(k as int)),
                decreases pairs@.len() - k,
            {
                if k > 0 {
                    r.push(',');
                }
                let p = &pairs[k];
                r.push('"');
                let mut name = crate::text::to_chars(p.0.as_str());
                r.append(&mut name);
                r.push('"');
                r.push(':');
                proof {
                    assert(decreases_to!(*v => v->Obj_0@[k as int].1));
                    assert(v->Obj_0 == *pairs);
                }
                let mut sub = json_chars(&p.1);
                r.append(&mut sub);
                proof {
                    lemma_json_pairs_step(pairs@, k as int);
                    assert(json_pair(pairs@[k as int]) =~= seq!['"'] + pairs@[k as int].0@ + seq![
                        '"',
                        ':',
                    ] + spec_json(pairs@[k as int].1));
                    assert(r@ =~= seq!['{'] + json_pairs(pairs@.take(k + 1)));
                }
                k = k + 1;
            }
            r.push('}');
            proof {
                assert(pairs@.take(pairs@.len() as int) =~= pairs@);
                assert(r@ =~= seq!['{'] + json_pairs(pairs@) + seq!['}']);
            }
            r
        },
    }
}

} // verus!
