//! The block renderer: a recursive left-to-right interpretation of a
//! template over a scope, with percent escaping, substitution with a
//! literal default, conditionals, and iteration.
//!
//! Directives that cannot be completed (a marker whose closing `%` or
//! closing tag never comes) degrade to literal text: the `%` is emitted
//! and scanning resumes one character later. Rendering never fails.

use vstd::prelude::*;
use vstd::string::StrSliceExecFns;
use crate::text::{
    find_char, lemma_find_char_bounds, find_char_from, spec_trim, trim_chars, copy_range, to_chars,
    chars_to_string,
};
use crate::value::{Value, opt_val, spec_truthy, spec_display, truthy};
use crate::scope::{spec_resolve, resolve};

verus! {

/// `%EACH ` stands at the start of the slice.
pub open spec fn marks_each_open(t: Seq<char>) -> bool {
    t.len() >= 6 && t[0] == '%' && t[1] == 'E' && t[2] == 'A' && t[3] == 'C' && t[4] == 'H' && t[5]
        == ' '
}

/// `%IF ` stands at the start of the slice.
pub open spec fn marks_if_open(t: Seq<char>) -> bool {
    t.len() >= 4 && t[0] == '%' && t[1] == 'I' && t[2] == 'F' && t[3] == ' '
}

/// `%END_EACH%` stands at position `i`.
pub open spec fn marks_end_each(t: Seq<char>, i: int) -> bool {
    &&& 0 <= i
    &&& i + 10 <= t.len()
    &&& t[i] == '%'
    &&& t[i + 1] == 'E'
    &&& t[i + 2] == 'N'
    &&& t[i + 3] == 'D'
    &&& t[i + 4] == '_'
    &&& t[i + 5] == 'E'
    &&& t[i + 6] == 'A'
    &&& t[i + 7] == 'C'
    &&& t[i + 8] == 'H'
    &&& t[i + 9] == '%'
}

/// `%END_IF%` stands at position `i`.
pub open spec fn marks_end_if(t: Seq<char>, i: int) -> bool {
    &&& 0 <= i
    &&& i + 8 <= t.len()
    &&& t[i] == '%'
    &&& t[i + 1] == 'E'
    &&& t[i + 2] == 'N'
    &&& t[i + 3] == 'D'
    &&& t[i + 4] == '_'
    &&& t[i + 5] == 'I'
    &&& t[i + 6] == 'F'
    &&& t[i + 7] == '%'
}

/// First position `j >= i` where `%END_EACH%` stands, if any.
pub open spec fn find_end_each(t: Seq<char>, i: int) -> Option<int>
    decreases t.len() - i,
{
    if i < 0 || i + 10 > t.len() {
        None
    } else if marks_end_each(t, i) {
        Some(i)
    } else {
        find_end_each(t, i + 1)
    }
}

/// First position `j >= i` where `%END_IF%` stands, if any.
pub open spec fn find_end_if(t: Seq<char>, i: int) -> Option<int>
    decreases t.len() - i,
{
    if i < 0 || i + 8 > t.len() {
        None
    } else if marks_end_if(t, i) {
        Some(i)
    } else {
        find_end_if(t, i + 1)
    }
}

pub proof fn lemma_find_end_each_bounds(t: Seq<char>, i: int)
    requires
        0 <= i,
        find_end_each(t, i) is Some,
    ensures
        i <= find_end_each(t, i)->0,
        marks_end_each(t, find_end_each(t, i)->0),
    decreases t.len() - i,
{
    if i + 10 <= t.len() && !marks_end_each(t, i) {
        lemma_find_end_each_bounds(t, i + 1);
    }
}

pub proof fn lemma_find_end_if_bounds(t: Seq<char>, i: int)
    requires
        0 <= i,
        find_end_if(t, i) is Some,
    ensures
        i <= find_end_if(t, i)->0,
        marks_end_if(t, find_end_if(t, i)->0),
    decreases t.len() - i,
{
    if i + 8 <= t.len() && !marks_end_if(t, i) {
        lemma_find_end_if_bounds(t, i + 1);
    }
}

/// What rendering `t` under `(root, local)` produces.
///
/// Scanning is left to right; block ends are located by first occurrence
/// of the closing marker, not by a nesting-aware search.
pub open spec fn spec_render(t: Seq<char>, root: Value, local: Option<Value>) -> Seq<char>
    decreases t.len(), 0int,
{
    if t.len() == 0 {
        Seq::empty()
    } else if t.len() >= 2 && t[0] == '%' && t[1] == '%' {
        seq!['%'] + spec_render(t.subrange(2, t.len() as int), root, local)
    } else if marks_each_open(t) {
        match find_char(t, 6, '%') {
            None => seq!['%'] + spec_render(t.subrange(1, t.len() as int), root, local),
            Some(te) => match find_end_each(t, te + 1) {
                None => seq!['%'] + spec_render(t.subrange(1, t.len() as int), root, local),
                Some(be) => {
                    proof {
                        lemma_find_char_bounds(t, 6, '%');
                        lemma_find_end_each_bounds(t, te + 1);
                    }
                    let tag = spec_trim(t.subrange(6, te));
                    let block = t.subrange(te + 1, be);
                    let rest = t.subrange(be + 10, t.len() as int);
                    let body = match spec_resolve(local, root, tag) {
                        Some(Value::Arr(items)) => render_items(block, root, items@),
                        _ => Seq::empty(),
                    };
                    body + spec_render(rest, root, local)
                },
            },
        }
    } else if marks_if_open(t) {
        match find_char(t, 4, '%') {
            None => seq!['%'] + spec_render(t.subrange(1, t.len() as int), root, local),
            Some(te) => match find_end_if(t, te + 1) {
                None => seq!['%'] + spec_render(t.subrange(1, t.len() as int), root, local),
                Some(be) => {
                    proof {
                        lemma_find_char_bounds(t, 4, '%');
                        lemma_find_end_if_bounds(t, te + 1);
                    }
                    let tag = spec_trim(t.subrange(4, te));
                    let block = t.subrange(te + 1, be);
                    let rest = t.subrange(be + 8, t.len() as int);
                    let body = if spec_truthy(spec_resolve(local, root, tag)) {
                        spec_render(block, root, local)
                    } else {
                        Seq::<char>::empty()
                    };
                    body + spec_render(rest, root, local)
                },
            },
        }
    } else if t[0] == '%' {
        match find_char(t, 1, '%') {
            None => seq!['%'] + spec_render(t.subrange(1, t.len() as int), root, local),
            Some(e) => {
                proof {
                    lemma_find_char_bounds(t, 1, '%');
                }
                let token = t.subrange(1, e);
                let parts = match find_char(token, 0, '|') {
                    Some(p) => (token.subrange(0, p), token.subrange(p + 1, token.len() as int)),
                    None => (token, Seq::<char>::empty()),
                };
                let key = spec_trim(parts.0);
                let dflt = parts.1;
                let chosen = match spec_resolve(local, root, key) {
                    Some(v) => match spec_display(v) {
                        Some(s) => if s.len() > 0 {
                            s
                        } else {
                            dflt
                        },
                        None => dflt,
                    },
                    None => dflt,
                };
                chosen + spec_render(t.subrange(e + 1, t.len() as int), root, local)
            },
        }
    } else {
        seq![t[0]] + spec_render(t.subrange(1, t.len() as int), root, local)
    }
}

/// The concatenation of renderings of `block`, one per element of
/// `items` in order, each with the local scope rebound to that element.
pub open spec fn render_items(block: Seq<char>, root: Value, items: Seq<Value>) -> Seq<char>
    decreases block.len() + 1, items.len(),
{
    if items.len() == 0 {
        Seq::empty()
    } else {
        render_items(block, root, items.drop_last()) + spec_render(
            block,
            root,
            Some(items.last()),
        )
    }
}

fn starts_pct_pct(t: &Vec<char>) -> (r: bool)
    ensures
        r == (t@.len() >= 2 && t@[0] == '%' && t@[1] == '%'),
{
    t.len() >= 2 && t[0] == '%' && t[1] == '%'
}

fn starts_each(t: &Vec<char>) -> (r: bool)
    ensures
        r == marks_each_open(t@),
{
    t.len() >= 6 && t[0] == '%' && t[1] == 'E' && t[2] == 'A' && t[3] == 'C' && t[4] == 'H' && t[5]
        == ' '
}

fn starts_if(t: &Vec<char>) -> (r: bool)
    ensures
        r == marks_if_open(t@),
{
    t.len() >= 4 && t[0] == '%' && t[1] == 'I' && t[2] == 'F' && t[3] == ' '
}

fn is_end_each_at(t: &Vec<char>, i: usize) -> (r: bool)
    requires
        i + 10 <= t@.len(),
    ensures
        r == marks_end_each(t@, i as int),
{
    let n = t.len();
    t[i] == '%' && t[i + 1] == 'E' && t[i + 2] == 'N' && t[i + 3] == 'D' && t[i + 4] == '_' && t[i
        + 5] == 'E' && t[i + 6] == 'A' && t[i + 7] == 'C' && t[i + 8] == 'H' && t[i + 9] == '%'
}

fn is_end_if_at(t: &Vec<char>, i: usize) -> (r: bool)
    requires
        i + 8 <= t@.len(),
    ensures
        r == marks_end_if(t@, i as int),
{
    let n = t.len();
    t[i] == '%' && t[i + 1] == 'E' && t[i + 2] == 'N' && t[i + 3] == 'D' && t[i + 4] == '_' && t[i
        + 5] == 'I' && t[i + 6] == 'F' && t[i + 7] == '%'
}

fn find_end_each_from(t: &Vec<char>, start: usize) -> (r: Option<usize>)
    requires
        start <= t@.len(),
    ensures
        match r {
            Some(j) => find_end_each(t@, start as int) == Some(j as int) && start <= j && j + 10
                <= t@.len(),
            None => find_end_each(t@, start as int) is None,
        },
{
    let n = t.len();
    if n < 10 || start > n - 10 {
        return None;
    }
    let mut i = start;
    while i <= n - 10
        invariant
            start <= i <= n - 9,
            n == t@.len(),
            n >= 10,
            find_end_each(t@, start as int) == find_end_each(t@, i as int),
        decreases n - i,
    {
        if is_end_each_at(t, i) {
            return Some(i);
        }
        i = i + 1;
    }
    None
}

fn find_end_if_from(t: &Vec<char>, start: usize) -> (r: Option<usize>)
    requires
        start <= t@.len(),
    ensures
        match r {
            Some(j) => find_end_if(t@, start as int) == Some(j as int) && start <= j && j + 8
                <= t@.len(),
            None => find_end_if(t@, start as int) is None,
        },
{
    let n = t.len();
    if n < 8 || start > n - 8 {
        return None;
    }
    let mut i = start;
    while i <= n - 8
        invariant
            start <= i <= n - 7,
            n == t@.len(),
            n >= 8,
            find_end_if(t@, start as int) == find_end_if(t@, i as int),
        decreases n - i,
    {
        if is_end_if_at(t, i) {
            return Some(i);
        }
        i = i + 1;
    }
    None
}

/// The degraded path: the leading `%` of a directive that cannot be
/// completed is emitted literally and scanning resumes after it.
fn render_degraded(t: &Vec<char>, root: &Value, local: Option<&Value>) -> (out: Vec<char>)
    requires
        t@.len() > 0,
    ensures
        out@ == seq!['%'] + spec_render(t@.subrange(1, t@.len() as int), *root, opt_val(local)),
    decreases t@.len(), 0int,
{
    let n = t.len();
    let rest = copy_range(t, 1, n);
    let mut sub = render_chars(&rest, root, local);
    let mut out: Vec<char> = Vec::new();
    out.push('%');
    out.append(&mut sub);
    proof {
        assert(out@ =~= seq!['%'] + spec_render(
            t@.subrange(1, t@.len() as int),
            *root,
            opt_val(local),
        ));
    }
    out
}

/// Renders template characters under `(root, local)`.
pub fn render_chars(t: &Vec<char>, root: &Value, local: Option<&Value>) -> (out: Vec<char>)
    ensures
        out@ == spec_render(t@, *root, opt_val(local)),
    decreases t@.len(), 1int,
{
    let n = t.len();
    if n == 0 {
        let out: Vec<char> = Vec::new();
        proof {
            assert(out@ =~= spec_render(t@, *root, opt_val(local)));
        }
        return out;
    }
    if starts_pct_pct(t) {
        let rest = copy_range(t, 2, n);
        let mut sub = render_chars(&rest, root, local);
        let mut out: Vec<char> = Vec::new();
        out.push('%');
        out.append(&mut sub);
        proof {
            assert(out@ =~= seq!['%'] + spec_render(
                t@.subrange(2, t@.len() as int),
                *root,
                opt_val(local),
            ));
        }
        return out;
    }
    if starts_each(t) {
        let te_opt = find_char_from(t, 6, '%');
        let te = match te_opt {
            Some(te) => te,
            None => {
                return render_degraded(t, root, local);
            },
        };
        let be_opt = find_end_each_from(t, te + 1);
        let be = match be_opt {
            Some(be) => be,
            None => {
                return render_degraded(t, root, local);
            },
        };
        let tag_raw = copy_range(t, 6, te);
        let tag = trim_chars(&tag_raw);
        let tag_s = chars_to_string(&tag);
        let block = copy_range(t, te + 1, be);
        let mut out: Vec<char> = Vec::new();
        let val = resolve(local, root, tag_s.as_str());
        match val {
            Some(Value::Arr(items)) => {
                let mut k: usize = 0;
                while k < items.len()
                    invariant
                        0 <= k <= items@.len(),
                        block@.len() < t@.len(),
                        out@ == render_items(block@, *root, items@.take(k as int)),
                    decreases items@.len() - k,
                {
                    let mut sub = render_chars(&block, root, Some(&items[k]));
                    out.append(&mut sub);
                    proof {
                        assert(items@.take((k + 1) as int).drop_last() =~= items@.take(k as int));
                        assert(items@.take((k + 1) as int).last() == items@[k as int]);
                    }
                    k = k + 1;
                }
                proof {
                    assert(items@.take(items@.len() as int) =~= items@);
                }
            },
            _ => {},
        }
        let rest = copy_range(t, be + 10, n);
        let mut sub = render_chars(&rest, root, local);
        out.append(&mut sub);
        proof {
            assert(out@ =~= spec_render(t@, *root, opt_val(local)));
        }
        return out;
    }
    if starts_if(t) {
        let te_opt = find_char_from(t, 4, '%');
        let te = match te_opt {
            Some(te) => te,
            None => {
                return render_degraded(t, root, local);
            },
        };
        let be_opt = find_end_if_from(t, te + 1);
        let be = match be_opt {
            Some(be) => be,
            None => {
                return render_degraded(t, root, local);
            },
        };
        let tag_raw = copy_range(t, 4, te);
        let tag = trim_chars(&tag_raw);
        let tag_s = chars_to_string(&tag);
        let mut out: Vec<char> = Vec::new();
        let cond = truthy(resolve(local, root, tag_s.as_str()));
        if cond {
            let block = copy_range(t, te + 1, be);
            let mut sub = render_chars(&block, root, local);
            out.append(&mut sub);
        }
        let rest = copy_range(t, be + 8, n);
        let mut sub = render_chars(&rest, root, local);
        out.append(&mut sub);
        proof {
            assert(out@ =~= spec_render(t@, *root, opt_val(local)));
        }
        return out;
    }
    if t[0] == '%' {
        let e_opt = find_char_from(t, 1, '%');
        let e = match e_opt {
            Some(e) => e,
            None => {
                return render_degraded(t, root, local);
            },
        };
        let token = copy_range(t, 1, e);
        let rawkey: Vec<char>;
        let dflt: Vec<char>;
        match find_char_from(&token, 0, '|') {
            Some(p) => {
                rawkey = copy_range(&token, 0, p);
                dflt = copy_range(&token, p + 1, token.len());
            },
            None => {
                rawkey = copy_range(&token, 0, token.len());
                dflt = Vec::new();
                proof {
                    assert(token@.subrange(0, token@.len() as int) =~= token@);
                }
            },
        }
        let key = trim_chars(&rawkey);
        let key_s = chars_to_string(&key);
        let val = resolve(local, root, key_s.as_str());
        let mut out: Vec<char>;
        match val {
            Some(v) => match v.as_display() {
                Some(s) => {
                    if !s.as_str().is_empty() {
                        out = to_chars(s.as_str());
                    } else {
                        out = dflt;
                    }
                },
                None => {
                    out = dflt;
                },
            },
            None => {
                out = dflt;
            },
        }
        let rest = copy_range(t, e + 1, n);
        let mut sub = render_chars(&rest, root, local);
        out.append(&mut sub);
        proof {
            assert(out@ =~= spec_render(t@, *root, opt_val(local)));
        }
        return out;
    }
    let c = t[0];
    let rest = copy_range(t, 1, n);
    let mut sub = render_chars(&rest, root, local);
    let mut out: Vec<char> = Vec::new();
    out.push(c);
    out.append(&mut sub);
    proof {
        assert(out@ =~= seq![t@[0]] + spec_render(
            t@.subrange(1, t@.len() as int),
            *root,
            opt_val(local),
        ));
    }
    out
}

/// Renders `template` against the root context `ctx`, with no local
/// scope. Always succeeds; unresolvable keys and malformed directives
/// degrade to default or literal text.
pub fn render_template(template: &str, ctx: &Value) -> (out: String)
    ensures
        out@ == spec_render(template@, *ctx, None),
{
    let tv = to_chars(template);
    let rv = render_chars(&tv, ctx, None);
    chars_to_string(&rv)
}

/// Escaping law: `100%%` renders as `100%` under every scope.
pub proof fn lemma_escape(root: Value, local: Option<Value>)
    ensures
        spec_render("100%%"@, root, local) == "100%"@,
{
    reveal_strlit("100%%");
    reveal_strlit("100%");
    let t0 = "100%%"@;
    assert(t0.len() == 5);
    let t1 = t0.subrange(1, 5);
    let t2 = t1.subrange(1, 4);
    let t3 = t2.subrange(1, 3);
    let e = t3.subrange(2, 2);
    assert(t3[0] == '%' && t3[1] == '%');
    assert(e.len() == 0);
    assert(spec_render(e, root, local) == Seq::<char>::empty());
    assert(spec_render(t3, root, local) =~= seq!['%']);
    assert(t2[0] == '0');
    assert(spec_render(t2, root, local) =~= seq!['0', '%']);
    assert(t1[0] == '0');
    assert(spec_render(t1, root, local) =~= seq!['0', '0', '%']);
    assert(t0[0] == '1');
    assert(spec_render(t0, root, local) =~= seq!['1', '0', '0', '%']);
    assert("100%"@ =~= seq!['1', '0', '0', '%']);
}

/// Plain-text law: a template without any percent character renders as
/// itself under every scope.
pub proof fn lemma_plain_text(t: Seq<char>, root: Value, local: Option<Value>)
    requires
        forall|i: int| 0 <= i < t.len() ==> t[i] != '%',
    ensures
        spec_render(t, root, local) == t,
    decreases t.len(),
{
    if t.len() == 0 {
        assert(spec_render(t, root, local) =~= t);
    } else {
        let rest = t.subrange(1, t.len() as int);
        assert(forall|i: int| 0 <= i < rest.len() ==> rest[i] == t[i + 1]);
        lemma_plain_text(rest, root, local);
        assert(t[0] != '%');
        assert(spec_render(t, root, local) == seq![t[0]] + rest);
        assert(seq![t[0]] + rest =~= t);
    }
}

} // verus!
