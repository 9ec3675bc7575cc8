//! Path logic: resolving a client-supplied path against the working
//! directory into a canonical absolute path, and the quoting `PWD`
//! puts around it.

use vstd::prelude::*;
use crate::text::{chars_to_string, str_chars};

verus! {

/// One step of canonicalisation: fold the component `comp` onto the
/// stack of components seen so far. Empty components and `.` vanish,
/// `..` pops (never escaping the root), anything else is pushed.
pub open spec fn spec_push_comp(stack: Seq<Seq<char>>, comp: Seq<char>) -> Seq<Seq<char>> {
    if comp.len() == 0 || comp == seq!['.'] {
        stack
    } else if comp == seq!['.', '.'] {
        if stack.len() > 0 {
            stack.drop_last()
        } else {
            stack
        }
    } else {
        stack.push(comp)
    }
}

/// The canonical component stack after reading the rest of the path
/// `s`, given the components already folded (`stack`) and the partial
/// component read so far (`cur`).
pub open spec fn spec_canon(stack: Seq<Seq<char>>, cur: Seq<char>, s: Seq<char>) -> Seq<
    Seq<char>,
>
    decreases s.len(),
{
    if s.len() == 0 {
        spec_push_comp(stack, cur)
    } else if s[0] == '/' {
        spec_canon(spec_push_comp(stack, cur), Seq::empty(), s.skip(1))
    } else {
        spec_canon(stack, cur.push(s[0]), s.skip(1))
    }
}

/// The canonical components of the path `s`.
pub open spec fn spec_components(s: Seq<char>) -> Seq<Seq<char>> {
    spec_canon(Seq::empty(), Seq::empty(), s)
}

/// The concatenation `/c1/c2/.../cn` of a component stack.
pub open spec fn spec_cat_components(comps: Seq<Seq<char>>) -> Seq<char>
    decreases comps.len(),
{
    if comps.len() == 0 {
        Seq::empty()
    } else {
        spec_cat_components(comps.drop_last()) + seq!['/'] + comps.last()
    }
}

/// The absolute path spelled by a component stack; the empty stack is
/// the root `/`.
pub open spec fn spec_render_path(comps: Seq<Seq<char>>) -> Seq<char> {
    if comps.len() == 0 {
        seq!['/']
    } else {
        spec_cat_components(comps)
    }
}

/// The canonical absolute path `p` names when issued in working
/// directory `cwd`: `p` itself if absolute, otherwise `p` appended to
/// `cwd`, canonicalised either way.
pub open spec fn spec_resolve(cwd: Seq<char>, p: Seq<char>) -> Seq<char> {
    if p.len() > 0 && p[0] == '/' {
        spec_render_path(spec_components(p))
    } else {
        spec_render_path(spec_components(cwd + seq!['/'] + p))
    }
}

fn push_comp(stack: &mut Vec<Vec<char>>, comp: Vec<char>)
    ensures
        final(stack)@.map_values(|c: Vec<char>| c@) == spec_push_comp(
            old(stack)@.map_values(|c: Vec<char>| c@),
            comp@,
        ),
{
    let ghost old_stack = stack@.map_values(|c: Vec<char>| c@);
    if comp.len() == 0 {
        proof {
            assert(stack@.map_values(|c: Vec<char>| c@) =~= spec_push_comp(old_stack, comp@));
        }
    } else if comp.len() == 1 && comp[0] == '.' {
        proof {
            assert(comp@ =~= seq!['.']);
            assert(stack@.map_values(|c: Vec<char>| c@) =~= spec_push_comp(old_stack, comp@));
        }
    } else if comp.len() == 2 && comp[0] == '.' && comp[1] == '.' {
        proof {
            assert(comp@ =~= seq!['.', '.']);
        }
        if stack.len() > 0 {
            stack.pop();
            proof {
                assert(stack@.map_values(|c: Vec<char>| c@) =~= old_stack.drop_last());
            }
        }
        proof {
            assert(stack@.map_values(|c: Vec<char>| c@) =~= spec_push_comp(old_stack, comp@));
        }
    } else {
        proof {
            assert(comp@ != seq!['.'] && comp@ != seq!['.', '.'] && comp@.len() > 0) by {
                if comp@ == seq!['.'] {
                    assert(comp@.len() == 1 && comp@[0] == '.');
                }
                if comp@ == seq!['.', '.'] {
                    assert(comp@.len() == 2 && comp@[0] == '.' && comp@[1] == '.');
                }
            }
        }
        stack.push(comp);
        proof {
            assert(stack@.map_values(|c: Vec<char>| c@) =~= spec_push_comp(old_stack, comp@));
        }
    }
}

/// The canonical components of the path in `chars`.
fn canon_components(chars: &Vec<char>) -> (stack: Vec<Vec<char>>)
    ensures
        stack@.map_values(|c: Vec<char>| c@) == spec_components(chars@),
{
    let mut stack: Vec<Vec<char>> = Vec::new();
    let mut cur: Vec<char> = Vec::new();
    let mut i: usize = 0;
    proof {
        assert(chars@.skip(0) =~= chars@);
        assert(stack@.map_values(|c: Vec<char>| c@) =~= Seq::<Seq<char>>::empty());
        assert(cur@ =~= Seq::<char>::empty());
    }
    while i < chars.len()
        invariant
            i <= chars@.len(),
            spec_components(chars@) == spec_canon(
                stack@.map_values(|c: Vec<char>| c@),
                cur@,
                chars@.skip(i as int),
            ),
        decreases chars@.len() - i,
    {
        let ghost pre_stack = stack@.map_values(|c: Vec<char>| c@);
        let ghost pre_cur = cur@;
        let ghost rest = chars@.skip(i as int);
        proof {
            assert(rest[0] == chars@[i as int]);
            assert(rest.skip(1) =~= chars@.skip(i as int + 1));
        }
        let c = chars[i];
        if c == '/' {
            let comp = cur;
            cur = Vec::new();
            push_comp(&mut stack, comp);
        } else {
            cur.push(c);
        }
        i = i + 1;
    }
    proof {
        assert(chars@.skip(chars@.len() as int) =~= Seq::<char>::empty());
    }
    push_comp(&mut stack, cur);
    stack
}

/// Spells the absolute path of a component stack.
fn render_path(stack: &Vec<Vec<char>>) -> (out: Vec<char>)
    ensures
        out@ == spec_render_path(stack@.map_values(|c: Vec<char>| c@)),
{
    let ghost comps = stack@.map_values(|c: Vec<char>| c@);
    if stack.len() == 0 {
        let mut out: Vec<char> = Vec::new();
        out.push('/');
        proof {
            assert(out@ =~= spec_render_path(comps));
        }
        out
    } else {
        let mut out: Vec<char> = Vec::new();
        let mut i: usize = 0;
        while i < stack.len()
            invariant
                i <= stack@.len(),
                comps == stack@.map_values(|c: Vec<char>| c@),
                out@ == spec_cat_components(comps.take(i as int)),
            decreases stack@.len() - i,
        {
            out.push('/');
            let comp = &stack[i];
            let mut j: usize = 0;
            while j < comp.len()
                invariant
                    j <= comp@.len(),
                    comp@ == stack@.map_values(|c: Vec<char>| c@)[i as int],
                    i < stack@.len(),
                    comps == stack@.map_values(|c: Vec<char>| c@),
                    out@ == spec_cat_components(comps.take(i as int)) + seq!['/'] + comp@.take(
                        j as int,
                    ),
                decreases comp@.len() - j,
            {
                out.push(comp[j]);
                j = j + 1;
                proof {
                    assert(out@ =~= spec_cat_components(comps.take(i as int)) + seq!['/']
                        + comp@.take(j as int));
                }
            }
            i = i + 1;
            proof {
                assert(comp@.take(comp@.len() as int) =~= comp@);
                assert(comps.take(i as int).drop_last() =~= comps.take(i as int - 1));
                assert(comps.take(i as int).last() == comps[i as int - 1]);
                assert(out@ =~= spec_cat_components(comps.take(i as int)));
            }
        }
        proof {
            assert(comps.take(comps.len() as int) =~= comps);
        }
        out
    }
}

/// Resolves `p` against the working directory `cwd` into a canonical
/// absolute path.
pub fn resolve_path(cwd: &str, p: &str) -> (r: String)
    ensures
        r@ == spec_resolve(cwd@, p@),
{
    let p_chars = str_chars(p);
    let mut combined: Vec<char>;
    if p_chars.len() > 0 && p_chars[0] == '/' {
        combined = p_chars;
    } else {
        combined = str_chars(cwd);
        combined.push('/');
        let mut k: usize = 0;
        while k < p_chars.len()
            invariant
                k <= p_chars@.len(),
                p_chars@ == p@,
                combined@ == cwd@ + seq!['/'] + p@.take(k as int),
            decreases p_chars@.len() - k,
        {
            combined.push(p_chars[k]);
            k = k + 1;
            proof {
                assert(combined@ =~= cwd@ + seq!['/'] + p@.take(k as int));
            }
        }
        proof {
            assert(p@.take(p@.len() as int) =~= p@);
        }
    }
    let stack = canon_components(&combined);
    let out = render_path(&stack);
    chars_to_string(&out)
}

/// The inner text of a `PWD` reply: every `"` in `s` doubled.
pub open spec fn spec_double_quotes(s: Seq<char>) -> Seq<char>
    decreases s.len(),
{
    if s.len() == 0 {
        Seq::empty()
    } else {
        (if s[0] == '"' {
            seq!['"', '"']
        } else {
            seq![s[0]]
        }) + spec_double_quotes(s.skip(1))
    }
}

/// The message of a `PWD` reply: the working directory wrapped in
/// double quotes, embedded quotes doubled.
pub open spec fn spec_pwd_msg(cwd: Seq<char>) -> Seq<char> {
    seq!['"'] + spec_double_quotes(cwd) + seq!['"']
}

/// Builds the message of a `PWD` reply for the working directory `cwd`.
pub fn pwd_msg(cwd: &str) -> (r: String)
    ensures
        r@ == spec_pwd_msg(cwd@),
{
    let chars = str_chars(cwd);
    let mut out: Vec<char> = Vec::new();
    out.push('"');
    let mut i: usize = 0;
    proof {
        assert(cwd@.skip(0) =~= cwd@);
        assert(out@ =~= seq!['"']);
    }
    while i < chars.len()
        invariant
            i <= chars@.len(),
            chars@ == cwd@,
            seq!['"'] + spec_double_quotes(cwd@) == out@ + spec_double_quotes(
                cwd@.skip(i as int),
            ),
        decreases chars@.len() - i,
    {
        let ghost rest = cwd@.skip(i as int);
        proof {
            assert(rest[0] == cwd@[i as int]);
            assert(rest.skip(1) =~= cwd@.skip(i as int + 1));
        }
        let c = chars[i];
        if c == '"' {
            out.push('"');
            out.push('"');
        } else {
            out.push(c);
        }
        i = i + 1;
    }
    proof {
        assert(cwd@.skip(cwd@.len() as int) =~= Seq::<char>::empty());
        assert(spec_double_quotes(Seq::<char>::empty()) =~= Seq::<char>::empty());
        assert(out@ =~= out@ + spec_double_quotes(cwd@.skip(cwd@.len() as int)));
    }
    out.push('"');
    proof {
        assert(out@ =~= spec_pwd_msg(cwd@));
    }
    chars_to_string(&out)
}

} // verus!
