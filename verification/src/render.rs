//! The renderer: a pure recursive function from a document and an indent
//! configuration to text.
//!
//! Every exec function appends to a `String` buffer exactly the character
//! sequence given by the spec functions here: `rendered` for a whole
//! document, `rendered_entry` for one child value, and the `*_from`
//! functions for the lines of a `List` or `Tree` from a given index on.

use vstd::prelude::*;

use crate::colour::{paint, painted, Colour};
use crate::doc::{depth, is_terminal, lemma_list_depth_ge, lemma_tree_depth_ge, Key, Val};
use crate::text::{dec_of, hex_of, push_dec, push_hex, push_spaces, spaces};

verus! {

/// Columns of one indentation step, for the default entry point.
pub const DISPLAY_INDENT_SIZE: usize = 4;

/// Nesting level rendering starts at, for the default entry point.
pub const DISPLAY_INDENT_LEVEL: usize = 0;

/// The indentation of a line at `level` nesting levels of `size` columns
/// each.
pub open spec fn spec_indent(size: nat, level: nat) -> Seq<char> {
    spaces(size * level)
}

/// A tree label: a dash, the key left-padded with trailing spaces to `width`
/// characters, and a colon.
pub open spec fn spec_key(key: Seq<char>, width: nat) -> Seq<char> {
    seq!['-', ' '] + key + spaces(if key.len() >= width {
        0
    } else {
        (width - key.len()) as nat
    }) + seq![':']
}

/// The greatest character length among the keys of `kvs`; zero when `kvs`
/// is empty. Only the keys of one sibling group enter it.
pub open spec fn key_width_of(kvs: Seq<(Key, Val)>) -> nat
    decreases kvs.len(),
{
    if kvs.len() == 0 {
        0
    } else {
        let rest = key_width_of(kvs.drop_last());
        let k = kvs.last().0@.len();
        if k > rest {
            k
        } else {
            rest
        }
    }
}

/// What a terminal renders as, inline: raw text verbatim, every other kind
/// in the fixed colour of its category — hashes green as lowercase hex,
/// epochs blue and slot ids purple in decimal, both signature kinds cyan,
/// both actor-id kinds yellow.
pub open spec fn rendered_terminal(v: Val) -> Seq<char> {
    match v {
        Val::Raw(s) => s@,
        Val::Hash(h) => painted(Colour::Green, hex_of(h@)),
        Val::Epoch(e) => painted(Colour::Blue, dec_of(e as nat)),
        Val::SlotId(s) => painted(Colour::Purple, dec_of(s as nat)),
        Val::BlockSig(s) => painted(Colour::Cyan, s@),
        Val::Signature(s) => painted(Colour::Cyan, s@),
        Val::XPub(s) => painted(Colour::Yellow, s@),
        Val::Stakeholder(s) => painted(Colour::Yellow, s@),
        Val::List(_) => Seq::empty(),
        Val::Tree(_) => Seq::empty(),
    }
}

/// The full rendering of `v` at nesting level `level` with `size` columns
/// per level, as `fmt_pretty` writes it.
pub open spec fn rendered(v: Val, size: nat, level: nat) -> Seq<char>
    decreases v, 0nat, 0nat,
{
    match v {
        Val::List(vs) => rendered_list_from(vs, size, level, 0),
        Val::Tree(kvs) => rendered_tree_from(kvs, key_width_of(kvs@), size, level, 0),
        _ => rendered_terminal(v),
    }
}

/// The contribution of one child value, as `fmt_val` writes it: a terminal
/// inline after a single separating space, terminating the line; a
/// nonterminal starting on the following line at the level already raised
/// by the caller.
pub open spec fn rendered_entry(v: Val, size: nat, level: nat) -> Seq<char>
    decreases v, 1nat, 0nat,
{
    if is_terminal(v) {
        seq![' '] + rendered_terminal(v) + seq!['\n']
    } else {
        seq!['\n'] + rendered(v, size, level)
    }
}

/// The lines of the elements of `vs` from index `i` on: for each element in
/// order, the indentation, a bullet, and the element's contribution one
/// level deeper.
pub open spec fn rendered_list_from(vs: Vec<Val>, size: nat, level: nat, i: int) -> Seq<char>
    decreases vs, 2nat, vs@.len() - i,
{
    if 0 <= i < vs@.len() {
        spec_indent(size, level) + seq!['*'] + rendered_entry(vs@[i], size, level + 1)
            + rendered_list_from(vs, size, level, i + 1)
    } else {
        Seq::empty()
    }
}

/// The lines of the pairs of `kvs` from index `i` on: for each pair in
/// order, the indentation, the key label padded to `width`, and the value's
/// contribution one level deeper.
pub open spec fn rendered_tree_from(
    kvs: Vec<(Key, Val)>,
    width: nat,
    size: nat,
    level: nat,
    i: int,
) -> Seq<char>
    decreases kvs, 2nat, kvs@.len() - i,
{
    if 0 <= i < kvs@.len() {
        spec_indent(size, level) + spec_key(kvs@[i].0@, width) + rendered_entry(
            kvs@[i].1,
            size,
            level + 1,
        ) + rendered_tree_from(kvs, width, size, level, i + 1)
    } else {
        Seq::empty()
    }
}

/// The greatest character length among the keys of `ast`.
pub fn longest_key_length(ast: &Vec<(Key, Val)>) -> (r: usize)
    ensures
        r as nat == key_width_of(ast@),
{
    let mut longest: usize = 0;
    let mut i: usize = 0;
    while i < ast.len()
        invariant
            i <= ast@.len(),
            longest as nat == key_width_of(ast@.take(i as int)),
        decreases ast@.len() - i,
    {
        let l = ast[i].0.as_str().unicode_len();
        if l > longest {
            longest = l;
        }
        proof {
            assert(ast@.take(i + 1).drop_last() =~= ast@.take(i as int));
        }
        i = i + 1;
    }
    proof {
        assert(ast@.take(ast@.len() as int) =~= ast@);
    }
    longest
}

/// Append the indentation of one line at `indent_level` levels of
/// `indent_size` columns each.
pub fn fmt_indent(f: &mut String, indent_size: usize, indent_level: usize)
    ensures
        final(f)@ == old(f)@ + spec_indent(indent_size as nat, indent_level as nat),
{
    proof {
        assert(old(f)@ + spaces(0) =~= old(f)@);
    }
    let mut i: usize = 0;
    while i < indent_level
        invariant
            i <= indent_level,
            f@ == old(f)@ + spaces(indent_size as nat * i as nat),
        decreases indent_level - i,
    {
        push_spaces(f, indent_size);
        proof {
            assert(indent_size as nat * i as nat + indent_size as nat == indent_size as nat * (i
                + 1) as nat) by (nonlinear_arith);
            assert(old(f)@ + spaces(indent_size as nat * i as nat) + spaces(indent_size as nat)
                =~= old(f)@ + spaces(indent_size as nat * (i + 1) as nat));
        }
        i = i + 1;
    }
}

/// Append the label of one tree pair: a dash, the key left-padded to
/// `key_width` characters, a colon.
pub fn fmt_key(key: &Key, f: &mut String, key_width: usize)
    ensures
        final(f)@ == old(f)@ + spec_key(key@, key_width as nat),
{
    f.append("- ");
    f.append(key.as_str());
    let klen = key.as_str().unicode_len();
    let pad: usize = if klen >= key_width {
        0
    } else {
        key_width - klen
    };
    push_spaces(f, pad);
    f.append(":");
    proof {
        reveal_strlit("- ");
        reveal_strlit(":");
        assert("- "@ =~= seq!['-', ' ']);
        assert(":"@ =~= seq![':']);
        assert(f@ =~= old(f)@ + spec_key(key@, key_width as nat));
    }
}

/// Append the inline text of a terminal value.
fn fmt_terminal(p: &Val, f: &mut String)
    requires
        is_terminal(*p),
    ensures
        final(f)@ == old(f)@ + rendered_terminal(*p),
{
    match p {
        Val::Raw(s) => {
            f.append(s.as_str());
        },
        Val::Hash(h) => {
            let mut t = String::new();
            push_hex(&mut t, h);
            let painted_text = paint(Colour::Green, t.as_str());
            f.append(painted_text.as_str());
            proof {
                assert(Seq::<char>::empty() + hex_of(h@) =~= hex_of(h@));
            }
        },
        Val::Epoch(e) => {
            let mut t = String::new();
            push_dec(&mut t, *e);
            let painted_text = paint(Colour::Blue, t.as_str());
            f.append(painted_text.as_str());
            proof {
                assert(Seq::<char>::empty() + dec_of(*e as nat) =~= dec_of(*e as nat));
            }
        },
        Val::SlotId(s) => {
            let mut t = String::new();
            push_dec(&mut t, *s);
            let painted_text = paint(Colour::Purple, t.as_str());
            f.append(painted_text.as_str());
            proof {
                assert(Seq::<char>::empty() + dec_of(*s as nat) =~= dec_of(*s as nat));
            }
        },
        Val::BlockSig(s) => {
            let painted_text = paint(Colour::Cyan, s.as_str());
            f.append(painted_text.as_str());
        },
        Val::Signature(s) => {
            let painted_text = paint(Colour::Cyan, s.as_str());
            f.append(painted_text.as_str());
        },
        Val::XPub(s) => {
            let painted_text = paint(Colour::Yellow, s.as_str());
            f.append(painted_text.as_str());
        },
        Val::Stakeholder(s) => {
            let painted_text = paint(Colour::Yellow, s.as_str());
            f.append(painted_text.as_str());
        },
        Val::List(_) => {
            proof {
                assert(false);
            }
        },
        Val::Tree(_) => {
            proof {
                assert(false);
            }
        },
    }
}

/// Append the contribution of one child value: a terminal inline after a
/// single space, ending the line; a nonterminal starting on the next line.
pub fn fmt_val(val: &Val, f: &mut String, indent_size: usize, indent_level: usize)
    requires
        indent_level as nat + depth(*val) <= usize::MAX as nat,
    ensures
        final(f)@ == old(f)@ + rendered_entry(*val, indent_size as nat, indent_level as nat),
    decreases *val, 1nat, 0nat,
{
    proof {
        reveal_strlit(" ");
        reveal_strlit("\n");
        assert(" "@ =~= seq![' ']);
        assert("\n"@ =~= seq!['\n']);
    }
    match val {
        Val::List(_) | Val::Tree(_) => {
            f.append("\n");
            fmt_pretty(val, f, indent_size, indent_level);
            proof {
                assert(f@ =~= old(f)@ + rendered_entry(
                    *val,
                    indent_size as nat,
                    indent_level as nat,
                ));
            }
        },
        _ => {
            f.append(" ");
            fmt_terminal(val, f);
            f.append("\n");
            proof {
                assert(f@ =~= old(f)@ + rendered_entry(
                    *val,
                    indent_size as nat,
                    indent_level as nat,
                ));
            }
        },
    }
}

/// Append the full rendering of `p` at `indent_level`: a terminal is its
/// inline text; a `Tree` is one labelled line per pair, keys aligned to the
/// longest sibling key; a `List` is one bullet line per element.
pub fn fmt_pretty(p: &Val, f: &mut String, indent_size: usize, indent_level: usize)
    requires
        indent_level as nat + depth(*p) <= usize::MAX as nat,
    ensures
        final(f)@ == old(f)@ + rendered(*p, indent_size as nat, indent_level as nat),
    decreases *p, 0nat, 0nat,
{
    let ghost size = indent_size as nat;
    let ghost level = indent_level as nat;
    match p {
        Val::Tree(ast) => {
            let key_width = longest_key_length(ast);
            let ghost width = key_width as nat;
            let mut i: usize = 0;
            while i < ast.len()
                invariant
                    i <= ast@.len(),
                    size == indent_size as nat,
                    level == indent_level as nat,
                    indent_level as nat + depth(*p) <= usize::MAX as nat,
                    *p == Val::Tree(*ast),
                    width == key_width_of(ast@),
                    key_width as nat == width,
                    old(f)@ + rendered_tree_from(*ast, width, size, level, 0) == f@
                        + rendered_tree_from(*ast, width, size, level, i as int),
                decreases ast@.len() - i,
            {
                proof {
                    lemma_tree_depth_ge(*ast, 0, i as int);
                }
                let ghost f0 = f@;
                fmt_indent(f, indent_size, indent_level);
                fmt_key(&ast[i].0, f, key_width);
                fmt_val(&ast[i].1, f, indent_size, indent_level + 1);
                proof {
                    assert(f@ =~= f0 + (spec_indent(size, level) + spec_key(ast@[i as int].0@, width)
                        + rendered_entry(ast@[i as int].1, size, (indent_level + 1) as nat)));
                    assert((indent_level + 1) as nat == level + 1);
                    assert(f0 + (spec_indent(size, level) + spec_key(ast@[i as int].0@, width)
                        + rendered_entry(ast@[i as int].1, size, level + 1)) + rendered_tree_from(
                        *ast,
                        width,
                        size,
                        level,
                        i + 1,
                    ) =~= f0 + rendered_tree_from(*ast, width, size, level, i as int));
                }
                i = i + 1;
            }
            proof {
                assert(f@ + rendered_tree_from(*ast, width, size, level, ast@.len() as int) =~= f@);
            }
        },
        Val::List(vals) => {
            proof {
                reveal_strlit("*");
                assert("*"@ =~= seq!['*']);
            }
            let mut i: usize = 0;
            while i < vals.len()
                invariant
                    i <= vals@.len(),
                    size == indent_size as nat,
                    level == indent_level as nat,
                    indent_level as nat + depth(*p) <= usize::MAX as nat,
                    *p == Val::List(*vals),
                    "*"@ =~= seq!['*'],
                    old(f)@ + rendered_list_from(*vals, size, level, 0) == f@ + rendered_list_from(
                        *vals,
                        size,
                        level,
                        i as int,
                    ),
                decreases vals@.len() - i,
            {
                proof {
                    lemma_list_depth_ge(*vals, 0, i as int);
                }
                let ghost f0 = f@;
                fmt_indent(f, indent_size, indent_level);
                f.append("*");
                fmt_val(&vals[i], f, indent_size, indent_level + 1);
                proof {
                    assert(f@ =~= f0 + (spec_indent(size, level) + seq!['*'] + rendered_entry(
                        vals@[i as int],
                        size,
                        (indent_level + 1) as nat,
                    )));
                    assert((indent_level + 1) as nat == level + 1);
                    assert(f0 + (spec_indent(size, level) + seq!['*'] + rendered_entry(
                        vals@[i as int],
                        size,
                        level + 1,
                    )) + rendered_list_from(*vals, size, level, i + 1) =~= f0 + rendered_list_from(
                        *vals,
                        size,
                        level,
                        i as int,
                    ));
                }
                i = i + 1;
            }
            proof {
                assert(f@ + rendered_list_from(*vals, size, level, vals@.len() as int) =~= f@);
            }
        },
        _ => {
            fmt_terminal(p, f);
        },
    }
}

/// Render `v` into a fresh text buffer: the render entry point.
pub fn render(v: &Val, indent_size: usize, indent_level: usize) -> (r: String)
    requires
        indent_level as nat + depth(*v) <= usize::MAX as nat,
    ensures
        r@ == rendered(*v, indent_size as nat, indent_level as nat),
{
    let mut f = String::new();
    fmt_pretty(v, &mut f, indent_size, indent_level);
    proof {
        assert(Seq::<char>::empty() + rendered(*v, indent_size as nat, indent_level as nat)
            =~= rendered(*v, indent_size as nat, indent_level as nat));
    }
    f
}

impl Val {
    /// Render with the default configuration: four columns per level,
    /// starting at level zero.
    pub fn to_text(&self) -> (r: String)
        requires
            depth(*self) <= usize::MAX as nat,
        ensures
            r@ == rendered(*self, DISPLAY_INDENT_SIZE as nat, DISPLAY_INDENT_LEVEL as nat),
    {
        render(self, DISPLAY_INDENT_SIZE, DISPLAY_INDENT_LEVEL)
    }
}

} // verus!
