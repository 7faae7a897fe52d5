//! Laws of the renderer, stated over the spec functions that the exec
//! functions' contracts use and proved once for all documents.

use vstd::prelude::*;

use crate::colour::{painted, Colour};
use crate::doc::{has_entries, is_terminal, Key, Val};
use crate::render::{
    key_width_of, rendered, rendered_entry, rendered_list_from, rendered_terminal,
    rendered_tree_from, spec_indent, spec_key,
};
use crate::text::{hex_of, spaces};

verus! {

/// One line of a tree whose child value is a terminal: the indentation, the
/// padded key label, one separating space, the value's inline text, and a
/// newline.
pub open spec fn flat_tree_line(
    key: Seq<char>,
    value_text: Seq<char>,
    width: nat,
    size: nat,
    level: nat,
) -> Seq<char> {
    spec_indent(size, level) + spec_key(key, width) + seq![' '] + value_text + seq!['\n']
}

/// The lines of the pairs of `kvs` from index `i` on, each in the flat
/// one-line form.
pub open spec fn flat_tree_lines_from(
    kvs: Vec<(Key, Val)>,
    width: nat,
    size: nat,
    level: nat,
    i: int,
) -> Seq<char>
    decreases kvs@.len() - i,
{
    if 0 <= i < kvs@.len() {
        flat_tree_line(kvs@[i].0@, rendered_terminal(kvs@[i].1), width, size, level)
            + flat_tree_lines_from(kvs, width, size, level, i + 1)
    } else {
        Seq::empty()
    }
}

proof fn lemma_flat_tree_from(kvs: Vec<(Key, Val)>, width: nat, size: nat, level: nat, i: int)
    requires
        0 <= i <= kvs@.len(),
        forall|j: int| 0 <= j < kvs@.len() ==> is_terminal(#[trigger] kvs@[j].1),
    ensures
        rendered_tree_from(kvs, width, size, level, i) == flat_tree_lines_from(
            kvs,
            width,
            size,
            level,
            i,
        ),
    decreases kvs@.len() - i,
{
    if i < kvs@.len() {
        lemma_flat_tree_from(kvs, width, size, level, i + 1);
        assert(is_terminal(kvs@[i].1));
        assert(rendered_entry(kvs@[i].1, size, level + 1) == seq![' '] + rendered_terminal(
            kvs@[i].1,
        ) + seq!['\n']);
        assert(rendered_tree_from(kvs, width, size, level, i) =~= flat_tree_lines_from(
            kvs,
            width,
            size,
            level,
            i,
        ));
    }
}

/// Law: each flat tree line is one line: when neither the key nor the
/// value's inline text contains a newline, the only newline of the line is
/// its final character.
pub proof fn lemma_flat_tree_line_is_one_line(
    key: Seq<char>,
    value_text: Seq<char>,
    width: nat,
    size: nat,
    level: nat,
)
    requires
        forall|i: int| 0 <= i < key.len() ==> key[i] != '\n',
        forall|i: int| 0 <= i < value_text.len() ==> value_text[i] != '\n',
    ensures
        flat_tree_line(key, value_text, width, size, level).len() > 0,
        flat_tree_line(key, value_text, width, size, level).last() == '\n',
        forall|i: int|
            0 <= i < flat_tree_line(key, value_text, width, size, level).len() - 1
                ==> flat_tree_line(key, value_text, width, size, level)[i] != '\n',
{
    let l = flat_tree_line(key, value_text, width, size, level);
    let head = spec_indent(size, level) + spec_key(key, width) + seq![' '] + value_text;
    assert(l == head + seq!['\n']);
    assert forall|i: int| 0 <= i < l.len() - 1 implies l[i] != '\n' by {
        assert(l[i] == head[i]);
        assert(head[i] != '\n');
    }
}

/// Law: a `Tree` all of whose children are terminals renders as exactly one
/// line per pair, in input order. Each line is the indentation, a dash, the
/// key left-padded to the greatest character length among this tree's own
/// keys, a colon, one space, the child's inline text, and a newline; neither
/// the values nor any other tree influence the key column width.
pub proof fn lemma_flat_tree(kvs: Vec<(Key, Val)>, size: nat, level: nat)
    requires
        forall|j: int| 0 <= j < kvs@.len() ==> is_terminal(#[trigger] kvs@[j].1),
    ensures
        rendered(Val::Tree(kvs), size, level) == flat_tree_lines_from(
            kvs,
            key_width_of(kvs@),
            size,
            level,
            0,
        ),
{
    lemma_flat_tree_from(kvs, key_width_of(kvs@), size, level, 0);
}

/// Law: the first line of a nonempty nonterminal rendered at `level` is
/// indented exactly `size * level` spaces and carries its marker right after
/// them — `*` for a list bullet, `-` for a key label. A child value stands
/// at its parent's level plus one, so its first line is indented exactly one
/// indent unit further than the parent's key or bullet line.
pub proof fn lemma_first_line_indent(v: Val, size: nat, level: nat)
    requires
        has_entries(v),
    ensures
        rendered(v, size, level).len() > size * level,
        rendered(v, size, level).take((size * level) as int) == spaces(size * level),
        rendered(v, size, level)[(size * level) as int] == (if v is List {
            '*'
        } else {
            '-'
        }),
{
    match v {
        Val::List(vs) => {
            assert(rendered(v, size, level) == spec_indent(size, level) + seq!['*']
                + rendered_entry(vs@[0], size, level + 1) + rendered_list_from(
                vs,
                size,
                level,
                1,
            ));
            assert(rendered(v, size, level).take((size * level) as int) =~= spaces(size * level));
        },
        Val::Tree(kvs) => {
            let width = key_width_of(kvs@);
            assert(rendered(v, size, level) == spec_indent(size, level) + spec_key(
                kvs@[0].0@,
                width,
            ) + rendered_entry(kvs@[0].1, size, level + 1) + rendered_tree_from(
                kvs,
                width,
                size,
                level,
                1,
            ));
            assert(rendered(v, size, level).take((size * level) as int) =~= spaces(size * level));
        },
        _ => {
        },
    }
}

/// Law: an empty `List` or empty `Tree` renders no characters at all; as
/// the value of a parent pair or bullet it still gets the parent's line,
/// whose contribution then ends right after the marker with the newline.
pub proof fn lemma_empty_nonterminal(v: Val, size: nat, level: nat)
    requires
        !is_terminal(v),
        !has_entries(v),
    ensures
        rendered(v, size, level) == Seq::<char>::empty(),
        rendered_entry(v, size, level) == seq!['\n'],
{
    assert(rendered(v, size, level) =~= Seq::<char>::empty());
    assert(seq!['\n'] + rendered(v, size, level) =~= seq!['\n']);
}

/// Law: rendering is deterministic. Any two outputs of rendering the same
/// document with the same indent configuration — what `render`'s contract
/// pins each output to — are identical, character for character.
pub proof fn lemma_render_deterministic(
    v: Val,
    size: nat,
    level: nat,
    a: Seq<char>,
    b: Seq<char>,
)
    requires
        a == rendered(v, size, level),
        b == rendered(v, size, level),
    ensures
        a == b,
{
}

/// Law: the category→colour table is fixed. A hash terminal renders as its
/// bytes in lowercase hexadecimal wrapped in green, whatever the indent
/// configuration, the nesting level or the surrounding document.
pub proof fn lemma_hash_always_green(h: Vec<u8>, size: nat, level: nat)
    ensures
        rendered(Val::Hash(h), size, level) == painted(Colour::Green, hex_of(h@)),
        rendered_entry(Val::Hash(h), size, level) == seq![' '] + painted(
            Colour::Green,
            hex_of(h@),
        ) + seq!['\n'],
{
}

} // verus!
