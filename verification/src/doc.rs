//! The recursive document model.
//!
//! A [`Val`] is either a *terminal* (rendered inline on one line) or a
//! *nonterminal* (`List` or `Tree`, rendered starting on the next line with
//! one more level of indentation). Semantic terminal kinds carry the plain
//! value the renderer reads: hash bytes, epoch and slot numbers, and the
//! textual form of signatures and actor identifiers.

use vstd::prelude::*;

verus! {

/// A label of a `Tree` child.
pub type Key = String;

/// The recursive document value rendered by this crate.
pub enum Val {
    // terminals
    Raw(String),
    Hash(Vec<u8>),
    //// numbers
    Epoch(u32),
    SlotId(u32),
    //// signatures
    BlockSig(String),
    Signature(String),
    //// actor ids
    XPub(String),
    Stakeholder(String),

    // recursive
    List(Vec<Val>),
    Tree(Vec<(Key, Val)>),
}

/// A terminal renders inline on its parent's line; `List` and `Tree` are the
/// only nonterminal kinds.
pub open spec fn is_terminal(v: Val) -> bool {
    !(v is List || v is Tree)
}

/// A nonterminal with at least one element or pair.
pub open spec fn has_entries(v: Val) -> bool {
    match v {
        Val::List(vs) => vs@.len() > 0,
        Val::Tree(kvs) => kvs@.len() > 0,
        _ => false,
    }
}

/// The conversion contract: a domain type produces a document from its
/// value. Conversion is total, pure and side-effect free; a struct-like
/// value becomes a `Tree` of its fields in reading order, a sequence-like
/// value a `List` in source order, a variant a single-entry `Tree` keyed by
/// the variant's name, and anything without a dedicated shape degrades to
/// `Raw` (see [`from_debug`]). Each implementation says in `pretty_ok`
/// which document its values convert to, and `to_pretty` promises exactly
/// that.
pub trait Pretty {
    /// The document that conversion produces from this value. The default
    /// fixes nothing, for implementations outside this crate; the
    /// implementations here override it with the exact document.
    open spec fn pretty_ok(&self, v: Val) -> bool {
        true
    }

    fn to_pretty(&self) -> (v: Val)
        ensures
            self.pretty_ok(v),
    ;
}

/// Fallback conversion for a value without a dedicated document shape:
/// its debug dump as an unstyled `Raw`, marked as provisional. Callers pass
/// the value's debug representation.
pub fn from_debug(d: &str) -> (v: Val)
    ensures
        v matches Val::Raw(t) && t@ == "TODO "@ + d@,
{
    let mut t: String = "TODO ".to_owned();
    t.append(d);
    Val::Raw(t)
}

/// Conversion for a value whose canonical textual form is already the right
/// rendering: that text as an unstyled `Raw`. Callers pass the value's
/// display representation.
pub fn from_display(d: &str) -> (v: Val)
    ensures
        v matches Val::Raw(t) && t@ == d@,
{
    Val::Raw(d.to_owned())
}

/// An epoch number.
pub type EpochId = u32;

/// A slot position in the chain: an epoch and the slot number inside it.
pub struct SlotId {
    pub epoch: EpochId,
    pub slotid: u32,
}

impl Pretty for EpochId {
    /// An epoch number converts to its semantic terminal, unchanged.
    open spec fn pretty_ok(&self, v: Val) -> bool {
        v == Val::Epoch(*self)
    }

    fn to_pretty(&self) -> Val {
        Val::Epoch(*self)
    }
}

impl Pretty for SlotId {
    /// A slot position converts to a two-pair `Tree`, epoch first, both
    /// numbers carried over unchanged into their semantic terminal kinds.
    open spec fn pretty_ok(&self, v: Val) -> bool {
        &&& v matches Val::Tree(kvs)
        &&& kvs@.len() == 2
        &&& kvs@[0].0@ == "epoch"@
        &&& kvs@[0].1 == Val::Epoch(self.epoch)
        &&& kvs@[1].0@ == "slot id"@
        &&& kvs@[1].1 == Val::SlotId(self.slotid)
    }

    fn to_pretty(&self) -> Val {
        let mut kvs: Vec<(Key, Val)> = Vec::new();
        kvs.push(("epoch".to_owned(), self.epoch.to_pretty()));
        kvs.push(("slot id".to_owned(), Val::SlotId(self.slotid)));
        Val::Tree(kvs)
    }
}

/// Nesting depth of a document: terminals have depth zero, a nonterminal is
/// one deeper than its deepest child.
pub open spec fn depth(v: Val) -> nat
    decreases v, 0nat, 0nat,
{
    match v {
        Val::List(vs) => 1 + list_depth(vs, 0),
        Val::Tree(kvs) => 1 + tree_depth(kvs, 0),
        _ => 0,
    }
}

/// Greatest depth among the elements of `vs` from index `i` on.
pub open spec fn list_depth(vs: Vec<Val>, i: int) -> nat
    decreases vs, 1nat, vs@.len() - i,
{
    if 0 <= i < vs@.len() {
        let d = depth(vs@[i]);
        let rest = list_depth(vs, i + 1);
        if d > rest {
            d
        } else {
            rest
        }
    } else {
        0
    }
}

/// Greatest depth among the child values of `kvs` from index `i` on.
pub open spec fn tree_depth(kvs: Vec<(Key, Val)>, i: int) -> nat
    decreases kvs, 1nat, kvs@.len() - i,
{
    if 0 <= i < kvs@.len() {
        let d = depth(kvs@[i].1);
        let rest = tree_depth(kvs, i + 1);
        if d > rest {
            d
        } else {
            rest
        }
    } else {
        0
    }
}

/// `list_depth` bounds the depth of every element it ranges over.
pub proof fn lemma_list_depth_ge(vs: Vec<Val>, i: int, j: int)
    requires
        0 <= i <= j < vs@.len(),
    ensures
        list_depth(vs, i) >= depth(vs@[j]),
    decreases j - i,
{
    if i < j {
        lemma_list_depth_ge(vs, i + 1, j);
    }
}

/// `tree_depth` bounds the depth of every child value it ranges over.
pub proof fn lemma_tree_depth_ge(kvs: Vec<(Key, Val)>, i: int, j: int)
    requires
        0 <= i <= j < kvs@.len(),
    ensures
        tree_depth(kvs, i) >= depth(kvs@[j].1),
    decreases j - i,
{
    if i < j {
        lemma_tree_depth_ge(kvs, i + 1, j);
    }
}

} // verus!
