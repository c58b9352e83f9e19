//! The trace decoder: annotation and rendering of a call-trace tree.
//!
//! The execution backend reports one trace per top-level call as a flat
//! arena in depth-first pre-order, each node carrying its nesting depth.
//! Decoding enriches each node with a best-effort address label and a
//! resolved function signature, both handed in as plain lookup tables by
//! whoever performed the (network or cache) resolution, and renders the
//! whole tree as one text block, children indented under their parent.

use vstd::prelude::*;

use crate::types::Address;
use crate::types::U256;

verus! {

/// The kind of a call-trace node.
#[derive(Clone, Copy, PartialEq, Eq, Structural, Debug)]
pub enum CallKind {
    Call,
    StaticCall,
    CallCode,
    DelegateCall,
    Create,
    Create2,
}

/// One node of a raw call trace, as the execution backend reports it:
/// `depth` is the nesting depth within the tree, nodes listed in
/// depth-first pre-order.
#[derive(Clone, Copy, PartialEq, Eq, Structural, Debug)]
pub struct TraceNode {
    pub kind: CallKind,
    pub depth: u64,
    pub from: Address,
    pub to: Address,
    pub value: U256,
    /// The four-byte function selector of the call data, when present.
    pub selector: Option<u32>,
}

/// The read-only projection of a trace node that the boundary layer
/// reports to clients.
#[derive(Clone, Copy, PartialEq, Eq, Structural, Debug)]
pub struct CallTrace {
    pub call_type: CallKind,
    pub from: Address,
    pub to: Address,
    pub value: U256,
}

impl From<TraceNode> for CallTrace {
    fn from(item: TraceNode) -> (r: CallTrace) {
        CallTrace { call_type: item.kind, from: item.from, to: item.to, value: item.value }
    }
}

impl vstd::std_specs::convert::FromSpecImpl<TraceNode> for CallTrace {
    open spec fn obeys_from_spec() -> bool {
        true
    }

    open spec fn from_spec(item: TraceNode) -> CallTrace {
        CallTrace { call_type: item.kind, from: item.from, to: item.to, value: item.value }
    }
}

/// A trace node enriched with whatever the identifier providers resolved.
#[derive(Debug)]
pub struct DecodedNode {
    pub node: TraceNode,
    /// A known label of the callee, when the address labeler had one.
    pub label: Option<String>,
    /// A human-readable signature of the called function, when the
    /// signature resolver had one for the node's selector.
    pub signature: Option<String>,
}

pub struct DecodedNodeView {
    pub node: TraceNode,
    pub label: Option<Seq<char>>,
    pub signature: Option<Seq<char>>,
}

impl View for DecodedNode {
    type V = DecodedNodeView;

    open spec fn view(&self) -> DecodedNodeView {
        DecodedNodeView {
            node: self.node,
            label: match self.label {
                Some(l) => Some(l@),
                None => None,
            },
            signature: match self.signature {
                Some(s) => Some(s@),
                None => None,
            },
        }
    }
}

pub open spec fn opt_str_view(o: Option<String>) -> Option<Seq<char>> {
    match o {
        Some(s) => Some(s@),
        None => None,
    }
}

pub open spec fn labels_view(s: Seq<(Address, String)>) -> Seq<(Address, Seq<char>)> {
    s.map_values(|p: (Address, String)| (p.0, p.1@))
}

pub open spec fn signatures_view(s: Seq<(u32, String)>) -> Seq<(u32, Seq<char>)> {
    s.map_values(|p: (u32, String)| (p.0, p.1@))
}

/// First match wins, as in an ordered resolver table.
pub open spec fn lookup_label(table: Seq<(Address, Seq<char>)>, a: Address) -> Option<Seq<char>>
    decreases table.len(),
{
    if table.len() == 0 {
        None
    } else if table[0].0 == a {
        Some(table[0].1)
    } else {
        lookup_label(table.drop_first(), a)
    }
}

pub open spec fn lookup_signature(table: Seq<(u32, Seq<char>)>, sel: u32) -> Option<Seq<char>>
    decreases table.len(),
{
    if table.len() == 0 {
        None
    } else if table[0].0 == sel {
        Some(table[0].1)
    } else {
        lookup_signature(table.drop_first(), sel)
    }
}

/// What decoding makes of one raw node: the node itself, its callee's
/// label when the labeler resolved one, and the signature of its selector
/// when the resolver knew it. An unresolved side stays `None` and the
/// rendering falls back to raw hex.
pub open spec fn annotated(
    n: TraceNode,
    labels: Seq<(Address, Seq<char>)>,
    signatures: Seq<(u32, Seq<char>)>,
) -> DecodedNodeView {
    DecodedNodeView {
        node: n,
        label: lookup_label(labels, n.to),
        signature: match n.selector {
            Some(sel) => lookup_signature(signatures, sel),
            None => None,
        },
    }
}

/// Looks an address up in the label table; `None` when the labeler had
/// nothing for it.
pub fn find_label(table: &Vec<(Address, String)>, a: Address) -> (r: Option<String>)
    ensures
        opt_str_view(r) == lookup_label(labels_view(table@), a),
{
    let ghost tv = labels_view(table@);
    proof {
        assert(tv.skip(0) =~= tv);
    }
    let mut i: usize = 0;
    while i < table.len()
        invariant
            i <= table@.len(),
            tv == labels_view(table@),
            tv.len() == table@.len(),
            lookup_label(tv, a) == lookup_label(tv.skip(i as int), a),
        decreases table@.len() - i,
    {
        proof {
            assert(tv.skip(i as int)[0] == tv[i as int]);
            assert(tv[i as int] == (table@[i as int].0, table@[i as int].1@));
        }
        if table[i].0 == a {
            return Some(table[i].1.clone());
        }
        proof {
            assert(tv.skip(i as int).drop_first() =~= tv.skip(i + 1));
        }
        i = i + 1;
    }
    proof {
        assert(tv.skip(table@.len() as int) =~= Seq::<(Address, Seq<char>)>::empty());
    }
    None
}

/// Looks a selector up in the signature table; `None` when unresolved.
pub fn find_signature(table: &Vec<(u32, String)>, sel: u32) -> (r: Option<String>)
    ensures
        opt_str_view(r) == lookup_signature(signatures_view(table@), sel),
{
    let ghost tv = signatures_view(table@);
    proof {
        assert(tv.skip(0) =~= tv);
    }
    let mut i: usize = 0;
    while i < table.len()
        invariant
            i <= table@.len(),
            tv == signatures_view(table@),
            tv.len() == table@.len(),
            lookup_signature(tv, sel) == lookup_signature(tv.skip(i as int), sel),
        decreases table@.len() - i,
    {
        proof {
            assert(tv.skip(i as int)[0] == tv[i as int]);
            assert(tv[i as int] == (table@[i as int].0, table@[i as int].1@));
        }
        if table[i].0 == sel {
            return Some(table[i].1.clone());
        }
        proof {
            assert(tv.skip(i as int).drop_first() =~= tv.skip(i + 1));
        }
        i = i + 1;
    }
    proof {
        assert(tv.skip(table@.len() as int) =~= Seq::<(u32, Seq<char>)>::empty());
    }
    None
}

/// The hex digit seq of one nibble.
pub open spec fn hex_digit(n: int) -> Seq<char> {
    if n == 0 {
        "0"@
    } else if n == 1 {
        "1"@
    } else if n == 2 {
        "2"@
    } else if n == 3 {
        "3"@
    } else if n == 4 {
        "4"@
    } else if n == 5 {
        "5"@
    } else if n == 6 {
        "6"@
    } else if n == 7 {
        "7"@
    } else if n == 8 {
        "8"@
    } else if n == 9 {
        "9"@
    } else if n == 10 {
        "a"@
    } else if n == 11 {
        "b"@
    } else if n == 12 {
        "c"@
    } else if n == 13 {
        "d"@
    } else {
        if n == 14 {
            "e"@
        } else {
            "f"@
        }
    }
}

/// `width` hex digits of `v`, most significant first.
pub open spec fn hex_of(v: int, width: int) -> Seq<char>
    decreases width,
{
    if width <= 0 {
        Seq::empty()
    } else {
        hex_of(v / 16, width - 1) + hex_digit(v % 16)
    }
}

pub open spec fn addr_hex(a: Address) -> Seq<char> {
    hex_of(a.hi as int, 8) + hex_of(a.lo as int, 32)
}

pub open spec fn word_hex(v: U256) -> Seq<char> {
    hex_of(v.hi as int, 32) + hex_of(v.lo as int, 32)
}

/// Appends `width` hex digits of `v`, most significant first.
fn push_hex(out: &mut String, v: u128, width: u32) -> (nothing: ())
    ensures
        final(out)@ == old(out)@ + hex_of(v as int, width as int),
    decreases width,
{
    if width == 0 {
        proof {
            assert(old(out)@ + hex_of(v as int, 0) =~= old(out)@);
        }
        return ;
    }
    push_hex(out, v / 16, width - 1);
    let nib: u128 = v % 16;
    match nib {
        0 => out.append("0"),
        1 => out.append("1"),
        2 => out.append("2"),
        3 => out.append("3"),
        4 => out.append("4"),
        5 => out.append("5"),
        6 => out.append("6"),
        7 => out.append("7"),
        8 => out.append("8"),
        9 => out.append("9"),
        10 => out.append("a"),
        11 => out.append("b"),
        12 => out.append("c"),
        13 => out.append("d"),
        14 => out.append("e"),
        _ => out.append("f"),
    }
    proof {
        assert(final(out)@ =~= old(out)@ + hex_of(v as int, width as int));
    }
}

pub open spec fn kind_text(k: CallKind) -> Seq<char> {
    match k {
        CallKind::Call => "CALL"@,
        CallKind::StaticCall => "STATICCALL"@,
        CallKind::CallCode => "CALLCODE"@,
        CallKind::DelegateCall => "DELEGATECALL"@,
        CallKind::Create => "CREATE"@,
        CallKind::Create2 => "CREATE2"@,
    }
}

pub open spec fn spaces(n: int) -> Seq<char>
    decreases n,
{
    if n <= 0 {
        Seq::empty()
    } else {
        spaces(n - 1) + " "@
    }
}

/// What the callee renders as: its label when resolved, raw hex otherwise.
pub open spec fn callee_text(d: DecodedNodeView) -> Seq<char> {
    match d.label {
        Some(l) => l,
        None => "0x"@ + addr_hex(d.node.to),
    }
}

/// The signature part of a line: the resolved name, the raw selector in
/// hex when unresolved, nothing when the node carried no selector.
pub open spec fn signature_text(d: DecodedNodeView) -> Seq<char> {
    match d.signature {
        Some(s) => " "@ + s,
        None => match d.node.selector {
            Some(sel) => " 0x"@ + hex_of(sel as int, 8),
            None => Seq::empty(),
        },
    }
}

/// One rendered line: indentation by depth, the call kind, caller, callee,
/// transferred value, and the signature part, ended by a newline.
pub open spec fn node_text(d: DecodedNodeView) -> Seq<char> {
    spaces(2 * d.node.depth as int) + kind_text(d.node.kind) + " 0x"@ + addr_hex(d.node.from)
        + " -> "@ + callee_text(d) + " value 0x"@ + word_hex(d.node.value) + signature_text(d)
        + "\n"@
}

/// The whole rendered block: the lines of the nodes in arena order, which
/// is depth-first pre-order.
pub open spec fn rendered(nodes: Seq<DecodedNodeView>) -> Seq<char>
    decreases nodes.len(),
{
    if nodes.len() == 0 {
        Seq::empty()
    } else {
        rendered(nodes.drop_last()) + node_text(nodes.last())
    }
}

/// Rendering distributes over concatenation: the text of a tree is the
/// text of its front part followed by the text of the rest, so every node
/// contributes exactly one block, in order.
pub proof fn lemma_rendered_concat(a: Seq<DecodedNodeView>, b: Seq<DecodedNodeView>)
    ensures
        rendered(a + b) == rendered(a) + rendered(b),
    decreases b.len(),
{
    if b.len() == 0 {
        assert(a + b =~= a);
        assert(rendered(a) + rendered(b) =~= rendered(a));
    } else {
        lemma_rendered_concat(a, b.drop_last());
        assert((a + b).drop_last() =~= a + b.drop_last());
        assert((a + b).last() == b.last());
        assert(rendered(a) + rendered(b.drop_last()) + node_text(b.last()) =~= rendered(a) + (
        rendered(b.drop_last()) + node_text(b.last())));
    }
}

/// Every node contributes exactly one block to the rendered text, at the
/// place its arena position — depth-first pre-order — gives it: the text
/// splits around any node into the text before it, its own line, and the
/// text after it.
pub proof fn lemma_rendered_one_block_per_node(nodes: Seq<DecodedNodeView>, i: int)
    requires
        0 <= i < nodes.len(),
    ensures
        rendered(nodes) == rendered(nodes.take(i)) + node_text(nodes[i]) + rendered(
            nodes.skip(i + 1),
        ),
{
    let one = seq![nodes[i]];
    assert(nodes =~= nodes.take(i) + one + nodes.skip(i + 1));
    lemma_rendered_concat(nodes.take(i) + one, nodes.skip(i + 1));
    lemma_rendered_concat(nodes.take(i), one);
    assert(one.drop_last() =~= Seq::<DecodedNodeView>::empty());
    assert(rendered(Seq::<DecodedNodeView>::empty()) == Seq::<char>::empty());
    assert(rendered(one) =~= node_text(nodes[i]));
}

/// Appends the indentation of a node at the given depth.
fn push_indent(out: &mut String, depth: u64) -> (nothing: ())
    ensures
        final(out)@ == old(out)@ + spaces(2 * depth as int),
{
    let mut j: u64 = 0;
    while j < depth
        invariant
            j <= depth,
            out@ == old(out)@ + spaces(2 * j as int),
        decreases depth - j,
    {
        out.append(" ");
        out.append(" ");
        proof {
            assert(spaces(2 * j as int + 1) == spaces(2 * j as int) + " "@);
            assert(spaces(2 * j as int + 2) == spaces(2 * j as int + 1) + " "@);
            assert(old(out)@ + spaces(2 * j as int) + " "@ + " "@ =~= old(out)@ + spaces(
                2 * (j + 1) as int,
            ));
        }
        j = j + 1;
    }
}

/// Appends the name of the call kind.
fn push_kind(out: &mut String, k: CallKind) -> (nothing: ())
    ensures
        final(out)@ == old(out)@ + kind_text(k),
{
    match k {
        CallKind::Call => out.append("CALL"),
        CallKind::StaticCall => out.append("STATICCALL"),
        CallKind::CallCode => out.append("CALLCODE"),
        CallKind::DelegateCall => out.append("DELEGATECALL"),
        CallKind::Create => out.append("CREATE"),
        CallKind::Create2 => out.append("CREATE2"),
    }
}

/// Appends the forty hex digits of an address.
fn push_addr_hex(out: &mut String, a: Address) -> (nothing: ())
    ensures
        final(out)@ == old(out)@ + addr_hex(a),
{
    push_hex(out, a.hi as u128, 8);
    push_hex(out, a.lo, 32);
    proof {
        assert(final(out)@ =~= old(out)@ + addr_hex(a));
    }
}

/// Appends the sixty-four hex digits of a word.
fn push_word_hex(out: &mut String, v: U256) -> (nothing: ())
    ensures
        final(out)@ == old(out)@ + word_hex(v),
{
    push_hex(out, v.hi, 32);
    push_hex(out, v.lo, 32);
    proof {
        assert(final(out)@ =~= old(out)@ + word_hex(v));
    }
}

/// Appends the callee part: the label when resolved, hex otherwise.
fn push_callee(out: &mut String, d: &DecodedNode) -> (nothing: ())
    ensures
        final(out)@ == old(out)@ + callee_text(d@),
{
    match &d.label {
        Some(l) => out.append(l.as_str()),
        None => {
            out.append("0x");
            push_addr_hex(out, d.node.to);
            proof {
                assert(final(out)@ =~= old(out)@ + ("0x"@ + addr_hex(d@.node.to)));
            }
        },
    }
}

/// Appends the signature part: the resolved name, the raw selector, or
/// nothing.
fn push_signature(out: &mut String, d: &DecodedNode) -> (nothing: ())
    ensures
        final(out)@ == old(out)@ + signature_text(d@),
{
    match &d.signature {
        Some(s) => {
            out.append(" ");
            out.append(s.as_str());
            proof {
                assert(final(out)@ =~= old(out)@ + (" "@ + s@));
            }
        },
        None => {
            match d.node.selector {
                Some(sel) => {
                    out.append(" 0x");
                    push_hex(out, sel as u128, 8);
                    proof {
                        assert(final(out)@ =~= old(out)@ + (" 0x"@ + hex_of(sel as int, 8)));
                    }
                },
                None => {
                    proof {
                        assert(old(out)@ + signature_text(d@) =~= old(out)@);
                    }
                },
            }
        },
    }
}

/// Appends the rendered line of one decoded node.
#[verifier::rlimit(50)]
fn push_node_text(out: &mut String, d: &DecodedNode) -> (nothing: ())
    ensures
        final(out)@ == old(out)@ + node_text(d@),
{
    push_indent(out, d.node.depth);
    push_kind(out, d.node.kind);
    out.append(" 0x");
    push_addr_hex(out, d.node.from);
    out.append(" -> ");
    push_callee(out, d);
    out.append(" value 0x");
    push_word_hex(out, d.node.value);
    push_signature(out, d);
    out.append("\n");
    proof {
        assert(final(out)@ =~= old(out)@ + node_text(d@));
    }
}

pub open spec fn decoded_views(nodes: Seq<DecodedNode>) -> Seq<DecodedNodeView> {
    nodes.map_values(|d: DecodedNode| d@)
}

/// What the whole decoding step yields for a raw arena and the two
/// resolver tables.
pub open spec fn annotated_all(
    nodes: Seq<TraceNode>,
    labels: Seq<(Address, Seq<char>)>,
    signatures: Seq<(u32, Seq<char>)>,
) -> Seq<DecodedNodeView> {
    nodes.map_values(|n: TraceNode| annotated(n, labels, signatures))
}

/// Decodes a raw trace arena: annotates every node with the resolved
/// label and signature, and renders the whole tree as one text block, one
/// line per node in depth-first pre-order.
pub fn decode_trace(
    nodes: &Vec<TraceNode>,
    labels: &Vec<(Address, String)>,
    signatures: &Vec<(u32, String)>,
) -> (r: (Vec<DecodedNode>, String))
    ensures
        decoded_views(r.0@) == annotated_all(
            nodes@,
            labels_view(labels@),
            signatures_view(signatures@),
        ),
        r.1@ == rendered(annotated_all(nodes@, labels_view(labels@), signatures_view(signatures@))),
{
    let ghost target = annotated_all(nodes@, labels_view(labels@), signatures_view(signatures@));
    let mut decoded: Vec<DecodedNode> = Vec::new();
    let mut text = String::new();
    let mut i: usize = 0;
    while i < nodes.len()
        invariant
            i <= nodes@.len(),
            target == annotated_all(nodes@, labels_view(labels@), signatures_view(signatures@)),
            target.len() == nodes@.len(),
            decoded_views(decoded@) =~= target.take(i as int),
            text@ == rendered(target.take(i as int)),
        decreases nodes@.len() - i,
    {
        let n = nodes[i];
        let label = find_label(labels, n.to);
        let signature = match n.selector {
            Some(sel) => find_signature(signatures, sel),
            None => None,
        };
        let d = DecodedNode { node: n, label, signature };
        proof {
            assert(d@ == target[i as int]);
            assert(target.take(i + 1).drop_last() =~= target.take(i as int));
        }
        push_node_text(&mut text, &d);
        decoded.push(d);
        proof {
            assert(decoded_views(decoded@) =~= target.take(i + 1));
        }
        i = i + 1;
    }
    proof {
        assert(target.take(nodes@.len() as int) =~= target);
    }
    (decoded, text)
}

} // verus!
