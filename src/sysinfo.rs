use vstd::prelude::*;

use crate::json_tree::{
    field, find_long_fraction, first_key_at, has_long_fraction, json_document_of, parse_json,
    JsonNode, JsonNumber,
};
use vstd::utf8::{decode_utf8, decode_utf8_encode_utf8, valid_utf8};

verus! {

/// A drive as the hardware inventory reports it. Each text field is empty,
/// and the size zero, where the inventory does not give it.
#[derive(Debug)]
pub struct HdInfo {
    /// The product string of the drive, usually its human-readable model name.
    pub product: String,
    /// The name under which the system knows the drive (its device path).
    pub logical_name: String,
    /// The size of the drive, in `units`.
    pub size: JsonNumber,
    /// The unit of `size`, as the inventory names it (usually "bytes").
    pub units: String,
    /// The serial number of the drive.
    pub serial: String,
}

/// What a drive record holds, as plain values.
pub struct DiskView {
    pub product: Seq<char>,
    pub logical_name: Seq<char>,
    pub size: JsonNumber,
    pub units: Seq<char>,
    pub serial: Seq<char>,
}

impl View for HdInfo {
    type V = DiskView;

    open spec fn view(&self) -> DiskView {
        DiskView {
            product: self.product@,
            logical_name: self.logical_name@,
            size: self.size,
            units: self.units@,
            serial: self.serial@,
        }
    }
}

/// The text stored under `key`, or the empty text where the member is
/// missing or holds no string.
pub open spec fn text_of(node: JsonNode, key: Seq<char>) -> Seq<char> {
    match field(node, key) {
        Some(JsonNode::Str(s)) => s@,
        _ => Seq::empty(),
    }
}

/// The number stored under `key`, or zero where the member is missing or
/// holds no number.
pub open spec fn number_of(node: JsonNode, key: Seq<char>) -> JsonNumber {
    match field(node, key) {
        Some(JsonNode::Number(n)) => n,
        _ => JsonNumber::spec_zero(),
    }
}

/// Whether the member `key` holds exactly the string `text`.
pub open spec fn holds_text(node: JsonNode, key: Seq<char>, text: Seq<char>) -> bool {
    field(node, key) matches Some(JsonNode::Str(s)) && s@ == text
}

/// A node is a disk when both its `class` and its `id` are "disk".
pub open spec fn is_disk(node: JsonNode) -> bool {
    holds_text(node, "class"@, "disk"@) && holds_text(node, "id"@, "disk"@)
}

/// The record that a disk node gives.
pub open spec fn disk_of(node: JsonNode) -> DiskView {
    DiskView {
        product: text_of(node, "product"@),
        logical_name: text_of(node, "logicalname"@),
        size: number_of(node, "size"@),
        units: text_of(node, "units"@),
        serial: text_of(node, "serial"@),
    }
}

/// The records that a node itself contributes: one for a disk, none otherwise.
pub open spec fn own_disks(node: JsonNode) -> Seq<DiskView> {
    if is_disk(node) {
        seq![disk_of(node)]
    } else {
        Seq::empty()
    }
}

/// Whether the `children` member of a node is well formed: missing, null,
/// or an array.
pub open spec fn children_ok(node: JsonNode) -> bool {
    match field(node, "children"@) {
        None => true,
        Some(JsonNode::Null) => true,
        Some(JsonNode::Array(_)) => true,
        _ => false,
    }
}

/// The children of a node, in document order (none where it lists none).
pub open spec fn children_of(node: JsonNode) -> Seq<JsonNode> {
    match field(node, "children"@) {
        Some(JsonNode::Array(v)) => v@,
        _ => Seq::empty(),
    }
}

/// The disks in a subtree, in pre-order (a node before its children), or
/// `None` where a `children` member anywhere in it is malformed.
pub open spec fn node_disks(node: JsonNode) -> Option<Seq<DiskView>>
    decreases node, 0nat,
{
    match field(node, "children"@) {
        None => Some(own_disks(node)),
        Some(JsonNode::Null) => Some(own_disks(node)),
        Some(JsonNode::Array(v)) => {
            proof {
                lemma_children_decrease(node, v);
            }
            match list_disks(v@) {
                Some(d) => Some(own_disks(node) + d),
                None => None,
            }
        },
        _ => None,
    }
}

/// The disks in a list of subtrees, in order, or `None` where any of them
/// is malformed.
pub open spec fn list_disks(nodes: Seq<JsonNode>) -> Option<Seq<DiskView>>
    decreases nodes, 1nat,
{
    if nodes.len() == 0 {
        Some(Seq::empty())
    } else {
        match (list_disks(nodes.drop_last()), node_disks(nodes.last())) {
            (Some(a), Some(b)) => Some(a + b),
            _ => None,
        }
    }
}

/// The children of a node lie strictly inside it.
pub proof fn lemma_children_decrease(node: JsonNode, v: Vec<JsonNode>)
    requires
        field(node, "children"@) == Some(JsonNode::Array(v)),
    ensures
        decreases_to!(node => v@),
{
    if let JsonNode::Object(members) = node {
        let i = choose|i: int| first_key_at(members@, "children"@, i);
        let m = members@[i];
        assert(m.value == JsonNode::Array(v));
        assert(decreases_to!(node => members));
        assert(decreases_to!(members => members@));
        assert(decreases_to!(members@ => m));
        assert(decreases_to!(m => m.value));
        let value = m.value;
        assert(value->Array_0 == v);
        assert(decreases_to!(value => value->Array_0));
        assert(decreases_to!(v => v@));
    }
}

/// The views of a list of records.
pub open spec fn views(s: Seq<HdInfo>) -> Seq<DiskView> {
    s.map_values(|h: HdInfo| h@)
}

/// A list fails to yield disks as soon as a prefix of it fails.
pub proof fn lemma_prefix_fails(nodes: Seq<JsonNode>, k: int)
    requires
        0 <= k <= nodes.len(),
        list_disks(nodes.subrange(0, k)) is None,
    ensures
        list_disks(nodes) is None,
    decreases nodes.len() - k,
{
    if k == nodes.len() {
        assert(nodes.subrange(0, k) == nodes);
    } else {
        assert(nodes.subrange(0, k + 1).drop_last() == nodes.subrange(0, k));
        lemma_prefix_fails(nodes, k + 1);
    }
}

/// The string stored under `key`, or the empty string.
fn text_member(node: &JsonNode, key: &str) -> (r: String)
    ensures
        r@ == text_of(*node, key@),
{
    match node.get(key) {
        Some(JsonNode::Str(s)) => s.clone(),
        _ => String::new(),
    }
}

/// The number stored under `key`, or zero.
fn number_member(node: &JsonNode, key: &str) -> (r: JsonNumber)
    ensures
        r == number_of(*node, key@),
{
    match node.get(key) {
        Some(JsonNode::Number(n)) => *n,
        _ => JsonNumber::zero(),
    }
}

/// Whether the member `key` holds exactly the string `text`.
fn member_is(node: &JsonNode, key: &str, text: &str) -> (r: bool)
    ensures
        r == holds_text(*node, key@, text@),
{
    match node.get(key) {
        Some(JsonNode::Str(s)) => crate::json_tree::text_eq(s.as_str(), text),
        _ => false,
    }
}

/// The record that a disk node gives, with empty or zero defaults for what
/// it leaves out.
fn disk_record(node: &JsonNode) -> (r: HdInfo)
    ensures
        r@ == disk_of(*node),
{
    HdInfo {
        product: text_member(node, "product"),
        logical_name: text_member(node, "logicalname"),
        size: number_member(node, "size"),
        units: text_member(node, "units"),
        serial: text_member(node, "serial"),
    }
}

/// Appends the disks of a subtree to `out`, in pre-order. Returns false
/// where a `children` member in the subtree is malformed; `out` then holds
/// part of the records, after those it held before. Records already in
/// `out` are never removed or changed.
///
/// The walk recurses once per level of nesting. Its input comes from
/// `json::parse`, which refuses documents nested deeper than 512 levels, so
/// the depth of the recursion is bounded by that.
fn collect_node(node: &JsonNode, out: &mut Vec<HdInfo>) -> (ok: bool)
    ensures
        ok == node_disks(*node) is Some,
        ok ==> views(final(out)@) == views(old(out)@) + node_disks(*node)->Some_0,
        old(out)@.is_prefix_of(final(out)@),
    decreases *node, 0nat,
{
    let ghost start = out@;
    if member_is(node, "class", "disk") && member_is(node, "id", "disk") {
        out.push(disk_record(node));
    }
    assert(views(out@) == views(start) + own_disks(*node));
    match node.get("children") {
        None => true,
        Some(JsonNode::Null) => true,
        Some(JsonNode::Array(v)) => {
            proof {
                lemma_children_decrease(*node, *v);
            }
            let ok = collect_list(v, out);
            if ok {
                assert(views(out@) == views(start) + node_disks(*node)->Some_0);
            }
            ok
        },
        _ => false,
    }
}

/// Appends the disks of a list of subtrees to `out`, in order. Returns false
/// where one of them is malformed.
fn collect_list(nodes: &Vec<JsonNode>, out: &mut Vec<HdInfo>) -> (ok: bool)
    ensures
        ok == list_disks(nodes@) is Some,
        ok ==> views(final(out)@) == views(old(out)@) + list_disks(nodes@)->Some_0,
        old(out)@.is_prefix_of(final(out)@),
    decreases nodes@, 1nat,
{
    let ghost start = out@;
    let mut i: usize = 0;
    assert(nodes@.subrange(0, 0) == Seq::<JsonNode>::empty());
    while i < nodes.len()
        invariant
            i <= nodes.len(),
            list_disks(nodes@.subrange(0, i as int)) is Some,
            views(out@) == views(start) + list_disks(nodes@.subrange(0, i as int))->Some_0,
            start.is_prefix_of(out@),
            start == old(out)@,
        decreases nodes.len() - i,
    {
        let ghost before = out@;
        let ok = collect_node(&nodes[i], out);
        assert(start.is_prefix_of(out@)) by {
            assert(out@.subrange(0, start.len() as int) == before.subrange(0, start.len() as int));
        }
        assert(nodes@.subrange(0, i + 1).drop_last() == nodes@.subrange(0, i as int));
        if !ok {
            proof {
                lemma_prefix_fails(nodes@, i + 1);
            }
            return false;
        }
        i = i + 1;
    }
    assert(nodes@.subrange(0, nodes.len() as int) == nodes@);
    true
}

/// Why an inventory report could not be read.
#[derive(Clone, Copy, PartialEq, Eq, Structural, Debug)]
pub enum ParseError {
    /// The report is not valid UTF-8 text.
    Decode,
    /// The text is not a JSON document.
    Syntax,
    /// A `children` member is present but is no array.
    MalformedTree,
    /// A decimal point is followed by more digits than the JSON parser can
    /// take.
    FractionTooLong,
}

/// The disks of a whole document: the root itself is never one, its
/// `children` (if any) are walked.
pub open spec fn document_disks(root: JsonNode) -> Option<Seq<DiskView>> {
    match field(root, "children"@) {
        None => Some(Seq::empty()),
        Some(JsonNode::Null) => Some(Seq::empty()),
        Some(JsonNode::Array(v)) => list_disks(v@),
        _ => None,
    }
}

/// The result of reading the disks out of an inventory report.
pub open spec fn report_disks(raw: Seq<u8>) -> Result<Seq<DiskView>, ParseError> {
    if !valid_utf8(raw) {
        Err(ParseError::Decode)
    } else if has_long_fraction(raw) {
        Err(ParseError::FractionTooLong)
    } else {
        match json_document_of(decode_utf8(raw)) {
            None => Err(ParseError::Syntax),
            Some(root) => match document_disks(root) {
                None => Err(ParseError::MalformedTree),
                Some(d) => Ok(d),
            },
        }
    }
}

/// The result of reading the host's serial number out of an inventory report.
pub open spec fn report_serial(raw: Seq<u8>) -> Result<Seq<char>, ParseError> {
    if !valid_utf8(raw) {
        Err(ParseError::Decode)
    } else if has_long_fraction(raw) {
        Err(ParseError::FractionTooLong)
    } else {
        match json_document_of(decode_utf8(raw)) {
            None => Err(ParseError::Syntax),
            Some(root) => Ok(text_of(root, "serial"@)),
        }
    }
}

/// Relies on std::str::from_utf8: it succeeds exactly on valid UTF-8, and
/// the text then holds the characters that the bytes encode.
#[verifier::external_body]
fn utf8_text(bytes: &[u8]) -> (r: Option<&str>)
    ensures
        r is Some <==> valid_utf8(bytes@),
        r matches Some(s) ==> s@ == decode_utf8(bytes@),
{
    std::str::from_utf8(bytes).ok()
}

/// Lists the disks in a parsed inventory document, in document order (each
/// node before its children). Fails where a `children` member anywhere is
/// present but no array.
pub fn disks_in_document(root: &JsonNode) -> (r: Result<Vec<HdInfo>, ParseError>)
    ensures
        document_disks(*root) matches Some(d) ==> (r matches Ok(v) && views(v@) == d),
        document_disks(*root) is None ==> r == Err::<Vec<HdInfo>, ParseError>(
            ParseError::MalformedTree,
        ),
{
    let mut list: Vec<HdInfo> = Vec::new();
    match root.get("children") {
        None => Ok(list),
        Some(JsonNode::Null) => Ok(list),
        Some(JsonNode::Array(children)) => {
            if collect_list(children, &mut list) {
                assert(views(list@) == list_disks(children@)->Some_0);
                Ok(list)
            } else {
                Err(ParseError::MalformedTree)
            }
        },
        _ => Err(ParseError::MalformedTree),
    }
}

/// Lists the disks in the raw output of the inventory tool.
pub fn parse_disks(raw: &[u8]) -> (r: Result<Vec<HdInfo>, ParseError>)
    ensures
        report_disks(raw@) matches Ok(d) ==> (r matches Ok(v) && views(v@) == d),
        report_disks(raw@) matches Err(e) ==> r == Err::<Vec<HdInfo>, ParseError>(e),
{
    match utf8_text(raw) {
        None => Err(ParseError::Decode),
        Some(text) => {
            if find_long_fraction(raw) {
                return Err(ParseError::FractionTooLong);
            }
            proof {
                decode_utf8_encode_utf8(raw@);
            }
            match parse_json(text) {
                None => Err(ParseError::Syntax),
                Some(root) => disks_in_document(&root),
            }
        },
    }
}

/// The serial number at the top of a parsed inventory document, or the
/// empty string where it gives none.
pub fn host_serial_in_document(root: &JsonNode) -> (r: String)
    ensures
        r@ == text_of(*root, "serial"@),
{
    text_member(root, "serial")
}

/// Reads the host's serial number out of the raw output of the inventory
/// tool.
pub fn parse_host_serial(raw: &[u8]) -> (r: Result<String, ParseError>)
    ensures
        report_serial(raw@) matches Ok(s) ==> (r matches Ok(t) && t@ == s),
        report_serial(raw@) matches Err(e) ==> (r matches Err(f) && f == e),
{
    match utf8_text(raw) {
        None => Err(ParseError::Decode),
        Some(text) => {
            if find_long_fraction(raw) {
                return Err(ParseError::FractionTooLong);
            }
            proof {
                decode_utf8_encode_utf8(raw@);
            }
            match parse_json(text) {
                None => Err(ParseError::Syntax),
                Some(root) => Ok(host_serial_in_document(&root)),
            }
        },
    }
}

/// `n` is `root` or a node below it, reached through `children` arrays.
pub open spec fn in_subtree(root: JsonNode, n: JsonNode) -> bool
    decreases root, 0nat,
{
    root == n || match field(root, "children"@) {
        Some(JsonNode::Array(v)) => {
            proof {
                lemma_children_decrease(root, v);
            }
            in_list(v@, n)
        },
        _ => false,
    }
}

/// `n` lies in one of the subtrees of `nodes`.
pub open spec fn in_list(nodes: Seq<JsonNode>, n: JsonNode) -> bool
    decreases nodes, 1nat,
{
    nodes.len() > 0 && (in_list(nodes.drop_last(), n) || in_subtree(nodes.last(), n))
}

/// The record comes from a node below `root` whose `class` and `id` are
/// both "disk".
pub open spec fn from_disk_in_subtree(v: DiskView, root: JsonNode) -> bool {
    exists|n: JsonNode| is_disk(n) && in_subtree(root, n) && v == disk_of(n)
}

/// The record comes from a disk node in one of the subtrees of `nodes`.
pub open spec fn from_disk_in_list(v: DiskView, nodes: Seq<JsonNode>) -> bool {
    exists|n: JsonNode| is_disk(n) && in_list(nodes, n) && v == disk_of(n)
}

/// Walking a subtree captures only disk nodes of that subtree.
pub proof fn lemma_node_only_disks(node: JsonNode)
    ensures
        node_disks(node) matches Some(d) ==> forall|k: int|
            0 <= k < d.len() ==> from_disk_in_subtree(#[trigger] d[k], node),
    decreases node, 0nat,
{
    if let Some(d) = node_disks(node) {
        let own = own_disks(node);
        if let Some(JsonNode::Array(v)) = field(node, "children"@) {
            lemma_children_decrease(node, v);
            lemma_list_only_disks(v@);
            let rest = list_disks(v@)->Some_0;
            assert(d == own + rest);
            assert forall|k: int| 0 <= k < d.len() implies from_disk_in_subtree(#[trigger] d[k], node) by {
                if k < own.len() {
                    assert(d[k] == disk_of(node));
                    assert(in_subtree(node, node));
                } else {
                    assert(d[k] == rest[k - own.len()]);
                    assert(from_disk_in_list(rest[k - own.len()], v@));
                    let n = choose|n: JsonNode| is_disk(n) && in_list(v@, n) && rest[k - own.len()] == disk_of(n);
                    assert(in_subtree(node, n));
                }
            }
        } else {
            assert(d == own);
            assert forall|k: int| 0 <= k < d.len() implies from_disk_in_subtree(#[trigger] d[k], node) by {
                assert(d[k] == disk_of(node));
                assert(in_subtree(node, node));
            }
        }
    }
}

/// Walking a list of subtrees captures only disk nodes of those subtrees.
pub proof fn lemma_list_only_disks(nodes: Seq<JsonNode>)
    ensures
        list_disks(nodes) matches Some(d) ==> forall|k: int|
            0 <= k < d.len() ==> from_disk_in_list(#[trigger] d[k], nodes),
    decreases nodes, 1nat,
{
    if nodes.len() > 0 {
        lemma_list_only_disks(nodes.drop_last());
        lemma_node_only_disks(nodes.last());
        if let (Some(a), Some(b)) = (list_disks(nodes.drop_last()), node_disks(nodes.last())) {
            let d = a + b;
            assert forall|k: int| 0 <= k < d.len() implies from_disk_in_list(#[trigger] d[k], nodes) by {
                if k < a.len() {
                    assert(d[k] == a[k]);
                    assert(from_disk_in_list(a[k], nodes.drop_last()));
                    let n = choose|n: JsonNode| is_disk(n) && in_list(nodes.drop_last(), n) && a[k] == disk_of(n);
                    assert(in_list(nodes, n));
                } else {
                    assert(d[k] == b[k - a.len()]);
                    assert(from_disk_in_subtree(b[k - a.len()], nodes.last()));
                    let n = choose|n: JsonNode| is_disk(n) && in_subtree(nodes.last(), n) && b[k - a.len()] == disk_of(n);
                    assert(in_list(nodes, n));
                }
            }
        }
    }
}

/// A report lists disks only for nodes of its document whose `class` and
/// `id` are both exactly "disk": each record is the one such a node gives.
pub proof fn lemma_report_only_disks(raw: Seq<u8>)
    ensures
        report_disks(raw) matches Ok(d) ==> forall|k: int|
            0 <= k < d.len() ==> from_disk_in_list(
                #[trigger] d[k],
                children_of(json_document_of(decode_utf8(raw))->Some_0),
            ),
{
    if valid_utf8(raw) {
        if let Some(root) = json_document_of(decode_utf8(raw)) {
            if let Some(JsonNode::Array(v)) = field(root, "children"@) {
                lemma_list_only_disks(v@);
            }
        }
    }
}

/// A node whose `id` is "volume" is never captured, whatever its `class`.
pub proof fn lemma_volume_never_captured(node: JsonNode)
    requires
        holds_text(node, "id"@, "volume"@),
    ensures
        own_disks(node) == Seq::<DiskView>::empty(),
{
    reveal_strlit("volume");
    reveal_strlit("disk");
    assert("volume"@[0] != "disk"@[0]);
}

/// A `children` member that is present but neither null nor an array, on any
/// node of a subtree, fails the whole subtree: no partial result comes out.
pub proof fn lemma_malformed_node_fails(root: JsonNode, n: JsonNode)
    requires
        in_subtree(root, n),
        !children_ok(n),
    ensures
        node_disks(root) is None,
    decreases root, 0nat,
{
    if root != n {
        if let Some(JsonNode::Array(v)) = field(root, "children"@) {
            lemma_children_decrease(root, v);
            lemma_malformed_list_fails(v@, n);
        }
    }
}

/// A malformed `children` member anywhere in a list of subtrees fails the
/// whole list.
pub proof fn lemma_malformed_list_fails(nodes: Seq<JsonNode>, n: JsonNode)
    requires
        in_list(nodes, n),
        !children_ok(n),
    ensures
        list_disks(nodes) is None,
    decreases nodes, 1nat,
{
    if in_list(nodes.drop_last(), n) {
        lemma_malformed_list_fails(nodes.drop_last(), n);
    } else {
        lemma_malformed_node_fails(nodes.last(), n);
    }
}

/// A report whose document holds, anywhere below its root, a node with a
/// malformed `children` member fails as a malformed tree.
pub proof fn lemma_malformed_report_fails(raw: Seq<u8>, n: JsonNode)
    requires
        valid_utf8(raw),
        !has_long_fraction(raw),
        json_document_of(decode_utf8(raw)) matches Some(root) && in_list(children_of(root), n),
        !children_ok(n),
    ensures
        report_disks(raw) == Err::<Seq<DiskView>, ParseError>(ParseError::MalformedTree),
{
    let root = json_document_of(decode_utf8(raw))->Some_0;
    if let Some(JsonNode::Array(v)) = field(root, "children"@) {
        lemma_malformed_list_fails(v@, n);
    } else {
        assert(children_of(root) == Seq::<JsonNode>::empty());
    }
}

/// A root whose `children` member is a scalar fails the whole document.
pub proof fn lemma_scalar_children_fail(root: JsonNode)
    requires
        !children_ok(root),
    ensures
        document_disks(root) is None,
{
}

/// A disk that gives no serial number is listed with the empty one.
pub proof fn lemma_missing_serial_is_empty(node: JsonNode)
    requires
        field(node, "serial"@) is None,
    ensures
        disk_of(node).serial == Seq::<char>::empty(),
{
}

} // verus!
