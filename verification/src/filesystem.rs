//! The file browser's rules: which directory entries are listed, how deep a
//! tree is followed, and what a listing and a file's metadata look like.
//!
//! Reading the disk is the caller's. It hands over what it read as plain
//! values and gets back the nodes to show.

use core::cmp::Ordering;
use vstd::prelude::*;
use vstd::string::*;

verus! {

/// The deepest level of a tree that is listed; the directory that a listing
/// starts from is level 0.
pub const MAX_DEPTH: usize = 5;

/// One entry of a directory listing.
#[derive(Debug, PartialEq, Eq)]
pub struct FileNode {
    /// The entry's file name.
    pub name: String,
    /// The entry's full path.
    pub path: String,
    /// Whether the entry is a directory.
    pub is_directory: bool,
    /// The listing of a directory that has entries to show; `None` for a
    /// file and for a directory that shows none.
    pub children: Option<Vec<FileNode>>,
}

/// What is known of a file without reading it.
#[derive(Debug, Clone, Copy, PartialEq, Eq)]
pub struct FileInfo {
    /// The size in bytes.
    pub size: u64,
    /// Whether it is a directory.
    pub is_directory: bool,
    /// Whether it may not be written to.
    pub is_readonly: bool,
}

/// The file operations that can fail.
#[derive(Debug, Clone, Copy, PartialEq, Eq)]
pub enum FileOperation {
    /// Reading a file's contents.
    Read,
    /// Writing a file's contents.
    Write,
    /// Reading a file's metadata.
    Info,
}

impl FileInfo {
    /// The metadata record of a file.
    pub fn new(size: u64, is_directory: bool, is_readonly: bool) -> (info: Self)
        ensures
            info == (FileInfo { size, is_directory, is_readonly }),
    {
        FileInfo { size, is_directory, is_readonly }
    }
}

/// Why a path cannot be listed, if it cannot: it has to exist, and to be a
/// directory.
pub open spec fn spec_check_directory(exists: bool, is_directory: bool) -> Result<
    (),
    Seq<char>,
> {
    if !exists {
        Err("Path does not exist"@)
    } else if !is_directory {
        Err("Path is not a directory"@)
    } else {
        Ok(())
    }
}

/// The characters of a refusal.
pub open spec fn spec_refusal(checked: Result<(), String>) -> Result<(), Seq<char>> {
    match checked {
        Ok(_) => Ok(()),
        Err(reason) => Err(reason@),
    }
}

/// Decides whether a path can be listed, given whether it exists and
/// whether it is a directory, and says why not where it cannot.
pub fn check_directory(exists: bool, is_directory: bool) -> (checked: Result<(), String>)
    ensures
        spec_refusal(checked) == spec_check_directory(exists, is_directory),
{
    if !exists {
        Err("Path does not exist".to_owned())
    } else if !is_directory {
        Err("Path is not a directory".to_owned())
    } else {
        Ok(())
    }
}

/// Whether the entries of a directory at level `depth` are listed.
pub fn within_depth(depth: usize) -> (listed: bool)
    ensures
        listed == (depth <= MAX_DEPTH),
{
    depth <= MAX_DEPTH
}

/// Whether an entry of this name is left out of a listing: hidden files,
/// whose names start with a dot, and the directories `node_modules`,
/// `target` and `dist`.
pub open spec fn spec_is_excluded(name: Seq<char>) -> bool {
    ||| name.len() > 0 && name[0] == '.'
    ||| name == "node_modules"@
    ||| name == "target"@
    ||| name == "dist"@
}

/// Decides whether an entry named `name` is left out of a listing.
pub fn is_excluded(name: &str) -> (excluded: bool)
    ensures
        excluded == spec_is_excluded(name@),
{
    if !name.is_empty() && name.get_char(0) == '.' {
        return true;
    }
    let owned = name.to_owned();
    owned == "node_modules".to_owned() || owned == "target".to_owned() || owned
        == "dist".to_owned()
}

/// The `children` of an entry, given what listing it one level down gave:
/// the listing of a directory if there is one and it is not empty.
pub open spec fn spec_children(is_directory: bool, listing: Option<Vec<FileNode>>) -> Option<
    Vec<FileNode>,
> {
    match listing {
        Some(nodes) => if is_directory && nodes@.len() > 0 {
            Some(nodes)
        } else {
            None
        },
        None => None,
    }
}

impl FileNode {
    /// The node of one directory entry. `listing` is what listing the entry
    /// one level down gave, `None` where it was not listed or could not be.
    pub fn new(name: String, path: String, is_directory: bool, listing: Option<Vec<FileNode>>) -> (node:
        Self)
        ensures
            node.name == name,
            node.path == path,
            node.is_directory == is_directory,
            node.children == spec_children(is_directory, listing),
    {
        let children = match listing {
            Some(nodes) => if is_directory && nodes.len() > 0 {
                Some(nodes)
            } else {
                None
            },
            None => None,
        };
        FileNode { name, path, is_directory, children }
    }
}

/// The text that reports a failure of `operation`, before the detail.
pub open spec fn spec_failure_prefix(operation: FileOperation) -> Seq<char> {
    match operation {
        FileOperation::Read => "Failed to read file: "@,
        FileOperation::Write => "Failed to write file: "@,
        FileOperation::Info => "Failed to get file info: "@,
    }
}

/// The message that reports a failure of `operation`: what failed, then
/// the system's own words.
pub fn failure_message(operation: FileOperation, detail: &str) -> (message: String)
    ensures
        message@ == spec_failure_prefix(operation) + detail@,
{
    let mut message = match operation {
        FileOperation::Read => "Failed to read file: ".to_owned(),
        FileOperation::Write => "Failed to write file: ".to_owned(),
        FileOperation::Info => "Failed to get file info: ".to_owned(),
    };
    message.append(detail);
    message
}

/// Whether `x` comes before `y` in the code charts.
pub open spec fn char_before(x: char, y: char) -> bool {
    (x as u32) < (y as u32)
}

/// The order of two texts: character by character, by code point, a text
/// coming before every text that it begins.
pub open spec fn text_order(a: Seq<char>, b: Seq<char>) -> Ordering
    decreases a.len(),
{
    if a.len() == 0 {
        if b.len() == 0 {
            Ordering::Equal
        } else {
            Ordering::Less
        }
    } else if b.len() == 0 {
        Ordering::Greater
    } else if a[0] == b[0] {
        text_order(a.drop_first(), b.drop_first())
    } else if char_before(a[0], b[0]) {
        Ordering::Less
    } else {
        Ordering::Greater
    }
}

/// The order of two entries of a listing, by what they are and by their
/// names in lowercase: directories come before files, and within each kind
/// the names decide.
pub open spec fn key_order(
    a_is_directory: bool,
    a_lower: Seq<char>,
    b_is_directory: bool,
    b_lower: Seq<char>,
) -> Ordering {
    if a_is_directory && !b_is_directory {
        Ordering::Less
    } else if !a_is_directory && b_is_directory {
        Ordering::Greater
    } else {
        text_order(a_lower, b_lower)
    }
}

/// The lowercase form of `text`, as `str::to_lowercase` gives it.
pub uninterp spec fn lowercase_text(text: Seq<char>) -> Seq<char>;

/// The order of two nodes in a listing.
pub open spec fn node_order(a: FileNode, b: FileNode) -> Ordering {
    key_order(
        a.is_directory,
        lowercase_text(a.name@),
        b.is_directory,
        lowercase_text(b.name@),
    )
}

/// The nodes of `nodes` that the order does not tell from `probe`, in the
/// order in which they stand in `nodes`.
pub open spec fn peers_of(nodes: Seq<FileNode>, probe: FileNode) -> Seq<FileNode> {
    nodes.filter(|node: FileNode| node_order(node, probe) is Equal)
}

/// Whether `sorted` is `nodes` in listing order: the same nodes, ascending,
/// those that the order does not tell apart standing as they stood.
pub open spec fn is_listing_of(sorted: Seq<FileNode>, nodes: Seq<FileNode>) -> bool {
    &&& sorted.to_multiset() == nodes.to_multiset()
    &&& forall|i: int, j: int|
        0 <= i < j < sorted.len() ==> !(#[trigger] node_order(sorted[i], sorted[j])
            is Greater)
    &&& forall|probe: FileNode| #[trigger] peers_of(sorted, probe) == peers_of(nodes, probe)
}

/// Lowercases `text`.
///
/// Calls `str::to_lowercase` of the standard library, which follows the
/// Unicode tables. Nothing here proves what it returns: the contract only
/// gives its result the name `lowercase_text`.
#[verifier::external_body]
fn lowercase(text: &str) -> (lower: String)
    ensures
        lower@ == lowercase_text(text@),
{
    text.to_lowercase()
}

/// Compares two texts.
///
/// Calls the standard library's `Ord` for `str`, which is documented to
/// order strings lexicographically by their bytes, and thereby by the
/// positions of their code points in the code charts. The contract states
/// that order; nothing here proves it of the standard library.
#[verifier::external_body]
fn compare_text(a: &str, b: &str) -> (order: Ordering)
    ensures
        order == text_order(a@, b@),
{
    a.cmp(b)
}

/// Orders two entries of a listing, given what each is and its name in
/// lowercase.
pub fn compare_keys(a_is_directory: bool, a_lower: &str, b_is_directory: bool, b_lower: &str) -> (order:
    Ordering)
    ensures
        order == key_order(a_is_directory, a_lower@, b_is_directory, b_lower@),
{
    if a_is_directory && !b_is_directory {
        Ordering::Less
    } else if !a_is_directory && b_is_directory {
        Ordering::Greater
    } else {
        compare_text(a_lower, b_lower)
    }
}

/// Orders two nodes of a listing: directories first, then by the names in
/// lowercase.
pub fn compare_nodes(a: &FileNode, b: &FileNode) -> (order: Ordering)
    ensures
        order == node_order(*a, *b),
{
    let a_lower = lowercase(a.name.as_str());
    let b_lower = lowercase(b.name.as_str());
    compare_keys(a.is_directory, a_lower.as_str(), b.is_directory, b_lower.as_str())
}

/// The order of `b` and `a`, given that of `a` and `b`.
pub open spec fn reversed(order: Ordering) -> Ordering {
    match order {
        Ordering::Less => Ordering::Greater,
        Ordering::Equal => Ordering::Equal,
        Ordering::Greater => Ordering::Less,
    }
}

/// Of two different characters exactly one comes before the other, and
/// coming before is transitive.
pub proof fn lemma_char_before_total(x: char, y: char, z: char)
    ensures
        !char_before(x, x),
        x != y ==> (char_before(x, y) <==> !char_before(y, x)),
        char_before(x, y) && char_before(y, z) ==> char_before(x, z),
{
    vstd::utf8::char_u32_cast(x, x as u32);
    vstd::utf8::char_u32_cast(y, y as u32);
}

/// Swapping two texts reverses their order.
pub proof fn lemma_compare_text_reverses(a: Seq<char>, b: Seq<char>)
    ensures
        text_order(b, a) == reversed(text_order(a, b)),
    decreases a.len(),
{
    if a.len() > 0 && b.len() > 0 {
        if a[0] == b[0] {
            lemma_compare_text_reverses(a.drop_first(), b.drop_first());
        } else {
            lemma_char_before_total(a[0], b[0], a[0]);
        }
    }
}

/// The order of texts is transitive.
pub proof fn lemma_compare_text_transitive(a: Seq<char>, b: Seq<char>, c: Seq<char>)
    requires
        !(text_order(a, b) is Greater),
        !(text_order(b, c) is Greater),
    ensures
        !(text_order(a, c) is Greater),
        text_order(a, c) is Equal ==> text_order(a, b) is Equal
            && text_order(b, c) is Equal,
    decreases a.len(),
{
    if a.len() > 0 && b.len() > 0 && c.len() > 0 {
        if a[0] == b[0] && b[0] == c[0] {
            lemma_compare_text_transitive(a.drop_first(), b.drop_first(), c.drop_first());
        } else {
            lemma_char_before_total(a[0], b[0], c[0]);
            lemma_char_before_total(c[0], a[0], c[0]);
        }
    }
}

/// The order of nodes is a total order of their kinds and lowercase names:
/// swapping two nodes reverses it, and it is transitive.
pub proof fn lemma_compare_nodes_total(a: FileNode, b: FileNode, c: FileNode)
    ensures
        node_order(b, a) == reversed(node_order(a, b)),
        !(node_order(a, b) is Greater) && !(node_order(b, c) is Greater) ==> !(
        node_order(a, c) is Greater),
{
    let la = lowercase_text(a.name@);
    let lb = lowercase_text(b.name@);
    let lc = lowercase_text(c.name@);
    lemma_compare_text_reverses(la, lb);
    if !(node_order(a, b) is Greater) && !(node_order(b, c) is Greater) {
        if a.is_directory == b.is_directory && b.is_directory == c.is_directory {
            lemma_compare_text_transitive(la, lb, lc);
        }
    }
}

/// Sorts `nodes` by the order of nodes, keeping the nodes that the order
/// does not tell apart as they stood.
///
/// Calls `sort_by` of the standard library's slices, with `compare_nodes`
/// as the comparison. Its documentation promises an ascending, stable
/// order where the comparison is a total order, which `requires` asks for;
/// the contract states that promise and nothing here proves it.
#[verifier::external_body]
fn sort_by_node_order(nodes: &mut Vec<FileNode>)
    requires
        forall|a: FileNode, b: FileNode| #[trigger]
            node_order(b, a) == reversed(node_order(a, b)),
        forall|a: FileNode, b: FileNode, c: FileNode|
            !(#[trigger] node_order(a, b) is Greater) && !(#[trigger] node_order(
                b,
                c,
            ) is Greater) ==> !(node_order(a, c) is Greater),
    ensures
        is_listing_of(final(nodes)@, old(nodes)@),
{
    nodes.sort_by(|a, b| compare_nodes(a, b));
}

/// Puts the nodes of a listing in the order in which they are shown:
/// directories first, then files, each by name without regard to case.
pub fn sort_nodes(nodes: &mut Vec<FileNode>)
    ensures
        is_listing_of(final(nodes)@, old(nodes)@),
        forall|i: int, j: int|
            0 <= i < j < final(nodes)@.len() && final(nodes)@[j].is_directory
                ==> final(nodes)@[i].is_directory,
{
    proof {
        assert forall|a: FileNode, b: FileNode| #[trigger]
            node_order(b, a) == reversed(node_order(a, b)) by {
            lemma_compare_nodes_total(a, b, a);
        }
        assert forall|a: FileNode, b: FileNode, c: FileNode|
            !(#[trigger] node_order(a, b) is Greater) && !(#[trigger] node_order(
                b,
                c,
            ) is Greater) implies !(node_order(a, c) is Greater) by {
            lemma_compare_nodes_total(a, b, c);
        }
    }
    sort_by_node_order(nodes);
    proof {
        assert forall|i: int, j: int|
            0 <= i < j < nodes@.len() && nodes@[j].is_directory implies nodes@[i].is_directory by {
            assert(!(node_order(nodes@[i], nodes@[j]) is Greater));
        }
    }
}

} // verus!
