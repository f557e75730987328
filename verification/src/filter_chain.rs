//! Reading the `PipeWire` node registry as `pw-cli ls Node` prints it,
//! and the errors of filter-chain operations.
//!
//! The listing is a sequence of blocks:
//!
//! ```text
//! id 42, type PipeWire:Interface:Node/3
//!     object.serial = "1234"
//!     node.name = "ut-mic-processed"
//! ```
//!
//! [`parse_node_id`] returns the id of the block whose `node.name` line
//! holds the wanted name in double quotes.

use vstd::prelude::*;

use crate::text::{
    append_chars, before_char, before_char_chars, chars_of, contains, contains_chars, lines,
    parse_u32, parse_u32_chars, split_lines, starts_with, starts_with_chars, sub_chars, trim,
    trim_chars, trim_start, trim_start_chars, views,
};

verus! {

#[verifier::external_type_specification]
#[verifier::external_body]
pub struct ExIoError(std::io::Error);

/// Errors from filter-chain operations.
#[derive(Debug)]
pub enum FilterChainError {
    /// The file system rejected an operation.
    Io(std::io::Error),
    /// `pw-cli` exited unsuccessfully; the text is what it printed on stderr.
    PwCli(String),
    /// No node of that name is registered in `PipeWire`.
    NodeNotFound(String),
}

/// The name wrapped in double quotes, as `pw-cli` prints property values.
pub open spec fn quoted(name: Seq<char>) -> Seq<char> {
    seq!['"'] + name + seq!['"']
}

/// The id a block header announces: the line starts with `id `, and the
/// text up to the first comma, trimmed, is a `u32`.
pub open spec fn header_id(line: Seq<char>) -> Option<u32> {
    if starts_with(line, "id "@) {
        parse_u32(trim(before_char(line.skip(3), ',')))
    } else {
        None
    }
}

/// The line is a `node.name` property that holds `wanted` in quotes.
pub open spec fn names_node(line: Seq<char>, wanted: Seq<char>) -> bool {
    starts_with(line, "node.name"@) && contains(line, quoted(wanted))
}

/// Scans the remaining lines, `current` being the id of the block that
/// the scan is in (if any block header has been seen).
pub open spec fn scan_node_id(ls: Seq<Seq<char>>, wanted: Seq<char>, current: Option<u32>) -> Option<
    u32,
>
    decreases ls.len(),
{
    if ls.len() == 0 {
        None
    } else {
        let t = trim_start(ls[0]);
        match header_id(t) {
            Some(id) => scan_node_id(ls.drop_first(), wanted, Some(id)),
            None => if current is Some && names_node(t, wanted) {
                current
            } else {
                scan_node_id(ls.drop_first(), wanted, current)
            },
        }
    }
}

/// The node id that the listing gives for `wanted`.
pub open spec fn spec_parse_node_id(output: Seq<char>, wanted: Seq<char>) -> Option<u32> {
    scan_node_id(lines(output), wanted, None)
}

/// Line `j` of the listing, trimmed at the start, is a block header.
pub open spec fn is_header(ls: Seq<Seq<char>>, j: int) -> bool {
    header_id(trim_start(ls[j])) is Some
}

/// Line `k`, trimmed at the start, is a `node.name` line naming
/// `wanted` in quotes, with `current` or some header before it giving
/// the block it is in.
pub open spec fn names_in_block(ls: Seq<Seq<char>>, wanted: Seq<char>, current: Option<u32>, k: int) -> bool {
    &&& 0 <= k < ls.len()
    &&& !is_header(ls, k)
    &&& names_node(trim_start(ls[k]), wanted)
    &&& (current is Some || exists|h: int| 0 <= h < k && is_header(ls, h))
}

/// Line `k` is the first line that names `wanted` inside a block.
pub open spec fn first_named_in_block(ls: Seq<Seq<char>>, wanted: Seq<char>, current: Option<u32>, k: int) -> bool {
    names_in_block(ls, wanted, current, k) && forall|j: int|
        0 <= j < k ==> !#[trigger] names_in_block(ls, wanted, current, j)
}

/// Line `h` is the last block header before line `k`.
pub open spec fn last_header_before(ls: Seq<Seq<char>>, k: int, h: int) -> bool {
    &&& 0 <= h < k
    &&& is_header(ls, h)
    &&& forall|j: int| h < j < k ==> !#[trigger] is_header(ls, j)
}

#[verifier::spinoff_prover]
#[verifier::rlimit(80)]
proof fn lemma_scan_node_id(ls: Seq<Seq<char>>, w: Seq<char>, cur: Option<u32>)
    ensures
        scan_node_id(ls, w, cur) is Some <==> exists|k: int| names_in_block(ls, w, cur, k),
        forall|k: int, h: int|
            first_named_in_block(ls, w, cur, k) && #[trigger] last_header_before(ls, k, h)
                ==> scan_node_id(ls, w, cur) == header_id(trim_start(ls[h])),
        forall|k: int|
            #[trigger] first_named_in_block(ls, w, cur, k) && (forall|h: int|
                0 <= h < k ==> !is_header(ls, h)) ==> scan_node_id(ls, w, cur) == cur,
    decreases ls.len(),
{
    if ls.len() == 0 {
        return;
    }
    let rest = ls.drop_first();
    assert forall|j: int| 0 <= j < rest.len() implies #[trigger] rest[j] == ls[j + 1] by {}
    let t = trim_start(ls[0]);
    match header_id(t) {
        Some(id) => {
            lemma_scan_node_id(rest, w, Some(id));
            assert(is_header(ls, 0));
            assert forall|k: int| names_in_block(rest, w, Some(id), k) implies names_in_block(
                ls,
                w,
                cur,
                k + 1,
            ) by {
                assert(rest[k] == ls[k + 1]);
                assert(is_header(ls, 0));
            }
            assert forall|k: int| #[trigger] names_in_block(ls, w, cur, k) implies k >= 1
                && names_in_block(rest, w, Some(id), k - 1) by {
                assert(rest[k - 1] == ls[k]);
            }
            if exists|k: int| names_in_block(ls, w, cur, k) {
                let k = choose|k: int| names_in_block(ls, w, cur, k);
                assert(names_in_block(rest, w, Some(id), k - 1));
            }
            if exists|k: int| names_in_block(rest, w, Some(id), k) {
                let k = choose|k: int| names_in_block(rest, w, Some(id), k);
                assert(names_in_block(ls, w, cur, k + 1));
            }
            assert forall|k: int| #[trigger] first_named_in_block(ls, w, cur, k) implies first_named_in_block(
                rest,
                w,
                Some(id),
                k - 1,
            ) by {
                assert forall|j: int| 0 <= j < k - 1 implies !#[trigger] names_in_block(
                    rest,
                    w,
                    Some(id),
                    j,
                ) by {
                    if names_in_block(rest, w, Some(id), j) {
                        assert(names_in_block(ls, w, cur, j + 1));
                    }
                }
            }
            assert forall|k: int, h: int|
                first_named_in_block(ls, w, cur, k) && #[trigger] last_header_before(ls, k, h)
                    implies scan_node_id(ls, w, cur) == header_id(trim_start(ls[h])) by {
                assert(first_named_in_block(rest, w, Some(id), k - 1));
                if h == 0 {
                    assert forall|j: int| 0 <= j < k - 1 implies !is_header(rest, j) by {
                        assert(rest[j] == ls[j + 1]);
                        assert(!is_header(ls, j + 1));
                    }
                } else {
                    assert(last_header_before(rest, k - 1, h - 1)) by {
                        assert(rest[h - 1] == ls[h]);
                        assert forall|j: int| h - 1 < j < k - 1 implies !#[trigger] is_header(rest, j) by {
                            assert(rest[j] == ls[j + 1]);
                            assert(!is_header(ls, j + 1));
                        }
                    }
                }
            }
        },
        None => {
            if cur is Some && names_node(t, w) {
                assert(names_in_block(ls, w, cur, 0));
                assert forall|k: int| #[trigger] first_named_in_block(ls, w, cur, k) implies k == 0 by {
                    if k > 0 {
                        assert(!names_in_block(ls, w, cur, 0));
                    }
                }
            } else {
                lemma_scan_node_id(rest, w, cur);
                assert(!is_header(ls, 0));
                assert(!names_in_block(ls, w, cur, 0));
                assert forall|k: int| names_in_block(rest, w, cur, k) implies names_in_block(
                    ls,
                    w,
                    cur,
                    k + 1,
                ) by {
                    assert(rest[k] == ls[k + 1]);
                    if cur is None {
                        let h = choose|h: int| 0 <= h < k && is_header(rest, h);
                        assert(rest[h] == ls[h + 1]);
                        assert(is_header(ls, h + 1));
                    }
                }
                assert forall|k: int| #[trigger] names_in_block(ls, w, cur, k) implies k >= 1
                    && names_in_block(rest, w, cur, k - 1) by {
                    assert(rest[k - 1] == ls[k]);
                    if cur is None {
                        let h = choose|h: int| 0 <= h < k && is_header(ls, h);
                        assert(h >= 1);
                        assert(rest[h - 1] == ls[h]);
                        assert(is_header(rest, h - 1));
                    }
                }
                if exists|k: int| names_in_block(ls, w, cur, k) {
                    let k = choose|k: int| names_in_block(ls, w, cur, k);
                    assert(names_in_block(rest, w, cur, k - 1));
                }
                if exists|k: int| names_in_block(rest, w, cur, k) {
                    let k = choose|k: int| names_in_block(rest, w, cur, k);
                    assert(names_in_block(ls, w, cur, k + 1));
                }
                assert forall|k: int| #[trigger] first_named_in_block(ls, w, cur, k) implies first_named_in_block(
                    rest,
                    w,
                    cur,
                    k - 1,
                ) by {
                    assert forall|j: int| 0 <= j < k - 1 implies !#[trigger] names_in_block(
                        rest,
                        w,
                        cur,
                        j,
                    ) by {
                        if names_in_block(rest, w, cur, j) {
                            assert(names_in_block(ls, w, cur, j + 1));
                        }
                    }
                }
                assert forall|k: int, h: int|
                    first_named_in_block(ls, w, cur, k) && #[trigger] last_header_before(ls, k, h)
                        implies scan_node_id(ls, w, cur) == header_id(trim_start(ls[h])) by {
                    assert(first_named_in_block(rest, w, cur, k - 1));
                    assert(h >= 1);
                    assert(last_header_before(rest, k - 1, h - 1)) by {
                        assert(rest[h - 1] == ls[h]);
                        assert forall|j: int| h - 1 < j < k - 1 implies !#[trigger] is_header(rest, j) by {
                            assert(rest[j] == ls[j + 1]);
                            assert(!is_header(ls, j + 1));
                        }
                    }
                }
                assert forall|k: int|
                    #[trigger] first_named_in_block(ls, w, cur, k) && (forall|h: int|
                        0 <= h < k ==> !is_header(ls, h)) implies scan_node_id(ls, w, cur) == cur by {
                    assert(first_named_in_block(rest, w, cur, k - 1));
                    assert forall|h: int| 0 <= h < k - 1 implies !is_header(rest, h) by {
                        assert(rest[h] == ls[h + 1]);
                        assert(!is_header(ls, h + 1));
                    }
                }
            }
        },
    }
}

/// How a node is found in a listing: it is found exactly when some
/// line, trimmed at the start, is a `node.name` line holding the name in
/// double quotes after some `id N,` header line; its id is then the `N`
/// of the last header before the first such line.
pub proof fn lemma_parse_node_id_law(output: Seq<char>, wanted: Seq<char>)
    ensures
        spec_parse_node_id(output, wanted) is Some <==> exists|k: int|
            names_in_block(lines(output), wanted, None, k),
        forall|k: int, h: int|
            first_named_in_block(lines(output), wanted, None, k) && #[trigger] last_header_before(
                lines(output),
                k,
                h,
            ) ==> spec_parse_node_id(output, wanted) == header_id(trim_start(lines(output)[h])),
{
    lemma_scan_node_id(lines(output), wanted, None);
}

fn header_id_chars(t: &Vec<char>, id_prefix: &Vec<char>) -> (r: Option<u32>)
    requires
        id_prefix@ == "id "@,
    ensures
        r == header_id(t@),
{
    if starts_with_chars(t, id_prefix) {
        proof {
            reveal_strlit("id ");
        }
        let rest = sub_chars(t, 3, t.len());
        assert(rest@ =~= t@.skip(3));
        let piece = before_char_chars(&rest, ',');
        let trimmed = trim_chars(&piece);
        parse_u32_chars(&trimmed)
    } else {
        None
    }
}

/// `pw-cli ls Node` output parser. Looks for a block whose
/// `node.name = "<wanted>"` line matches and returns the preceding
/// `id <N>,` value.
pub fn parse_node_id(output: &str, wanted: &str) -> (r: Option<u32>)
    ensures
        r == spec_parse_node_id(output@, wanted@),
{
    let text = chars_of(output);
    let ls = split_lines(&text);
    let id_prefix = chars_of("id ");
    let name_key = chars_of("node.name");
    let mut pat: Vec<char> = Vec::new();
    pat.push('"');
    append_chars(&mut pat, &chars_of(wanted));
    pat.push('"');
    assert(pat@ =~= quoted(wanted@));
    let ghost w = wanted@;
    let ghost all = views(ls@);
    let mut current: Option<u32> = None;
    let mut i: usize = 0;
    assert(all.skip(0) =~= all);
    while i < ls.len()
        invariant
            i <= ls.len(),
            all == views(ls@),
            all == lines(output@),
            id_prefix@ == "id "@,
            name_key@ == "node.name"@,
            pat@ == quoted(w),
            w == wanted@,
            scan_node_id(all, w, None) == scan_node_id(all.skip(i as int), w, current),
        decreases ls.len() - i,
    {
        assert(all.skip(i as int).drop_first() =~= all.skip(i + 1));
        assert(all.skip(i as int)[0] == ls@[i as int]@);
        let t = trim_start_chars(&ls[i]);
        match header_id_chars(&t, &id_prefix) {
            Some(id) => {
                current = Some(id);
            },
            None => {
                if current.is_some() && starts_with_chars(&t, &name_key) && contains_chars(
                    &t,
                    &pat,
                ) {
                    return current;
                }
            },
        }
        i = i + 1;
    }
    None
}

/// The outcome of looking a node up in a `pw-cli ls Node` listing:
/// its id, or [`FilterChainError::NodeNotFound`] with the name.
pub fn node_id_from_listing(output: &str, node_name: &str) -> (r: Result<u32, FilterChainError>)
    ensures
        match spec_parse_node_id(output@, node_name@) {
            Some(id) => r == Ok::<u32, FilterChainError>(id),
            None => r matches Err(FilterChainError::NodeNotFound(n)) && n@ == node_name@,
        },
{
    match parse_node_id(output, node_name) {
        Some(id) => Ok(id),
        None => Err(FilterChainError::NodeNotFound(String::from_str(node_name))),
    }
}

} // verus!
