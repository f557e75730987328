//! Telling a dead daemon connection from other request failures.

use vstd::prelude::*;

use crate::text::{chars_of, contains, contains_chars};

verus! {

/// The error texts that mean the daemon socket is gone, so that a
/// fresh connection will probably work: what the IPC layer and the
/// underlying I/O errors say when the daemon restarts.
pub open spec fn dead_connection_needles() -> Seq<Seq<char>> {
    seq![
        "Broken pipe"@,
        "Connection reset"@,
        "channel closed"@,
        "Channel closed"@,
        "unexpected end of file"@,
        "Unexpected EOF"@,
        "not connected"@,
        "Connection refused"@,
        "No such file"@,
    ]
}

/// Whether a request error means the connection is dead: the error
/// text holds one of [`dead_connection_needles`].
pub fn looks_like_dead_connection(err: &str) -> (r: bool)
    ensures
        r == exists|i: int|
            0 <= i < dead_connection_needles().len() && #[trigger] contains(
                err@,
                dead_connection_needles()[i],
            ),
{
    let needles: &[&str] = &[
        "Broken pipe",
        "Connection reset",
        "channel closed",
        "Channel closed",
        "unexpected end of file",
        "Unexpected EOF",
        "not connected",  // own "daemon not connected" sentinel
        "Connection refused",  // socket exists but daemon not yet listening
        "No such file",  // socket file gone (daemon mid-restart)
    ];
    assert(needles@.map_values(|n: &str| n@) =~= dead_connection_needles());
    let text = chars_of(err);
    let mut i: usize = 0;
    while i < needles.len()
        invariant
            i <= needles@.len(),
            needles@.map_values(|n: &str| n@) == dead_connection_needles(),
            text@ == err@,
            forall|j: int| 0 <= j < i ==> !contains(err@, #[trigger] dead_connection_needles()[j]),
        decreases needles@.len() - i,
    {
        assert(needles@.map_values(|n: &str| n@)[i as int] == needles@[i as int]@);
        if contains_chars(&text, &chars_of(needles[i])) {
            return true;
        }
        i = i + 1;
    }
    false
}

/// An error is recognised as a dead connection exactly when its text
/// holds one of these: "Broken pipe", "Connection reset", "channel
/// closed", "Channel closed", "unexpected end of file", "Unexpected
/// EOF", "not connected", "Connection refused" or "No such file".
pub proof fn lemma_dead_connection_texts(err: Seq<char>)
    ensures
        (exists|i: int|
            0 <= i < dead_connection_needles().len() && #[trigger] contains(
                err,
                dead_connection_needles()[i],
            )) <==> (contains(err, "Broken pipe"@) || contains(err, "Connection reset"@)
            || contains(err, "channel closed"@) || contains(err, "Channel closed"@)
            || contains(err, "unexpected end of file"@) || contains(err, "Unexpected EOF"@)
            || contains(err, "not connected"@) || contains(err, "Connection refused"@)
            || contains(err, "No such file"@)),
{
    let ns = dead_connection_needles();
    assert(ns[0] == "Broken pipe"@);
    assert(ns[1] == "Connection reset"@);
    assert(ns[2] == "channel closed"@);
    assert(ns[3] == "Channel closed"@);
    assert(ns[4] == "unexpected end of file"@);
    assert(ns[5] == "Unexpected EOF"@);
    assert(ns[6] == "not connected"@);
    assert(ns[7] == "Connection refused"@);
    assert(ns[8] == "No such file"@);
    if exists|i: int| 0 <= i < ns.len() && #[trigger] contains(err, ns[i]) {
        let i = choose|i: int| 0 <= i < ns.len() && #[trigger] contains(err, ns[i]);
        assert(0 <= i < 9);
    }
}

} // verus!
