//! A request as a `grpcurl` command line, for the clipboard.

use crate::history::{Snapshot, SnapshotView};
use vstd::prelude::*;
use vstd::string::StringExecFns;

verus! {

/// `text` without its line feeds.
pub open spec fn without_line_feeds(text: Seq<char>) -> Seq<char>
    decreases text.len(),
{
    if text.len() == 0 {
        Seq::empty()
    } else if text.last() == '\n' {
        without_line_feeds(text.drop_last())
    } else {
        without_line_feeds(text.drop_last()).push(text.last())
    }
}

/// One header flag: ` -H 'key: value'`.
pub open spec fn header_flag(key: Seq<char>, value: Seq<char>) -> Seq<char> {
    " -H '"@ + key + ": "@ + value + "'"@
}

/// The header flags for a list of metadata, in the order of the list.
pub open spec fn header_flags(metadata: Seq<(Seq<char>, Seq<char>)>) -> Seq<char>
    decreases metadata.len(),
{
    if metadata.len() == 0 {
        Seq::empty()
    } else {
        header_flags(metadata.drop_last()) + header_flag(metadata.last().0, metadata.last().1)
    }
}

/// The command line for a request: the body on one line as data, one header
/// flag for each metadata pair, then the address and the method with its
/// service.
pub open spec fn grpcurl_line(snapshot: SnapshotView, service: Seq<char>, method: Seq<char>)
    -> Seq<char> {
    "grpcurl -d '"@ + without_line_feeds(snapshot.request) + "'"@ + header_flags(
        snapshot.metadata,
    ) + " "@ + snapshot.address + " "@ + service + "/"@ + method
}

/// Appends `text` without its line feeds.
fn push_without_line_feeds(line: &mut String, text: &str)
    ensures
        final(line)@ == old(line)@ + without_line_feeds(text@),
{
    let chars = crate::text::chars_of(text);
    let mut i: usize = 0;
    assert(chars@.take(0) =~= Seq::<char>::empty());
    assert(line@ + without_line_feeds(chars@.take(0)) =~= line@);
    while i < chars.len()
        invariant
            chars@ == text@,
            0 <= i <= chars.len(),
            line@ == old(line)@ + without_line_feeds(chars@.take(i as int)),
        decreases chars.len() - i,
    {
        let c = chars[i];
        proof {
            let next = chars@.take(i + 1);
            assert(next.drop_last() =~= chars@.take(i as int));
            assert(next.last() == c);
        }
        if c != '\n' {
            line.push(c);
            assert(line@ =~= old(line)@ + without_line_feeds(chars@.take(i + 1)));
        }
        i = i + 1;
    }
    assert(chars@.take(i as int) =~= chars@);
}

/// The request as a `grpcurl` command line.
pub fn grpcurl(snapshot: &Snapshot, service: &str, method: &str) -> (line: String)
    ensures
        line@ == grpcurl_line(snapshot@, service@, method@),
{
    let mut line = String::from_str("grpcurl -d '");
    push_without_line_feeds(&mut line, snapshot.request.as_str());
    line.append("'");
    let ghost head = line@;
    let mut i: usize = 0;
    assert(snapshot@.metadata.take(0) =~= Seq::<(Seq<char>, Seq<char>)>::empty());
    assert(head + header_flags(snapshot@.metadata.take(0)) =~= head);
    while i < snapshot.metadata.len()
        invariant
            0 <= i <= snapshot.metadata@.len(),
            snapshot@.metadata.len() == snapshot.metadata@.len(),
            line@ == head + header_flags(snapshot@.metadata.take(i as int)),
        decreases snapshot.metadata.len() - i,
    {
        let pair = &snapshot.metadata[i];
        proof {
            let next = snapshot@.metadata.take(i + 1);
            assert(next.drop_last() =~= snapshot@.metadata.take(i as int));
            assert(next.last() == (pair.0@, pair.1@));
        }
        let ghost before = line@;
        line.append(" -H '");
        line.append(pair.0.as_str());
        line.append(": ");
        line.append(pair.1.as_str());
        line.append("'");
        assert(line@ =~= before + header_flag(pair.0@, pair.1@));
        assert(line@ =~= head + header_flags(snapshot@.metadata.take(i + 1)));
        i = i + 1;
    }
    assert(snapshot@.metadata.take(i as int) =~= snapshot@.metadata);
    line.append(" ");
    line.append(snapshot.address.as_str());
    line.append(" ");
    line.append(service);
    line.append("/");
    line.append(method);
    assert(line@ =~= grpcurl_line(snapshot@, service@, method@));
    line
}

} // verus!
