//! Xfce keeps one last-image property per monitor and workspace; these are
//! found in a listing of its desktop channel, and each is read or written.
use crate::command::{texts, Command, CommandLine};
use crate::text::{ends_with, has_suffix};
use vstd::prelude::*;

verus! {

/// The lines of `s`: the pieces between its newlines, in order. A text with
/// `k` newlines has `k + 1` lines.
pub open spec fn split_lines(s: Seq<char>) -> Seq<Seq<char>>
    decreases s.len(),
{
    if s.len() == 0 {
        seq![Seq::empty()]
    } else {
        let init = split_lines(s.drop_last());
        if s.last() == '\n' {
            init.push(Seq::empty())
        } else {
            init.update(init.len() - 1, init.last().push(s.last()))
        }
    }
}

/// The name that ends each last-image property.
pub open spec fn last_image_suffix() -> Seq<char> {
    "/last-image"@
}

/// The lines that name a last-image property, in order.
pub open spec fn last_image_lines(lines: Seq<Seq<char>>) -> Seq<Seq<char>>
    decreases lines.len(),
{
    if lines.len() == 0 {
        lines
    } else {
        let init = last_image_lines(lines.drop_last());
        if has_suffix(lines.last(), last_image_suffix()) {
            init.push(lines.last())
        } else {
            init
        }
    }
}

/// The command that reads the Xfce desktop property `key`.
pub open spec fn query_line(key: Seq<char>) -> CommandLine {
    CommandLine { program: "xfconf-query"@, args: seq!["-c"@, "xfce4-desktop"@, "-p"@, key] }
}

/// The command that writes `path` to the Xfce desktop property `key`.
pub open spec fn write_line(key: Seq<char>, path: Seq<char>) -> CommandLine {
    CommandLine {
        program: "xfconf-query"@,
        args: seq!["-c"@, "xfce4-desktop"@, "-p"@, key, "-s"@, path],
    }
}

/// The values joined with commas between them.
pub open spec fn joined(values: Seq<Seq<char>>) -> Seq<char>
    decreases values.len(),
{
    if values.len() == 0 {
        Seq::empty()
    } else if values.len() == 1 {
        values[0]
    } else {
        joined(values.drop_last()) + seq![','] + values.last()
    }
}

/// A text has at least one line.
pub proof fn lemma_split_lines_nonempty(s: Seq<char>)
    ensures
        split_lines(s).len() >= 1,
    decreases s.len(),
{
    if s.len() > 0 {
        lemma_split_lines_nonempty(s.drop_last());
    }
}

/// The last-image properties named in a listing of the Xfce desktop channel,
/// one per line, in the order of the listing.
pub fn last_image_keys(listing: &str) -> (r: Vec<String>)
    ensures
        texts(r@) == last_image_lines(split_lines(listing@)),
{
    let n = listing.unicode_len();
    let mut keys: Vec<String> = Vec::new();
    let mut start: usize = 0;
    let mut i: usize = 0;
    proof {
        assert(listing@.subrange(0, 0) =~= Seq::<char>::empty());
        assert(split_lines(Seq::<char>::empty()).drop_last() =~= Seq::<Seq<char>>::empty());
    }
    while i < n
        invariant
            start <= i <= n,
            n == listing@.len(),
            texts(keys@) == last_image_lines(split_lines(listing@.subrange(0, i as int)).drop_last()),
            split_lines(listing@.subrange(0, i as int)).last() == listing@.subrange(start as int, i as int),
        decreases n - i,
    {
        let ghost before = split_lines(listing@.subrange(0, i as int));
        proof {
            lemma_split_lines_nonempty(listing@.subrange(0, i as int));
            assert(listing@.subrange(0, i + 1).drop_last() =~= listing@.subrange(0, i as int));
        }
        let c = listing.get_char(i);
        if c == '\n' {
            let piece = listing.substring_char(start, i);
            if ends_with(piece, "/last-image") {
                keys.push(piece.to_owned());
            }
            proof {
                let after = split_lines(listing@.subrange(0, i + 1));
                assert(after == before.push(Seq::empty()));
                assert(after.drop_last() =~= before);
                assert(before =~= before.drop_last().push(before.last()));
                assert(texts(keys@) =~= last_image_lines(before));
                assert(listing@.subrange(i + 1, i + 1) =~= Seq::<char>::empty());
            }
            start = i + 1;
        } else {
            proof {
                let after = split_lines(listing@.subrange(0, i + 1));
                assert(after.drop_last() =~= before.drop_last());
                assert(listing@.subrange(start as int, i + 1) =~= listing@.subrange(
                    start as int,
                    i as int,
                ).push(c));
            }
        }
        i += 1;
    }
    let piece = listing.substring_char(start, n);
    if ends_with(piece, "/last-image") {
        keys.push(piece.to_owned());
    }
    proof {
        let all = split_lines(listing@.subrange(0, n as int));
        lemma_split_lines_nonempty(listing@.subrange(0, n as int));
        assert(listing@.subrange(0, n as int) =~= listing@);
        assert(all =~= all.drop_last().push(all.last()));
        assert(texts(keys@) =~= last_image_lines(all));
    }
    keys
}

/// The command that reads the Xfce desktop property `key`.
pub fn query_command(key: &str) -> (r: Command)
    ensures
        r@ == query_line(key@),
{
    let args = vec![
        String::from_str("-c"),
        String::from_str("xfce4-desktop"),
        String::from_str("-p"),
        String::from_str(key),
    ];
    assert(texts(args@) =~= query_line(key@).args);
    Command::new("xfconf-query", args)
}

/// The command that writes `path` to the Xfce desktop property `key`.
pub fn write_command(key: &str, path: &str) -> (r: Command)
    ensures
        r@ == write_line(key@, path@),
{
    let args = vec![
        String::from_str("-c"),
        String::from_str("xfce4-desktop"),
        String::from_str("-p"),
        String::from_str(key),
        String::from_str("-s"),
        String::from_str(path),
    ];
    assert(texts(args@) =~= write_line(key@, path@).args);
    Command::new("xfconf-query", args)
}

/// One write per last-image property, in order, each of the same path.
pub fn write_commands(keys: &Vec<String>, path: &str) -> (r: Vec<Command>)
    ensures
        r@.len() == keys@.len(),
        forall|i: int| 0 <= i < keys@.len() ==> (#[trigger] r@[i])@ == write_line(keys@[i]@, path@),
{
    let mut r: Vec<Command> = Vec::new();
    let mut i: usize = 0;
    while i < keys.len()
        invariant
            i <= keys@.len(),
            r@.len() == i,
            forall|j: int| 0 <= j < i ==> (#[trigger] r@[j])@ == write_line(keys@[j]@, path@),
        decreases keys@.len() - i,
    {
        r.push(write_command(keys[i].as_str(), path));
        i += 1;
    }
    r
}

/// The values read from the last-image properties, joined with commas between
/// them: one value per property, none left out.
pub fn join_values(values: &Vec<String>) -> (r: String)
    ensures
        r@ == joined(texts(values@)),
{
    let mut r = String::new();
    let mut i: usize = 0;
    while i < values.len()
        invariant
            i <= values@.len(),
            r@ == joined(texts(values@).subrange(0, i as int)),
        decreases values@.len() - i,
    {
        let ghost vs = texts(values@);
        proof {
            assert(vs.subrange(0, i + 1).drop_last() =~= vs.subrange(0, i as int));
        }
        if i > 0 {
            r.append(",");
        }
        r.append(values[i].as_str());
        proof {
            reveal_strlit(",");
            if i == 0 {
                assert(r@ =~= vs.subrange(0, 1)[0]);
            } else {
                assert(r@ =~= joined(vs.subrange(0, i as int)) + seq![','] + vs[i as int]);
            }
        }
        i += 1;
    }
    assert(texts(values@).subrange(0, values@.len() as int) =~= texts(values@));
    r
}

} // verus!
