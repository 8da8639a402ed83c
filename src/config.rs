//! Settings files made of `key=value` lines, as the KDE and LXDE desktops keep
//! their wallpaper.
use crate::text::{has_prefix, starts_with};
use crate::xfce::split_lines;
use vstd::prelude::*;

verus! {

/// The value of the last line of `lines` that begins with `prefix`: the rest
/// of that line.
pub open spec fn setting_of(lines: Seq<Seq<char>>, prefix: Seq<char>) -> Option<Seq<char>>
    decreases lines.len(),
{
    if lines.len() == 0 {
        None
    } else if has_prefix(lines.last(), prefix) {
        Some(lines.last().subrange(prefix.len() as int, lines.last().len() as int))
    } else {
        setting_of(lines.drop_last(), prefix)
    }
}

/// The value that the last line reading `key=value` of `contents` gives `key`.
pub fn setting_value(contents: &str, key: &str) -> (r: Option<String>)
    ensures
        r is None <==> setting_of(split_lines(contents@), key@ + seq!['=']) is None,
        r is Some ==> r->0@ == setting_of(split_lines(contents@), key@ + seq!['='])->0,
{
    let prefix = String::from_str(key).concat("=");
    proof {
        reveal_strlit("=");
        assert(prefix@ =~= key@ + seq!['=']);
    }
    let m = prefix.as_str().unicode_len();
    let n = contents.unicode_len();
    let mut found: Option<String> = None;
    let mut start: usize = 0;
    let mut i: usize = 0;
    proof {
        assert(contents@.subrange(0, 0) =~= Seq::<char>::empty());
        assert(split_lines(Seq::<char>::empty()).drop_last() =~= Seq::<Seq<char>>::empty());
    }
    while i < n
        invariant
            start <= i <= n,
            n == contents@.len(),
            m == prefix@.len(),
            split_lines(contents@.subrange(0, i as int)).last() == contents@.subrange(start as int, i as int),
            found is None <==> setting_of(split_lines(contents@.subrange(0, i as int)).drop_last(), prefix@) is None,
            found is Some ==> found->0@ == setting_of(split_lines(contents@.subrange(0, i as int)).drop_last(), prefix@)->0,
        decreases n - i,
    {
        let ghost before = split_lines(contents@.subrange(0, i as int));
        proof {
            crate::xfce::lemma_split_lines_nonempty(contents@.subrange(0, i as int));
            assert(before =~= before.drop_last().push(before.last()));
            assert(contents@.subrange(0, i + 1).drop_last() =~= contents@.subrange(0, i as int));
        }
        let c = contents.get_char(i);
        if c == '\n' {
            let line = contents.substring_char(start, i);
            if starts_with(line, prefix.as_str()) {
                let l = line.unicode_len();
                found = Some(line.substring_char(m, l).to_owned());
            }
            proof {
                let after = split_lines(contents@.subrange(0, i + 1));
                assert(after.drop_last() =~= before);
                assert(contents@.subrange(i + 1, i + 1) =~= Seq::<char>::empty());
            }
            start = i + 1;
        } else {
            proof {
                let after = split_lines(contents@.subrange(0, i + 1));
                assert(after.drop_last() =~= before.drop_last());
                assert(contents@.subrange(start as int, i + 1) =~= contents@.subrange(
                    start as int,
                    i as int,
                ).push(c));
            }
        }
        i += 1;
    }
    let line = contents.substring_char(start, n);
    if starts_with(line, prefix.as_str()) {
        let l = line.unicode_len();
        found = Some(line.substring_char(m, l).to_owned());
    }
    proof {
        let all = split_lines(contents@.subrange(0, n as int));
        crate::xfce::lemma_split_lines_nonempty(contents@.subrange(0, n as int));
        assert(contents@.subrange(0, n as int) =~= contents@);
        assert(all =~= all.drop_last().push(all.last()));
    }
    found
}

} // verus!
