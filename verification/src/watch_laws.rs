//! What the watcher goes by, told by the texts of its files.

use vstd::prelude::*;

use crate::text::{lines_of, trimmed, until_unique, whitespace};
use crate::text_laws::{trimmed_is, trimmed_law};
use crate::watch::{
    any_tunnel, below, ended_lines, is_tunnel, portals_place, rc_from, rc_line, rc_place, rc_value,
    remembered, LinkView,
};

verus! {

/// A line without a comment that has a sign sets what stands before the
/// first sign to what stands behind it, each without the whitespace around
/// it; with nothing behind the sign it sets nothing.
pub proof fn rc_set_law(left: Seq<char>, right: Seq<char>)
    requires
        !left.contains('=') && !left.contains('#') && !right.contains('#'),
    ensures
        rc_line(left + seq!['='] + right) == if trimmed(right).len() == 0 {
            None
        } else {
            Some((trimmed(left), trimmed(right)))
        },
{
    let line = left + seq!['='] + right;
    let n = left.len() as int;
    assert forall|i: int| 0 <= i < line.len() implies line[i] != '#' by {
        if i < n {
            assert(left.contains(left[i]));
        } else if i > n {
            assert(right.contains(right[i - n - 1]));
        }
    }
    until_unique(line, '#', line.len() as int);
    assert(line.take(line.len() as int) =~= line);
    let a = trimmed_law(left);
    let b = a + trimmed(left).len();
    let c = trimmed_law(right);
    let d = c + trimmed(right).len();
    let from = if a < b {
        a
    } else {
        n
    };
    let to = if c < d {
        n + 1 + d
    } else {
        n + 1
    };
    assert(!whitespace('='));
    assert forall|i: int| 0 <= i < from implies whitespace(#[trigger] line[i]) by {
        assert(line[i] == left[i]);
    }
    assert forall|i: int| to <= i < line.len() implies whitespace(#[trigger] line[i]) by {
        assert(line[i] == right[i - n - 1]);
    }
    if a < b {
        assert(line[from] == trimmed(left)[0]);
    }
    if c < d {
        assert(line[to - 1] == trimmed(right)[trimmed(right).len() - 1]);
    }
    trimmed_is(line, from, to);
    let body = line.subrange(from, to);
    assert forall|i: int| 0 <= i < n - from implies body[i] != '=' by {
        assert(body[i] == left[from + i]);
        assert(left.contains(left[from + i]));
    }
    assert(body[n - from] == '=');
    until_unique(body, '=', n - from);
    let key = body.take(n - from);
    let value = body.skip(n - from + 1);
    assert(key =~= left.subrange(from, n));
    assert forall|i: int| b - from <= i < key.len() && a < b implies whitespace(
        #[trigger] key[i],
    ) by {
        assert(key[i] == left[from + i]);
    }
    if a < b {
        assert(key[0] == trimmed(left)[0]);
        assert(key[b - a - 1] == trimmed(left)[trimmed(left).len() - 1]);
        trimmed_is(key, 0, b - a);
        assert(key.subrange(0, b - a) =~= trimmed(left));
    } else {
        trimmed_is(key, 0, 0);
        assert(key.subrange(0, 0) =~= trimmed(left));
    }
    if c < d {
        assert(value =~= right.take(d));
        assert forall|i: int| 0 <= i < c implies whitespace(#[trigger] value[i]) by {
            assert(value[i] == right[i]);
        }
        assert(value[c] == trimmed(right)[0]);
        assert(value[d - 1] == trimmed(right)[trimmed(right).len() - 1]);
        trimmed_is(value, c, d);
        assert(value.subrange(c, d) =~= trimmed(right));
    } else {
        assert(value.len() == 0);
        trimmed_is(value, 0, 0);
    }
}

/// A line without a sign before its comment sets nothing.
pub proof fn rc_unset_law(line: Seq<char>)
    requires
        !line.contains('=') && !line.contains('#'),
    ensures
        rc_line(line) is None,
{
    assert forall|i: int| 0 <= i < line.len() implies line[i] != '#' && line[i] != '=' by {
        assert(line.contains(line[i]));
    }
    until_unique(line, '#', line.len() as int);
    assert(line.take(line.len() as int) =~= line);
    let at = trimmed_law(line);
    let body = trimmed(line);
    assert forall|i: int| 0 <= i < body.len() implies body[i] != '=' by {
        assert(body[i] == line[at + i]);
    }
    until_unique(body, '=', body.len() as int);
}

/// A comment changes nothing of what a line sets.
pub proof fn rc_comment_law(line: Seq<char>, comment: Seq<char>)
    requires
        !line.contains('#'),
    ensures
        rc_line(line + seq!['#'] + comment) == rc_line(line),
{
    let all = line + seq!['#'] + comment;
    let n = line.len() as int;
    assert forall|i: int| 0 <= i < n implies line[i] != '#' by {
        assert(line.contains(line[i]));
    }
    until_unique(all, '#', n);
    until_unique(line, '#', n);
    assert(all.take(n) =~= line);
    assert(line.take(n) =~= line);
}

/// Of the lines that set a key the last one counts, and lines that set
/// another or nothing change nothing. The two commands go by their two keys,
/// over the lines of the file.
pub proof fn rc_last_law(found: Seq<Seq<char>>, line: Seq<char>, key: Seq<char>, file: Seq<char>)
    ensures
        rc_value(Seq::empty(), key) is None,
        rc_line(line) is None ==> rc_value(found.push(line), key) == rc_value(found, key),
        rc_line(line) matches Some((k, v)) ==> rc_value(found.push(line), key) == if k == key {
            Some(v)
        } else {
            rc_value(found, key)
        },
        rc_from(file).vpn_up == rc_value(lines_of(file), "vpn_up"@),
        rc_from(file).vpn_down == rc_value(lines_of(file), "vpn_down"@),
{
    assert(found.push(line).drop_last() =~= found);
}

/// A path below a directory has one slash between the two, the directory's
/// own where it ends with one; below no directory it is the name.
pub proof fn below_law(dir: Seq<char>, name: Seq<char>)
    ensures
        dir.len() == 0 ==> below(dir, name) == name,
        dir.len() > 0 && dir.last() == '/' ==> below(dir, name) == dir + name,
        dir.len() > 0 && dir.last() != '/' ==> below(dir, name) == dir + seq!['/'] + name,
{
    reveal_strlit("/");
    assert("/"@ =~= seq!['/']);
    assert(dir.len() == 0 ==> dir + name =~= name);
}

/// What portals are kept in is one line for each, each with its end; one
/// more is one line more, behind those that were there.
pub proof fn remembered_law(found: Seq<Seq<char>>, line: Seq<char>, file: Seq<char>)
    ensures
        ended_lines(Seq::empty()).len() == 0,
        ended_lines(found.push(line)) == ended_lines(found) + line + seq!['\n'],
        remembered(file, line) == ended_lines(lines_of(file)) + line + seq!['\n'],
{
    assert(found.push(line).drop_last() =~= found);
    assert(lines_of(file).push(line).drop_last() =~= lines_of(file));
}

/// A device is a tunnel that is up when its name starts with ppp or tun and
/// its state was read and is not that it is down.
pub proof fn tunnel_law(link: LinkView, state: Seq<char>)
    ensures
        link.state is None ==> !is_tunnel(link),
        link.state == Some(state) ==> (is_tunnel(link) <==> link.name.len() >= 3 && ((link.name[0]
            == 'p' && link.name[1] == 'p' && link.name[2] == 'p') || (link.name[0] == 't'
            && link.name[1] == 'u' && link.name[2] == 'n')) && trimmed(state) != "down"@),
{
    reveal_strlit("ppp");
    reveal_strlit("tun");
    let name = link.name;
    if name.len() >= 3 {
        let front = name.subrange(0, 3);
        assert(front[0] == name[0] && front[1] == name[1] && front[2] == name[2]);
        if name[0] == 'p' && name[1] == 'p' && name[2] == 'p' {
            assert(front =~= "ppp"@);
        }
        if name[0] == 't' && name[1] == 'u' && name[2] == 'n' {
            assert(front =~= "tun"@);
        }
    }
}

/// A tunnel is up when any of the devices is one, wherever it stands.
pub proof fn any_tunnel_law(links: Seq<LinkView>, link: LinkView)
    ensures
        !any_tunnel(Seq::empty()),
        any_tunnel(links.push(link)) <==> any_tunnel(links) || is_tunnel(link),
{
    let more = links.push(link);
    if any_tunnel(links) {
        let i = choose|i: int| 0 <= i < links.len() && is_tunnel(#[trigger] links[i]);
        assert(more[i] == links[i]);
    }
    if is_tunnel(link) {
        assert(more[links.len() as int] == link);
    }
    if any_tunnel(more) {
        let i = choose|i: int| 0 <= i < more.len() && is_tunnel(#[trigger] more[i]);
        if i < links.len() {
            assert(links[i] == more[i]);
        }
    }
}

/// Both files are below the home directory, whether or not its path ends in
/// a slash.
pub proof fn places_law(home: Seq<char>)
    requires
        home.len() > 0,
    ensures
        home.last() != '/' ==> rc_place(home) == home + "/.roamrc"@ && portals_place(home) == home
            + "/.roam/portals"@,
        home.last() == '/' ==> rc_place(home) == home + ".roamrc"@ && portals_place(home) == home
            + ".roam/portals"@,
{
    reveal_strlit("/");
    reveal_strlit(".roamrc");
    reveal_strlit(".roam");
    reveal_strlit("portals");
    reveal_strlit("/.roamrc");
    reveal_strlit("/.roam/portals");
    reveal_strlit(".roam/portals");
    let dir = below(home, ".roam"@);
    assert(dir.last() == 'm');
    if home.last() == '/' {
        assert(rc_place(home) =~= home + ".roamrc"@);
        assert(portals_place(home) =~= home + ".roam/portals"@);
    } else {
        assert(rc_place(home) =~= home + "/.roamrc"@);
        assert(portals_place(home) =~= home + "/.roam/portals"@);
    }
}

} // verus!
