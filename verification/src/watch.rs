//! What the watcher goes by: the commands in `~/.roamrc`, the networks that
//! turned out to be captive portals, and the tunnels that are up.

use vstd::prelude::*;
use vstd::string::*;

use crate::text::{
    chars_of, find_char, is_at, lines, lines_of, same, stands_at, text_of, trim, trimmed, until,
    until_is_first, until_unique, whitespace, without_return,
};

verus! {

/// What `~/.roamrc` says to run for a VPN NetworkManager does not know.
pub struct Rc {
    pub vpn_up: Option<String>,
    pub vpn_down: Option<String>,
}

/// What an `Rc` says.
pub struct RcView {
    pub vpn_up: Option<Seq<char>>,
    pub vpn_down: Option<Seq<char>>,
}

impl DeepView for Rc {
    type V = RcView;

    open spec fn deep_view(&self) -> RcView {
        RcView { vpn_up: self.vpn_up.deep_view(), vpn_down: self.vpn_down.deep_view() }
    }
}

/// The part of a line before a comment, without the whitespace around it.
pub open spec fn uncommented(line: Seq<char>) -> Seq<char> {
    trimmed(line.take(until(line, '#') as int))
}

/// The key and the value of a line, when it sets one to something.
pub open spec fn rc_line(line: Seq<char>) -> Option<(Seq<char>, Seq<char>)> {
    let body = uncommented(line);
    let at = until(body, '=');
    if at >= body.len() {
        None
    } else {
        let key = trimmed(body.take(at as int));
        let value = trimmed(body.skip(at as int + 1));
        if value.len() == 0 {
            None
        } else {
            Some((key, value))
        }
    }
}

/// What lines set a key to: the last of them that sets it decides.
pub open spec fn rc_value(found: Seq<Seq<char>>, key: Seq<char>) -> Option<Seq<char>>
    decreases found.len(),
{
    if found.len() == 0 {
        None
    } else {
        match rc_line(found.last()) {
            Some((k, v)) if k == key => Some(v),
            _ => rc_value(found.drop_last(), key),
        }
    }
}

/// What the text of `~/.roamrc` says.
pub open spec fn rc_from(file: Seq<char>) -> RcView {
    RcView {
        vpn_up: rc_value(lines_of(file), "vpn_up"@),
        vpn_down: rc_value(lines_of(file), "vpn_down"@),
    }
}

/// Trimming leaves alone what has no whitespace at its ends.
proof fn trimmed_already(text: Seq<char>)
    requires
        text.len() > 0 ==> !whitespace(text.first()) && !whitespace(text.last()),
    ensures
        trimmed(text) == text,
{
}

/// A line that sets a key sets it to what stands behind the sign, and of
/// several the last one counts.
pub proof fn rc_line_law(found: Seq<Seq<char>>, key: Seq<char>, value: Seq<char>)
    requires
        key.len() > 0,
        value.len() > 0,
        !whitespace(key.first()) && !whitespace(key.last()),
        !whitespace(value.first()) && !whitespace(value.last()),
        !key.contains('=') && !key.contains('#') && !value.contains('#'),
    ensures
        rc_line(key + " = "@ + value) == Some((key, value)),
        rc_value(found.push(key + " = "@ + value), key) == Some(value),
{
    reveal_strlit(" = ");
    let line = key + " = "@ + value;
    let n = key.len() as int;
    assert forall|i: int| 0 <= i < line.len() implies line[i] != '#' by {
        if i < n {
            assert(key.contains(key[i]));
        } else if i >= n + 3 {
            assert(value.contains(value[i - n - 3]));
        }
    }
    until_unique(line, '#', line.len() as int);
    assert(line.take(line.len() as int) =~= line);
    assert(line.first() == key.first() && line.last() == value.last());
    trimmed_already(line);
    assert forall|i: int| 0 <= i < n + 1 implies line[i] != '=' by {
        if i < n {
            assert(key.contains(key[i]));
        }
    }
    until_unique(line, '=', n + 1);
    let left = line.take(n + 1);
    let right = line.skip(n + 2);
    assert(left.drop_last() =~= key);
    assert(left.first() == key.first() && left.last() == ' ');
    trimmed_already(key);
    assert(right.drop_first() =~= value);
    assert(right.first() == ' ');
    trimmed_already(value);
    assert(found.push(line).last() == line);
}

/// The key and the value of a line.
fn read_line(line: &str) -> (found: Option<(String, String)>)
    ensures
        found.deep_view() == rc_line(line@),
{
    let chars = chars_of(line);
    let end = find_char(&chars, 0, '#');
    assert(chars@.skip(0) =~= line@);
    let front = text_of(&chars, 0, end);
    assert(front@ =~= line@.take(until(line@, '#') as int));
    let body = chars_of(trim(front.as_str()).as_str());
    let at = find_char(&body, 0, '=');
    assert(body@.skip(0) =~= body@);
    if at >= body.len() {
        return None;
    }
    let left = text_of(&body, 0, at);
    let right = text_of(&body, at + 1, body.len());
    assert(left@ =~= body@.take(at as int));
    assert(right@ =~= body@.skip(at + 1));
    let value = trim(right.as_str());
    if value.as_str().is_empty() {
        return None;
    }
    Some((trim(left.as_str()), value))
}

/// `key = value` lines, `#` for comments.
pub fn read_rc(file: &str) -> (rc: Rc)
    ensures
        rc.deep_view() == rc_from(file@),
{
    let mut rc = Rc { vpn_up: None, vpn_down: None };
    let found = lines(file);
    let ghost all = found.deep_view();
    let mut k: usize = 0;
    proof {
        reveal_strlit("vpn_up");
        reveal_strlit("vpn_down");
        assert("vpn_up"@.len() == 6 && "vpn_down"@.len() == 8);
    }
    while k < found.len()
        invariant
            k <= found@.len(),
            all == found.deep_view(),
            "vpn_up"@ != "vpn_down"@,
            rc.deep_view().vpn_up == rc_value(all.take(k as int), "vpn_up"@),
            rc.deep_view().vpn_down == rc_value(all.take(k as int), "vpn_down"@),
        decreases found@.len() - k,
    {
        assert(all.take(k + 1).drop_last() =~= all.take(k as int));
        assert(all.take(k + 1).last() == found@[k as int]@);
        match read_line(found[k].as_str()) {
            Some((key, value)) => {
                if same(key.as_str(), "vpn_up") {
                    rc.vpn_up = Some(value);
                } else if same(key.as_str(), "vpn_down") {
                    rc.vpn_down = Some(value);
                }
            },
            None => {},
        }
        k = k + 1;
    }
    assert(all.take(k as int) =~= all);
    rc
}

/// A path below a directory.
pub open spec fn below(dir: Seq<char>, name: Seq<char>) -> Seq<char> {
    if dir.len() == 0 || dir.last() == '/' {
        dir + name
    } else {
        dir + "/"@ + name
    }
}

/// A path below a directory.
fn join_path(dir: &str, name: &str) -> (path: String)
    ensures
        path@ == below(dir@, name@),
{
    let chars = chars_of(dir);
    if chars.len() == 0 || chars[chars.len() - 1] == '/' {
        dir.to_string().concat(name)
    } else {
        dir.to_string().concat("/").concat(name)
    }
}

/// Where the commands for a VPN are kept, below the home directory.
pub open spec fn rc_place(home: Seq<char>) -> Seq<char> {
    below(home, ".roamrc"@)
}

/// Where the captive portals are kept, below the home directory.
pub open spec fn portals_place(home: Seq<char>) -> Seq<char> {
    below(below(home, ".roam"@), "portals"@)
}

/// Where the commands for a VPN are kept.
pub fn rc_path(home: &str) -> (path: String)
    ensures
        path@ == below(home@, ".roamrc"@),
        path@ == rc_place(home@),
{
    join_path(home, ".roamrc")
}

/// Networks that turned out to be captive portals, one name a line.
pub fn portals_path(home: &str) -> (path: String)
    ensures
        path@ == below(below(home@, ".roam"@), "portals"@),
        path@ == portals_place(home@),
{
    join_path(join_path(home, ".roam").as_str(), "portals")
}

/// The networks that turned out to be captive portals, from the text they
/// are kept in.
pub fn portals(file: &str) -> (names: Vec<String>)
    ensures
        names.deep_view() == lines_of(file@),
{
    lines(file)
}

/// Lines as a text, each ended.
pub open spec fn ended_lines(found: Seq<Seq<char>>) -> Seq<char>
    decreases found.len(),
{
    if found.len() == 0 {
        seq![]
    } else {
        ended_lines(found.drop_last()) + found.last() + seq!['\n']
    }
}

/// The text that portals are kept in, with one more.
pub open spec fn remembered(file: Seq<char>, ssid: Seq<char>) -> Seq<char> {
    ended_lines(lines_of(file).push(ssid))
}

/// The text that portals are kept in, with one more.
pub fn remember_portal(file: &str, ssid: &str) -> (new: String)
    ensures
        new@ == remembered(file@, ssid@),
{
    let mut all = portals(file);
    all.push(ssid.to_string());
    let ghost view = all.deep_view();
    assert(view =~= lines_of(file@).push(ssid@));
    let mut new = String::new();
    let mut k: usize = 0;
    while k < all.len()
        invariant
            k <= all@.len(),
            view == all.deep_view(),
            new@ == ended_lines(view.take(k as int)),
        decreases all@.len() - k,
    {
        assert(view.take(k + 1).drop_last() =~= view.take(k as int));
        assert(view.take(k + 1).last() == all@[k as int]@);
        new.append(all[k].as_str());
        let ghost before = new@;
        new.push('\n');
        assert(new@ =~= before + seq!['\n']);
        k = k + 1;
    }
    assert(view.take(k as int) =~= view);
    new
}

/// The lines of a text whose first line is known.
proof fn first_line_known(line: Seq<char>, rest: Seq<char>)
    requires
        !line.contains('\n'),
    ensures
        lines_of(line + seq!['\n'] + rest) == seq![without_return(line)] + lines_of(rest),
{
    let all = line + seq!['\n'] + rest;
    let n = line.len() as int;
    assert forall|i: int| 0 <= i < n implies all[i] != '\n' by {
        assert(line.contains(line[i]));
    }
    until_unique(all, '\n', n);
    assert(all.take(n) =~= line);
    assert(all.skip(n + 1) =~= rest);
}

/// Ended lines begin with the first of them.
proof fn ended_lines_first(found: Seq<Seq<char>>)
    requires
        found.len() > 0,
    ensures
        ended_lines(found) == found[0] + seq!['\n'] + ended_lines(found.drop_first()),
    decreases found.len(),
{
    if found.len() == 1 {
        assert(found.drop_last() =~= Seq::<Seq<char>>::empty());
        assert(found.drop_first() =~= Seq::<Seq<char>>::empty());
        assert(ended_lines(found) =~= found[0] + seq!['\n'] + ended_lines(found.drop_first()));
    } else {
        ended_lines_first(found.drop_last());
        assert(found.drop_last().drop_first() =~= found.drop_first().drop_last());
        assert(ended_lines(found) =~= found[0] + seq!['\n'] + ended_lines(found.drop_first()));
    }
}

/// Reading ended lines gives them back, but for a carriage return at the
/// end of one.
proof fn ended_lines_read(found: Seq<Seq<char>>)
    requires
        forall|i: int| 0 <= i < found.len() ==> !(#[trigger] found[i]).contains('\n'),
    ensures
        lines_of(ended_lines(found)) == found.map_values(|line: Seq<char>| without_return(line)),
    decreases found.len(),
{
    if found.len() == 0 {
        assert(lines_of(ended_lines(found)) =~= found.map_values(
            |line: Seq<char>| without_return(line),
        ));
    } else {
        let rest = found.drop_first();
        ended_lines_first(found);
        assert forall|i: int| 0 <= i < rest.len() implies !(#[trigger] rest[i]).contains('\n') by {
            assert(rest[i] == found[i + 1]);
        }
        ended_lines_read(rest);
        first_line_known(found[0], ended_lines(rest));
        assert(lines_of(ended_lines(found)) =~= found.map_values(
            |line: Seq<char>| without_return(line),
        ));
    }
}

/// No line holds a line feed.
proof fn lines_hold_no_feed(file: Seq<char>)
    ensures
        forall|i: int| 0 <= i < lines_of(file).len() ==> !(#[trigger] lines_of(file)[i]).contains(
            '\n',
        ),
    decreases file.len(),
{
    let end = until(file, '\n');
    until_is_first(file, '\n');
    if file.len() > 0 {
        let first = if end >= file.len() {
            file
        } else {
            without_return(file.take(end as int))
        };
        assert(!first.contains('\n')) by {
            if first.contains('\n') {
                let k = choose|k: int| 0 <= k < first.len() && first[k] == '\n';
                assert(file[k] == '\n');
            }
        }
        if end < file.len() {
            let rest = file.skip(end as int + 1);
            lines_hold_no_feed(rest);
            assert forall|i: int| 0 <= i < lines_of(file).len() implies !(#[trigger] lines_of(
                file,
            )[i]).contains('\n') by {
                if i > 0 {
                    assert(lines_of(file)[i] == lines_of(rest)[i - 1]);
                }
            }
        }
    }
}

/// A portal that is remembered is among the portals read back, after all
/// that were there before. A name with a line feed in it, or with a
/// carriage return at its end, is no line of a text.
pub proof fn portal_remembered_law(file: Seq<char>, ssid: Seq<char>)
    requires
        !ssid.contains('\n'),
        without_return(ssid) == ssid,
    ensures
        lines_of(remembered(file, ssid)) == lines_of(file).map_values(
            |line: Seq<char>| without_return(line),
        ).push(ssid),
{
    let all = lines_of(file).push(ssid);
    lines_hold_no_feed(file);
    assert forall|i: int| 0 <= i < all.len() implies !(#[trigger] all[i]).contains('\n') by {
        if i < lines_of(file).len() {
            assert(all[i] == lines_of(file)[i]);
        }
    }
    ended_lines_read(all);
    assert(all.map_values(|line: Seq<char>| without_return(line)) =~= lines_of(file).map_values(
        |line: Seq<char>| without_return(line),
    ).push(ssid));
}

/// A network device of the system, with its state if that could be read.
pub struct Link {
    pub name: String,
    pub state: Option<String>,
}

/// What a `Link` says.
pub struct LinkView {
    pub name: Seq<char>,
    pub state: Option<Seq<char>>,
}

impl DeepView for Link {
    type V = LinkView;

    open spec fn deep_view(&self) -> LinkView {
        LinkView { name: self.name@, state: self.state.deep_view() }
    }
}

/// Whether a device is a tunnel that is up.
pub open spec fn is_tunnel(link: LinkView) -> bool {
    &&& stands_at(link.name, 0, "ppp"@) || stands_at(link.name, 0, "tun"@)
    &&& link.state matches Some(state) && trimmed(state) != "down"@
}

/// Whether one of the devices is a tunnel that is up.
pub open spec fn any_tunnel(links: Seq<LinkView>) -> bool {
    exists|i: int| 0 <= i < links.len() && is_tunnel(#[trigger] links[i])
}

/// Whether a tunnel is up that NetworkManager does not run, such as
/// openfortivpn's: a ppp or tun device that is up.
pub fn tunnel_up(links: &Vec<Link>) -> (up: bool)
    ensures
        up == any_tunnel(links.deep_view()),
{
    let ghost all = links.deep_view();
    let ppp = chars_of("ppp");
    let tun = chars_of("tun");
    let mut k: usize = 0;
    while k < links.len()
        invariant
            k <= links@.len(),
            all == links.deep_view(),
            ppp@ == "ppp"@,
            tun@ == "tun"@,
            forall|i: int| 0 <= i < k ==> !is_tunnel(#[trigger] all[i]),
        decreases links@.len() - k,
    {
        let name = chars_of(links[k].name.as_str());
        let kind = is_at(&name, 0, &ppp) || is_at(&name, 0, &tun);
        let on = match &links[k].state {
            Some(state) => !same(trim(state.as_str()).as_str(), "down"),
            None => false,
        };
        if kind && on {
            assert(is_tunnel(all[k as int]));
            return true;
        }
        assert(!is_tunnel(all[k as int]));
        k = k + 1;
    }
    false
}

} // verus!
