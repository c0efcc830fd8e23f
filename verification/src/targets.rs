//! Reading the target of a new remote location (`ftp://user@host:port/path`,
//! `smb://user@server/share/path?workgroup=W`, `ssh://user@host/path`).
use vstd::prelude::*;

use crate::profiles::{FtpSourceProfile, SmbSourceProfile, SshAuthMethod, SshSourceProfile};
use crate::remote_path::{lemma_split_nonempty, rooted, rooted_string, split_slash, views};
use crate::text::{chars_of, concat, opt_view, owned, push_all, str_eq, string_from_chars};

verus! {

/// The parts of a parsed URL that a location is made from, as the `url`
/// crate reports them.
#[derive(Debug, Clone)]
pub struct UrlParts {
    pub scheme: String,
    pub username: String,
    pub password: Option<String>,
    pub host: Option<String>,
    pub port: Option<u16>,
    pub path: String,
    pub query: Vec<(String, String)>,
}

pub struct UrlPartsView {
    pub scheme: Seq<char>,
    pub username: Seq<char>,
    pub password: Option<Seq<char>>,
    pub host: Option<Seq<char>>,
    pub port: Option<u16>,
    pub path: Seq<char>,
    pub query: Seq<(Seq<char>, Seq<char>)>,
}

impl View for UrlParts {
    type V = UrlPartsView;

    open spec fn view(&self) -> UrlPartsView {
        UrlPartsView {
            scheme: self.scheme@,
            username: self.username@,
            password: opt_view(self.password),
            host: opt_view(self.host),
            port: self.port,
            path: self.path@,
            query: self.query@.map_values(|q: (String, String)| (q.0@, q.1@)),
        }
    }
}

/// What `url::Url::parse` makes of a text: the URL's parts, or nothing when
/// the text is not a URL.  The WHATWG parsing rules are named, not restated.
pub uninterp spec fn url_parts_of(target: Seq<char>) -> Option<UrlPartsView>;

/// `url::Url::parse`, followed by its accessors `scheme`, `username`,
/// `password`, `host_str`, `port`, `path` and `query_pairs` (decoded pairs).
/// The contract claims only that the result is the named parse of `target`.
#[verifier::external_body]
fn parse_url(target: &str) -> (res: Option<UrlParts>)
    ensures
        match res {
            Some(u) => url_parts_of(target@) == Some(u@),
            None => url_parts_of(target@) is None,
        },
{
    let url = url::Url::parse(target).ok()?;
    Some(UrlParts {
        scheme: url.scheme().to_string(),
        username: url.username().to_string(),
        password: url.password().map(|p| p.to_string()),
        host: url.host_str().map(|h| h.to_string()),
        port: url.port(),
        path: url.path().to_string(),
        query: url.query_pairs().map(|(k, v)| (k.into_owned(), v.into_owned())).collect(),
    })
}

/// A profile read from a target, and the password that goes with it.
#[derive(Debug)]
pub struct ParsedRemoteProfile<T> {
    pub profile: T,
    pub secret: Option<String>,
}

// ---------------------------------------------------------------------------
// What a target means
// ---------------------------------------------------------------------------

/// The first problem with a target shared by every remote kind: it is not
/// a URL, has another scheme, or lacks a user name or host.
pub open spec fn common_target_error(target: Seq<char>, url: Option<UrlPartsView>, scheme: Seq<char>) -> Option<Seq<char>> {
    match url {
        None => Some("invalid target: "@ + target),
        Some(u) => if u.scheme != scheme {
            Some("expected "@ + scheme + " target"@)
        } else if u.username.len() == 0 {
            Some("target must include a username"@)
        } else if u.host is None {
            Some("target must include a host"@)
        } else {
            None
        },
    }
}

/// The directory a target opens at: its path, `/` when empty.
pub open spec fn initial_path_spec(path: Seq<char>) -> Seq<char> {
    if path.len() == 0 {
        seq!['/']
    } else {
        path
    }
}

/// The password typed in the dialog, else the one in the URL.
pub open spec fn chosen_secret(typed: Option<Seq<char>>, u: UrlPartsView) -> Option<Seq<char>> {
    match typed {
        Some(s) => Some(s),
        None => u.password,
    }
}

pub open spec fn port_or(port: Option<u16>, default: u16) -> u16 {
    match port {
        Some(p) => p,
        None => default,
    }
}

/// The path segments of a URL path (`Url::path_segments`): none unless the
/// path starts with `/`, else the rest split at `/`.
pub open spec fn path_segments_spec(path: Seq<char>) -> Option<Seq<Seq<char>>> {
    if path.len() > 0 && path[0] == '/' {
        Some(split_slash(path.skip(1)))
    } else {
        None
    }
}

/// The non-empty pieces, in order.
pub open spec fn non_empty_pieces(s: Seq<Seq<char>>) -> Seq<Seq<char>>
    decreases s.len(),
{
    if s.len() == 0 {
        s
    } else if s.last().len() == 0 {
        non_empty_pieces(s.drop_last())
    } else {
        non_empty_pieces(s.drop_last()).push(s.last())
    }
}

/// The value of the first query pair named `key`.
pub open spec fn first_value_for(query: Seq<(Seq<char>, Seq<char>)>, key: Seq<char>) -> Option<Seq<char>>
    decreases query.len(),
{
    if query.len() == 0 {
        None
    } else if query[0].0 == key {
        Some(query[0].1)
    } else {
        first_value_for(query.drop_first(), key)
    }
}

/// The first problem with an SMB target beyond the common ones.
pub open spec fn smb_target_error(target: Seq<char>, u: UrlPartsView) -> Option<Seq<char>> {
    match path_segments_spec(u.path) {
        None => Some("invalid smb target: "@ + target),
        Some(segs) => if segs[0].len() == 0 {
            Some("smb target must include a share name"@)
        } else {
            None
        },
    }
}

// ---------------------------------------------------------------------------
// Reading targets
// ---------------------------------------------------------------------------

fn common_error(target: &str, url: &Option<UrlParts>, scheme: &str) -> (res: Option<String>)
    ensures
        opt_view(res) == common_target_error(target@, match url {
            Some(u) => Some(u@),
            None => None,
        }, scheme@),
{
    match url {
        None => Some(concat("invalid target: ", target)),
        Some(u) => {
            if !str_eq(u.scheme.as_str(), scheme) {
                let mut m = concat("expected ", scheme);
                push_all(&mut m, " target");
                Some(m)
            } else if u.username.as_str().is_empty() {
                Some(owned("target must include a username"))
            } else if u.host.is_none() {
                Some(owned("target must include a host"))
            } else {
                None
            }
        },
    }
}

fn initial_path_of(path: &str) -> (res: String)
    ensures
        res@ == initial_path_spec(path@),
{
    if path.is_empty() {
        let mut s = String::new();
        crate::text::push_char(&mut s, '/');
        s
    } else {
        owned(path)
    }
}

fn secret_of(typed: Option<&str>, u: &UrlParts) -> (res: Option<String>)
    ensures
        opt_view(res) == chosen_secret(match typed {
            Some(t) => Some(t@),
            None => None,
        }, u@),
{
    match typed {
        Some(t) => Some(owned(t)),
        None => match &u.password {
            Some(p) => Some(p.clone()),
            None => None,
        },
    }
}

fn host_of(u: &UrlParts) -> (res: String)
    requires
        u.host is Some,
    ensures
        Some(res@) == u@.host,
{
    match &u.host {
        Some(h) => h.clone(),
        None => String::new(),
    }
}

/// The FTP profile a URL describes (label left empty), or the first
/// problem with it.
pub fn ftp_target_from_url(target: &str, url: Option<UrlParts>, secret_override: Option<&str>) -> (res: Result<ParsedRemoteProfile<FtpSourceProfile>, String>)
    ensures
        ({
            let uv = match url { Some(u) => Some(u@), None => None };
            let typed = match secret_override { Some(t) => Some(t@), None => None };
            match common_target_error(target@, uv, "ftp"@) {
                Some(e) => res matches Err(m) && m@ == e,
                None => res matches Ok(p) && ({
                    let u = uv.unwrap();
                    &&& p.profile.label@.len() == 0
                    &&& Some(p.profile.host@) == u.host
                    &&& p.profile.port == port_or(u.port, 21)
                    &&& p.profile.username@ == u.username
                    &&& p.profile.initial_path@ == initial_path_spec(u.path)
                    &&& opt_view(p.secret) == chosen_secret(typed, u)
                }),
            }
        }),
{
    match common_error(target, &url, "ftp") {
        Some(e) => Err(e),
        None => {
            let u = url.unwrap();
            let profile = FtpSourceProfile {
                label: String::new(),
                host: host_of(&u),
                port: match u.port { Some(p) => p, None => 21 },
                username: u.username.clone(),
                initial_path: initial_path_of(u.path.as_str()),
            };
            let secret = secret_of(secret_override, &u);
            Ok(ParsedRemoteProfile { profile, secret })
        },
    }
}

/// The SSH profile a URL describes (password authentication, label left
/// empty), or the first problem with it.
pub fn ssh_target_from_url(target: &str, url: Option<UrlParts>, secret_override: Option<&str>) -> (res: Result<ParsedRemoteProfile<SshSourceProfile>, String>)
    ensures
        ({
            let uv = match url { Some(u) => Some(u@), None => None };
            let typed = match secret_override { Some(t) => Some(t@), None => None };
            match common_target_error(target@, uv, "ssh"@) {
                Some(e) => res matches Err(m) && m@ == e,
                None => res matches Ok(p) && ({
                    let u = uv.unwrap();
                    &&& p.profile.label@.len() == 0
                    &&& Some(p.profile.host@) == u.host
                    &&& p.profile.port == port_or(u.port, 22)
                    &&& p.profile.username@ == u.username
                    &&& p.profile.initial_path@ == initial_path_spec(u.path)
                    &&& p.profile.auth == SshAuthMethod::Password
                    &&& p.profile.key_path is None
                    &&& opt_view(p.secret) == chosen_secret(typed, u)
                }),
            }
        }),
{
    match common_error(target, &url, "ssh") {
        Some(e) => Err(e),
        None => {
            let u = url.unwrap();
            let profile = SshSourceProfile {
                label: String::new(),
                host: host_of(&u),
                port: match u.port { Some(p) => p, None => 22 },
                username: u.username.clone(),
                initial_path: initial_path_of(u.path.as_str()),
                auth: SshAuthMethod::Password,
                key_path: None,
            };
            let secret = secret_of(secret_override, &u);
            Ok(ParsedRemoteProfile { profile, secret })
        },
    }
}

/// The pieces of `chars` between `/` separators.
fn split_on_slash(chars: &Vec<char>, start: usize) -> (res: Vec<Vec<char>>)
    requires
        start <= chars@.len(),
    ensures
        views(res@) == split_slash(chars@.skip(start as int)),
{
    let ghost s = chars@.skip(start as int);
    let mut done: Vec<Vec<char>> = Vec::new();
    let mut cur: Vec<char> = Vec::new();
    let mut i = start;
    proof {
        assert(s.take(0) =~= Seq::<char>::empty());
        assert(views(done@) =~= Seq::<Seq<char>>::empty());
    }
    while i < chars.len()
        invariant
            start <= i <= chars@.len(),
            s == chars@.skip(start as int),
            split_slash(s.take(i - start)).len() >= 1,
            views(done@) == split_slash(s.take(i - start)).drop_last(),
            cur@ == split_slash(s.take(i - start)).last(),
        decreases chars.len() - i,
    {
        let c = chars[i];
        let ghost prev = split_slash(s.take(i - start));
        proof {
            assert(s.take(i + 1 - start).drop_last() =~= s.take(i - start));
            assert(s.take(i + 1 - start).last() == c);
            lemma_split_nonempty(s.take(i + 1 - start));
        }
        if c == '/' {
            let seg = cur;
            cur = Vec::new();
            done.push(seg);
            proof {
                let next = split_slash(s.take(i + 1 - start));
                assert(next == prev.push(Seq::<char>::empty()));
                assert(next.drop_last() =~= prev);
                assert(prev.drop_last().push(prev.last()) =~= prev);
                assert(views(done@) =~= prev.drop_last().push(prev.last()));
                assert(cur@ =~= next.last());
            }
        } else {
            cur.push(c);
            proof {
                let next = split_slash(s.take(i + 1 - start));
                assert(next == prev.update(prev.len() - 1, prev.last().push(c)));
                assert(next.drop_last() =~= prev.drop_last());
            }
        }
        i = i + 1;
    }
    proof {
        assert(s.take(chars.len() - start) =~= s);
        let all = split_slash(s);
        assert(all.drop_last().push(all.last()) =~= all);
    }
    let ghost before = views(done@);
    done.push(cur);
    proof {
        assert(views(done@) =~= before.push(cur@));
    }
    done
}

/// The SMB profile a URL describes (label left empty, the share written
/// `/share`, the directory made of the remaining non-empty segments), or
/// the first problem with it.
pub fn smb_target_from_url(target: &str, url: Option<UrlParts>, secret_override: Option<&str>) -> (res: Result<ParsedRemoteProfile<SmbSourceProfile>, String>)
    ensures
        ({
            let uv = match url { Some(u) => Some(u@), None => None };
            let typed = match secret_override { Some(t) => Some(t@), None => None };
            match common_target_error(target@, uv, "smb"@) {
                Some(e) => res matches Err(m) && m@ == e,
                None => match smb_target_error(target@, uv.unwrap()) {
                    Some(e) => res matches Err(m) && m@ == e,
                    None => res matches Ok(p) && ({
                        let u = uv.unwrap();
                        let segs = path_segments_spec(u.path).unwrap();
                        &&& p.profile.label@.len() == 0
                        &&& Some(p.profile.server@) == u.host
                        &&& p.profile.share@ == seq!['/'] + segs[0]
                        &&& p.profile.username@ == u.username
                        &&& opt_view(p.profile.workgroup) == first_value_for(u.query, "workgroup"@)
                        &&& p.profile.initial_path@ == rooted(non_empty_pieces(segs.skip(1)))
                        &&& opt_view(p.secret) == chosen_secret(typed, u)
                    }),
                },
            }
        }),
{
    match common_error(target, &url, "smb") {
        Some(e) => Err(e),
        None => {
            let u = url.unwrap();
            let path = chars_of(u.path.as_str());
            if path.len() == 0 || path[0] != '/' {
                return Err(concat("invalid smb target: ", target));
            }
            let segs = split_on_slash(&path, 1);
            proof {
                lemma_split_nonempty(path@.skip(1));
            }
            if segs[0].len() == 0 {
                return Err(owned("smb target must include a share name"));
            }
            let mut share = String::new();
            crate::text::push_char(&mut share, '/');
            let first = string_from_chars(&segs[0]);
            push_all(&mut share, first.as_str());
            let mut rest: Vec<Vec<char>> = Vec::new();
            let mut i: usize = 1;
            proof {
                assert(views(segs@).skip(1).take(0) =~= Seq::<Seq<char>>::empty());
                assert(views(rest@) =~= Seq::<Seq<char>>::empty());
            }
            while i < segs.len()
                invariant
                    1 <= i <= segs@.len(),
                    views(rest@) == non_empty_pieces(views(segs@).skip(1).take(i - 1)),
                decreases segs.len() - i,
            {
                proof {
                    let t = views(segs@).skip(1).take(i as int);
                    assert(t.drop_last() =~= views(segs@).skip(1).take(i - 1));
                    assert(t.last() == segs@[i as int]@);
                }
                if segs[i].len() > 0 {
                    let ghost before = views(rest@);
                    rest.push(segs[i].clone());
                    proof {
                        assert(views(rest@) =~= before.push(segs@[i as int]@));
                    }
                }
                i = i + 1;
            }
            proof {
                assert(views(segs@).skip(1).take(segs.len() - 1) =~= views(segs@).skip(1));
            }
            let initial_path = rooted_string(&rest);
            let mut workgroup: Option<String> = None;
            let mut j: usize = 0;
            let ghost q = u@.query;
            proof {
                assert(q.skip(0) =~= q);
            }
            assert(u.query@.len() == q.len());
            while j < u.query.len()
                invariant_except_break
                    workgroup is None,
                    first_value_for(q, "workgroup"@) == first_value_for(q.skip(j as int), "workgroup"@),
                invariant
                    j <= u.query@.len(),
                    q == u@.query,
                ensures
                    opt_view(workgroup) == first_value_for(q, "workgroup"@),
                decreases u.query.len() - j,
            {
                proof {
                    assert(q.skip(j as int)[0] == (u.query@[j as int].0@, u.query@[j as int].1@));
                    assert(q.skip(j as int).drop_first() =~= q.skip(j + 1));
                }
                if str_eq(u.query[j].0.as_str(), "workgroup") {
                    workgroup = Some(u.query[j].1.clone());
                    break;
                }
                j = j + 1;
            }
            let profile = SmbSourceProfile {
                label: String::new(),
                server: host_of(&u),
                share,
                username: u.username.clone(),
                workgroup,
                initial_path,
            };
            let secret = secret_of(secret_override, &u);
            Ok(ParsedRemoteProfile { profile, secret })
        },
    }
}

/// Reads an FTP target (see [`ftp_target_from_url`]).
pub fn parse_ftp_target(target: &str, secret_override: Option<&str>) -> (res: Result<ParsedRemoteProfile<FtpSourceProfile>, String>)
    ensures
        ({
            let typed = match secret_override { Some(t) => Some(t@), None => None };
            let uv = url_parts_of(target@);
            match common_target_error(target@, uv, "ftp"@) {
                Some(e) => res matches Err(m) && m@ == e,
                None => res matches Ok(p) && ({
                    let u = uv.unwrap();
                    &&& p.profile.label@.len() == 0
                    &&& Some(p.profile.host@) == u.host
                    &&& p.profile.port == port_or(u.port, 21)
                    &&& p.profile.username@ == u.username
                    &&& p.profile.initial_path@ == initial_path_spec(u.path)
                    &&& opt_view(p.secret) == chosen_secret(typed, u)
                }),
            }
        }),
{
    let url = parse_url(target);
    ftp_target_from_url(target, url, secret_override)
}

/// Reads an SMB target (see [`smb_target_from_url`]).
pub fn parse_smb_target(target: &str, secret_override: Option<&str>) -> (res: Result<ParsedRemoteProfile<SmbSourceProfile>, String>)
    ensures
        ({
            let typed = match secret_override { Some(t) => Some(t@), None => None };
            let uv = url_parts_of(target@);
            match common_target_error(target@, uv, "smb"@) {
                Some(e) => res matches Err(m) && m@ == e,
                None => match smb_target_error(target@, uv.unwrap()) {
                    Some(e) => res matches Err(m) && m@ == e,
                    None => res matches Ok(p) && ({
                        let u = uv.unwrap();
                        let segs = path_segments_spec(u.path).unwrap();
                        &&& p.profile.label@.len() == 0
                        &&& Some(p.profile.server@) == u.host
                        &&& p.profile.share@ == seq!['/'] + segs[0]
                        &&& p.profile.username@ == u.username
                        &&& opt_view(p.profile.workgroup) == first_value_for(u.query, "workgroup"@)
                        &&& p.profile.initial_path@ == rooted(non_empty_pieces(segs.skip(1)))
                        &&& opt_view(p.secret) == chosen_secret(typed, u)
                    }),
                },
            }
        }),
{
    let url = parse_url(target);
    smb_target_from_url(target, url, secret_override)
}

/// Reads an SSH target (see [`ssh_target_from_url`]).
pub fn parse_ssh_target(target: &str, secret_override: Option<&str>) -> (res: Result<ParsedRemoteProfile<SshSourceProfile>, String>)
    ensures
        ({
            let typed = match secret_override { Some(t) => Some(t@), None => None };
            let uv = url_parts_of(target@);
            match common_target_error(target@, uv, "ssh"@) {
                Some(e) => res matches Err(m) && m@ == e,
                None => res matches Ok(p) && ({
                    let u = uv.unwrap();
                    &&& p.profile.label@.len() == 0
                    &&& Some(p.profile.host@) == u.host
                    &&& p.profile.port == port_or(u.port, 22)
                    &&& p.profile.username@ == u.username
                    &&& p.profile.initial_path@ == initial_path_spec(u.path)
                    &&& p.profile.auth == SshAuthMethod::Password
                    &&& p.profile.key_path is None
                    &&& opt_view(p.secret) == chosen_secret(typed, u)
                }),
            }
        }),
{
    let url = parse_url(target);
    ssh_target_from_url(target, url, secret_override)
}

} // verus!
