//! Display-name canonicalization and socket-path computation.
//!
//! A display string has the shape `host:display.screen`, where the host
//! may be empty (meaning the local machine) and the display and screen
//! numbers default to `0`.  The canonical form spells all three parts
//! out, with the host replaced by its canonical, fully-qualified,
//! lowercase name.
//!
//! Everything that depends on the environment — the value of the
//! DISPLAY and LOGNAME variables, the machine's hostname, and what the
//! resolver says about a host — is passed in as an argument, so the
//! canonicalization itself is a function of plain values.  The resolver
//! calls themselves are available as [`canonical_host_impl`] and
//! [`system_name`].

use vstd::prelude::*;
use vstd::string::StrSliceExecFns;
use vstd::string::StringExecFns;

use crate::error::ConnError;

verus! {

/// Whether the character sequence contains the character.
pub open spec fn contains_char(s: Seq<char>, c: char) -> bool {
    exists|i: int| 0 <= i < s.len() && s[i] == c
}

/// Splits the sequence at the first occurrence of `c`, which is not part
/// of either half; `None` when `c` does not occur.
pub open spec fn spec_split_once(s: Seq<char>, c: char) -> Option<(Seq<char>, Seq<char>)>
    decreases s.len(),
{
    if s.len() == 0 {
        None
    } else if s[0] == c {
        Some((Seq::empty(), s.skip(1)))
    } else {
        match spec_split_once(s.skip(1), c) {
            Some(p) => Some((seq![s[0]] + p.0, p.1)),
            None => None,
        }
    }
}

/// A display string may carry a `unix:` prefix; the `unix` part is
/// dropped (the colon stays, so the host part is empty).
pub open spec fn spec_strip_unix(name: Seq<char>) -> Seq<char> {
    if name.len() >= 5 && name[0] == 'u' && name[1] == 'n' && name[2] == 'i' && name[3] == 'x'
        && name[4] == ':' {
        name.skip(4)
    } else {
        name
    }
}

/// The host part and the remainder of a display string: the remainder
/// defaults to display `0` when there is no colon.
pub open spec fn spec_host_and_rest(name: Seq<char>) -> (Seq<char>, Seq<char>) {
    match spec_split_once(name, ':') {
        Some(p) => p,
        None => (name, "0"@),
    }
}

/// The display and screen numbers from the remainder: the screen
/// defaults to `0` when there is no dot.
pub open spec fn spec_display_and_screen(rest: Seq<char>) -> (Seq<char>, Seq<char>) {
    match spec_split_once(rest, '.') {
        Some(p) => p,
        None => (rest, "0"@),
    }
}

/// What `str::to_lowercase` returns; the result depends on the
/// characters alone.
pub uninterp spec fn lower_of(s: Seq<char>) -> Seq<char>;

/// The canonical form of a host name: the resolver's canonical name for
/// it when one was found, the host itself otherwise, lowercased.
pub open spec fn spec_canonical_host(host: Seq<char>, canon: Option<Seq<char>>) -> Seq<char> {
    match canon {
        Some(c) => lower_of(c),
        None => lower_of(host),
    }
}

/// The canonical display string `host:display.screen`.  An empty host
/// part stands for the local machine and is replaced by `system_name`
/// (or left empty when that is unavailable); a non-empty host is
/// canonicalized with the resolver's answer `canon`.
pub open spec fn spec_canonical_display(
    name: Seq<char>,
    system_name: Option<Seq<char>>,
    canon: Option<Seq<char>>,
) -> Seq<char> {
    let stripped = spec_strip_unix(name);
    let parts = spec_host_and_rest(stripped);
    let host_part = if parts.0.len() == 0 {
        match system_name {
            Some(sys) => sys,
            None => Seq::empty(),
        }
    } else {
        spec_canonical_host(parts.0, canon)
    };
    let numbers = spec_display_and_screen(parts.1);
    host_part + ":"@ + numbers.0 + "."@ + numbers.1
}

/// The path of the Unix socket the server listens on:
/// `/tmp/.sawfish-{logname}/{canonical-display}`.
pub open spec fn spec_server_path(logname: Seq<char>, canonical: Seq<char>) -> Seq<char> {
    "/tmp/.sawfish-"@ + logname + "/"@ + canonical
}

/// Relies on `str::to_lowercase`: the result depends on the characters
/// alone.
#[verifier::external_body]
fn to_lowercase_str(s: &str) -> (r: String)
    ensures
        r@ == lower_of(s@),
{
    s.to_lowercase()
}

/// Relies on `dns_lookup::getaddrinfo`, asked with the canonical-name
/// flag: hands back the canonical name of each record of the answer, in
/// order, or `None` when the lookup failed.  What comes back depends on
/// the machine's resolver, so nothing is assumed about it.
#[verifier::external_body]
fn lookup_canonical_names(host: &str) -> (r: Option<Vec<Option<String>>>) {
    let hints = dns_lookup::AddrInfoHints {
        flags: libc::AI_CANONNAME,
        address: 0,
        socktype: 0,
        protocol: 0,
    };
    dns_lookup::getaddrinfo(Some(host), None, Some(hints)).ok().map(
        |iter| iter.map(|info| info.ok().and_then(|info| info.canonname)).collect(),
    )
}

/// Relies on `dns_lookup::get_hostname`: the machine's hostname, when it
/// can be retrieved.  What comes back depends on the machine, so nothing
/// is assumed about it.
#[verifier::external_body]
fn hostname_lookup() -> (r: Option<String>) {
    dns_lookup::get_hostname().ok()
}

proof fn lemma_split_at_first(s: Seq<char>, c: char, i: int)
    requires
        0 <= i < s.len(),
        s[i] == c,
        forall|j: int| 0 <= j < i ==> s[j] != c,
    ensures
        spec_split_once(s, c) == Some((s.take(i), s.skip(i + 1))),
    decreases i,
{
    if i == 0 {
        assert(s.take(0) =~= Seq::<char>::empty());
    } else {
        lemma_split_at_first(s.skip(1), c, i - 1);
        assert(seq![s[0]] + s.skip(1).take(i - 1) =~= s.take(i));
        assert(s.skip(1).skip(i) =~= s.skip(i + 1));
    }
}

proof fn lemma_split_none(s: Seq<char>, c: char)
    requires
        forall|j: int| 0 <= j < s.len() ==> s[j] != c,
    ensures
        spec_split_once(s, c) is None,
    decreases s.len(),
{
    if s.len() > 0 {
        lemma_split_none(s.skip(1), c);
    }
}

/// Index of the first occurrence of `c` in `s`, if any.
fn find_char(s: &str, c: char) -> (r: Option<usize>)
    ensures
        r matches Some(i) ==> i < s@.len() && s@[i as int] == c && (forall|j: int|
            0 <= j < i ==> s@[j] != c),
        r is None ==> forall|j: int| 0 <= j < s@.len() ==> s@[j] != c,
{
    let n = s.unicode_len();
    let mut i: usize = 0;
    while i < n
        invariant
            i <= n,
            n == s@.len(),
            forall|j: int| 0 <= j < i ==> s@[j] != c,
        decreases n - i,
    {
        if s.get_char(i) == c {
            return Some(i);
        }
        i += 1;
    }
    None
}

/// Whether the string contains the character.
fn str_contains_char(s: &str, c: char) -> (r: bool)
    ensures
        r == contains_char(s@, c),
{
    match find_char(s, c) {
        Some(_) => true,
        None => false,
    }
}

/// Splits the string at the first occurrence of `c`.
fn split_once_str<'a>(s: &'a str, c: char) -> (r: Option<(&'a str, &'a str)>)
    ensures
        r matches Some(p) ==> spec_split_once(s@, c) == Some((p.0@, p.1@)),
        r is None ==> spec_split_once(s@, c) is None,
{
    match find_char(s, c) {
        Some(i) => {
            let n = s.unicode_len();
            let before = s.substring_char(0, i);
            let after = s.substring_char(i + 1, n);
            proof {
                lemma_split_at_first(s@, c, i as int);
                assert(s@.subrange(0, i as int) =~= s@.take(i as int));
                assert(s@.subrange(i + 1, n as int) =~= s@.skip(i + 1));
            }
            Some((before, after))
        },
        None => {
            proof {
                lemma_split_none(s@, c);
            }
            None
        },
    }
}

/// Picks the display string to use: the one given by the caller if any,
/// the value of the DISPLAY variable otherwise.  An empty display
/// string counts as no display at all.
pub fn get_display(display: Option<&str>, env_display: Option<String>) -> (r: Result<
    String,
    ConnError,
>)
    ensures
        ({
            match display {
                Some(d) => if d@.len() > 0 {
                    r matches Ok(s) && s@ == d@
                } else {
                    r == Err::<String, ConnError>(ConnError::NoDisplay)
                },
                None => match env_display {
                    Some(e) => if e@.len() > 0 {
                        r matches Ok(s) && s@ == e@
                    } else {
                        r == Err::<String, ConnError>(ConnError::NoDisplay)
                    },
                    None => r == Err::<String, ConnError>(ConnError::NoDisplay),
                },
            }
        }),
{
    match display {
        Some(d) => {
            if !d.is_empty() {
                Ok(d.to_owned())
            } else {
                Err(ConnError::NoDisplay)
            }
        },
        None => {
            match env_display {
                Some(e) => {
                    if !e.as_str().is_empty() {
                        Ok(e)
                    } else {
                        Err(ConnError::NoDisplay)
                    }
                },
                None => Err(ConnError::NoDisplay),
            }
        },
    }
}

/// The canonical, fully-qualified, lowercase version of the host name.
/// `canon` is the resolver's canonical name for the host, if it found
/// one (see [`canonical_host_impl`]); without one the host itself is
/// used.
pub fn canonical_host(host: &str, canon: Option<&str>) -> (r: String)
    ensures
        r@ == spec_canonical_host(host@, canon.deep_view()),
{
    match canon {
        Some(c) => to_lowercase_str(c),
        None => to_lowercase_str(host),
    }
}

/// Asks the resolver for a fully-qualified canonical name of the host:
/// the first canonical name in the answer that contains a dot.  Returns
/// `None` when the lookup fails or no returned name is qualified.
pub fn canonical_host_impl(host: &str) -> (r: Option<String>)
    ensures
        r matches Some(name) ==> contains_char(name@, '.'),
{
    let names = match lookup_canonical_names(host) {
        None => {
            return None;
        },
        Some(v) => v,
    };
    let mut i: usize = 0;
    while i < names.len()
        invariant
            i <= names.len(),
        decreases names.len() - i,
    {
        match &names[i] {
            Some(name) => {
                if str_contains_char(name.as_str(), '.') {
                    return Some(name.clone());
                }
            },
            None => {},
        }
        i += 1;
    }
    None
}

/// The canonical system name: the machine's hostname, qualified through
/// the resolver when it does not already contain a dot.  The result
/// depends on the machine's configuration; callers treat it as computed
/// once and valid for the life of the process.
pub fn system_name() -> Option<String> {
    let host = match hostname_lookup() {
        None => {
            return None;
        },
        Some(h) => h,
    };
    if str_contains_char(host.as_str(), '.') {
        Some(host)
    } else {
        match canonical_host_impl(host.as_str()) {
            Some(c) => Some(c),
            None => Some(host),
        }
    }
}

/// Drops the `unix` of a `unix:` prefix, keeping the colon.
fn strip_unix<'a>(name: &'a str) -> (r: &'a str)
    ensures
        r@ == spec_strip_unix(name@),
{
    let n = name.unicode_len();
    if n >= 5 && name.get_char(0) == 'u' && name.get_char(1) == 'n' && name.get_char(2) == 'i'
        && name.get_char(3) == 'x' && name.get_char(4) == ':' {
        let r = name.substring_char(4, n);
        proof {
            assert(name@.subrange(4, n as int) =~= name@.skip(4));
        }
        r
    } else {
        name
    }
}

/// The host part of a display string, if it is not empty.  This is the
/// host that [`canonical_host_impl`] should be asked about before
/// calling [`canonical_display`].
pub fn display_host(name: &str) -> (r: Option<String>)
    ensures
        ({
            let stripped = spec_strip_unix(name@);
            let parts = spec_host_and_rest(stripped);
            if parts.0.len() == 0 {
                r is None
            } else {
                r matches Some(h) && h@ == parts.0
            }
        }),
{
    let stripped = strip_unix(name);
    let host: &str = match split_once_str(stripped, ':') {
        Some(p) => p.0,
        None => stripped,
    };
    if host.is_empty() {
        None
    } else {
        Some(host.to_owned())
    }
}

/// The canonical display string (for example `":0"` becomes
/// `"example.com:0.0"`).  `system_name` is the machine's canonical
/// hostname (see [`system_name`]); `canon` is the resolver's canonical
/// name for the display's host part, if the display names one (see
/// [`display_host`] and [`canonical_host_impl`]).
pub fn canonical_display(name: &str, system_name: Option<&str>, canon: Option<&str>) -> (r:
    String)
    ensures
        r@ == spec_canonical_display(name@, system_name.deep_view(), canon.deep_view()),
{
    let stripped = strip_unix(name);
    let host_rest: (&str, &str) = match split_once_str(stripped, ':') {
        Some(p) => p,
        None => (stripped, "0"),
    };
    let host_part: String = if host_rest.0.is_empty() {
        match system_name {
            Some(sys) => sys.to_owned(),
            None => String::new(),
        }
    } else {
        canonical_host(host_rest.0, canon)
    };
    let display_screen: (&str, &str) = match split_once_str(host_rest.1, '.') {
        Some(p) => p,
        None => (host_rest.1, "0"),
    };
    let mut out = host_part;
    out.append(":");
    out.append(display_screen.0);
    out.append(".");
    out.append(display_screen.1);
    proof {
        assert(out@ =~= spec_canonical_display(
            name@,
            system_name.deep_view(),
            canon.deep_view(),
        ));
    }
    out
}

/// The path of the Unix socket the server is listening on, or
/// `NoLogname` when the login name is unavailable.  The path is
/// `/tmp/.sawfish-{logname}/{canonical-display}`; the existence of the
/// socket is not checked.
pub fn server_path(
    display: &str,
    logname: Option<&str>,
    system_name: Option<&str>,
    canon: Option<&str>,
) -> (r: Result<String, ConnError>)
    ensures
        logname is None ==> r == Err::<String, ConnError>(ConnError::NoLogname),
        logname matches Some(l) ==> r matches Ok(p) && p@ == spec_server_path(
            l@,
            spec_canonical_display(display@, system_name.deep_view(), canon.deep_view()),
        ),
{
    let l = match logname {
        None => {
            return Err(ConnError::NoLogname);
        },
        Some(l) => l,
    };
    let mut out = "/tmp/.sawfish-".to_owned();
    out.append(l);
    out.append("/");
    let canonical = canonical_display(display, system_name, canon);
    out.append(canonical.as_str());
    proof {
        assert(out@ =~= spec_server_path(
            l@,
            spec_canonical_display(display@, system_name.deep_view(), canon.deep_view()),
        ));
    }
    Ok(out)
}

} // verus!
