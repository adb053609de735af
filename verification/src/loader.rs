//! Turning raw input into the uniform target list.
//!
//! A `--tcp` entry is a string that splits on its *last* colon into a host
//! and a decimal port; a manifest entry is a record whose shape (host and
//! port present, or a socket path present) decides which kind of target it
//! declares. The loader merges the directly-specified entries and the
//! manifest entries into one list of well-formed targets, or reports the
//! first malformed input.

use vstd::prelude::*;

use crate::cli::CLIArgs;
use crate::errors::InputError;
use crate::target::{SocketTarget, Target, TcpTarget};

verus! {

/// Index of the last `:` in `s`, if there is one.
pub open spec fn last_colon(s: Seq<char>) -> Option<int>
    decreases s.len(),
{
    if s.len() == 0 {
        None
    } else if s.last() == ':' {
        Some(s.len() - 1)
    } else {
        last_colon(s.drop_last())
    }
}

/// A decimal digit (`'0'` is code point 48, `'9'` is 57).
pub open spec fn is_digit(c: char) -> bool {
    48 <= c as int <= 57
}

pub open spec fn digit_val(c: char) -> nat {
    (c as int - 48) as nat
}

pub open spec fn all_digits(s: Seq<char>) -> bool {
    forall|i: int| 0 <= i < s.len() ==> is_digit(#[trigger] s[i])
}

/// The number written in `s`, read as base-10 digits.
pub open spec fn digits_val(s: Seq<char>) -> nat
    decreases s.len(),
{
    if s.len() == 0 {
        0
    } else {
        digits_val(s.drop_last()) * 10 + digit_val(s.last())
    }
}

/// The digit part of a port string: one leading `+` sign is allowed.
pub open spec fn port_digits(s: Seq<char>) -> Seq<char> {
    if s.len() > 0 && s[0] == '+' {
        s.skip(1)
    } else {
        s
    }
}

/// Whether `s` is a valid port: at least one digit, digits only, and a
/// value that fits in 16 bits.
pub open spec fn is_port_str(s: Seq<char>) -> bool {
    let d = port_digits(s);
    d.len() > 0 && all_digits(d) && digits_val(d) <= 0xffff
}

pub open spec fn port_val(s: Seq<char>) -> u16 {
    digits_val(port_digits(s)) as u16
}

/// The entry has no colon, so no port can be split off.
pub open spec fn entry_missing_port(s: Seq<char>) -> bool {
    last_colon(s) is None
}

/// The text after the entry's last colon is not a valid port.
pub open spec fn entry_bad_port(s: Seq<char>) -> bool {
    match last_colon(s) {
        Some(i) => !is_port_str(s.skip(i + 1)),
        None => false,
    }
}

/// The entry's host part (before the last colon) is empty.
pub open spec fn entry_empty_host(s: Seq<char>) -> bool {
    !entry_bad_port(s) && last_colon(s) == Some(0int)
}

/// A well-formed `--tcp` entry: a non-empty host, a colon, a valid port.
pub open spec fn tcp_entry_ok(s: Seq<char>) -> bool {
    match last_colon(s) {
        Some(i) => i > 0 && is_port_str(s.skip(i + 1)),
        None => false,
    }
}

/// The host part of a well-formed entry.
pub open spec fn tcp_entry_host(s: Seq<char>) -> Seq<char> {
    match last_colon(s) {
        Some(i) => s.take(i),
        None => Seq::empty(),
    }
}

/// The port of a well-formed entry.
pub open spec fn tcp_entry_port(s: Seq<char>) -> u16 {
    match last_colon(s) {
        Some(i) => port_val(s.skip(i + 1)),
        None => 0,
    }
}

/// Position of the last `:` of `e`, scanning from the end.
fn find_last_colon(e: &str) -> (r: Option<usize>)
    ensures
        match r {
            Some(j) => j < e@.len() && last_colon(e@) == Some(j as int),
            None => last_colon(e@) is None,
        },
{
    let n = e.unicode_len();
    proof {
        assert(e@.take(n as int) =~= e@);
    }
    let mut j: usize = n;
    let mut result: Option<usize> = None;
    while j > 0 && result.is_none()
        invariant
            j <= n,
            n == e@.len(),
            match result {
                Some(k) => k < n && last_colon(e@) == Some(k as int),
                None => last_colon(e@) == last_colon(e@.take(j as int)),
            },
        decreases j,
    {
        let jj = j - 1;
        proof {
            assert(e@.take(j as int).len() == j as int);
            assert(e@.take(j as int).last() == e@[jj as int]);
        }
        if e.get_char(jj) == ':' {
            result = Some(jj);
        } else {
            proof {
                assert(e@.take(j as int).drop_last() =~= e@.take(jj as int));
            }
        }
        j = jj;
    }
    proof {
        if result is None {
            assert(e@.take(0).len() == 0);
        }
    }
    result
}

/// Larger digit prefixes never have a smaller value.
proof fn lemma_digits_val_monotonic(s: Seq<char>, a: int, b: int)
    requires
        0 <= a <= b <= s.len(),
    ensures
        digits_val(s.take(a)) <= digits_val(s.take(b)),
    decreases b - a,
{
    if a < b {
        lemma_digits_val_monotonic(s, a, b - 1);
        assert(s.take(b).drop_last() =~= s.take(b - 1));
        assert(digits_val(s.take(b)) == digits_val(s.take(b - 1)) * 10 + digit_val(s.take(b).last()));
    }
}

/// Read the port written at `e[start..]`, if it is one.
fn parse_port(e: &str, start: usize) -> (r: Option<u16>)
    requires
        start <= e@.len(),
    ensures
        match r {
            Some(p) => is_port_str(e@.skip(start as int)) && p == port_val(e@.skip(start as int)),
            None => !is_port_str(e@.skip(start as int)),
        },
{
    let n = e.unicode_len();
    let mut k = start;
    if k < n && e.get_char(k) == '+' {
        k = k + 1;
    }
    let ghost k0 = k as int;
    let ghost d: Seq<char> = e@.skip(k0);
    proof {
        assert(port_digits(e@.skip(start as int)) =~= d);
    }
    if k == n {
        // no digits at all
        return None;
    }
    let mut acc: u32 = 0;
    while k < n
        invariant
            0 <= k0 <= k as int <= n,
            n == e@.len(),
            d == e@.skip(k0),
            d == port_digits(e@.skip(start as int)),
            d.len() == n - k0,
            all_digits(d.take(k as int - k0)),
            acc == digits_val(d.take(k as int - k0)),
            acc <= 0xffff,
        decreases n - k,
    {
        let cv = e.get_char(k) as u32;
        let ghost m = k as int - k0;
        proof {
            assert(e@.skip(k0)[m] == e@[k0 + m]);
            assert(d[m] == e@[k as int]);
        }
        if cv < 48 || cv > 57 {
            // a non-digit: the tail is not a port
            proof {
                assert(!is_digit(d[m]));
                assert(!all_digits(d));
            }
            return None;
        }
        let dv = cv - 48;
        proof {
            assert(d.take(m + 1).drop_last() =~= d.take(m));
            assert(d.take(m + 1).last() == d[m]);
        }
        if acc > 6553 || (acc == 6553 && dv > 5) {
            // the value already exceeds what fits in 16 bits, and further
            // digits can only grow it
            proof {
                assert(digits_val(d.take(m + 1)) > 0xffff);
                lemma_digits_val_monotonic(d, m + 1, d.len() as int);
                assert(d.take(d.len() as int) =~= d);
            }
            return None;
        }
        acc = acc * 10 + dv;
        k = k + 1;
    }
    proof {
        assert(d.take(n - k0) =~= d);
    }
    Some(acc as u16)
}

/// Split a `--tcp` entry on its last colon into a host and a port.
///
/// An entry without a colon, with an invalid port after the last colon, or
/// with an empty host part is rejected; the error names the entry.
pub fn parse_tcp_entry(e: &str) -> (r: Result<TcpTarget, InputError>)
    ensures
        r is Ok <==> tcp_entry_ok(e@),
        r matches Ok(t) ==> t.host@ == tcp_entry_host(e@) && t.port == tcp_entry_port(e@)
            && t.wf(),
        r matches Err(err) ==> {
            &&& (err matches InputError::MissingPort { entry } ==> entry@ == e@
                && entry_missing_port(e@))
            &&& (err matches InputError::BadPort { entry } ==> entry@ == e@
                && entry_bad_port(e@))
            &&& (err matches InputError::EmptyHost { entry } ==> entry@ == e@
                && entry_empty_host(e@))
            &&& (entry_missing_port(e@) ==> err is MissingPort)
            &&& (entry_bad_port(e@) ==> err is BadPort)
            &&& (entry_empty_host(e@) ==> err is EmptyHost)
            &&& (err is MissingPort || err is BadPort || err is EmptyHost)
        },
{
    let n = e.unicode_len();
    match find_last_colon(e) {
        None => Err(InputError::MissingPort { entry: e.to_owned() }),
        Some(i) => {
            match parse_port(e, i + 1) {
                None => Err(InputError::BadPort { entry: e.to_owned() }),
                Some(p) => {
                    if i == 0 {
                        Err(InputError::EmptyHost { entry: e.to_owned() })
                    } else {
                        let host = e.substring_char(0, i).to_owned();
                        proof {
                            assert(e@.subrange(0, i as int) =~= e@.take(i as int));
                        }
                        Ok(TcpTarget { host, port: p })
                    }
                },
            }
        },
    }
}

/// One record of a manifest file, before its shape is inferred.
///
/// A manifest entry carries no explicit type tag: which of its fields are
/// present decides whether it declares a TCP target or a socket target.
#[derive(Debug, Clone)]
pub struct ManifestEntry {
    pub host: Option<String>,
    pub port: Option<u64>,
    pub uds: Option<String>,
}

/// The entry declares a TCP target: host and port present, port fits in 16
/// bits. This shape is preferred, so an entry carrying both shapes' fields
/// is read as a TCP target.
pub open spec fn entry_is_tcp(e: ManifestEntry) -> bool {
    e.host is Some && (e.port matches Some(p) && p <= 0xffff)
}

/// The entry is acceptable: it has one of the two shapes, with a non-empty
/// host or path.
pub open spec fn entry_ok(e: ManifestEntry) -> bool {
    if entry_is_tcp(e) {
        e.host->0@.len() > 0
    } else {
        e.uds matches Some(u) && u@.len() > 0
    }
}

/// The target an acceptable entry declares.
pub open spec fn entry_matches_target(e: ManifestEntry, t: Target) -> bool {
    if entry_is_tcp(e) {
        t matches Target::Tcp(tt) && tt.host == e.host->0 && tt.port == e.port->0 as u16
    } else {
        t matches Target::Uds(s) && s.path == e.uds->0
    }
}

/// Read `uds` as a socket target, for an entry without the TCP shape.
fn classify_uds_part(uds: &Option<String>) -> (r: Result<Target, InputError>)
    ensures
        r is Ok <==> ((*uds) matches Some(u) && u@.len() > 0),
        r matches Ok(t) ==> ((*uds) matches Some(u) && t == Target::Uds(SocketTarget {
            path: u,
        })),
        r matches Err(err) ==> err is MalformedEntry,
{
    match uds {
        Some(u) => {
            if u.as_str().unicode_len() == 0 {
                Err(InputError::MalformedEntry)
            } else {
                Ok(Target::Uds(SocketTarget { path: u.clone() }))
            }
        },
        None => Err(InputError::MalformedEntry),
    }
}

/// Infer a manifest entry's target from which fields it carries.
///
/// An entry whose fields fit neither shape, or whose host or path is empty,
/// is malformed.
pub fn classify_entry(entry: &ManifestEntry) -> (r: Result<Target, InputError>)
    ensures
        r is Ok <==> entry_ok(*entry),
        r matches Ok(t) ==> t.wf() && entry_matches_target(*entry, t),
        r matches Err(err) ==> err is MalformedEntry,
{
    match (&entry.host, &entry.port) {
        (Some(h), Some(p)) => {
            if *p <= 65535 {
                if h.as_str().unicode_len() == 0 {
                    Err(InputError::MalformedEntry)
                } else {
                    Ok(Target::Tcp(TcpTarget { host: h.clone(), port: *p as u16 }))
                }
            } else {
                classify_uds_part(&entry.uds)
            }
        },
        _ => classify_uds_part(&entry.uds),
    }
}

/// A `--tcp` entry and the target it was split into.
pub open spec fn cli_tcp_matches(e: String, t: Target) -> bool {
    t matches Target::Tcp(tt) && tt.host@ == tcp_entry_host(e@) && tt.port == tcp_entry_port(e@)
}

/// Every declared target is acceptable: each `--tcp` entry splits into host
/// and port, each socket path is non-empty, each manifest entry has one of
/// the two shapes, and socket targets appear only where the platform
/// supports them.
pub open spec fn inputs_ok(
    args: CLIArgs,
    entries: Seq<ManifestEntry>,
    uds_supported: bool,
) -> bool {
    &&& forall|i: int| 0 <= i < args.tcp@.len() ==> tcp_entry_ok((#[trigger] args.tcp@[i])@)
    &&& forall|i: int| 0 <= i < args.uds@.len() ==> (#[trigger] args.uds@[i])@.len() > 0
    &&& forall|i: int| 0 <= i < entries.len() ==> entry_ok(#[trigger] entries[i])
    &&& !uds_supported ==> args.uds@.len() == 0 && (forall|i: int|
        0 <= i < entries.len() ==> entry_is_tcp(#[trigger] entries[i]))
}

/// The loaded list: first the `--tcp` targets in order, then the socket
/// paths in order, then the manifest entries' targets in order, every one
/// of them well formed.
pub open spec fn loaded_targets_match(
    args: CLIArgs,
    entries: Seq<ManifestEntry>,
    v: Seq<Target>,
) -> bool {
    let nt = args.tcp@.len() as int;
    let nu = args.uds@.len() as int;
    &&& v.len() == nt + nu + entries.len()
    &&& forall|i: int| 0 <= i < nt ==> cli_tcp_matches(#[trigger] args.tcp@[i], v[i])
    &&& forall|i: int| 0 <= i < nu ==> v[nt + i] == Target::Uds(SocketTarget {
        path: #[trigger] args.uds@[i],
    })
    &&& forall|i: int| 0 <= i < entries.len() ==> entry_matches_target(
        #[trigger] entries[i],
        v[nt + nu + i],
    )
    &&& forall|i: int| 0 <= i < v.len() ==> (#[trigger] v[i]).wf()
}

/// Merge the directly-specified entries and the manifest entries into one
/// uniform target list, or report the first malformed input.
///
/// Succeeds exactly when every declared target is acceptable
/// (`inputs_ok`); nothing is probed and no side effect has happened when it
/// fails.
pub fn load_targets(
    args: &CLIArgs,
    entries: &Vec<ManifestEntry>,
    uds_supported: bool,
) -> (r: Result<Vec<Target>, InputError>)
    ensures
        r is Ok <==> inputs_ok(*args, entries@, uds_supported),
        r matches Ok(v) ==> loaded_targets_match(*args, entries@, v@),
        r matches Err(err) ==> match err {
            InputError::MissingPort { entry } => exists|j: int|
                0 <= j < args.tcp@.len() && (#[trigger] args.tcp@[j])@ == entry@
                    && entry_missing_port(entry@),
            InputError::BadPort { entry } => exists|j: int|
                0 <= j < args.tcp@.len() && (#[trigger] args.tcp@[j])@ == entry@
                    && entry_bad_port(entry@),
            InputError::EmptyHost { entry } => exists|j: int|
                0 <= j < args.tcp@.len() && (#[trigger] args.tcp@[j])@ == entry@
                    && entry_empty_host(entry@),
            InputError::EmptyPath => exists|j: int|
                0 <= j < args.uds@.len() && (#[trigger] args.uds@[j])@.len() == 0,
            InputError::MalformedEntry => exists|j: int|
                0 <= j < entries@.len() && !entry_ok(#[trigger] entries@[j]),
            InputError::UdsUnsupported { path } => !uds_supported,
            _ => false,
        },
{
    let nt = args.tcp.len();
    let nu = args.uds.len();
    let ne = entries.len();
    let mut out: Vec<Target> = Vec::new();

    let mut i: usize = 0;
    while i < nt
        invariant
            0 <= i <= nt,
            nt == args.tcp@.len(),
            out@.len() == i,
            forall|j: int| 0 <= j < i ==> cli_tcp_matches(#[trigger] args.tcp@[j], out@[j]),
            forall|j: int| 0 <= j < i ==> tcp_entry_ok((#[trigger] args.tcp@[j])@),
            forall|j: int| 0 <= j < out@.len() ==> (#[trigger] out@[j]).wf(),
        decreases nt - i,
    {
        match parse_tcp_entry(args.tcp[i].as_str()) {
            Ok(t) => {
                out.push(Target::Tcp(t));
            },
            Err(err) => {
                proof {
                    if err is MissingPort {
                        assert(0 <= i < args.tcp@.len() && (#[trigger] args.tcp@[i as int])@
                            == err->MissingPort_entry@
                            && entry_missing_port(err->MissingPort_entry@));
                    }
                    if err is BadPort {
                        assert(0 <= i < args.tcp@.len() && (#[trigger] args.tcp@[i as int])@
                            == err->BadPort_entry@ && entry_bad_port(err->BadPort_entry@));
                    }
                    if err is EmptyHost {
                        assert(0 <= i < args.tcp@.len() && (#[trigger] args.tcp@[i as int])@
                            == err->EmptyHost_entry@ && entry_empty_host(err->EmptyHost_entry@));
                    }
                }
                return Err(err);
            },
        }
        i = i + 1;
    }

    let mut i: usize = 0;
    while i < nu
        invariant
            0 <= i <= nu,
            nt == args.tcp@.len(),
            nu == args.uds@.len(),
            out@.len() == nt + i,
            forall|j: int| 0 <= j < nt ==> cli_tcp_matches(#[trigger] args.tcp@[j], out@[j]),
            forall|j: int| 0 <= j < nt ==> tcp_entry_ok((#[trigger] args.tcp@[j])@),
            forall|j: int| 0 <= j < i ==> out@[nt + j] == Target::Uds(SocketTarget {
                path: #[trigger] args.uds@[j],
            }),
            forall|j: int| 0 <= j < i ==> (#[trigger] args.uds@[j])@.len() > 0,
            forall|j: int| 0 <= j < out@.len() ==> (#[trigger] out@[j]).wf(),
            uds_supported || i == 0,
        decreases nu - i,
    {
        let p = &args.uds[i];
        if p.as_str().unicode_len() == 0 {
            return Err(InputError::EmptyPath);
        }
        if !uds_supported {
            return Err(InputError::UdsUnsupported { path: p.clone() });
        }
        out.push(Target::Uds(SocketTarget { path: p.clone() }));
        i = i + 1;
    }

    let mut i: usize = 0;
    while i < ne
        invariant
            0 <= i <= ne,
            nt == args.tcp@.len(),
            nu == args.uds@.len(),
            ne == entries@.len(),
            out@.len() == nt + nu + i,
            forall|j: int| 0 <= j < nt ==> cli_tcp_matches(#[trigger] args.tcp@[j], out@[j]),
            forall|j: int| 0 <= j < nt ==> tcp_entry_ok((#[trigger] args.tcp@[j])@),
            forall|j: int| 0 <= j < nu ==> out@[nt + j] == Target::Uds(SocketTarget {
                path: #[trigger] args.uds@[j],
            }),
            forall|j: int| 0 <= j < nu ==> (#[trigger] args.uds@[j])@.len() > 0,
            forall|j: int| 0 <= j < i ==> entry_matches_target(
                #[trigger] entries@[j],
                out@[nt + nu + j],
            ),
            forall|j: int| 0 <= j < i ==> entry_ok(#[trigger] entries@[j]),
            forall|j: int| 0 <= j < out@.len() ==> (#[trigger] out@[j]).wf(),
            uds_supported || nu == 0,
            !uds_supported ==> forall|j: int| 0 <= j < i ==> entry_is_tcp(#[trigger] entries@[j]),
        decreases ne - i,
    {
        match classify_entry(&entries[i]) {
            Ok(t) => {
                if !uds_supported {
                    match &t {
                        Target::Uds(s) => {
                            proof {
                                assert(!entry_is_tcp(entries@[i as int]));
                            }
                            return Err(InputError::UdsUnsupported { path: s.path.clone() });
                        },
                        Target::Tcp(_) => {
                            proof {
                                assert(entry_is_tcp(entries@[i as int]));
                            }
                        },
                    }
                }
                out.push(t);
            },
            Err(err) => {
                return Err(err);
            },
        }
        i = i + 1;
    }

    Ok(out)
}

} // verus!
