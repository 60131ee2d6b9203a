//! Protocol selection for the single-request client mode, and the
//! reading of `alt-svc` headers that points HTTP/3 probes at their
//! port.

use vstd::prelude::*;

use crate::checkpoint::{find_char, find_char_exec, split_on, split_str};
use crate::text::{all_digits, dec_val, parse_usize, str_trim, trimmed};

verus! {

/// The protocol the single-request client uses.
#[derive(Debug, Clone, Copy, PartialEq, Eq, Structural)]
pub enum SelectedProtocol {
    Http1,
    Http2,
    Http3,
}

/// Chooses the protocol from the three exclusive flags: at most one may
/// be set, and none means HTTP/1.
pub fn determine_protocol(http1: bool, http2: bool, http3: bool) -> (r: Result<
    SelectedProtocol,
    String,
>)
    ensures
        match r {
            Ok(p) => {
                &&& p == (if http1 {
                    SelectedProtocol::Http1
                } else if http2 {
                    SelectedProtocol::Http2
                } else if http3 {
                    SelectedProtocol::Http3
                } else {
                    SelectedProtocol::Http1
                })
                &&& !(http1 && http2) && !(http1 && http3) && !(http2 && http3)
            },
            Err(m) => ((http1 && http2) || (http1 && http3) || (http2 && http3)) && m@
                == "Please specify only one of --http1, --http2, or --http3"@,
        },
{
    let selected: u8 = (if http1 {
        1
    } else {
        0
    }) + (if http2 {
        1
    } else {
        0
    }) + (if http3 {
        1
    } else {
        0
    });
    if selected > 1 {
        let m: &str = "Please specify only one of --http1, --http2, or --http3";
        return Err(m.to_owned());
    }
    Ok(
        if http1 {
            SelectedProtocol::Http1
        } else if http2 {
            SelectedProtocol::Http2
        } else if http3 {
            SelectedProtocol::Http3
        } else {
            SelectedProtocol::Http1
        },
    )
}

/// An `alt-svc` entry advertises HTTP/3 with a quoted `host:port` value
/// whose port is a valid `u16`: `h3` leads (after trimming), and the
/// part after the last `:` inside the first quoted span is the port.
pub open spec fn entry_port(entry: Seq<char>) -> Option<u16> {
    let e = trimmed(entry);
    if e.len() >= 2 && e[0] == 'h' && e[1] == '3' {
        quoted_port(e)
    } else {
        None
    }
}

/// The port inside the first quoted span of `e`, where the span's text
/// after its last colon must be a nonempty digit string fitting `u16`.
pub open spec fn quoted_port(e: Seq<char>) -> Option<u16> {
    let inner = first_quoted(e);
    match inner {
        Some(v) => {
            let p = after_last_colon(v);
            if p.len() > 0 && all_digits(p) && dec_val(p) <= u16::MAX {
                Some(dec_val(p) as u16)
            } else {
                None
            }
        },
        None => None,
    }
}

/// The text between the first two double quotes of `e`, if two exist.
pub open spec fn first_quoted(e: Seq<char>) -> Option<Seq<char>> {
    match find_char(e, '"') {
        Some(i) => {
            let rest = e.subrange(i + 1, e.len() as int);
            match find_char(rest, '"') {
                Some(j) => Some(rest.subrange(0, j)),
                None => None,
            }
        },
        None => None,
    }
}

/// What follows the last `:` of `v`; all of `v` when it has none.
pub open spec fn after_last_colon(v: Seq<char>) -> Seq<char>
    decreases v.len(),
{
    if v.len() == 0 {
        v
    } else if v.last() == ':' {
        Seq::<char>::empty()
    } else {
        after_last_colon(v.drop_last()).push(v.last())
    }
}

proof fn lemma_after_last_colon_at(v: Seq<char>, k: int)
    requires
        0 <= k <= v.len(),
        forall|j: int| k <= j < v.len() ==> v[j] != ':',
        k > 0 ==> v[k - 1] == ':',
    ensures
        after_last_colon(v) =~= v.subrange(k, v.len() as int),
    decreases v.len() - k,
{
    if k == v.len() {
        if k > 0 {
        }
    } else {
        lemma_after_last_colon_at(v.drop_last(), k);
        assert(v.drop_last().subrange(k, v.len() - 1) =~= v.subrange(k, v.len() - 1));
        assert(v.subrange(k, v.len() - 1).push(v.last()) =~= v.subrange(k, v.len() as int));
    }
}

/// The first port advertised for HTTP/3 among the comma-separated
/// `alt-svc` entries.
pub open spec fn alt_svc_port(header: Seq<char>) -> Option<u16> {
    first_entry_port(split_on(header, ','))
}

/// The first entry that yields a port, scanning in order.
pub open spec fn first_entry_port(entries: Seq<Seq<char>>) -> Option<u16>
    decreases entries.len(),
{
    if entries.len() == 0 {
        None
    } else {
        match entry_port(entries[0]) {
            Some(p) => Some(p),
            None => first_entry_port(entries.drop_first()),
        }
    }
}

/// Reads the HTTP/3 port out of an `alt-svc` header: the first
/// comma-separated entry that advertises `h3` with a quoted value whose
/// last `:`-separated part is a valid port.
pub fn extract_alt_svc_port(header: &str) -> (r: Option<u16>)
    ensures
        r == alt_svc_port(header@),
{
    let entries = split_str(header, ',');
    let n = entries.len();
    let ghost ev = entries@.map_values(|l: String| l@);
    let mut i: usize = 0;
    proof {
        assert(ev =~= split_on(header@, ','));
        assert(ev.subrange(0, n as int) =~= ev);
    }
    while i < n
        invariant
            n == entries@.len(),
            ev == entries@.map_values(|l: String| l@),
            ev == split_on(header@, ','),
            0 <= i <= n,
            first_entry_port(ev) == first_entry_port(ev.subrange(i as int, n as int)),
            forall|j: int| 0 <= j < i ==> entry_port(ev[j]) is None,
        decreases n - i,
    {
        proof {
            assert(ev.subrange(i as int, n as int)[0] == ev[i as int]);
            assert(ev.subrange(i as int, n as int).drop_first() =~= ev.subrange(
                i + 1,
                n as int,
            ));
        }
        match entry_h3_port(entries[i].as_str()) {
            Some(p) => {
                proof {
                    assert(entry_port(ev[i as int]) == Some(p));
                    assert(first_entry_port(ev.subrange(i as int, n as int)) == Some(p));
                }
                return Some(p);
            },
            None => {},
        }
        i = i + 1;
    }
    proof {
        assert(ev.subrange(n as int, n as int) =~= Seq::<Seq<char>>::empty());
    }
    None
}

/// Reads one `alt-svc` entry.
fn entry_h3_port(entry: &str) -> (r: Option<u16>)
    ensures
        r == entry_port(entry@),
{
    let t = str_trim(entry);
    let tl = t.as_str().unicode_len();
    if !(tl >= 2 && t.as_str().get_char(0) == 'h' && t.as_str().get_char(1) == '3') {
        return None;
    }
    let start = match find_char_exec(t.as_str(), '"') {
        Some(i) => i,
        None => {
            return None;
        },
    };
    let rest = t.as_str().substring_char(start + 1, tl);
    let inner_end = match find_char_exec(rest, '"') {
        Some(j) => j,
        None => {
            return None;
        },
    };
    let inner = rest.substring_char(0, inner_end);
    proof {
        assert(first_quoted(t@) == Some(inner@));
    }
    let il = inner.unicode_len();
    let mut colon_end: usize = il;
    while colon_end > 0 && inner.get_char(colon_end - 1) != ':'
        invariant
            il == inner@.len(),
            0 <= colon_end <= il,
            forall|j: int| colon_end <= j < il ==> inner@[j] != ':',
        decreases colon_end,
    {
        colon_end = colon_end - 1;
    }
    proof {
        lemma_after_last_colon_at(inner@, colon_end as int);
    }
    let part = inner.substring_char(colon_end, il);
    match parse_usize(part) {
        Some(v) => if v <= 65535 {
            Some(v as u16)
        } else {
            None
        },
        None => None,
    }
}

} // verus!
