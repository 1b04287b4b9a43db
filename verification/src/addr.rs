//! The computational pieces of ibus address discovery.
//!
//! Locating the ibus daemon's D-Bus address means reading environment
//! variables and a small per-session config file. The reading itself is
//! I/O and stays with the caller; this module holds the verified string
//! work: taking hostname and display number apart, composing the address
//! file's name, scanning the file's text for the address line, and
//! composing the backend socket path.
use vstd::prelude::*;
use vstd::string::*;

verus! {

/// A separator inside a DISPLAY value: `:` before the display number,
/// `.` before the screen number.
pub open spec fn is_display_sep(c: char) -> bool {
    c == ':' || c == '.'
}

/// The index of the first DISPLAY separator at or after `from`, or the
/// length of `s` when there is none.
pub open spec fn sep_index(s: Seq<char>, from: nat) -> nat
    decreases s.len() - from,
    when from <= s.len()
{
    if from >= s.len() {
        s.len()
    } else if is_display_sep(s[from as int]) {
        from
    } else {
        sep_index(s, from + 1)
    }
}

/// The hostname encoded in a DISPLAY value: the part before the first
/// separator, with the empty hostname standing for `unix`.
pub open spec fn spec_display_hostname(s: Seq<char>) -> Seq<char> {
    if sep_index(s, 0) == 0 {
        "unix"@
    } else {
        s.subrange(0, sep_index(s, 0) as int)
    }
}

/// The display number encoded in a DISPLAY value: the part between the
/// first separator and the next (or the end).
pub open spec fn spec_display_number(s: Seq<char>) -> Seq<char> {
    s.subrange(sep_index(s, 0) as int + 1, sep_index(s, (sep_index(s, 0) + 1) as nat) as int)
}

proof fn lemma_sep_index_bounds(s: Seq<char>, from: nat)
    requires
        from <= s.len(),
    ensures
        from <= sep_index(s, from) <= s.len(),
    decreases s.len() - from,
{
    if from < s.len() && !is_display_sep(s[from as int]) {
        lemma_sep_index_bounds(s, from + 1);
    }
}

/// Finds the first DISPLAY separator at or after `from`.
fn find_sep(s: &str, from: usize) -> (r: usize)
    requires
        from <= s@.len(),
    ensures
        r == sep_index(s@, from as nat),
{
    let n = s.unicode_len();
    let mut i = from;
    while i < n
        invariant
            from <= i <= n,
            n == s@.len(),
            sep_index(s@, from as nat) == sep_index(s@, i as nat),
        decreases n - i,
    {
        let c = s.get_char(i);
        if c == ':' || c == '.' {
            return i;
        }
        i = i + 1;
    }
    i
}

/// Takes a DISPLAY value apart into `(hostname, display-number)`.
///
/// The hostname is the part before the first `:` or `.`, with the empty
/// hostname replaced by `unix`; the display number is the part between the
/// first separator and the next one (or the end). Returns `None` when the
/// value holds no separator at all.
pub fn parse_display(display: &str) -> (r: Option<(String, String)>)
    ensures
        r is Some <==> sep_index(display@, 0) < display@.len(),
        r matches Some(p) ==> {
            &&& p.0@ == spec_display_hostname(display@)
            &&& p.1@ == spec_display_number(display@)
        },
{
    let n = display.unicode_len();
    let i = find_sep(display, 0);
    proof {
        lemma_sep_index_bounds(display@, 0);
    }
    if i >= n {
        return None;
    }
    let hostname = if i == 0 {
        String::from_str("unix")
    } else {
        String::from_str(display.substring_char(0, i))
    };
    proof {
        lemma_sep_index_bounds(display@, (i + 1) as nat);
    }
    let j = find_sep(display, i + 1);
    let number = String::from_str(display.substring_char(i + 1, j));
    Some((hostname, number))
}

/// The name of the per-session ibus address file:
/// `<machine-id>-<hostname>-<display>`.
pub fn ibus_addr_file_name(machine_id: &str, hostname: &str, display: &str) -> (r: String)
    ensures
        r@ == machine_id@ + "-"@ + hostname@ + "-"@ + display@,
{
    let mut r = String::from_str(machine_id);
    r.append("-");
    r.append(hostname);
    r.append("-");
    r.append(display);
    r
}

/// The backend server's unix socket path below the runtime directory:
/// `<runtime_dir>/pmim/us`.
pub fn pmim_us_path(runtime_dir: &str) -> (r: String)
    ensures
        r@ == runtime_dir@ + "/pmim/us"@,
{
    let mut r = String::from_str(runtime_dir);
    r.append("/pmim/us");
    r
}

/// The index of the first newline at or after `from`, or the length of `s`.
pub open spec fn nl_index(s: Seq<char>, from: nat) -> nat
    decreases s.len() - from,
    when from <= s.len()
{
    if from >= s.len() {
        s.len()
    } else if s[from as int] == '\n' {
        from
    } else {
        nl_index(s, from + 1)
    }
}

proof fn lemma_nl_index_bounds(s: Seq<char>, from: nat)
    requires
        from <= s.len(),
    ensures
        from <= nl_index(s, from) <= s.len(),
    decreases s.len() - from,
{
    if from < s.len() && s[from as int] != '\n' {
        lemma_nl_index_bounds(s, from + 1);
    }
}

/// One line of the config file, as `str::lines` yields it: up to the next
/// newline, with one trailing carriage return removed.
pub open spec fn line_at(s: Seq<char>, from: nat) -> Seq<char> {
    let raw = s.subrange(from as int, nl_index(s, from) as int);
    if raw.len() > 0 && raw.last() == '\r' {
        raw.drop_last()
    } else {
        raw
    }
}

/// The address a config line carries: the rest of the line when it starts
/// with `IBUS_ADDRESS=` (comment lines start with `#` and can never match).
pub open spec fn addr_of_line(l: Seq<char>) -> Option<Seq<char>> {
    if l.len() >= 13 && l.subrange(0, 13) == "IBUS_ADDRESS="@ {
        Some(l.skip(13))
    } else {
        None
    }
}

/// The address found in the config text from position `from` on: the value
/// of the first line that carries one.
pub open spec fn addr_in_config(s: Seq<char>, from: nat) -> Option<Seq<char>>
    decreases s.len() - from,
    when from <= s.len()
    via addr_in_config_dec
{
    if addr_of_line(line_at(s, from)) is Some {
        addr_of_line(line_at(s, from))
    } else if nl_index(s, from) >= s.len() {
        None
    } else {
        addr_in_config(s, nl_index(s, from) + 1)
    }
}

#[via_fn]
proof fn addr_in_config_dec(s: Seq<char>, from: nat) {
    lemma_nl_index_bounds(s, from);
}

/// Finds the first newline at or after `from`.
fn find_nl(s: &str, from: usize) -> (r: usize)
    requires
        from <= s@.len(),
    ensures
        r == nl_index(s@, from as nat),
{
    let n = s.unicode_len();
    let mut i = from;
    while i < n
        invariant
            from <= i <= n,
            n == s@.len(),
            nl_index(s@, from as nat) == nl_index(s@, i as nat),
        decreases n - i,
    {
        if s.get_char(i) == '\n' {
            return i;
        }
        i = i + 1;
    }
    i
}

/// Scans the ibus address file's text for the first `IBUS_ADDRESS=` line
/// and returns its value; `None` when no line carries one.
pub fn find_ibus_addr_in_config(content: &str) -> (r: Option<String>)
    ensures
        r matches Some(a) ==> addr_in_config(content@, 0) == Some(a@),
        r is None <==> addr_in_config(content@, 0) is None,
{
    let n = content.unicode_len();
    let mut pos: usize = 0;
    loop
        invariant
            pos <= n,
            n == content@.len(),
            addr_in_config(content@, 0) == addr_in_config(content@, pos as nat),
        decreases n - pos,
    {
        proof {
            lemma_nl_index_bounds(content@, pos as nat);
        }
        let e = find_nl(content, pos);
        // strip one trailing carriage return, as str::lines does
        let line_end = if e > pos && content.get_char(e - 1) == '\r' {
            e - 1
        } else {
            e
        };
        let line = content.substring_char(pos, line_end);
        proof {
            assert(line@ =~= line_at(content@, pos as nat));
        }
        let line_len = line.unicode_len();
        if line_len >= 13 {
            let prefix = String::from_str(line.substring_char(0, 13));
            let want = String::from_str("IBUS_ADDRESS=");
            proof {
                assert(prefix@ =~= line@.subrange(0, 13));
            }
            if prefix == want {
                let addr = String::from_str(line.substring_char(13, line_len));
                proof {
                    assert(addr@ =~= line@.skip(13));
                }
                return Some(addr);
            }
        }
        proof {
            assert(addr_of_line(line_at(content@, pos as nat)) is None);
        }
        if e >= n {
            return None;
        }
        pos = e + 1;
    }
}

} // verus!
