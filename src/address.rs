//! Listening addresses: the shim's socket path next to the orchestrator's
//! socket, and the one-line relay of that address from daemon to launcher.
use vstd::prelude::*;

use crate::text::{find_first, find_last, first_index, has_prefix, last_index, starts_with};

verus! {

/// The lowercase hexadecimal digits, by value.
pub open spec fn hex_alphabet() -> Seq<char> {
    seq!['0', '1', '2', '3', '4', '5', '6', '7', '8', '9', 'a', 'b', 'c', 'd', 'e', 'f']
}

/// The shortest lowercase hexadecimal rendering of `n`.
pub open spec fn hex_digits(n: nat) -> Seq<char>
    decreases n,
{
    if n < 16 {
        seq![hex_alphabet()[n as int]]
    } else {
        hex_digits(n / 16).push(hex_alphabet()[(n % 16) as int])
    }
}

/// `n` in lowercase hexadecimal, with a leading zero where needed to give an
/// even number of digits.
pub open spec fn hex_label(n: nat) -> Seq<char> {
    let d = hex_digits(n);
    if d.len() % 2 == 1 {
        seq!['0'] + d
    } else {
        d
    }
}

/// Where the file name of `path` starts: just after its last `/`.
pub open spec fn file_name_start(path: Seq<char>) -> int {
    last_index(path, '/') + 1
}

/// The directory part of `path`, with its trailing `/`.
pub open spec fn dir_part(path: Seq<char>) -> Seq<char> {
    path.subrange(0, file_name_start(path))
}

/// The file name of `path`: everything after its last `/`.
pub open spec fn file_name(path: Seq<char>) -> Seq<char> {
    path.subrange(file_name_start(path), path.len() as int)
}

/// The extension of a socket path: what follows the first `.` of its file
/// name, or nothing when the name holds no dot.
pub open spec fn socket_extension(path: Seq<char>) -> Seq<char> {
    let name = file_name(path);
    let dot = first_index(name, '.');
    if dot >= 0 {
        name.subrange(dot + 1, name.len() as int)
    } else {
        Seq::empty()
    }
}

/// `.ext` for a non-empty extension, nothing otherwise.
pub open spec fn dotted(ext: Seq<char>) -> Seq<char> {
    if ext.len() > 0 {
        seq!['.'] + ext
    } else {
        Seq::empty()
    }
}

/// The shim's socket for `label`: in the directory of `socket`, named
/// `containerd-shim-<label>`, with the extension of `socket`.
pub open spec fn shim_socket(socket: Seq<char>, label: Seq<char>) -> Seq<char> {
    dir_part(socket) + "containerd-shim-"@ + label + dotted(socket_extension(socket))
}

proof fn lemma_file_name_start_bounds(path: Seq<char>)
    ensures
        0 <= file_name_start(path) <= path.len(),
{
    crate::text::lemma_last_index_bounds(path, '/');
}

/// Appends the hexadecimal digits of `n` to `out`.
fn append_hex(out: &mut String, n: u64)
    ensures
        final(out)@ == old(out)@ + hex_digits(n as nat),
    decreases n,
{
    if n >= 16 {
        append_hex(out, n / 16);
    }
    let d = (n % 16) as usize;
    let alphabet = "0123456789abcdef";
    proof {
        reveal_strlit("0123456789abcdef");
        assert(alphabet@ =~= hex_alphabet());
    }
    let digit = alphabet.substring_char(d, d + 1);
    assert(digit@ =~= seq![hex_alphabet()[d as int]]);
    out.append(digit);
    proof {
        if n >= 16 {
            assert(final(out)@ =~= old(out)@ + hex_digits(n as nat));
        } else {
            assert(final(out)@ =~= old(out)@ + hex_digits(n as nat));
        }
    }
}

/// `n` in lowercase hexadecimal with an even number of digits.
pub fn hex_label_of(n: u64) -> (r: String)
    ensures
        r@ == hex_label(n as nat),
{
    let mut digits = String::new();
    append_hex(&mut digits, n);
    assert(digits@ =~= hex_digits(n as nat));
    if digits.as_str().unicode_len() % 2 == 1 {
        let mut r = String::from_str("0");
        proof {
            reveal_strlit("0");
        }
        r.append(digits.as_str());
        assert(r@ =~= hex_label(n as nat));
        r
    } else {
        digits
    }
}

/// The shim's socket path for `label` next to the orchestrator's `socket`:
/// same directory, file name `containerd-shim-<label>`, and the extension of
/// `socket` kept.
pub fn socket_address(socket: &str, label: &str) -> (r: String)
    ensures
        r@ == shim_socket(socket@, label@),
{
    proof {
        lemma_file_name_start_bounds(socket@);
    }
    let n = socket.unicode_len();
    let start = match find_last(socket, '/') {
        Some(k) => k + 1,
        None => 0,
    };
    let dir = socket.substring_char(0, start);
    let name = socket.substring_char(start, n);
    let mut out = String::from_str(dir);
    out.append("containerd-shim-");
    out.append(label);
    let m = name.unicode_len();
    proof {
        crate::text::lemma_first_index_bounds(name@, '.');
    }
    match find_first(name, '.') {
        Some(d) => {
            if d + 1 < m {
                let ext = name.substring_char(d + 1, m);
                out.append(".");
                proof {
                    reveal_strlit(".");
                }
                out.append(ext);
            }
        },
        None => {},
    }
    assert(out@ =~= shim_socket(socket@, label@));
    out
}

/// The scheme written before the address, where the transport needs one.
pub open spec fn scheme_prefix(with_scheme: bool) -> Seq<char> {
    if with_scheme {
        "unix://"@
    } else {
        Seq::empty()
    }
}

/// The line that relays `address`: the optional scheme, the address, a newline.
pub open spec fn address_line_of(address: Seq<char>, with_scheme: bool) -> Seq<char> {
    scheme_prefix(with_scheme) + address + seq!['\n']
}

/// The address carried by a relay line, if `line` is one.
pub open spec fn address_in_line(line: Seq<char>, with_scheme: bool) -> Option<Seq<char>> {
    let p = scheme_prefix(with_scheme);
    if p.len() < line.len() && has_prefix(line, p) && line.last() == '\n' {
        Some(line.subrange(p.len() as int, line.len() - 1))
    } else {
        None
    }
}

/// `address` with the transport's scheme in front, where it needs one.
pub fn scheme_address(address: &str, with_scheme: bool) -> (r: String)
    ensures
        r@ == scheme_prefix(with_scheme) + address@,
{
    let mut r = if with_scheme {
        String::from_str("unix://")
    } else {
        String::new()
    };
    r.append(address);
    proof {
        assert(r@ =~= scheme_prefix(with_scheme) + address@);
    }
    r
}

/// The one line the daemon writes to tell the launcher where it listens.
pub fn address_line(address: &str, with_scheme: bool) -> (r: String)
    ensures
        r@ == address_line_of(address@, with_scheme),
{
    let mut line = scheme_address(address, with_scheme);
    line.append("\n");
    proof {
        reveal_strlit("\n");
        assert(line@ =~= address_line_of(address@, with_scheme));
    }
    line
}

/// Reads the address back from a relay line.
pub fn parse_address_line(line: &str, with_scheme: bool) -> (r: Option<String>)
    ensures
        match r {
            Some(a) => address_in_line(line@, with_scheme) == Some(a@),
            None => address_in_line(line@, with_scheme).is_none(),
        },
{
    let prefix = if with_scheme {
        "unix://"
    } else {
        ""
    };
    proof {
        reveal_strlit("unix://");
        reveal_strlit("");
        assert(prefix@ =~= scheme_prefix(with_scheme));
    }
    let p = prefix.unicode_len();
    let n = line.unicode_len();
    if p < n && starts_with(line, prefix) && line.get_char(n - 1) == '\n' {
        Some(String::from_str(line.substring_char(p, n - 1)))
    } else {
        None
    }
}

/// Reading a relay line back gives exactly the address that was written, with
/// or without the scheme.
pub proof fn lemma_address_line_round_trip(address: Seq<char>, with_scheme: bool)
    ensures
        address_in_line(address_line_of(address, with_scheme), with_scheme) == Some(address),
{
    let line = address_line_of(address, with_scheme);
    let p = scheme_prefix(with_scheme);
    assert(line.subrange(0, p.len() as int) =~= p);
    assert(line.subrange(p.len() as int, line.len() - 1) =~= address);
}

/// The shim's socket keeps the orchestrator socket's directory and extension
/// verbatim, and is the same for the same inputs.
pub proof fn lemma_shim_socket_keeps_extension(socket: Seq<char>, label: Seq<char>)
    ensures
        has_prefix(shim_socket(socket, label), dir_part(socket)),
        shim_socket(socket, label).subrange(
            shim_socket(socket, label).len() - dotted(socket_extension(socket)).len(),
            shim_socket(socket, label).len() as int,
        ) == dotted(socket_extension(socket)),
        forall|s2: Seq<char>, l2: Seq<char>|
            s2 == socket && l2 == label ==> #[trigger] shim_socket(s2, l2) == shim_socket(socket, label),
{
    let r = shim_socket(socket, label);
    let d = dir_part(socket);
    let e = dotted(socket_extension(socket));
    assert(r.subrange(0, d.len() as int) =~= d);
    assert(r.subrange(r.len() - e.len(), r.len() as int) =~= e);
}

} // verus!
