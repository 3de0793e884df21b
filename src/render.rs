use vstd::prelude::*;
use vstd::string::*;

use crate::server::{Server, ServerView};

verus! {

/// The text of one decimal digit.
pub open spec fn digit_text(d: nat) -> Seq<char> {
    if d == 0 {
        "0"@
    } else if d == 1 {
        "1"@
    } else if d == 2 {
        "2"@
    } else if d == 3 {
        "3"@
    } else if d == 4 {
        "4"@
    } else if d == 5 {
        "5"@
    } else if d == 6 {
        "6"@
    } else if d == 7 {
        "7"@
    } else if d == 8 {
        "8"@
    } else {
        "9"@
    }
}

/// The decimal text of a natural number, without leading zeros.
pub open spec fn decimal(n: nat) -> Seq<char>
    decreases n,
{
    if n < 10 {
        digit_text(n)
    } else {
        decimal(n / 10) + digit_text(n % 10)
    }
}

/// The text of a boolean flag.
pub open spec fn bool_text(b: bool) -> Seq<char> {
    if b {
        "true"@
    } else {
        "false"@
    }
}

/// The quoted, escaped form of a string, as `{:?}` writes it.
pub uninterp spec fn debug_quoted(s: Seq<char>) -> Seq<char>;

/// The structured dump of one record, with its name already quoted.
pub open spec fn server_text_quoted(port: u16, running: bool, quoted: Seq<char>) -> Seq<char> {
    "Server { port: "@ + decimal(port as nat) + ", running: "@ + bool_text(running) + ", name: "@
        + quoted + " }"@
}

/// The structured dump of one record.
pub open spec fn server_text(v: ServerView) -> Seq<char> {
    server_text_quoted(v.port, v.running, debug_quoted(v.name))
}

/// The dumps of the records, separated by `", "`.
pub open spec fn joined(vs: Seq<ServerView>) -> Seq<char>
    decreases vs.len(),
{
    if vs.len() == 0 {
        Seq::empty()
    } else if vs.len() == 1 {
        server_text(vs[0])
    } else {
        joined(vs.drop_last()) + ", "@ + server_text(vs.last())
    }
}

/// The structured dump of a list of records, in brackets.
pub open spec fn servers_text(vs: Seq<ServerView>) -> Seq<char> {
    "["@ + joined(vs) + "]"@
}

/// The abstract values of a list of records.
pub open spec fn views(v: Seq<Server>) -> Seq<ServerView> {
    v.map_values(|s: Server| s@)
}

fn digit_str(d: u16) -> (r: &'static str)
    requires
        d < 10,
    ensures
        r@ == digit_text(d as nat),
{
    if d == 0 {
        "0"
    } else if d == 1 {
        "1"
    } else if d == 2 {
        "2"
    } else if d == 3 {
        "3"
    } else if d == 4 {
        "4"
    } else if d == 5 {
        "5"
    } else if d == 6 {
        "6"
    } else if d == 7 {
        "7"
    } else if d == 8 {
        "8"
    } else {
        "9"
    }
}

/// Writes a number in decimal.
pub fn decimal_text(n: u16) -> (r: String)
    ensures
        r@ == decimal(n as nat),
    decreases n,
{
    if n < 10 {
        String::from_str(digit_str(n))
    } else {
        let mut s = decimal_text(n / 10);
        s.append(digit_str(n % 10));
        s
    }
}

/// Writes a boolean flag as `true` or `false`.
pub fn bool_str(b: bool) -> (r: &'static str)
    ensures
        r@ == bool_text(b),
{
    if b {
        "true"
    } else {
        "false"
    }
}

/// Relies on std's `Debug` impl for `str`: the quoted, escaped form of the
/// text, which depends on the text alone.
#[verifier::external_body]
fn quote(s: &str) -> (r: String)
    ensures
        r@ == debug_quoted(s@),
{
    format!("{:?}", s)
}

/// Writes the dump of one record from its parts, the name given already quoted.
pub fn server_dump_quoted(port: u16, running: bool, quoted: &str) -> (r: String)
    ensures
        r@ == server_text_quoted(port, running, quoted@),
{
    let mut s = String::from_str("Server { port: ");
    let p = decimal_text(port);
    s.append(p.as_str());
    s.append(", running: ");
    s.append(bool_str(running));
    s.append(", name: ");
    s.append(quoted);
    s.append(" }");
    s
}

/// Writes the dump of one record: `Server { port: 22, running: true, name: "ssh" }`.
pub fn server_dump(server: &Server) -> (r: String)
    ensures
        r@ == server_text(server@),
{
    let q = quote(server.name.as_str());
    server_dump_quoted(server.port, server.running, q.as_str())
}

/// Writes the dump of a list of records: `[` the records, separated by `", "`, `]`.
pub fn servers_dump(servers: &Vec<Server>) -> (r: String)
    ensures
        r@ == servers_text(views(servers@)),
{
    let mut s = String::from_str("[");
    let ghost vs = views(servers@);
    let mut i: usize = 0;
    while i < servers.len()
        invariant
            i <= servers@.len(),
            vs == views(servers@),
            s@ == "["@ + joined(vs.take(i as int)),
        decreases servers@.len() - i,
    {
        let d = server_dump(&servers[i]);
        proof {
            let t = vs.take(i as int + 1);
            assert(t.drop_last() =~= vs.take(i as int));
            assert(t.last() == servers@[i as int]@);
        }
        if i > 0 {
            s.append(", ");
        } else {
            assert(vs.take(0) =~= Seq::<ServerView>::empty());
        }
        s.append(d.as_str());
        i = i + 1;
    }
    assert(vs.take(i as int) =~= vs);
    s.append("]");
    s
}

} // verus!
