use vstd::prelude::*;
use vstd::utf8::{encode_utf8, encode_utf8_valid_utf8, encode_utf8_decode_utf8};
use crate::control_block::{decode_field, spec_parse_input};
use crate::text::{split_spaces, split_chars, chars_of, decimal, decimal_string, lemma_split_three};
use crate::codec::{base64_encode, base64_standard_encode, is_base64_char};

verus! {

/// The concurrent map of `dashmap`, which holds the registered routes.
#[verifier::external_type_specification]
#[verifier::external_body]
#[verifier::reject_recursive_types(K)]
#[verifier::reject_recursive_types(V)]
#[verifier::reject_recursive_types(S)]
pub struct ExDashMap<K, V, S>(dashmap::DashMap<K, V, S>);

/// The routes a route table holds: each path, by its characters, to the number of
/// the handler registered under it.
pub uninterp spec fn route_table(routes: dashmap::DashMap<String, usize>) -> Map<Seq<char>, usize>;

/// No route at all.
pub open spec fn no_routes() -> Map<Seq<char>, usize> {
    Map::empty()
}

/// `dashmap::DashMap::new()`: an empty table.
#[verifier::external_body]
fn route_table_new() -> (m: dashmap::DashMap<String, usize>)
    ensures
        route_table(m) == no_routes(),
{
    dashmap::DashMap::new()
}

/// `dashmap::DashMap::insert`: afterwards `path` leads to `handler`, and every other
/// path to what it led to before (an earlier entry for `path` is replaced).
#[verifier::external_body]
fn route_table_insert(m: &mut dashmap::DashMap<String, usize>, path: String, handler: usize)
    ensures
        route_table(*final(m)) == route_table(*old(m)).insert(path@, handler),
{
    m.insert(path, handler);
}

/// `dashmap::DashMap::get`, giving a copy of the value: the handler registered
/// under `path`, if there is one.
#[verifier::external_body]
fn route_table_get(m: &dashmap::DashMap<String, usize>, path: &str) -> (r: Option<usize>)
    ensures
        r == (if route_table(*m).contains_key(path@) { Some(route_table(*m)[path@]) } else { None::<usize> }),
{
    m.get(path).map(|entry| *entry.value())
}

/// The server's configuration: the routes from request method to handler number,
/// the TLS key and certificate files, and the address and port to listen on.
pub struct Engine {
    register: dashmap::DashMap<String, usize>,
    private_key_file: String,
    cert_file: String,
    addr: String,
    port: u16,
}

/// The handler that a route table gives for `path`.
pub open spec fn lookup(routes: Map<Seq<char>, usize>, path: Seq<char>) -> Option<usize> {
    if routes.contains_key(path) { Some(routes[path]) } else { None }
}

/// The method of a request: the text before its first space.
pub open spec fn method_of(request: Seq<char>) -> Seq<char> {
    split_spaces(request)[0]
}

impl Engine {
    /// The routes registered so far.
    pub closed spec fn routes(&self) -> Map<Seq<char>, usize> {
        route_table(self.register)
    }

    pub closed spec fn spec_private_key_file(&self) -> Seq<char> {
        self.private_key_file@
    }

    pub closed spec fn spec_cert_file(&self) -> Seq<char> {
        self.cert_file@
    }

    pub closed spec fn spec_addr(&self) -> Seq<char> {
        self.addr@
    }

    pub closed spec fn spec_port(&self) -> u16 {
        self.port
    }

    /// An engine with no routes that serves 127.0.0.1:7878 with the key in
    /// `private.key` and the certificate in `certificate.crt`.
    pub fn new() -> (e: Self)
        ensures
            e.routes() == no_routes(),
            e.spec_private_key_file() == "private.key"@,
            e.spec_cert_file() == "certificate.crt"@,
            e.spec_addr() == "127.0.0.1"@,
            e.spec_port() == 7878,
    {
        Engine {
            register: route_table_new(),
            private_key_file: String::from_str("private.key"),
            cert_file: String::from_str("certificate.crt"),
            addr: String::from_str("127.0.0.1"),
            port: 7878,
        }
    }

    /// Registers handler number `handler` under `path`, replacing any earlier one.
    pub fn register(&mut self, path: &str, handler: usize) -> (r: &mut Self)
        ensures
            r.routes() == old(self).routes().insert(path@, handler),
            r.spec_private_key_file() == old(self).spec_private_key_file(),
            r.spec_cert_file() == old(self).spec_cert_file(),
            r.spec_addr() == old(self).spec_addr(),
            r.spec_port() == old(self).spec_port(),
            *final(self) == *final(r),
    {
        route_table_insert(&mut self.register, String::from_str(path), handler);
        self
    }

    /// Sets the file that holds the TLS private key.
    pub fn set_private_key_file(&mut self, file_path: &str) -> (r: &mut Self)
        ensures
            r.routes() == old(self).routes(),
            r.spec_private_key_file() == file_path@,
            r.spec_cert_file() == old(self).spec_cert_file(),
            r.spec_addr() == old(self).spec_addr(),
            r.spec_port() == old(self).spec_port(),
            *final(self) == *final(r),
    {
        self.private_key_file = String::from_str(file_path);
        self
    }

    /// Sets the file that holds the TLS certificate chain.
    pub fn set_cert_file(&mut self, file_path: &str) -> (r: &mut Self)
        ensures
            r.routes() == old(self).routes(),
            r.spec_private_key_file() == old(self).spec_private_key_file(),
            r.spec_cert_file() == file_path@,
            r.spec_addr() == old(self).spec_addr(),
            r.spec_port() == old(self).spec_port(),
            *final(self) == *final(r),
    {
        self.cert_file = String::from_str(file_path);
        self
    }

    /// Sets the address to listen on.
    pub fn set_addr(&mut self, addr: &str) -> (r: &mut Self)
        ensures
            r.routes() == old(self).routes(),
            r.spec_private_key_file() == old(self).spec_private_key_file(),
            r.spec_cert_file() == old(self).spec_cert_file(),
            r.spec_addr() == addr@,
            r.spec_port() == old(self).spec_port(),
            *final(self) == *final(r),
    {
        self.addr = String::from_str(addr);
        self
    }

    /// Sets the port to listen on.
    pub fn set_port(&mut self, port: u16) -> (r: &mut Self)
        ensures
            r.routes() == old(self).routes(),
            r.spec_private_key_file() == old(self).spec_private_key_file(),
            r.spec_cert_file() == old(self).spec_cert_file(),
            r.spec_addr() == old(self).spec_addr(),
            r.spec_port() == port,
            *final(self) == *final(r),
    {
        self.port = port;
        self
    }

    /// The file that holds the TLS private key.
    pub fn private_key_file(&self) -> (f: &str)
        ensures
            f@ == self.spec_private_key_file(),
    {
        self.private_key_file.as_str()
    }

    /// The file that holds the TLS certificate chain.
    pub fn cert_file(&self) -> (f: &str)
        ensures
            f@ == self.spec_cert_file(),
    {
        self.cert_file.as_str()
    }

    /// The address and port to listen on, written `addr:port`.
    pub fn bind_address(&self) -> (a: String)
        ensures
            a@ == self.spec_addr() + ":"@ + decimal(self.spec_port() as nat),
    {
        let mut a = self.addr.clone();
        a.append(":");
        let port = decimal_string(self.port as u64);
        a.append(port.as_str());
        a
    }

    /// The handler for a request: the one registered under the request's method,
    /// the text before its first space; `None` when no handler has that name.
    pub fn route(&self, request: &str) -> (h: Option<usize>)
        ensures
            h == lookup(self.routes(), method_of(request@)),
    {
        let chars = chars_of(request);
        let parts = split_chars(&chars);
        proof {
            crate::text::lemma_split_nonempty(request@);
        }
        let method = crate::codec::string_of(parts[0].as_slice());
        route_table_get(&self.register, method.as_str())
    }
}

impl Default for Engine {
    /// An engine with no routes, empty file names and address, and port 0.
    fn default() -> (e: Self)
        ensures
            e.routes() == no_routes(),
            e.spec_private_key_file() == Seq::<char>::empty(),
            e.spec_cert_file() == Seq::<char>::empty(),
            e.spec_addr() == Seq::<char>::empty(),
            e.spec_port() == 0,
    {
        Engine {
            register: route_table_new(),
            private_key_file: String::new(),
            cert_file: String::new(),
            addr: String::new(),
            port: 0,
        }
    }
}

/// The text written back for an answer: `success`, the control block (its JSON in
/// base64, or `.` when there is none) and the payload (in base64, or nothing),
/// separated by single spaces and ended by a newline.
pub open spec fn response_text(success: bool, control_block_json: Option<Seq<char>>, payload: Option<Seq<char>>) -> Seq<char> {
    let flag = if success { "true"@ } else { "false"@ };
    let block = match control_block_json {
        Some(j) => base64_standard_encode(encode_utf8(j)),
        None => "."@,
    };
    let body = match payload {
        Some(p) => base64_standard_encode(encode_utf8(p)),
        None => ""@,
    };
    flag + " "@ + block + " "@ + body + "\n"@
}

/// The characters of an optional text.
pub open spec fn text_view(t: Option<&str>) -> Option<Seq<char>> {
    match t {
        Some(s) => Some(s@),
        None => None,
    }
}

/// The block field of a reply: the base64 of the block's JSON, or `.` for none.
pub open spec fn block_field(control_block_json: Option<Seq<char>>) -> Seq<char> {
    match control_block_json {
        Some(j) => base64_standard_encode(encode_utf8(j)),
        None => "."@,
    }
}

/// A request read as carrying the block `block` and the content `content`.
pub open spec fn read_as(block: Option<Seq<char>>, content: Seq<char>) -> Result<(Option<Seq<char>>, Seq<char>), Seq<char>> {
    Ok((block, content))
}

/// A field read back as the text `t`.
pub open spec fn decoded_text(t: Seq<char>) -> Result<Seq<char>, Seq<char>> {
    Ok(t)
}

/// The first field of a reply is the answer's success flag and nothing else: a
/// reply starts with `true ` exactly when the answer succeeded and with `false `
/// exactly when it failed, whatever block and payload it carries.
pub proof fn law_reply_flag_is_success(success: bool, control_block_json: Option<Seq<char>>, payload: Option<Seq<char>>)
    ensures
        success ==> response_text(success, control_block_json, payload).subrange(0, 5) == "true "@,
        !success ==> response_text(success, control_block_json, payload).subrange(0, 6) == "false "@,
        response_text(success, control_block_json, payload).len() >= 7,
{
    reveal_strlit("true");
    reveal_strlit("false");
    reveal_strlit(" ");
    reveal_strlit("true ");
    reveal_strlit("false ");
    reveal_strlit("\n");
    let t = response_text(success, control_block_json, payload);
    let flag = if success { "true"@ } else { "false"@ };
    let block = match control_block_json {
        Some(j) => base64_standard_encode(encode_utf8(j)),
        None => "."@,
    };
    let body = match payload {
        Some(p) => base64_standard_encode(encode_utf8(p)),
        None => ""@,
    };
    assert(t == (flag + " "@) + (block + " "@ + body + "\n"@));
    assert((flag + " "@).len() == flag.len() + 1);
    assert(t.subrange(0, flag.len() + 1 as int) =~= flag + " "@);
}

/// Writes the reply line for an answer; `control_block_json` is the JSON of the
/// answer's control block, if it has one.
pub fn encode_response(success: bool, control_block_json: Option<&str>, payload: Option<&str>) -> (r: String)
    ensures
        r@ == response_text(success, text_view(control_block_json), text_view(payload)),
        success ==> r@.len() >= 5 && r@.subrange(0, 5) == "true "@,
        !success ==> r@.len() >= 6 && r@.subrange(0, 6) == "false "@,
        control_block_json matches Some(j) ==> decode_field(base64_standard_encode(encode_utf8(j@))) == decoded_text(j@),
        payload matches Some(p) ==> decode_field(base64_standard_encode(encode_utf8(p@))) == decoded_text(p@),
        payload matches Some(p) ==> forall|m: Seq<char>| !m.contains(' ') ==> #[trigger] spec_parse_input(
            m + " "@ + block_field(text_view(control_block_json)) + " "@ + base64_standard_encode(encode_utf8(p@)),
        ) == read_as(text_view(control_block_json), p@),
{
    let mut r = if success { String::from_str("true") } else { String::from_str("false") };
    r.append(" ");
    match control_block_json {
        Some(j) => {
            let enc = base64_encode(j);
            proof {
                encode_utf8_valid_utf8(j@);
                encode_utf8_decode_utf8(j@);
            }
            r.append(enc.as_str());
        },
        None => {
            r.append(".");
        },
    }
    r.append(" ");
    match payload {
        Some(p) => {
            let enc = base64_encode(p);
            proof {
                encode_utf8_valid_utf8(p@);
                encode_utf8_decode_utf8(p@);
            }
            r.append(enc.as_str());
        },
        None => {
            r.append("");
        },
    }
    r.append("\n");
    proof {
        law_reply_flag_is_success(success, text_view(control_block_json), text_view(payload));
        if payload is Some {
            lemma_request_from_reply_fields(text_view(control_block_json), payload.unwrap()@);
        }
    }
    r
}

/// The facts about base64 text that framing needs: it has no space and is not `.`.
proof fn lemma_base64_plain(t: Seq<char>)
    requires
        forall|i: int| 0 <= i < t.len() ==> is_base64_char(#[trigger] t[i]),
    ensures
        !t.contains(' '),
        t != "."@,
{
    reveal_strlit(".");
    if t.contains(' ') {
        let i = choose|i: int| 0 <= i < t.len() && t[i] == ' ';
        assert(is_base64_char(t[i]));
    }
    if t == "."@ {
        assert(is_base64_char(t[0]));
    }
}

/// Reply fields framed as a request `m block content` are read back as the block
/// and content they carry, once the fields are known to decode back and to be
/// plain base64.
proof fn lemma_request_from_reply_fields(block: Option<Seq<char>>, content: Seq<char>)
    requires
        block matches Some(j) ==> decode_field(base64_standard_encode(encode_utf8(j))) == decoded_text(j),
        block matches Some(j) ==> forall|i: int| 0 <= i < base64_standard_encode(encode_utf8(j)).len()
            ==> is_base64_char(#[trigger] base64_standard_encode(encode_utf8(j))[i]),
        decode_field(base64_standard_encode(encode_utf8(content))) == decoded_text(content),
        forall|i: int| 0 <= i < base64_standard_encode(encode_utf8(content)).len()
            ==> is_base64_char(#[trigger] base64_standard_encode(encode_utf8(content))[i]),
    ensures
        forall|m: Seq<char>| !m.contains(' ') ==> #[trigger] spec_parse_input(
            m + " "@ + block_field(block) + " "@ + base64_standard_encode(encode_utf8(content)),
        ) == read_as(block, content),
{
    reveal_strlit(" ");
    reveal_strlit(".");
    assert(" "@ =~= seq![' ']);
    let c = base64_standard_encode(encode_utf8(content));
    lemma_base64_plain(c);
    let b = block_field(block);
    match block {
        Some(j) => {
            lemma_base64_plain(base64_standard_encode(encode_utf8(j)));
        },
        None => {
            assert(!b.contains(' ')) by {
                if b.contains(' ') {
                    let i = choose|i: int| 0 <= i < b.len() && b[i] == ' ';
                }
            }
        },
    }
    assert forall|m: Seq<char>| !m.contains(' ') implies #[trigger] spec_parse_input(
        m + " "@ + b + " "@ + c,
    ) == read_as(block, content) by {
        lemma_split_three(m, b, c);
        assert(m + " "@ + b + " "@ + c == m + seq![' '] + b + seq![' '] + c);
    }
}

/// After registering handler `handler` under `path`, a request whose method is
/// `path` is routed to `handler`, and every other request where it was routed
/// before.
pub proof fn law_route_after_register(before: Engine, after: Engine, path: Seq<char>, handler: usize, request: Seq<char>)
    requires
        after.routes() == before.routes().insert(path, handler),
    ensures
        method_of(request) == path ==> lookup(after.routes(), method_of(request)) == Some(handler),
        method_of(request) != path ==> lookup(after.routes(), method_of(request)) == lookup(before.routes(), method_of(request)),
{
}

} // verus!
