//! Capturing the traffic of an OVS port: the names of the mirror interface and mirror, and the
//! commands that set up and tear down the mirroring.

use vstd::prelude::*;
use crate::ovn::components::{byte_len, utf8_width};
use crate::text::{chars_of, command_views, concat2, concat3, debug_string, debug_text, join_spaced, join_words, owned, push_char, push_str, views};

verus! {

/// Captures packets of a testbed port.
#[derive(Debug, Clone)]
pub struct TestbedPacketCapture;

/// Where captured packets go.
#[derive(Debug, Clone)]
pub enum TCPDumpConsumer {
    /// A pcap file at this path.
    File(String),
}

/// What a capture needs.
#[derive(Debug, Clone)]
pub struct TCPDumpConfig {
    /// The OVS port or interface captured.
    pub interface: String,
    /// Whether all traffic on the bridge is mirrored.
    pub span: bool,
    /// Arguments passed on to `tcpdump`.
    pub dump_args: Vec<String>,
    /// The interface of the host that receives the mirrored traffic.
    pub mirror_interface: String,
    /// The name of the OVS mirror.
    pub mirror_name: String,
    /// The OVS bridge.
    pub ovs_bridge: String,
    pub consumer: TCPDumpConsumer,
}

/// The OVS configuration a capture sets up and tears down.
#[derive(Debug, Clone)]
pub struct OVSConfig;

/// The UTF-8 encoding of two texts one after the other is their encodings one after the other.
pub proof fn lemma_encode_concat(a: Seq<char>, b: Seq<char>)
    ensures
        byte_len(a + b) == byte_len(a) + byte_len(b),
    decreases a.len(),
{
    if a.len() == 0 {
        assert(a + b =~= b);
    } else {
        lemma_encode_concat(a.drop_first(), b);
        assert((a + b).drop_first() =~= a.drop_first() + b);
        assert((a + b)[0] == a[0]);
    }
}

/// The byte length of one character.
pub proof fn lemma_char_bytes(c: char)
    ensures
        byte_len(seq![c]) == vstd::utf8::encode_scalar(c as u32).len(),
{
    assert(seq![c].drop_first() =~= Seq::<char>::empty());
    assert(vstd::utf8::encode_utf8(Seq::<char>::empty()) =~= Seq::<u8>::empty());
    assert(vstd::utf8::encode_utf8(seq![c]) =~= vstd::utf8::encode_scalar(c as u32) + vstd::utf8::encode_utf8(Seq::<char>::empty()));
}

/// A character of `[A-Za-z0-9]`.
pub open spec fn is_alphanumeric(c: char) -> bool {
    ('A' <= c <= 'Z') || ('a' <= c <= 'z') || ('0' <= c <= '9')
}

/// A text of ASCII letters and digits takes one byte per character.
pub proof fn lemma_alphanumeric_bytes(s: Seq<char>)
    requires
        forall|i: int| 0 <= i < s.len() ==> is_alphanumeric(#[trigger] s[i]),
    ensures
        byte_len(s) == s.len(),
    decreases s.len(),
{
    if s.len() > 0 {
        let c = s[0];
        assert(is_alphanumeric(s[0]));
        assert(s.drop_first().len() < s.len());
        assert forall|i: int| 0 <= i < s.drop_first().len() implies is_alphanumeric(#[trigger] s.drop_first()[i]) by {
            assert(s.drop_first()[i] == s[i + 1]);
        }
        lemma_alphanumeric_bytes(s.drop_first());
        proof_char_width_one(c);
    }
}

/// An ASCII character is encoded in one byte.
proof fn proof_char_width_one(c: char)
    requires
        is_alphanumeric(c),
    ensures
        vstd::utf8::encode_scalar(c as u32).len() == 1,
{
    assert((c as u32) < 0x80);
}

/// `count` characters drawn from `[A-Za-z0-9]`.
#[verifier::external_body]
fn random_alphanumeric(count: usize) -> (r: String)
    ensures
        r@.len() == count,
        forall|i: int| 0 <= i < r@.len() ==> is_alphanumeric(#[trigger] r@[i]),
{
    let mut rng = rand::rng();
    rand::distr::Distribution::sample_iter(rand::distr::Alphanumeric, &mut rng).take(count).map(char::from).collect::<String>()
}

/// The name of the mirror of an interface into a host interface.
pub open spec fn mirror_name_spec(in_name: Seq<char>, os_interface: Seq<char>) -> Seq<char> {
    "mirror-"@ + in_name + "-to-"@ + os_interface
}

/// The start of a host interface name made for `in_name`: `mi<in_name>`, cut to its first ten
/// bytes when longer.
pub open spec fn interface_prefix(in_name: Seq<char>) -> Seq<char> {
    let base = "mi"@ + in_name;
    if byte_len(base) > 10 {
        base.take(choose|k: int| 0 <= k <= base.len() && byte_len(base.take(k)) == 10)
    } else {
        base
    }
}

/// The cut after ten bytes falls between two characters.
pub open spec fn cut_on_boundary(in_name: Seq<char>) -> bool {
    let base = "mi"@ + in_name;
    byte_len(base) > 10 ==> exists|k: int| 0 <= k <= base.len() && byte_len(base.take(k)) == 10
}

/// Byte lengths of prefixes grow with the prefix.
proof fn lemma_prefix_bytes(s: Seq<char>, k: int)
    requires
        0 <= k < s.len(),
    ensures
        byte_len(s.take(k + 1)) == byte_len(s.take(k)) + vstd::utf8::encode_scalar(s[k] as u32).len(),
        vstd::utf8::encode_scalar(s[k] as u32).len() >= 1,
{
    assert(s.take(k + 1) =~= s.take(k) + seq![s[k]]);
    lemma_encode_concat(s.take(k), seq![s[k]]);
    lemma_char_bytes(s[k]);
}

/// Byte lengths of prefixes never repeat: at most one prefix has a given byte length.
proof fn lemma_prefix_bytes_strict(s: Seq<char>, j: int, k: int)
    requires
        0 <= j < k <= s.len(),
    ensures
        byte_len(s.take(j)) < byte_len(s.take(k)),
    decreases k - j,
{
    lemma_prefix_bytes(s, k - 1);
    if j < k - 1 {
        lemma_prefix_bytes_strict(s, j, k - 1);
    }
}

/// The name of the OVS mirror of `in_name` into `os_interface`.
pub fn generate_mirror_name(in_name: &str, os_interface: &str) -> (r: String)
    ensures
        r@ == mirror_name_spec(in_name@, os_interface@),
{
    let mut r = owned("mirror-");
    push_str(&mut r, in_name);
    push_str(&mut r, "-to-");
    push_str(&mut r, os_interface);
    r
}

/// The start of the host interface name (see [`interface_prefix`]) and its length in bytes.
fn make_interface_prefix(in_name: &str) -> (r: (String, usize))
    requires
        cut_on_boundary(in_name@),
    ensures
        r.0@ == interface_prefix(in_name@),
        r.1 == byte_len(r.0@),
        r.1 <= 10,
{
    let mut base = owned("mi");
    push_str(&mut base, in_name);
    let c = chars_of(base.as_str());
    let ghost b = c@;
    let mut out = String::new();
    let mut bytes: usize = 0;
    let mut k: usize = 0;
    proof { assert(b.take(0) =~= Seq::<char>::empty()); }
    while k < c.len()
        invariant
            b == c@,
            k <= c@.len(),
            out@ == b.take(k as int),
            bytes == byte_len(b.take(k as int)),
            bytes <= 10,
        ensures
            k < c@.len() ==> byte_len(b.take(k + 1)) > 10,
        decreases c@.len() - k,
    {
        let w = utf8_width(c[k]);
        proof { lemma_prefix_bytes(b, k as int); }
        if bytes + w as usize > 10 {
            break;
        }
        push_char(&mut out, c[k]);
        bytes = bytes + w as usize;
        proof { assert(out@ =~= b.take(k + 1)); }
        k = k + 1;
    }
    proof {
        if k == c@.len() {
            assert(b.take(k as int) =~= b);
        } else {
            lemma_prefix_bytes(b, k as int);
            if byte_len(b) > 10 {
                let j = choose|j: int| 0 <= j <= b.len() && byte_len(b.take(j)) == 10;
                if j == k + 1 {
                    assert(false);
                } else if j > k + 1 {
                    lemma_prefix_bytes_strict(b, k + 1, j);
                } else if j < k {
                    lemma_prefix_bytes_strict(b, j, k as int);
                }
                assert(j == k);
            } else {
                assert(b.take(b.len() as int) =~= b);
                if k + 1 < b.len() {
                    lemma_prefix_bytes_strict(b, k + 1, b.len() as int);
                }
                assert(false);
            }
        }
    }
    (out, bytes)
}

/// A name for the host interface that receives the traffic mirrored from `in_name`: the start
/// made by [`interface_prefix`], a hyphen, and random letters and digits up to fifteen bytes,
/// the most a host interface name may take.
pub fn generate_name(in_name: &str) -> (r: String)
    requires
        cut_on_boundary(in_name@),
    ensures
        exists|suffix: Seq<char>| #![auto] r@ == interface_prefix(in_name@) + "-"@ + suffix
            && suffix.len() == 14 - byte_len(interface_prefix(in_name@))
            && forall|i: int| 0 <= i < suffix.len() ==> is_alphanumeric(suffix[i]),
        byte_len(r@) == 15,
{
    let (prefix, bytes) = make_interface_prefix(in_name);
    let suffix = random_alphanumeric(14 - bytes);
    let mut r = prefix;
    let ghost p = r@;
    push_str(&mut r, "-");
    push_str(&mut r, suffix.as_str());
    proof {
        lemma_alphanumeric_bytes(suffix@);
        lemma_encode_concat(p, seq!['-']);
        lemma_char_bytes('-');
        lemma_encode_concat(p + seq!['-'], suffix@);
        reveal_strlit("-");
        assert("-"@ =~= seq!['-']);
        assert(r@ =~= p + seq!['-'] + suffix@);
    }
    r
}

/// `sudo` followed by a command.
pub open spec fn sudo(cmd: Seq<Seq<char>>) -> Seq<Seq<char>> {
    seq!["sudo"@] + cmd
}

/// The commands that set up mirroring, in order: a dummy host interface, brought up, added as a
/// port of the bridge, and a mirror of the captured port into it.
pub open spec fn setup_commands_spec(c: TCPDumpConfig) -> Seq<Seq<Seq<char>>> {
    seq![
        sudo(seq!["ip"@, "link"@, "add"@, c.mirror_interface@, "type"@, "dummy"@]),
        sudo(seq!["ip"@, "link"@, "set"@, "dev"@, c.mirror_interface@, "up"@]),
        sudo(seq!["ovs-vsctl"@, "add-port"@, c.ovs_bridge@, c.mirror_interface@]),
        sudo(seq![
            "ovs-vsctl"@, "--"@, "--id=@target"@, "get"@, "port"@, c.interface@,
            "--"@, "--id=@mirror_port"@, "get"@, "port"@, c.mirror_interface@,
            "--"@, "--id=@m"@, "create"@, "mirror"@, "name="@ + c.mirror_name@,
            if c.span { "select-all=true"@ } else { "select-all=false"@ },
            "select-src-port=@target"@, "select-dst-port=@target"@, "output-port=@mirror_port"@,
            "--"@, "set"@, "bridge"@, c.ovs_bridge@, "mirrors=@m"@,
        ]),
    ]
}

/// The commands that tear mirroring down, in order: the bridge's mirrors cleared, the port
/// removed, the dummy interface deleted.
pub open spec fn teardown_commands_spec(c: TCPDumpConfig) -> Seq<Seq<Seq<char>>> {
    seq![
        sudo(seq!["ovs-vsctl"@, "clear"@, "bridge"@, c.ovs_bridge@, "mirrors"@]),
        sudo(seq!["ovs-vsctl"@, "--if-exists"@, "del-port"@, c.ovs_bridge@, c.mirror_interface@]),
        sudo(seq!["ip"@, "link"@, "del"@, c.mirror_interface@]),
    ]
}

/// Builds a command from its words.
fn command(words: &[&str]) -> (r: Vec<String>)
    ensures
        views(r@) == words@.map_values(|w: &str| w@),
{
    let mut r: Vec<String> = Vec::new();
    let mut i: usize = 0;
    while i < words.len()
        invariant
            i <= words@.len(),
            views(r@) == words@.subrange(0, i as int).map_values(|w: &str| w@),
        decreases words@.len() - i,
    {
        let ghost before = r@;
        r.push(owned(words[i]));
        proof {
            assert(views(r@) =~= views(before).push(words@[i as int]@));
            assert(views(r@) =~= words@.subrange(0, i + 1).map_values(|w: &str| w@));
        }
        i = i + 1;
    }
    proof { assert(words@.subrange(0, words@.len() as int) =~= words@); }
    r
}

impl OVSConfig {
    /// The commands that set up mirroring (see [`setup_commands_spec`]); they are run in order
    /// and the host interface named `mirror_interface` then receives the traffic.
    pub fn setup_commands(c: &TCPDumpConfig) -> (r: Vec<Vec<String>>)
        ensures
            command_views(r@) == setup_commands_spec(*c),
    {
        let mut out: Vec<Vec<String>> = Vec::new();
        out.push(command(&["sudo", "ip", "link", "add", c.mirror_interface.as_str(), "type", "dummy"]));
        out.push(command(&["sudo", "ip", "link", "set", "dev", c.mirror_interface.as_str(), "up"]));
        out.push(command(&["sudo", "ovs-vsctl", "add-port", c.ovs_bridge.as_str(), c.mirror_interface.as_str()]));
        let name = crate::text::concat2("name=", c.mirror_name.as_str());
        let select = if c.span { owned("select-all=true") } else { owned("select-all=false") };
        out.push(command(&[
            "sudo", "ovs-vsctl", "--", "--id=@target", "get", "port", c.interface.as_str(),
            "--", "--id=@mirror_port", "get", "port", c.mirror_interface.as_str(),
            "--", "--id=@m", "create", "mirror", name.as_str(), select.as_str(),
            "select-src-port=@target", "select-dst-port=@target", "output-port=@mirror_port",
            "--", "set", "bridge", c.ovs_bridge.as_str(), "mirrors=@m",
        ]));
        proof {
            assert(command_views(out@) =~~= setup_commands_spec(*c));
        }
        out
    }

    /// The commands that tear mirroring down (see [`teardown_commands_spec`]).
    pub fn teardown_commands(c: &TCPDumpConfig) -> (r: Vec<Vec<String>>)
        ensures
            command_views(r@) == teardown_commands_spec(*c),
    {
        let mut out: Vec<Vec<String>> = Vec::new();
        out.push(command(&["sudo", "ovs-vsctl", "clear", "bridge", c.ovs_bridge.as_str(), "mirrors"]));
        out.push(command(&["sudo", "ovs-vsctl", "--if-exists", "del-port", c.ovs_bridge.as_str(), c.mirror_interface.as_str()]));
        out.push(command(&["sudo", "ip", "link", "del", c.mirror_interface.as_str()]));
        proof { assert(command_views(out@) =~~= teardown_commands_spec(*c)); }
        out
    }
}

impl TCPDumpConfig {
    /// The name of the OVS mirror of `in_name` into `os_interface`.
    pub fn generate_mirror_name(in_name: &str, os_interface: &str) -> (r: String)
        ensures
            r@ == mirror_name_spec(in_name@, os_interface@),
    {
        generate_mirror_name(in_name, os_interface)
    }

    /// A capture of `interface` on the integration bridge `br-int`, mirrored into the host
    /// interface `mirror_interface`.
    pub fn new(interface: String, span: bool, dump_args: Vec<String>, mirror_interface: String, consumer: TCPDumpConsumer) -> (r: TCPDumpConfig)
        ensures
            r.interface == interface,
            r.span == span,
            r.dump_args == dump_args,
            r.mirror_interface == mirror_interface,
            r.mirror_name@ == mirror_name_spec(interface@, mirror_interface@),
            r.ovs_bridge@ == "br-int"@,
            r.consumer == consumer,
    {
        let mirror_name = generate_mirror_name(interface.as_str(), mirror_interface.as_str());
        TCPDumpConfig { interface, span, dump_args, mirror_interface, mirror_name, ovs_bridge: owned("br-int"), consumer }
    }
}

/// What one try of a host interface name decides: names are tried until the check of one
/// runs, at most ten times.
#[derive(Debug, Clone, PartialEq, Eq)]
pub enum NameStep {
    /// Use the name just tried.
    Use,
    /// Try another name; `next` counts the names tried.
    Retry { next: u32 },
    /// Give up, with this message.
    GiveUp(String),
}

/// Decides after the check of the `tried`-th name (counting from one) whether to use it, try
/// another, or give up after ten.
pub fn name_step(tried: u32, check_ran: bool) -> (r: NameStep)
    requires
        1 <= tried <= 10,
    ensures
        check_ran ==> r == NameStep::Use,
        !check_ran && tried < 10 ==> r == (NameStep::Retry { next: (tried + 1) as u32 }),
        !check_ran && tried == 10 ==> (r matches NameStep::GiveUp(m) && m@ == "could not generate an interface name without a collision 10 times"@),
{
    if check_ran {
        NameStep::Use
    } else if tried < 10 {
        NameStep::Retry { next: tried + 1 }
    } else {
        NameStep::GiveUp(owned("could not generate an interface name without a collision 10 times"))
    }
}

impl TCPDumpConfig {
    /// The command that checks a host interface name.
    pub fn name_check_command(name: &String) -> (r: Vec<String>)
        ensures
            views(r@) == sudo(seq!["ip"@, "link"@, "show"@, "dev"@, name@]),
    {
        let mut v: Vec<String> = Vec::new();
        v.push(owned("sudo"));
        v.push(owned("ip"));
        v.push(owned("link"));
        v.push(owned("show"));
        v.push(owned("dev"));
        v.push(name.clone());
        proof { assert(views(v@) =~= sudo(seq!["ip"@, "link"@, "show"@, "dev"@, name@])); }
        v
    }

    /// The command that checks that the captured port exists.
    pub fn port_check_command(&self) -> (r: Vec<String>)
        ensures
            views(r@) == sudo(seq!["ovs-vsctl"@, "--id=@target"@, "get"@, "port"@, self.interface@]),
    {
        let mut v: Vec<String> = Vec::new();
        v.push(owned("sudo"));
        v.push(owned("ovs-vsctl"));
        v.push(owned("--id=@target"));
        v.push(owned("get"));
        v.push(owned("port"));
        v.push(self.interface.clone());
        proof { assert(views(v@) =~= sudo(seq!["ovs-vsctl"@, "--id=@target"@, "get"@, "port"@, self.interface@])); }
        v
    }

    /// The command whose success shows that a mirror of the host interface exists already.
    pub fn mirror_check_command(&self) -> (r: Vec<String>)
        ensures
            views(r@) == sudo(seq!["ovs-vsctl"@, "--id=@target"@, "get"@, "mirror"@, self.mirror_interface@]),
    {
        let mut v: Vec<String> = Vec::new();
        v.push(owned("sudo"));
        v.push(owned("ovs-vsctl"));
        v.push(owned("--id=@target"));
        v.push(owned("get"));
        v.push(owned("mirror"));
        v.push(self.mirror_interface.clone());
        proof { assert(views(v@) =~= sudo(seq!["ovs-vsctl"@, "--id=@target"@, "get"@, "mirror"@, self.mirror_interface@])); }
        v
    }

    /// The check of a capture: refused when a mirror of its host interface exists already.
    pub fn mirror_check_result(&self, mirror_exists: bool) -> (r: Result<(), String>)
        ensures
            mirror_exists ==> (r matches Err(m) && m@ == "Mirror port "@ + self.mirror_interface@ + " already exists"@),
            !mirror_exists ==> r is Ok,
    {
        if mirror_exists {
            Err(concat3("Mirror port ", self.mirror_interface.as_str(), " already exists"))
        } else {
            Ok(())
        }
    }

    /// The packet filter of a capture: its `tcpdump` arguments joined by spaces, if there are any.
    pub fn bpf_filter(&self) -> (r: Option<String>)
        ensures
            self.dump_args@.len() == 0 ==> r is None,
            self.dump_args@.len() > 0 ==> (r matches Some(f) && f@ == join_spaced(views(self.dump_args@))),
    {
        if self.dump_args.len() == 0 {
            None
        } else {
            Some(join_words(&self.dump_args))
        }
    }
}

/// Where captured packets are written: refused when the file exists already (the path is shown
/// quoted, as `Debug` shows it).
pub fn file_consumer_check(path: &String, file_exists: bool) -> (r: Result<(), String>)
    ensures
        file_exists ==> (r matches Err(m) && m@ == "File already exists: "@ + debug_text(path@)),
        !file_exists ==> r is Ok,
{
    if file_exists {
        Err(concat2("File already exists: ", debug_string(path.as_str()).as_str()))
    } else {
        Ok(())
    }
}

/// Mirroring sends the captured interface's traffic to the host interface: the first command
/// makes the dummy interface `mirror_interface`, and the mirror-creating command binds
/// `@target` to the captured port `interface`, `@mirror_port` to `mirror_interface`, selects
/// the traffic to and from `@target` and outputs it to `@mirror_port`.
pub proof fn law_mirror_direction(c: TCPDumpConfig)
    ensures
        ({
            let cmds = setup_commands_spec(c);
            let m = cmds[3];
            &&& cmds.len() == 4
            &&& cmds[0] == seq!["sudo"@, "ip"@, "link"@, "add"@, c.mirror_interface@, "type"@, "dummy"@]
            &&& m[1] == "ovs-vsctl"@
            &&& m[3] == "--id=@target"@ && m[4] == "get"@ && m[5] == "port"@ && m[6] == c.interface@
            &&& m[8] == "--id=@mirror_port"@ && m[9] == "get"@ && m[10] == "port"@ && m[11] == c.mirror_interface@
            &&& m[18] == "select-src-port=@target"@
            &&& m[19] == "select-dst-port=@target"@
            &&& m[20] == "output-port=@mirror_port"@
        }),
{
    let c0 = setup_commands_spec(c)[0];
    assert(c0 =~= seq!["sudo"@, "ip"@, "link"@, "add"@, c.mirror_interface@, "type"@, "dummy"@]);
}

} // verus!
