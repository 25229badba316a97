//! The shim's command line: flags and environment into `Arguments`, and back
//! into an argument list for re-executing the shim.
use std::hash::{Hash, Hasher};

use vstd::prelude::*;

use crate::address::{hex_label, hex_label_of, shim_socket, socket_address};
use crate::text::{
    has_prefix, lemma_strings_push, lookup, lookup_value, pairs, same_text, starts_with, strings,
};

verus! {

/// The orchestrator's socket when the environment names none.
pub const CONTAINERD_DEFAULT_ADDRESS: &'static str = "/run/containerd/containerd.sock";

#[verifier::external_type_specification]
#[verifier::external_body]
pub struct ExFlagError(go_flag::FlagError);

/// The values of the shim's flags, before and after parsing.
pub struct Flags {
    pub debug: bool,
    pub version: bool,
    pub namespace: String,
    pub id: String,
    pub bundle: String,
    pub address: String,
    pub publish_binary: String,
}

/// What a `Flags` holds.
pub struct FlagSettings {
    pub debug: bool,
    pub version: bool,
    pub namespace: Seq<char>,
    pub id: Seq<char>,
    pub bundle: Seq<char>,
    pub address: Seq<char>,
    pub publish_binary: Seq<char>,
}

impl View for Flags {
    type V = FlagSettings;

    open spec fn view(&self) -> FlagSettings {
        FlagSettings {
            debug: self.debug,
            version: self.version,
            namespace: self.namespace@,
            id: self.id@,
            bundle: self.bundle@,
            address: self.address@,
            publish_binary: self.publish_binary@,
        }
    }
}

/// What Go-style flag parsing of `args` gives, with two boolean flags then
/// five string flags registered under `names` and holding `start` before
/// parsing: the flags' values and the positional arguments, or nothing when
/// the arguments are rejected.
pub uninterp spec fn go_flag_outcome(
    args: Seq<Seq<char>>,
    names: Seq<Seq<char>>,
    start: FlagSettings,
) -> Option<(FlagSettings, Seq<Seq<char>>)>;

/// The names of the shim's flags, booleans first.
pub open spec fn flag_names() -> Seq<Seq<char>> {
    seq![
        "debug"@,
        "v"@,
        "namespace"@,
        "id"@,
        "bundle"@,
        "address"@,
        "publish-binary"@,
    ]
}

/// Relies on go_flag::parse_args: parses `args` as Go's `flag` package does,
/// setting the registered flags that occur and handing back the positional
/// arguments; its outcome depends on the arguments, the names and the prior
/// values alone. It panics on a name registered twice.
#[verifier::external_body]
fn go_flag_parse_args(args: &Vec<String>, names: &Vec<&str>, flags: &mut Flags) -> (r: Result<
    Vec<String>,
    go_flag::FlagError,
>)
    requires
        names@.len() == 7,
        forall|i: int, j: int| 0 <= i < j < 7 ==> names@[i]@ != names@[j]@,
    ensures
        match go_flag_outcome(strings(args@), names@.map_values(|n: &str| n@), old(flags)@) {
            Some((f, rest)) => r is Ok && final(flags)@ == f && strings(r->Ok_0@) == rest,
            None => r is Err,
        },
{
    let Flags { debug, version, namespace, id, bundle, address, publish_binary } = flags;
    go_flag::parse_args(args.as_slice(), |f| {
        f.add_flag(names[0], debug);
        f.add_flag(names[1], version);
        f.add_flag(names[2], namespace);
        f.add_flag(names[3], id);
        f.add_flag(names[4], bundle);
        f.add_flag(names[5], address);
        f.add_flag(names[6], publish_binary);
    })
}

/// A hash of a namespace and an identifier, the same for the same strings.
pub uninterp spec fn default_hash_of(namespace: Seq<char>, id: Seq<char>) -> u64;

/// Relies on std's DefaultHasher: `DefaultHasher::new` always starts from the
/// same keys, so the hash of the pair depends on the two strings alone.
#[verifier::external_body]
fn hash_pair(namespace: &String, id: &str) -> (r: u64)
    ensures
        r == default_hash_of(namespace@, id@),
{
    let mut hasher = std::hash::DefaultHasher::new();
    (namespace, id).hash(&mut hasher);
    hasher.finish()
}

/// Why the command line was refused.
#[derive(Debug)]
pub enum ArgsError {
    /// A flag is unknown, malformed or lacks its value.
    Flag(go_flag::FlagError),
    /// No action follows the flags.
    NoAction,
    /// The action is none of `start`, `daemon` and `delete`.
    UnsupportedAction(String),
}

/// What an `ArgsError` says.
pub enum ParseFailure {
    Flag,
    NoAction,
    UnsupportedAction(Seq<char>),
}

impl View for ArgsError {
    type V = ParseFailure;

    open spec fn view(&self) -> ParseFailure {
        match self {
            ArgsError::Flag(_) => ParseFailure::Flag,
            ArgsError::NoAction => ParseFailure::NoAction,
            ArgsError::UnsupportedAction(a) => ParseFailure::UnsupportedAction(a@),
        }
    }
}

/// The shim's identity and connection settings, as parsed from its command
/// line and environment.
#[derive(Debug)]
pub struct Arguments {
    /// The container's identifier.
    pub id: String,
    /// The container's namespace.
    pub namespace: String,
    /// The orchestrator's ttrpc socket.
    pub ttrpc_address: String,
    /// The orchestrator's grpc socket.
    pub grpc_address: String,
    /// The orchestrator's binary, used to publish events.
    pub publish_binary: String,
    /// Debug output in logs.
    pub debug: bool,
    /// `start`, `daemon`, `delete` or `version`.
    pub action: String,
    /// The arguments after the action, handed on unchanged on re-execution.
    pub rest: Vec<String>,
    /// The bundle path given to `delete`.
    pub bundle: String,
    /// The shim binary's name without its `containerd-shim-` prefix.
    pub shim_name: String,
    /// Whether standard output was a terminal when the arguments were parsed.
    pub interactive: bool,
}

/// What an `Arguments` holds.
pub struct ArgsModel {
    pub id: Seq<char>,
    pub namespace: Seq<char>,
    pub ttrpc_address: Seq<char>,
    pub grpc_address: Seq<char>,
    pub publish_binary: Seq<char>,
    pub debug: bool,
    pub action: Seq<char>,
    pub rest: Seq<Seq<char>>,
    pub bundle: Seq<char>,
    pub shim_name: Seq<char>,
    pub interactive: bool,
}

impl View for Arguments {
    type V = ArgsModel;

    open spec fn view(&self) -> ArgsModel {
        ArgsModel {
            id: self.id@,
            namespace: self.namespace@,
            ttrpc_address: self.ttrpc_address@,
            grpc_address: self.grpc_address@,
            publish_binary: self.publish_binary@,
            debug: self.debug,
            action: self.action@,
            rest: strings(self.rest@),
            bundle: self.bundle@,
            shim_name: self.shim_name@,
            interactive: self.interactive,
        }
    }
}

/// `o`'s value, or `d` when there is none.
pub open spec fn or_else(o: Option<Seq<char>>, d: Seq<char>) -> Seq<char> {
    match o {
        Some(v) => v,
        None => d,
    }
}

/// The flags before parsing: defaults, some taken from the environment.
pub open spec fn initial_flags(env: Seq<(Seq<char>, Seq<char>)>) -> FlagSettings {
    FlagSettings {
        debug: false,
        version: false,
        namespace: or_else(lookup(env, "NAMESPACE"@), "default"@),
        id: Seq::empty(),
        bundle: Seq::empty(),
        address: or_else(lookup(env, "GRPC_ADDRESS"@), CONTAINERD_DEFAULT_ADDRESS@),
        publish_binary: "containerd"@,
    }
}

/// The shim's name from its executable's file stem: the stem without a
/// `containerd-shim-` prefix, or `unknown` when there is no stem.
pub open spec fn shim_name_of(stem: Option<Seq<char>>) -> Seq<char> {
    match stem {
        Some(s) => if has_prefix(s, "containerd-shim-"@) {
            s.subrange("containerd-shim-"@.len() as int, s.len() as int)
        } else {
            s
        },
        None => "unknown"@,
    }
}

/// The arguments of a `version` request: all empty but the action.
pub open spec fn version_model(interactive: bool) -> ArgsModel {
    ArgsModel {
        id: Seq::empty(),
        namespace: Seq::empty(),
        ttrpc_address: Seq::empty(),
        grpc_address: Seq::empty(),
        publish_binary: Seq::empty(),
        debug: false,
        action: "version"@,
        rest: Seq::empty(),
        bundle: Seq::empty(),
        shim_name: Seq::empty(),
        interactive,
    }
}

/// The action that runs: `start` on an interactive terminal runs as the
/// daemon directly.
pub open spec fn effective_action(given: Seq<char>, interactive: bool) -> Seq<char> {
    if given == "start"@ && interactive {
        "daemon"@
    } else {
        given
    }
}

/// The actions the shim accepts.
pub open spec fn is_supported_action(action: Seq<char>) -> bool {
    action == "start"@ || action == "daemon"@ || action == "delete"@
}

/// The arguments that parsed flags, positional arguments, environment,
/// executable stem and terminal state give.
pub open spec fn arguments_from(
    f: FlagSettings,
    positional: Seq<Seq<char>>,
    env: Seq<(Seq<char>, Seq<char>)>,
    stem: Option<Seq<char>>,
    interactive: bool,
) -> Result<ArgsModel, ParseFailure> {
    if f.version {
        Ok(version_model(interactive))
    } else if positional.len() == 0 {
        Err(ParseFailure::NoAction)
    } else {
        let action = effective_action(positional[0], interactive);
        if is_supported_action(action) {
            Ok(
                ArgsModel {
                    id: f.id,
                    namespace: f.namespace,
                    ttrpc_address: or_else(lookup(env, "TTRPC_ADDRESS"@), f.address + ".ttrpc"@),
                    grpc_address: f.address,
                    publish_binary: f.publish_binary,
                    debug: f.debug,
                    action,
                    rest: positional.drop_first(),
                    bundle: f.bundle,
                    shim_name: shim_name_of(stem),
                    interactive,
                },
            )
        } else {
            Err(ParseFailure::UnsupportedAction(action))
        }
    }
}

/// The outcome of parsing, as a model.
pub open spec fn outcome_view(r: Result<Arguments, ArgsError>) -> Result<ArgsModel, ParseFailure> {
    match r {
        Ok(a) => Ok(a@),
        Err(e) => Err(e@),
    }
}

/// The outcome of parsing the command line `args` in environment `env`.
pub open spec fn parse_outcome(
    args: Seq<Seq<char>>,
    env: Seq<(Seq<char>, Seq<char>)>,
    stem: Option<Seq<char>>,
    interactive: bool,
) -> Result<ArgsModel, ParseFailure> {
    match go_flag_outcome(args, flag_names(), initial_flags(env)) {
        Some((f, positional)) => arguments_from(f, positional, env, stem, interactive),
        None => Err(ParseFailure::Flag),
    }
}

/// An optional string's view.
pub open spec fn opt_view(o: Option<&str>) -> Option<Seq<char>> {
    match o {
        Some(s) => Some(s@),
        None => None,
    }
}

/// The shim's name from its executable's file stem.
pub fn shim_name(stem: Option<&str>) -> (r: String)
    ensures
        r@ == shim_name_of(opt_view(stem)),
{
    match stem {
        Some(s) => {
            let prefix = "containerd-shim-";
            if starts_with(s, prefix) {
                String::from_str(s.substring_char(prefix.unicode_len(), s.unicode_len()))
            } else {
                String::from_str(s)
            }
        },
        None => String::from_str("unknown"),
    }
}

fn owned(v: &Vec<String>, from: usize) -> (r: Vec<String>)
    requires
        from <= v@.len(),
    ensures
        strings(r@) == strings(v@).subrange(from as int, v@.len() as int),
{
    let mut r: Vec<String> = Vec::new();
    let mut i: usize = from;
    while i < v.len()
        invariant
            from <= i <= v@.len(),
            strings(r@) == strings(v@).subrange(from as int, i as int),
        decreases v@.len() - i,
    {
        let ghost before = r@;
        r.push(v[i].clone());
        proof {
            lemma_strings_push(before, v@[i as int]);
            assert(strings(v@).subrange(from as int, i + 1) =~= strings(v@).subrange(
                from as int,
                i as int,
            ).push(v@[i as int]@));
        }
        i = i + 1;
    }
    r
}

impl Arguments {
    /// Builds the arguments from parsed flags and positional arguments, the
    /// environment, the executable's file stem and whether standard output is
    /// a terminal.
    pub fn from_flags(
        flags: Flags,
        positional: Vec<String>,
        env: &Vec<(String, String)>,
        stem: Option<&str>,
        interactive: bool,
    ) -> (r: Result<Arguments, ArgsError>)
        ensures
            outcome_view(r) == arguments_from(
                flags@,
                strings(positional@),
                pairs(env@),
                opt_view(stem),
                interactive,
            ),
    {
        if flags.version {
            let mut a = Arguments::default();
            a.action = String::from_str("version");
            a.interactive = interactive;
            assert(a@.rest =~= Seq::<Seq<char>>::empty());
            return Ok(a);
        }
        if positional.len() == 0 {
            return Err(ArgsError::NoAction);
        }
        let given = positional[0].as_str();
        let action = if same_text(given, "start") && interactive {
            String::from_str("daemon")
        } else {
            String::from_str(given)
        };
        if !(same_text(action.as_str(), "start") || same_text(action.as_str(), "daemon")
            || same_text(action.as_str(), "delete")) {
            return Err(ArgsError::UnsupportedAction(action));
        }
        let ttrpc_address = match lookup_value(env, "TTRPC_ADDRESS") {
            Some(v) => v,
            None => {
                let mut t = flags.address.clone();
                t.append(".ttrpc");
                t
            },
        };
        let rest = owned(&positional, 1);
        assert(strings(positional@).drop_first() =~= strings(positional@).subrange(
            1,
            positional@.len() as int,
        ));
        Ok(
            Arguments {
                id: flags.id,
                namespace: flags.namespace,
                ttrpc_address,
                grpc_address: flags.address,
                publish_binary: flags.publish_binary,
                debug: flags.debug,
                action,
                rest,
                bundle: flags.bundle,
                shim_name: shim_name(stem),
                interactive,
            },
        )
    }

    /// Parses the shim's command line `args` (without the program name) in the
    /// environment `env`, for an executable whose file stem is `stem`;
    /// `interactive` tells whether standard output is a terminal.
    pub fn parse_from(
        args: &Vec<String>,
        env: &Vec<(String, String)>,
        stem: Option<&str>,
        interactive: bool,
    ) -> (r: Result<Arguments, ArgsError>)
        ensures
            outcome_view(r) == parse_outcome(strings(args@), pairs(env@), opt_view(stem), interactive),
    {
        let namespace = match lookup_value(env, "NAMESPACE") {
            Some(v) => v,
            None => String::from_str("default"),
        };
        let address = match lookup_value(env, "GRPC_ADDRESS") {
            Some(v) => v,
            None => String::from_str(CONTAINERD_DEFAULT_ADDRESS),
        };
        let mut flags = Flags {
            debug: false,
            version: false,
            namespace,
            id: String::new(),
            bundle: String::new(),
            address,
            publish_binary: String::from_str("containerd"),
        };
        let names: Vec<&str> = vec![
            "debug",
            "v",
            "namespace",
            "id",
            "bundle",
            "address",
            "publish-binary",
        ];
        proof {
            reveal_strlit("debug");
            reveal_strlit("v");
            reveal_strlit("namespace");
            reveal_strlit("id");
            reveal_strlit("bundle");
            reveal_strlit("address");
            reveal_strlit("publish-binary");
            assert(names@.map_values(|n: &str| n@) =~= flag_names());
            assert(names@[0]@.len() == 5 && names@[1]@.len() == 1 && names@[2]@.len() == 9
                && names@[3]@.len() == 2 && names@[4]@.len() == 6 && names@[5]@.len() == 7
                && names@[6]@.len() == 14);
        }
        assert(flags@ == initial_flags(pairs(env@)));
        match go_flag_parse_args(args, &names, &mut flags) {
            Ok(positional) => Arguments::from_flags(flags, positional, env, stem, interactive),
            Err(e) => Err(ArgsError::Flag(e)),
        }
    }

    /// Whether standard output was a terminal at parse time.
    pub fn is_interactive(&self) -> (r: bool)
        ensures
            r == self.interactive,
    {
        self.interactive
    }

    /// Whether this process is the long-lived daemon.
    pub fn is_daemon(&self) -> (r: bool)
        ensures
            r == (self.action@ == "daemon"@),
    {
        same_text(self.action.as_str(), "daemon")
    }

    /// The argument list that re-executes the shim with `action`: identity
    /// and connection flags, `-debug` when set, the action, then the
    /// arguments that followed the original action.
    pub fn to_args_vec(&self, action: &str) -> (r: Vec<String>)
        ensures
            strings(r@) == seq![
                "-id"@,
                self.id@,
                "-namespace"@,
                self.namespace@,
                "-address"@,
                self.grpc_address@,
                "-publish-binary"@,
                self.publish_binary@,
            ] + (if self.debug {
                seq!["-debug"@]
            } else {
                Seq::empty()
            }) + seq![action@] + strings(self.rest@),
    {
        let mut r: Vec<String> = vec![
            String::from_str("-id"),
            self.id.clone(),
            String::from_str("-namespace"),
            self.namespace.clone(),
            String::from_str("-address"),
            self.grpc_address.clone(),
            String::from_str("-publish-binary"),
            self.publish_binary.clone(),
        ];
        if self.debug {
            r.push(String::from_str("-debug"));
        }
        r.push(String::from_str(action));
        let ghost head = strings(r@);
        let mut i: usize = 0;
        while i < self.rest.len()
            invariant
                i <= self.rest@.len(),
                strings(r@) == head + strings(self.rest@).subrange(0, i as int),
            decreases self.rest@.len() - i,
        {
            let ghost before = r@;
            r.push(self.rest[i].clone());
            proof {
                lemma_strings_push(before, self.rest@[i as int]);
                assert(strings(self.rest@).subrange(0, i + 1) =~= strings(self.rest@).subrange(
                    0,
                    i as int,
                ).push(self.rest@[i as int]@));
                assert(strings(r@) =~= head + strings(self.rest@).subrange(0, i + 1));
            }
            i = i + 1;
        }
        assert(strings(self.rest@).subrange(0, self.rest@.len() as int) =~= strings(self.rest@));
        assert(head =~= seq![
            "-id"@,
            self.id@,
            "-namespace"@,
            self.namespace@,
            "-address"@,
            self.grpc_address@,
            "-publish-binary"@,
            self.publish_binary@,
        ] + (if self.debug {
            seq!["-debug"@]
        } else {
            Seq::empty()
        }) + seq![action@]);
        r
    }

    /// The socket this shim listens on for `stem` (a label for debugging):
    /// `containerd-shim-<shim name>-<stem>` next to the ttrpc socket.
    pub fn socket_address_debug(&self, stem: &str) -> (r: String)
        ensures
            r@ == shim_socket(self.ttrpc_address@, self.shim_name@ + "-"@ + stem@),
    {
        let mut label = self.shim_name.clone();
        label.append("-");
        label.append(stem);
        socket_address(self.ttrpc_address.as_str(), label.as_str())
    }

    /// The socket this shim listens on when the hash of its namespace and
    /// identifier is `hash`.
    pub fn socket_address_hashed(&self, hash: u64) -> (r: String)
        ensures
            r@ == shim_socket(self.ttrpc_address@, self.shim_name@ + "-"@ + hex_label(hash as nat)),
    {
        let label = hex_label_of(hash);
        self.socket_address_debug(label.as_str())
    }

    /// The socket this shim listens on for the container `id`: labelled with
    /// a hash of the namespace and `id`, so the same inputs always give the
    /// same address.
    pub fn socket_address(&self, id: &str) -> (r: String)
        ensures
            r@ == shim_socket(
                self.ttrpc_address@,
                self.shim_name@ + "-"@ + hex_label(default_hash_of(self.namespace@, id@) as nat),
            ),
    {
        let hash = hash_pair(&self.namespace, id);
        self.socket_address_hashed(hash)
    }
}

impl Default for Arguments {
    fn default() -> (r: Arguments)
        ensures
            r@ == (ArgsModel {
                id: Seq::empty(),
                namespace: Seq::empty(),
                ttrpc_address: Seq::empty(),
                grpc_address: Seq::empty(),
                publish_binary: Seq::empty(),
                debug: false,
                action: Seq::empty(),
                rest: Seq::empty(),
                bundle: Seq::empty(),
                shim_name: Seq::empty(),
                interactive: false,
            }),
    {
        let r = Arguments {
            id: String::new(),
            namespace: String::new(),
            ttrpc_address: String::new(),
            grpc_address: String::new(),
            publish_binary: String::new(),
            debug: false,
            action: String::new(),
            rest: Vec::new(),
            bundle: String::new(),
            shim_name: String::new(),
            interactive: false,
        };
        assert(r@.rest =~= Seq::<Seq<char>>::empty());
        r
    }
}

/// Parsing is a function of its inputs: the same command line, environment,
/// executable stem and terminal state always give the same outcome.
pub proof fn lemma_parse_is_deterministic(
    args: Seq<Seq<char>>,
    env: Seq<(Seq<char>, Seq<char>)>,
    stem: Option<Seq<char>>,
    interactive: bool,
    args2: Seq<Seq<char>>,
    env2: Seq<(Seq<char>, Seq<char>)>,
    stem2: Option<Seq<char>>,
    interactive2: bool,
)
    requires
        args == args2,
        env == env2,
        stem == stem2,
        interactive == interactive2,
    ensures
        parse_outcome(args, env, stem, interactive) == parse_outcome(args2, env2, stem2, interactive2),
{
}

/// The action `daemon` always makes the process the daemon; the action
/// `start` makes it the daemon exactly when standard output is a terminal.
pub proof fn lemma_role_derivation(
    f: FlagSettings,
    positional: Seq<Seq<char>>,
    env: Seq<(Seq<char>, Seq<char>)>,
    stem: Option<Seq<char>>,
    interactive: bool,
)
    requires
        !f.version,
        positional.len() > 0,
    ensures
        positional[0] == "daemon"@ ==> {
            let r = arguments_from(f, positional, env, stem, interactive);
            r is Ok && r->Ok_0.action == "daemon"@
        },
        positional[0] == "start"@ ==> {
            let r = arguments_from(f, positional, env, stem, interactive);
            r is Ok && (r->Ok_0.action == "daemon"@) == interactive
        },
{
    reveal_strlit("start");
    reveal_strlit("daemon");
    assert("start"@ != "daemon"@) by {
        assert("start"@.len() != "daemon"@.len());
    }
}

} // verus!
