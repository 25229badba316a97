//! What serving means for each action: report the version, clean up a
//! bundle, or announce the listening address and listen.
use vstd::prelude::*;

use crate::address::{address_line, address_line_of, scheme_address, scheme_prefix};
use crate::args::{ArgsError, Arguments, ParseFailure};
use crate::text::{pairs, same_text};

verus! {

/// The work that serving an action asks for.
pub enum ServeAction {
    /// Write the application's version report to standard output.
    Version,
    /// Run the application's cleanup of the bundle at this path and write
    /// its encoded response to standard output.
    Cleanup(String),
    /// Write `line` to standard output, then listen at `address` unless a
    /// server already answers there.
    Listen { address: String, line: String },
}

/// What a `ServeAction` asks for.
pub enum ServeModel {
    Version,
    Cleanup(Seq<char>),
    Listen { address: Seq<char>, line: Seq<char> },
}

impl View for ServeAction {
    type V = ServeModel;

    open spec fn view(&self) -> ServeModel {
        match self {
            ServeAction::Version => ServeModel::Version,
            ServeAction::Cleanup(b) => ServeModel::Cleanup(b@),
            ServeAction::Listen { address, line } => ServeModel::Listen {
                address: address@,
                line: line@,
            },
        }
    }
}

/// The work that serving `action` asks for, the shim listening at `address`.
pub open spec fn serve_model(
    action: Seq<char>,
    bundle: Seq<char>,
    address: Seq<char>,
    with_scheme: bool,
) -> Result<ServeModel, ParseFailure> {
    if action == "version"@ {
        Ok(ServeModel::Version)
    } else if action == "delete"@ {
        Ok(ServeModel::Cleanup(bundle))
    } else if action == "daemon"@ {
        Ok(
            ServeModel::Listen {
                address: scheme_prefix(with_scheme) + address,
                line: address_line_of(address, with_scheme),
            },
        )
    } else {
        Err(ParseFailure::UnsupportedAction(action))
    }
}

impl Arguments {
    /// The work that serving this shim's action asks for, the shim listening
    /// at `address`; `with_scheme` tells whether the transport writes its
    /// scheme before addresses. Only `version`, `delete` and `daemon` are
    /// served.
    pub fn serve_action(&self, address: &str, with_scheme: bool) -> (r: Result<
        ServeAction,
        ArgsError,
    >)
        ensures
            match r {
                Ok(s) => serve_model(self.action@, self.bundle@, address@, with_scheme) == Ok::<
                    ServeModel,
                    ParseFailure,
                >(s@),
                Err(e) => serve_model(self.action@, self.bundle@, address@, with_scheme) == Err::<
                    ServeModel,
                    ParseFailure,
                >(e@),
            },
    {
        let action = self.action.as_str();
        if same_text(action, "version") {
            Ok(ServeAction::Version)
        } else if same_text(action, "delete") {
            Ok(ServeAction::Cleanup(self.bundle.clone()))
        } else if same_text(action, "daemon") {
            Ok(
                ServeAction::Listen {
                    address: scheme_address(address, with_scheme),
                    line: address_line(address, with_scheme),
                },
            )
        } else {
            Err(ArgsError::UnsupportedAction(self.action.clone()))
        }
    }
}

/// The lines of a version report for `info`: `  <key>: <value>` each.
pub open spec fn info_lines(info: Seq<(Seq<char>, Seq<char>)>) -> Seq<char>
    decreases info.len(),
{
    if info.len() == 0 {
        Seq::empty()
    } else {
        info_lines(info.drop_last()) + "  "@ + info.last().0 + ": "@ + info.last().1 + "\n"@
    }
}

/// A version report: `<executable>:` on its own line, then one line for each
/// key and value of `info`, in order.
pub open spec fn version_report_of(
    executable: Seq<char>,
    info: Seq<(Seq<char>, Seq<char>)>,
) -> Seq<char> {
    executable + ":\n"@ + info_lines(info)
}

/// The version report written for the `version` action.
pub fn version_report(executable: &str, info: &Vec<(String, String)>) -> (r: String)
    ensures
        r@ == version_report_of(executable@, pairs(info@)),
{
    let mut r = String::from_str(executable);
    r.append(":\n");
    let ghost head = r@;
    let ghost all = pairs(info@);
    let mut i: usize = 0;
    while i < info.len()
        invariant
            i <= info@.len(),
            all == pairs(info@),
            r@ == head + info_lines(all.subrange(0, i as int)),
        decreases info@.len() - i,
    {
        let entry = &info[i];
        r.append("  ");
        r.append(entry.0.as_str());
        r.append(": ");
        r.append(entry.1.as_str());
        r.append("\n");
        proof {
            let next = all.subrange(0, i + 1);
            assert(next.drop_last() == all.subrange(0, i as int));
            assert(next.last() == (entry.0@, entry.1@));
            assert(r@ =~= head + info_lines(next));
        }
        i = i + 1;
    }
    assert(all.subrange(0, info@.len() as int) == all);
    r
}

} // verus!
