//! The sandbox a container belongs to, from its annotations.
use vstd::prelude::*;

use crate::text::{lookup, lookup_value, pairs};

verus! {

/// The sandbox identifier an orchestrator records in a container's
/// annotations: under the CRI label if present, else under the runc group
/// label.
pub open spec fn sandbox_id_of(annotations: Seq<(Seq<char>, Seq<char>)>) -> Option<Seq<char>> {
    match lookup(annotations, "io.kubernetes.cri.sandbox-id"@) {
        Some(v) => Some(v),
        None => lookup(annotations, "io.containerd.runc.v2.group"@),
    }
}

/// The sandbox identifier recorded in `annotations` (key/value pairs).
pub fn sandbox_id_from_annotations(annotations: &Vec<(String, String)>) -> (r: Option<String>)
    ensures
        match r {
            Some(v) => sandbox_id_of(pairs(annotations@)) == Some(v@),
            None => sandbox_id_of(pairs(annotations@)).is_none(),
        },
{
    match lookup_value(annotations, "io.kubernetes.cri.sandbox-id") {
        Some(v) => Some(v),
        None => lookup_value(annotations, "io.containerd.runc.v2.group"),
    }
}

} // verus!
